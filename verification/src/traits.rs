//! The capability interfaces consumed by the engine: a time source, a
//! scalar-axis projection, and value interpolation.

use vstd::prelude::*;

use crate::fixed::Fx;
use crate::fixed::FX_SCALE;
use crate::fixed::fx_add;
use crate::fixed::fx_sub;
use crate::fixed::fx_mul;

verus! {

/// An interface for interacting with time.
///
/// An implementation supplies the span elapsed between two of its instants,
/// in fixed-point milliseconds, and names that span in `spec_elapsed_since`
/// so that sampling contracts can speak about it.
pub trait AnimationTime: Copy + Sized {
    /// The elapsed span between two instants, on the fixed-point scale.
    open spec fn spec_elapsed_since(self, earlier: Self) -> int {
        0
    }

    /// Computes the span elapsed since `earlier`.
    fn elapsed_since(self, earlier: Self) -> (r: Fx)
        ensures
            r.raw == self.spec_elapsed_since(earlier),
    ;
}

impl AnimationTime for Fx {
    open spec fn spec_elapsed_since(self, earlier: Self) -> int {
        fx_sub(self.raw as int, earlier.raw as int)
    }

    fn elapsed_since(self, earlier: Self) -> (r: Fx) {
        self.sat_sub(earlier)
    }
}

/// Defines a scalar-axis projection for arbitrary types.
///
/// The actual scalar values are fairly arbitrary - interpolation from one
/// value to another looks the same either way - but in the case of
/// asymmetric animations the direction of the animation is determined using
/// these projections. In general, this associates animated values with
/// positions on a continuous axis so that transitions and interruptions can
/// be represented.
pub trait FloatRepresentable {
    /// The scalar this value projects to.
    open spec fn spec_float_value(&self) -> Fx {
        Fx { raw: 0 }
    }

    /// Projects this value onto the scalar axis.
    fn float_value(&self) -> (r: Fx)
        ensures
            r == self.spec_float_value(),
    ;
}

impl FloatRepresentable for bool {
    open spec fn spec_float_value(&self) -> Fx {
        if *self {
            Fx { raw: FX_SCALE }
        } else {
            Fx { raw: 0 }
        }
    }

    fn float_value(&self) -> (r: Fx) {
        if *self {
            Fx::one()
        } else {
            Fx::zero()
        }
    }
}

impl FloatRepresentable for Fx {
    open spec fn spec_float_value(&self) -> Fx {
        *self
    }

    fn float_value(&self) -> (r: Fx) {
        *self
    }
}

/// A type implementing `Interpolable` can be blended by a unit ratio, as
/// produced by an animation's eased progress.
pub trait Interpolable: Sized {
    /// The blend of this value toward `other` by `ratio`.
    open spec fn spec_interpolated(&self, other: Self, ratio: Fx) -> Self {
        other
    }

    /// Blends this value toward `other` by `ratio`.
    fn interpolated(&self, other: Self, ratio: Fx) -> (r: Self)
        ensures
            r == self.spec_interpolated(other, ratio),
    ;
}

impl Interpolable for Fx {
    open spec fn spec_interpolated(&self, other: Fx, ratio: Fx) -> Fx {
        Fx {
            raw: fx_add(
                fx_mul(self.raw as int, fx_sub(FX_SCALE as int, ratio.raw as int)),
                fx_mul(other.raw as int, ratio.raw as int),
            ) as i64,
        }
    }

    fn interpolated(&self, other: Fx, ratio: Fx) -> (r: Fx) {
        let a: Fx = self.sat_mul(Fx::from_raw(FX_SCALE).sat_sub(ratio));
        let b: Fx = other.sat_mul(ratio);
        a.sat_add(b)
    }
}

impl<T: Interpolable + Copy> Interpolable for Option<T> {
    open spec fn spec_interpolated(&self, other: Option<T>, ratio: Fx) -> Option<T> {
        match (*self, other) {
            (Some(a), Some(b)) => Some(a.spec_interpolated(b, ratio)),
            _ => None,
        }
    }

    fn interpolated(&self, other: Option<T>, ratio: Fx) -> (r: Option<T>) {
        match (*self, other) {
            (Some(a), Some(b)) => Some(a.interpolated(b, ratio)),
            _ => None,
        }
    }
}

} // verus!
