//! A velocity-based animation over values on a vector-like axis.
//!
//! Unlike the demand-driven machine in this crate's wrapper type, this
//! machine is advanced by explicit ticks: each tick moves the position
//! toward the destination, and an interrupted animation keeps moving at the
//! speed it had when it was interrupted, so redirections stay smooth.

use vstd::prelude::*;
use vstd::std_specs::cmp::PartialEqSpec;

use crate::easing::Easing;
use crate::easing::spec_ease;
use crate::fixed::Fx;
use crate::fixed::fx_add;
use crate::fixed::fx_div;
use crate::fixed::fx_mul;
use crate::fixed::fx_sub;
use crate::fixed::iabs;
use crate::fixed::sat64;
use crate::traits::AnimationTime;

verus! {

/// A value that can be moved along a straight line between two points:
/// implementors supply vector-space style operations and a magnitude.
pub trait AnimatableValue: Sized + Copy + PartialEq + PartialEqSpec {
    /// The distance between two values.
    open spec fn spec_distance(&self, other: &Self) -> Fx {
        Fx { raw: 0 }
    }

    /// Computes the distance between two values.
    fn distance(&self, other: &Self) -> (r: Fx)
        ensures
            r == self.spec_distance(other),
    ;

    /// The componentwise difference of two values.
    open spec fn spec_diff(&self, other: &Self) -> Self {
        *self
    }

    /// Computes the componentwise difference of two values.
    fn diff(&self, other: &Self) -> (r: Self)
        ensures
            r == self.spec_diff(other),
    ;

    /// The componentwise sum of two values.
    open spec fn spec_sum(&self, other: &Self) -> Self {
        *self
    }

    /// Computes the componentwise sum of two values.
    fn sum(&self, other: &Self) -> (r: Self)
        ensures
            r == self.spec_sum(other),
    ;

    /// The value scaled by a fixed-point factor.
    open spec fn spec_scale(&self, amount: Fx) -> Self {
        *self
    }

    /// Scales the value by a fixed-point factor.
    fn scale(&self, amount: Fx) -> (r: Self)
        ensures
            r == self.spec_scale(amount),
    ;

    /// The magnitude of the value.
    open spec fn spec_magnitude(&self) -> Fx {
        Fx { raw: 0 }
    }

    /// Computes the magnitude of the value.
    fn magnitude(&self) -> (r: Fx)
        ensures
            r == self.spec_magnitude(),
    ;

    /// The value scaled to unit magnitude; unchanged direction.
    open spec fn spec_normalized(&self) -> Self {
        *self
    }

    /// Scales the value to unit magnitude.
    fn normalized(&self) -> (r: Self)
        ensures
            r == self.spec_normalized(),
    ;
}

impl AnimatableValue for Fx {
    open spec fn spec_distance(&self, other: &Fx) -> Fx {
        self.spec_diff(other).spec_magnitude()
    }

    fn distance(&self, other: &Fx) -> (r: Fx) {
        self.diff(other).magnitude()
    }

    open spec fn spec_diff(&self, other: &Fx) -> Fx {
        Fx { raw: fx_sub(self.raw as int, other.raw as int) as i64 }
    }

    fn diff(&self, other: &Fx) -> (r: Fx) {
        self.sat_sub(*other)
    }

    open spec fn spec_sum(&self, other: &Fx) -> Fx {
        Fx { raw: fx_add(self.raw as int, other.raw as int) as i64 }
    }

    fn sum(&self, other: &Fx) -> (r: Fx) {
        self.sat_add(*other)
    }

    open spec fn spec_scale(&self, amount: Fx) -> Fx {
        Fx { raw: fx_mul(self.raw as int, amount.raw as int) as i64 }
    }

    fn scale(&self, amount: Fx) -> (r: Fx) {
        self.sat_mul(amount)
    }

    open spec fn spec_magnitude(&self) -> Fx {
        Fx { raw: sat64(iabs(self.raw as int)) as i64 }
    }

    fn magnitude(&self) -> (r: Fx) {
        if self.raw >= 0 {
            *self
        } else if self.raw == i64::MIN {
            Fx { raw: i64::MAX }
        } else {
            Fx { raw: -self.raw }
        }
    }

    open spec fn spec_normalized(&self) -> Fx {
        Fx { raw: fx_div(self.raw as int, self.spec_magnitude().raw as int) as i64 }
    }

    fn normalized(&self) -> (r: Fx) {
        let m: Fx = self.magnitude();
        self.sat_div(m)
    }
}

/// The easing selection of the tick-driven machine.
#[derive(Clone, Copy, Debug)]
pub enum Timing {
    Linear,
    EaseIn,
    EaseOut,
    EaseInOut,
    EaseInQuint,
    EaseOutQuint,
    EaseInOutQuint,
    Custom,
}

/// The value of a timing curve at `x`, both on the fixed-point scale; the
/// `Custom` selection falls back to linear progress.
pub open spec fn spec_timing(t: Timing, x: int) -> int {
    match t {
        Timing::Linear => x,
        Timing::EaseIn => spec_ease(Easing::EaseIn, x),
        Timing::EaseOut => spec_ease(Easing::EaseOut, x),
        Timing::EaseInOut => spec_ease(Easing::EaseInOut, x),
        Timing::EaseInQuint => spec_ease(Easing::EaseInQuint, x),
        Timing::EaseOutQuint => spec_ease(Easing::EaseOutQuint, x),
        Timing::EaseInOutQuint => spec_ease(Easing::EaseInOutQuint, x),
        Timing::Custom => x,
    }
}

impl Timing {
    /// Applies this timing curve to a linear progress fraction.
    pub fn timing(self, linear_progress: Fx) -> (r: Fx)
        ensures
            r.raw == spec_timing(self, linear_progress.raw as int),
    {
        match self {
            Timing::Linear => linear_progress,
            Timing::EaseIn => Easing::EaseIn.value(linear_progress),
            Timing::EaseOut => Easing::EaseOut.value(linear_progress),
            Timing::EaseInOut => Easing::EaseInOut.value(linear_progress),
            Timing::EaseInQuint => Easing::EaseInQuint.value(linear_progress),
            Timing::EaseOutQuint => Easing::EaseOutQuint.value(linear_progress),
            Timing::EaseInOutQuint => Easing::EaseInOutQuint.value(linear_progress),
            Timing::Custom => linear_progress,
        }
    }
}

/// The in-flight state of a tick-driven animation.
#[derive(Clone, Copy, Debug)]
pub struct AnimationState<Time, Value> {
    pub origin: Value,
    pub destination: Value,
    pub started_time: Time,
    pub last_tick_time: Time,
    pub speed_at_interrupt: Option<Fx>,
}

/// A tick-driven animation: the position moves toward the destination on
/// every tick, at the configured duration's pace, or at the captured speed
/// after an interruption.
#[derive(Clone, Copy, Debug)]
pub struct Animation<Time, Value> where Value: AnimatableValue {
    pub position: Value,
    pub duration_ms: Fx,
    pub timing: Timing,
    pub animation_state: Option<AnimationState<Time, Value>>,
}

impl<Time, Value> Animation<Time, Value> where
    Time: AnimationTime,
    Value: AnimatableValue,
{
    /// The eased position: the origin advanced along the animated span by
    /// the timing curve applied to the fraction already covered.
    pub open spec fn spec_timed_progress(self) -> Value {
        match self.animation_state {
            Some(st) => if !st.destination.eq_spec(&st.origin) {
                let progress_in_animation = self.position.spec_distance(&st.origin);
                let range_of_animation = st.destination.spec_distance(&st.origin);
                let completion = fx_div(
                    progress_in_animation.raw as int,
                    range_of_animation.raw as int,
                );
                let animation_range = st.destination.spec_diff(&st.origin);
                st.origin.spec_sum(
                    &animation_range.spec_scale(
                        Fx { raw: spec_timing(self.timing, completion) as i64 },
                    ),
                )
            } else {
                self.position
            },
            None => self.position,
        }
    }

    /// The change of position a tick spanning `elapsed` produces.
    pub open spec fn spec_tick_delta(self, st: AnimationState<Time, Value>, elapsed: Fx) -> Value {
        match st.speed_at_interrupt {
            Some(speed) => st.destination.spec_diff(&self.position).spec_normalized().spec_scale(
                Fx { raw: fx_mul(elapsed.raw as int, speed.raw as int) as i64 },
            ),
            None => st.destination.spec_diff(&st.origin).spec_scale(
                Fx { raw: fx_div(elapsed.raw as int, self.duration_ms.raw as int) as i64 },
            ),
        }
    }

    /// The machine after a tick at `time`: the position advances by the
    /// tick's delta, and the animation finishes when the delta covers the
    /// remaining distance, or immediately on a zero duration.
    pub open spec fn spec_tick_post(self, time: Time) -> Animation<Time, Value> {
        match self.animation_state {
            None => self,
            Some(st) => {
                let elapsed = Fx { raw: time.spec_elapsed_since(st.last_tick_time) as i64 };
                let delta = self.spec_tick_delta(st, elapsed);
                let finished = self.duration_ms.raw == 0 || delta.spec_magnitude().raw
                    >= self.position.spec_distance(&st.destination).raw;
                if finished {
                    Animation { position: st.destination, animation_state: None, ..self }
                } else {
                    Animation {
                        position: self.position.spec_sum(&delta),
                        animation_state: Some(AnimationState { last_tick_time: time, ..st }),
                        ..self
                    }
                }
            },
        }
    }

    /// The machine after a transition request toward `destination`: an idle
    /// machine starts animating from its position; an interrupted one
    /// captures its current speed, re-bases its origin on the eased
    /// position, and redirects.
    pub open spec fn spec_transition_post(self, destination: Value, time: Time) -> Animation<
        Time,
        Value,
    > {
        match self.animation_state {
            Some(st) => {
                let speed = match st.speed_at_interrupt {
                    Some(s) => s,
                    None => Fx {
                        raw: fx_div(
                            st.destination.spec_distance(&st.origin).raw as int,
                            self.duration_ms.raw as int,
                        ) as i64,
                    },
                };
                let timed = self.spec_timed_progress();
                Animation {
                    position: timed,
                    animation_state: Some(
                        AnimationState {
                            origin: timed,
                            destination,
                            speed_at_interrupt: Some(speed),
                            ..st
                        },
                    ),
                    ..self
                }
            },
            None => Animation {
                animation_state: Some(
                    AnimationState {
                        started_time: time,
                        last_tick_time: time,
                        origin: self.position,
                        destination,
                        speed_at_interrupt: None,
                    },
                ),
                ..self
            },
        }
    }

    /// Creates a machine settled at `position`.
    pub fn new(position: Value, duration: Fx, timing: Timing) -> (r: Animation<Time, Value>)
        ensures
            r == (Animation::<Time, Value> {
                position,
                duration_ms: duration,
                timing,
                animation_state: None,
            }),
    {
        Animation { position, duration_ms: duration, timing, animation_state: None }
    }

    /// Begins or redirects an animation toward `destination`.
    pub fn transition(&mut self, destination: Value, time: Time)
        ensures
            Value::obeys_eq_spec() ==> *final(self) == old(self).spec_transition_post(
                destination,
                time,
            ),
    {
        let timed: Value = self.timed_progress();
        match self.animation_state {
            Some(st) => {
                let speed: Fx = match st.speed_at_interrupt {
                    Some(s) => s,
                    None => st.destination.distance(&st.origin).sat_div(self.duration_ms),
                };
                self.position = timed;
                self.animation_state = Some(
                    AnimationState {
                        origin: timed,
                        destination,
                        speed_at_interrupt: Some(speed),
                        ..st
                    },
                );
            },
            None => {
                self.animation_state = Some(
                    AnimationState {
                        started_time: time,
                        last_tick_time: time,
                        origin: self.position,
                        destination,
                        speed_at_interrupt: None,
                    },
                );
            },
        }
    }

    /// Advances the animation to `time`; reports whether a redraw is due.
    pub fn tick(&mut self, time: Time) -> (r: bool)
        ensures
            *final(self) == old(self).spec_tick_post(time),
            r == (old(self).animation_state is Some),
    {
        match self.animation_state {
            None => false,
            Some(st) => {
                let elapsed: Fx = time.elapsed_since(st.last_tick_time);
                let position_delta: Value = match st.speed_at_interrupt {
                    Some(speed) => st.destination.diff(&self.position).normalized().scale(
                        elapsed.sat_mul(speed),
                    ),
                    None => st.destination.diff(&st.origin).scale(
                        elapsed.sat_div(self.duration_ms),
                    ),
                };
                let mut finished: bool = false;
                if self.duration_ms.raw == 0 {
                    finished = true;
                } else {
                    if position_delta.magnitude().raw >= self.position.distance(
                        &st.destination,
                    ).raw {
                        finished = true;
                    }
                    self.position = self.position.sum(&position_delta);
                }
                if finished {
                    self.position = st.destination;
                    self.animation_state = None;
                } else {
                    self.animation_state = Some(AnimationState { last_tick_time: time, ..st });
                }
                true
            },
        }
    }

    /// The eased position of the animation.
    pub fn timed_progress(&self) -> (r: Value)
        ensures
            Value::obeys_eq_spec() ==> r == self.spec_timed_progress(),
    {
        match self.animation_state {
            Some(st) => if st.destination != st.origin {
                let progress_in_animation: Fx = self.position.distance(&st.origin);
                let range_of_animation: Fx = st.destination.distance(&st.origin);
                let completion: Fx = progress_in_animation.sat_div(range_of_animation);
                let animation_range: Value = st.destination.diff(&st.origin);
                st.origin.sum(&animation_range.scale(self.timing.timing(completion)))
            } else {
                self.position
            },
            None => self.position,
        }
    }

    /// Whether an animation is in flight.
    pub fn animating(&self) -> (r: bool)
        ensures
            r == (self.animation_state is Some),
    {
        self.animation_state.is_some()
    }
}

} // verus!
