//! The transition state machine and the typed wrapper around it.
//!
//! `Animation` owns the scalar origin, the active destination and the timing
//! configuration, and converts a sampling time into a unit progress fraction,
//! folding in delay, repetition, auto-reversal and direction-dependent
//! settings. `Animated` pairs a domain value with such a machine and maps
//! eased progress back onto caller-supplied interpolatable values.

use vstd::prelude::*;
use vstd::std_specs::cmp::PartialEqSpec;

use crate::easing::Easing;
use crate::easing::spec_ease;
use crate::fixed::Fx;
use crate::fixed::FX_SCALE;
use crate::fixed::fx_add;
use crate::fixed::fx_sub;
use crate::fixed::fx_mul;
use crate::fixed::fx_div;
use crate::fixed::fx_rem;
use crate::fixed::max0;
use crate::fixed::sat64;
use crate::fixed::unit_frac;
use crate::traits::AnimationTime;
use crate::traits::FloatRepresentable;
use crate::traits::Interpolable;

verus! {

/// A duration paired with an easing curve.
#[derive(Clone, Copy, Debug)]
pub struct AnimationSettings {
    pub duration_ms: Fx,
    pub easing: Easing,
}

/// The scalar transition state machine.
///
/// All sampling is demand-driven: the machine stores only the origin, the
/// destination, the configuration and the start instant of the active
/// transition, and every progress query is a pure function of that state and
/// the sampling time.
#[derive(Clone, Copy, Debug)]
pub struct Animation<Time: AnimationTime> {
    pub origin: Fx,
    pub destination: Fx,
    pub delay_ms: Fx,
    pub settings: AnimationSettings,
    pub asymmetric_settings: Option<AnimationSettings>,
    pub repetitions: u32,
    pub auto_reverse_repetitions: bool,
    pub repeat_forever: bool,
    pub transition_time: Option<Time>,
}

/// A unit progress sample: the linear fraction, the eased fraction, and
/// whether the animation has run to completion.
struct Progress {
    linear_unit_progress: Fx,
    eased_unit_progress: Fx,
    complete: bool,
}

/// The default duration of a freshly created animation: 100 ms.
pub const DEFAULT_DURATION_MS: i64 = 100_000_000;

/// The machine a freshly created animation starts with: settled at `origin`,
/// a 100 ms duration, and an ease-in-out curve.
pub open spec fn spec_base_animation<Time: AnimationTime>(origin: Fx) -> Animation<Time> {
    Animation {
        origin,
        destination: origin,
        delay_ms: Fx { raw: 0 },
        settings: AnimationSettings {
            duration_ms: Fx { raw: DEFAULT_DURATION_MS },
            easing: Easing::EaseInOut,
        },
        asymmetric_settings: None,
        repetitions: 1u32,
        auto_reverse_repetitions: false,
        repeat_forever: false,
        transition_time: None,
    }
}

impl<Time: AnimationTime> Animation<Time> {
    /// The settings used while animating backward, falling back to the
    /// forward settings when no asymmetric pair is configured.
    pub open spec fn spec_asym(self) -> AnimationSettings {
        match self.asymmetric_settings {
            Some(a) => a,
            None => self.settings,
        }
    }

    /// The forward duration, clamped at use to be nonnegative.
    pub open spec fn spec_dur_fwd(self) -> int {
        max0(self.settings.duration_ms.raw as int)
    }

    /// The backward duration, clamped at use to be nonnegative.
    pub open spec fn spec_dur_bwd(self) -> int {
        max0(self.spec_asym().duration_ms.raw as int)
    }

    /// One full auto-reverse cycle: a forward leg then a backward leg.
    pub open spec fn spec_combined(self) -> int {
        self.spec_dur_fwd() + self.spec_dur_bwd()
    }

    /// The number of legs actually played: auto-reversal follows every
    /// forward leg with a backward leg, doubling the repetition count.
    pub open spec fn spec_true_repetitions(self) -> int {
        if self.auto_reverse_repetitions {
            2 * (self.repetitions as int)
        } else {
            self.repetitions as int
        }
    }

    /// Total playable duration across all repetitions, pairing forward and
    /// backward durations leg by leg.
    pub open spec fn spec_total_duration(self) -> int {
        let f = self.spec_dur_fwd();
        let b = self.spec_dur_bwd();
        let tr = self.spec_true_repetitions();
        if tr > 1 {
            let half = tr / 2;
            let base = sat64(sat64(f * half) + sat64(b * half));
            if tr % 2 == 0 {
                base
            } else {
                sat64(base + f)
            }
        } else if self.destination.raw < self.origin.raw {
            sat64(b * tr)
        } else {
            sat64(f * tr)
        }
    }

    /// Whether the leg active at gated elapsed `el` is a reversing leg.
    pub open spec fn spec_auto_reversing(self, el: int) -> bool {
        self.auto_reverse_repetitions && (self.spec_combined() <= 0 || fx_rem(
            el,
            self.spec_combined(),
        ) > self.spec_dur_fwd())
    }

    /// The settings of the leg active at gated elapsed `el`.
    pub open spec fn spec_sel_settings(self, el: int) -> AnimationSettings {
        if self.auto_reverse_repetitions {
            if self.spec_combined() > 0 && fx_rem(el, self.spec_combined())
                <= self.spec_dur_fwd() {
                self.settings
            } else {
                self.spec_asym()
            }
        } else if self.destination.raw < self.origin.raw {
            self.spec_asym()
        } else {
            self.settings
        }
    }

    /// The elapsed span within the leg active at gated elapsed `el`.
    pub open spec fn spec_elapsed_current(self, el: int) -> int {
        if self.auto_reverse_repetitions {
            if self.spec_combined() > 0 {
                let em = fx_rem(el, self.spec_combined());
                if em <= self.spec_dur_fwd() {
                    em
                } else {
                    em - self.spec_dur_fwd()
                }
            } else {
                0
            }
        } else {
            el
        }
    }

    /// Whether the animation is complete at gated elapsed `el`.
    pub open spec fn spec_complete(self, el: int) -> bool {
        self.spec_total_duration() == 0 || (!self.repeat_forever && el
            >= self.spec_total_duration())
    }

    /// Linear unit progress at gated elapsed `el`: the fraction of the
    /// active leg that has elapsed, inverted on a reversing leg. On
    /// completion the fraction pins at one, except under auto-reversal,
    /// where the last leg played is a backward one and the fraction pins at
    /// zero, so the animation terminates back at its origin.
    pub open spec fn spec_linear_unit(self, el: int) -> int {
        if self.spec_total_duration() == 0 {
            FX_SCALE as int
        } else {
            let sel_dur = max0(self.spec_sel_settings(el).duration_ms.raw as int);
            let p = if self.spec_complete(el) {
                if self.auto_reverse_repetitions {
                    0
                } else {
                    FX_SCALE as int
                }
            } else {
                unit_frac(self.spec_elapsed_current(el), sel_dur)
            };
            if self.spec_auto_reversing(el) && !self.spec_complete(el) {
                fx_sub(FX_SCALE as int, p)
            } else {
                p
            }
        }
    }

    /// Eased unit progress at gated elapsed `el`: the active leg's easing
    /// curve applied to the linear unit progress.
    pub open spec fn spec_eased_unit(self, el: int) -> int {
        spec_ease(self.spec_sel_settings(el).easing, self.spec_linear_unit(el))
    }

    /// The elapsed span since the transition started, gated by the delay
    /// and clamped to be nonnegative.
    pub open spec fn spec_gated(self, t: Time) -> int {
        match self.transition_time {
            Some(tt) => max0(fx_sub(t.spec_elapsed_since(tt), self.delay_ms.raw as int)),
            None => 0,
        }
    }

    /// Linear unit progress at sampling time `t`; zero when settled.
    pub open spec fn spec_linear_unit_at(self, t: Time) -> int {
        match self.transition_time {
            Some(_) => self.spec_linear_unit(self.spec_gated(t)),
            None => 0,
        }
    }

    /// Eased unit progress at sampling time `t`; zero when settled.
    pub open spec fn spec_eased_unit_at(self, t: Time) -> int {
        match self.transition_time {
            Some(_) => self.spec_eased_unit(self.spec_gated(t)),
            None => 0,
        }
    }

    /// Whether the animation has run to completion at sampling time `t`;
    /// a settled machine is complete.
    pub open spec fn spec_complete_at(self, t: Time) -> bool {
        match self.transition_time {
            Some(_) => self.spec_complete(self.spec_gated(t)),
            None => true,
        }
    }

    /// The scalar span being animated over.
    pub open spec fn spec_progress_range(self) -> int {
        fx_sub(self.destination.raw as int, self.origin.raw as int)
    }

    /// The scalar position at sampling time `t` under linear progress.
    pub open spec fn spec_linear_progress(self, t: Time) -> int {
        fx_add(
            self.origin.raw as int,
            fx_mul(self.spec_linear_unit_at(t), self.spec_progress_range()),
        )
    }

    /// The scalar position at sampling time `t` under eased progress.
    pub open spec fn spec_eased_progress(self, t: Time) -> int {
        fx_add(
            self.origin.raw as int,
            fx_mul(self.spec_eased_unit_at(t), self.spec_progress_range()),
        )
    }

    /// The machine after a transition request: no change when the scalar
    /// destination is already requested; an immediate settle, with the
    /// active transition cleared, when instantaneous; otherwise a re-based
    /// restart from the current eased position (or from the old destination
    /// when already complete).
    pub open spec fn spec_transition(self, destination: Fx, time: Time, instantaneous: bool) -> Animation<Time> {
        if self.destination.raw == destination.raw {
            self
        } else if instantaneous {
            Animation { origin: destination, destination, transition_time: None, ..self }
        } else {
            let o = if !self.spec_complete_at(time) {
                Fx { raw: self.spec_eased_progress(time) as i64 }
            } else {
                self.destination
            };
            Animation { origin: o, destination, transition_time: Some(time), ..self }
        }
    }

    /// A settled machine positioned at `origin`, with the default
    /// configuration.
    pub fn with_origin(origin: Fx) -> (r: Animation<Time>)
        ensures
            r == spec_base_animation::<Time>(origin),
    {
        Animation {
            origin,
            destination: origin,
            delay_ms: Fx::from_raw(0),
            settings: AnimationSettings {
                duration_ms: Fx::from_raw(DEFAULT_DURATION_MS),
                easing: Easing::EaseInOut,
            },
            asymmetric_settings: None,
            repetitions: 1u32,
            auto_reverse_repetitions: false,
            repeat_forever: false,
            transition_time: None,
        }
    }

    /// The backward settings pair actually in effect.
    fn asym(&self) -> (r: AnimationSettings)
        ensures
            r == self.spec_asym(),
    {
        match self.asymmetric_settings {
            Some(a) => a,
            None => self.settings,
        }
    }

    /// Total playable duration across all repetitions.
    fn total_duration(&self) -> (r: Fx)
        ensures
            r.raw == self.spec_total_duration(),
    {
        let f: Fx = self.settings.duration_ms.at_least_zero();
        let b: Fx = self.asym().duration_ms.at_least_zero();
        let tr: u64 = if self.auto_reverse_repetitions {
            2 * (self.repetitions as u64)
        } else {
            self.repetitions as u64
        };
        if tr > 1 {
            let half: u64 = tr / 2;
            let base: Fx = f.mul_count(half).sat_add(b.mul_count(half));
            if tr % 2 == 0 {
                base
            } else {
                base.sat_add(f)
            }
        } else if self.destination.raw < self.origin.raw {
            b.mul_count(tr)
        } else {
            f.mul_count(tr)
        }
    }

    /// Samples the unit progress fractions and the completion flag.
    fn current_progress(&self, time: Time) -> (p: Progress)
        ensures
            p.linear_unit_progress.raw == self.spec_linear_unit_at(time),
            p.eased_unit_progress.raw == self.spec_eased_unit_at(time),
            p.complete == self.spec_complete_at(time),
    {
        let tt: Time = match self.transition_time {
            Some(t) => t,
            None => {
                return Progress {
                    linear_unit_progress: Fx::from_raw(0),
                    eased_unit_progress: Fx::from_raw(0),
                    complete: true,
                };
            },
        };
        let elapsed: Fx = time.elapsed_since(tt).sat_sub(self.delay_ms).at_least_zero();

        let f: Fx = self.settings.duration_ms.at_least_zero();
        let b: Fx = self.asym().duration_ms.at_least_zero();
        let (sel, ec, reversing): (AnimationSettings, Fx, bool) = if self.auto_reverse_repetitions {
            let combined: u64 = (f.raw as u64) + (b.raw as u64);
            if combined > 0 {
                let em: u64 = (elapsed.raw as u64) % combined;
                if em <= (f.raw as u64) {
                    (self.settings, Fx::from_raw(em as i64), false)
                } else {
                    (self.asym(), Fx::from_raw((em - (f.raw as u64)) as i64), true)
                }
            } else {
                (self.asym(), Fx::from_raw(0), true)
            }
        } else if self.destination.raw < self.origin.raw {
            (self.asym(), elapsed, false)
        } else {
            (self.settings, elapsed, false)
        };

        let total: Fx = self.total_duration();
        if total.raw == 0 {
            return Progress {
                linear_unit_progress: Fx::from_raw(FX_SCALE),
                eased_unit_progress: sel.easing.value(Fx::from_raw(FX_SCALE)),
                complete: true,
            };
        }

        let complete: bool = !self.repeat_forever && elapsed.raw >= total.raw;
        let p: Fx = if complete {
            if self.auto_reverse_repetitions {
                Fx::from_raw(0)
            } else {
                Fx::from_raw(FX_SCALE)
            }
        } else {
            ec.unit_fraction(sel.duration_ms.at_least_zero())
        };
        let lin: Fx = if reversing && !complete {
            Fx::from_raw(FX_SCALE).sat_sub(p)
        } else {
            p
        };
        Progress {
            linear_unit_progress: lin,
            eased_unit_progress: sel.easing.value(lin),
            complete,
        }
    }

    /// Linear unit progress at `time`.
    pub fn linear_unit_progress(&self, time: Time) -> (r: Fx)
        ensures
            r.raw == self.spec_linear_unit_at(time),
    {
        self.current_progress(time).linear_unit_progress
    }

    /// Eased unit progress at `time`.
    pub fn eased_unit_progress(&self, time: Time) -> (r: Fx)
        ensures
            r.raw == self.spec_eased_unit_at(time),
    {
        self.current_progress(time).eased_unit_progress
    }

    /// The scalar span being animated over.
    pub fn progress_range(&self) -> (r: Fx)
        ensures
            r.raw == self.spec_progress_range(),
    {
        self.destination.sat_sub(self.origin)
    }

    /// The scalar position at `time` under linear progress.
    pub fn linear_progress(&self, time: Time) -> (r: Fx)
        ensures
            r.raw == self.spec_linear_progress(time),
    {
        self.origin.sat_add(self.linear_unit_progress(time).sat_mul(self.progress_range()))
    }

    /// The scalar position at `time` under eased progress.
    pub fn eased_progress(&self, time: Time) -> (r: Fx)
        ensures
            r.raw == self.spec_eased_progress(time),
    {
        self.origin.sat_add(self.eased_unit_progress(time).sat_mul(self.progress_range()))
    }

    /// Whether the animation is still running at `time`.
    pub fn in_progress(&self, time: Time) -> (r: bool)
        ensures
            r == !self.spec_complete_at(time),
    {
        !self.current_progress(time).complete
    }

    /// Begins, redirects or instantaneously settles a transition toward a
    /// scalar destination.
    pub fn transition(&mut self, destination: Fx, time: Time, instantaneous: bool)
        ensures
            *final(self) == old(self).spec_transition(destination, time, instantaneous),
    {
        if self.destination.raw != destination.raw {
            if instantaneous {
                self.origin = destination;
                self.destination = destination;
                self.transition_time = None;
                return;
            }
            if self.in_progress(time) {
                let e: Fx = self.eased_progress(time);
                self.origin = e;
            } else {
                self.origin = self.destination;
            }
            self.transition_time = Some(time);
            self.destination = destination;
        }
    }
}

} // verus!

verus! {

/// Wraps a domain value to enable interpolated transitions.
///
/// An `Animated` represents a single animation axis: it stores the
/// last-requested value, the value requested before it, and a scalar state
/// machine, and reconstructs continuity purely from the scalar progress
/// ratio, so the domain type may be discrete (a `bool`, an enum).
#[derive(Clone, Debug)]
pub struct Animated<T, Time> where
    T: FloatRepresentable + Clone + PartialEq + PartialEqSpec,
    Time: AnimationTime,
{
    pub animation: Animation<Time>,
    pub value: T,
    pub last_value: T,
}

impl<T, Time> Animated<T, Time> where
    T: FloatRepresentable + Clone + Copy + PartialEq + PartialEqSpec,
    Time: AnimationTime,
{
    /// The fraction of the span between the previous and the current value
    /// at which the in-flight animation was interrupted; zero when both
    /// values project to the same scalar.
    pub open spec fn spec_unit_interrupt(self) -> int {
        let cur = self.value.spec_float_value().raw as int;
        let last = self.last_value.spec_float_value().raw as int;
        let range = fx_sub(cur, last);
        if range == 0 {
            0
        } else {
            fx_div(fx_sub(self.animation.origin.raw as int, last), range)
        }
    }

    /// The wrapper after a transition request: no change when the same
    /// domain value is already requested, otherwise the stored values shift
    /// and the machine is redirected toward the new value's projection.
    pub open spec fn spec_transitioned(self, new_value: T, at: Time, instantaneous: bool) -> Self {
        if self.value.eq_spec(&new_value) {
            self
        } else {
            Animated {
                value: new_value,
                last_value: self.value,
                animation: self.animation.spec_transition(
                    new_value.spec_float_value(),
                    at,
                    instantaneous,
                ),
            }
        }
    }

    /// Creates an animated value with the given animation settings.
    pub fn new_with_settings(value: T, duration_ms: Fx, easing: Easing) -> (r: Self)
        ensures
            r == (Animated {
                value,
                last_value: value,
                animation: (Animation {
                    settings: (AnimationSettings { duration_ms, easing }),
                    ..spec_base_animation::<Time>(value.spec_float_value())
                }),
            }),
    {
        let mut animation: Animation<Time> = Animation::with_origin(value.float_value());
        animation.settings.duration_ms = duration_ms;
        animation.settings.easing = easing;
        Animated { value, last_value: value, animation }
    }

    /// Creates an animated value with the default animation.
    pub fn new(value: T) -> (r: Self)
        ensures
            r == (Animated {
                value,
                last_value: value,
                animation: spec_base_animation::<Time>(value.spec_float_value()),
            }),
    {
        Animated { value, last_value: value, animation: Animation::with_origin(value.float_value()) }
    }

    /// Specifies the duration of the animation in milliseconds.
    pub fn duration(self, duration_ms: Fx) -> (r: Self)
        ensures
            r == (Animated {
                animation: (Animation {
                    settings: (AnimationSettings {
                        duration_ms,
                        easing: self.animation.settings.easing,
                    }),
                    ..self.animation
                }),
                ..self
            }),
    {
        let mut this = self;
        this.animation.settings.duration_ms = duration_ms;
        this
    }

    /// Specifies the easing with which to animate transitions.
    pub fn easing(self, easing: Easing) -> (r: Self)
        ensures
            r == (Animated {
                animation: (Animation {
                    settings: (AnimationSettings {
                        duration_ms: self.animation.settings.duration_ms,
                        easing,
                    }),
                    ..self.animation
                }),
                ..self
            }),
    {
        let mut this = self;
        this.animation.settings.easing = easing;
        this
    }

    /// Delays the animation by the given number of milliseconds.
    pub fn delay(self, delay_ms: Fx) -> (r: Self)
        ensures
            r == (Animated { animation: (Animation { delay_ms, ..self.animation }), ..self }),
    {
        let mut this = self;
        this.animation.delay_ms = delay_ms;
        this
    }

    /// Repeats animations the specified number of times: a count of `n`
    /// plays the animation `n` times in total before stopping.
    pub fn repeat(self, count: u32) -> (r: Self)
        ensures
            r == (Animated {
                animation: (Animation { repetitions: count, ..self.animation }),
                ..self
            }),
    {
        let mut this = self;
        this.animation.repetitions = count;
        this
    }

    /// Repeats transitions forever.
    pub fn repeat_forever(self) -> (r: Self)
        ensures
            r == (Animated {
                animation: (Animation { repeat_forever: true, ..self.animation }),
                ..self
            }),
    {
        let mut this = self;
        this.animation.repeat_forever = true;
        this
    }

    /// Automatically plays repetitions in reverse after they complete.
    pub fn auto_reverse(self) -> (r: Self)
        ensures
            r == (Animated {
                animation: (Animation { auto_reverse_repetitions: true, ..self.animation }),
                ..self
            }),
    {
        let mut this = self;
        this.animation.auto_reverse_repetitions = true;
        this
    }

    /// Begins a transition as soon as the animation is created.
    pub fn auto_start(self, new_value: T, at: Time) -> (r: Self)
        ensures
            T::obeys_eq_spec() ==> r == self.spec_transitioned(new_value, at, false),
    {
        let mut this = self;
        this.transition(new_value, at);
        this
    }

    /// Applies an alternative duration while animating backward.
    pub fn asymmetric_duration(self, duration_ms: Fx) -> (r: Self)
        ensures
            r == (Animated {
                animation: (Animation {
                    asymmetric_settings: Some(
                        AnimationSettings { duration_ms, easing: self.animation.spec_asym().easing },
                    ),
                    ..self.animation
                }),
                ..self
            }),
    {
        let mut this = self;
        let easing: Easing = this.animation.asym().easing;
        this.animation.asymmetric_settings = Some(AnimationSettings { duration_ms, easing });
        this
    }

    /// Applies an alternative easing while animating backward.
    pub fn asymmetric_easing(self, easing: Easing) -> (r: Self)
        ensures
            r == (Animated {
                animation: (Animation {
                    asymmetric_settings: Some(
                        AnimationSettings {
                            duration_ms: self.animation.spec_asym().duration_ms,
                            easing,
                        },
                    ),
                    ..self.animation
                }),
                ..self
            }),
    {
        let mut this = self;
        let duration_ms: Fx = this.animation.asym().duration_ms;
        this.animation.asymmetric_settings = Some(AnimationSettings { duration_ms, easing });
        this
    }

    /// Updates the wrapped state and begins an animation. Requesting the
    /// value already requested is a no-op, not a restart.
    pub fn transition(&mut self, new_value: T, at: Time)
        ensures
            T::obeys_eq_spec() ==> *final(self) == old(self).spec_transitioned(
                new_value,
                at,
                false,
            ),
    {
        if self.value != new_value {
            self.last_value = self.value;
            self.value = new_value;
            let fv: Fx = new_value.float_value();
            self.animation.transition(fv, at, false);
        }
    }

    /// Updates the wrapped state and instantaneously completes an
    /// animation, ignoring animation settings such as delay and duration.
    pub fn transition_instantaneous(&mut self, new_value: T, at: Time)
        ensures
            T::obeys_eq_spec() ==> *final(self) == old(self).spec_transitioned(
                new_value,
                at,
                true,
            ),
    {
        if self.value != new_value {
            self.last_value = self.value;
            self.value = new_value;
            let fv: Fx = new_value.float_value();
            self.animation.transition(fv, at, true);
        }
    }

    /// Returns whether the animation is incomplete, given the current time.
    pub fn in_progress(&self, time: Time) -> (r: bool)
        ensures
            r == !self.animation.spec_complete_at(time),
    {
        self.animation.in_progress(time)
    }

    /// Interpolates between states of any value that implements
    /// `Interpolable`, given the current time.
    ///
    /// The generic domain values may not be continuous, so an interrupted
    /// position cannot be stored as a domain value; instead the interrupt
    /// scalar is re-expressed as an interpolation between the mapped
    /// previous and current values, and the eased progress interpolates
    /// from there to the mapped current value.
    pub fn animate<I: Interpolable + Copy, F: Fn(T) -> I>(&self, map: F, time: Time) -> (r: I)
        requires
            call_requires(map, (self.last_value,)),
            call_requires(map, (self.value,)),
        ensures
            exists|ml: I, mc: I|
                #![trigger call_ensures(map, (self.last_value,), ml), call_ensures(map, (self.value,), mc)]
                call_ensures(map, (self.last_value,), ml) && call_ensures(map, (self.value,), mc)
                    && r == ml.spec_interpolated(
                    mc,
                    (Fx { raw: self.spec_unit_interrupt() as i64 }),
                ).spec_interpolated(mc, (Fx { raw: self.animation.spec_eased_unit_at(time) as i64 })),
    {
        let m_last: I = map(self.last_value);
        let m_cur: I = map(self.value);
        self.animate_values(m_last, m_cur, time)
    }

    /// Interpolates between two already-mapped endpoint values: the
    /// interrupt scalar is re-expressed as a blend of the two, and the
    /// eased progress at `time` blends from there to the current endpoint.
    pub fn animate_values<I: Interpolable + Copy>(&self, m_last: I, m_cur: I, time: Time) -> (r: I)
        ensures
            r == m_last.spec_interpolated(
                m_cur,
                (Fx { raw: self.spec_unit_interrupt() as i64 }),
            ).spec_interpolated(m_cur, (Fx { raw: self.animation.spec_eased_unit_at(time) as i64 })),
    {
        let fv_cur: Fx = self.value.float_value();
        let fv_last: Fx = self.last_value.float_value();
        let interrupted_range: Fx = fv_cur.sat_sub(fv_last);
        let unit_interrupt: Fx = if interrupted_range.raw == 0 {
            Fx::from_raw(0)
        } else {
            self.animation.origin.sat_sub(fv_last).sat_div(interrupted_range)
        };
        let eased: Fx = self.animation.eased_unit_progress(time);
        let mid: I = m_last.interpolated(m_cur, unit_interrupt);
        mid.interpolated(m_cur, eased)
    }

    /// Interpolates to `equal` when the wrapped value matches the provided
    /// `value`, and toward `default` otherwise.
    pub fn animate_if_eq<I: Interpolable + Copy>(&self, value: T, equal: I, default: I, time: Time) -> (r: I)
        ensures
            T::obeys_eq_spec() ==> r == {
                let ml = if self.last_value.eq_spec(&value) {
                    equal
                } else {
                    default
                };
                let mc = if self.value.eq_spec(&value) {
                    equal
                } else {
                    default
                };
                ml.spec_interpolated(
                    mc,
                    (Fx { raw: self.spec_unit_interrupt() as i64 }),
                ).spec_interpolated(mc, (Fx { raw: self.animation.spec_eased_unit_at(time) as i64 }))
            },
    {
        let m_last: I = if self.last_value == value {
            equal
        } else {
            default
        };
        let m_cur: I = if self.value == value {
            equal
        } else {
            default
        };
        self.animate_values(m_last, m_cur, time)
    }

    /// Linear scalar progress at `time`.
    pub fn linear_progress(&self, time: Time) -> (r: Fx)
        ensures
            r.raw == self.animation.spec_linear_progress(time),
    {
        self.animation.linear_progress(time)
    }

    /// Eased scalar progress at `time`.
    pub fn eased_progress(&self, time: Time) -> (r: Fx)
        ensures
            r.raw == self.animation.spec_eased_progress(time),
    {
        self.animation.eased_progress(time)
    }
}

impl<Time> Animated<bool, Time> where Time: AnimationTime {
    /// Interpolates any value that implements `Interpolable`, given the
    /// current time: toward `true_value` while the wrapped `bool` is true.
    pub fn animate_bool<I: Interpolable + Copy>(&self, false_value: I, true_value: I, time: Time) -> (r: I)
        ensures
            r == {
                let ml = if self.last_value {
                    true_value
                } else {
                    false_value
                };
                let mc = if self.value {
                    true_value
                } else {
                    false_value
                };
                ml.spec_interpolated(
                    mc,
                    (Fx { raw: self.spec_unit_interrupt() as i64 }),
                ).spec_interpolated(mc, (Fx { raw: self.animation.spec_eased_unit_at(time) as i64 }))
            },
    {
        let m_last: I = if self.last_value {
            true_value
        } else {
            false_value
        };
        let m_cur: I = if self.value {
            true_value
        } else {
            false_value
        };
        self.animate_values(m_last, m_cur, time)
    }
}

} // verus!

verus! {

/// Law: scalar progress is a pure function of the machine state and the
/// elapsed span. Two sampling instants with the same elapsed span since the
/// transition started yield exactly the same linear and eased progress, so
/// sampling is deterministic and free of hidden state.
pub proof fn lemma_progress_determined_by_elapsed<Time: AnimationTime>(
    a: Animation<Time>,
    t1: Time,
    t2: Time,
)
    requires
        (match a.transition_time {
            Some(tt) => t1.spec_elapsed_since(tt) == t2.spec_elapsed_since(tt),
            None => true,
        }),
    ensures
        a.spec_linear_progress(t1) == a.spec_linear_progress(t2),
        a.spec_eased_progress(t1) == a.spec_eased_progress(t2),
        a.spec_complete_at(t1) == a.spec_complete_at(t2),
{
}

/// Law: linear unit progress always lies within the unit interval: delay,
/// repetition folding, reversal and completion pinning never push the
/// linear fraction outside `[0, 1]` on the fixed-point scale.
pub proof fn lemma_linear_unit_in_range<Time: AnimationTime>(a: Animation<Time>, t: Time)
    ensures
        0 <= a.spec_linear_unit_at(t) <= FX_SCALE as int,
{
    match a.transition_time {
        None => {
        },
        Some(_) => {
            let el = a.spec_gated(t);
            crate::fixed::lemma_unit_frac_range(
                a.spec_elapsed_current(el),
                max0(a.spec_sel_settings(el).duration_ms.raw as int),
            );
        },
    }
}

/// Law: once an animation is complete, sampling is pinned exactly at a
/// terminal endpoint under any easing curve in the catalog, and stays
/// there: on the destination for an ordinary animation (provided the
/// animated span is representable), and back on the origin under
/// auto-reversal, whose last leg is always a backward one. A zero total
/// duration snaps to the destination either way.
pub proof fn lemma_completion_pins_endpoint<Time: AnimationTime>(a: Animation<Time>, t: Time)
    requires
        a.transition_time is Some,
        a.spec_complete_at(t),
        i64::MIN <= a.destination.raw - a.origin.raw <= i64::MAX,
    ensures
        !a.auto_reverse_repetitions || a.spec_total_duration() == 0 ==> a.spec_linear_progress(t)
            == a.destination.raw && a.spec_eased_progress(t) == a.destination.raw,
        a.auto_reverse_repetitions && a.spec_total_duration() != 0 ==> a.spec_linear_progress(t)
            == a.origin.raw && a.spec_eased_progress(t) == a.origin.raw,
{
    let el = a.spec_gated(t);
    assert(FX_SCALE as int == 1_000_000);
    crate::easing::lemma_ease_endpoints(a.spec_sel_settings(el).easing);
    if !a.auto_reverse_repetitions || a.spec_total_duration() == 0 {
        assert(a.spec_linear_unit(el) == FX_SCALE as int);
        crate::fixed::lemma_fx_mul_one(a.spec_progress_range());
    } else {
        assert(a.spec_linear_unit(el) == 0);
    }
}

/// Law: requesting the domain value that is already requested is a no-op.
/// After a transition to `x`, a second transition to `x` leaves the wrapper
/// exactly as the first left it, so neither progress nor timing restarts.
/// The value's equality must be reflexive.
pub proof fn lemma_repeated_transition_is_noop<T, Time>(
    a: Animated<T, Time>,
    x: T,
    t1: Time,
    t2: Time,
) where
    T: FloatRepresentable + Clone + Copy + PartialEq + PartialEqSpec,
    Time: AnimationTime,

    requires
        x.eq_spec(&x),
    ensures
        a.spec_transitioned(x, t1, false).spec_transitioned(x, t2, false) == a.spec_transitioned(
            x,
            t1,
            false,
        ),
{
}

} // verus!
