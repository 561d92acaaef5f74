//! A time-driven interpolation engine over a fixed-point scalar axis.
//!
//! A discrete state change ("transition to value X at time T") is turned into
//! a continuously varying progress value, modulated by easing curves, delay,
//! repetition and direction-dependent timing. All arithmetic is exact
//! fixed-point integer arithmetic, so every progress value is a deterministic
//! function of the configuration and the sampling time.

mod animated;
mod animation;
mod easing;
mod fixed;
mod traits;

pub use animated::Animated;
pub use animated::Animation as ScalarAnimation;
pub use animation::AnimatableValue;
pub use animation::Animation;
pub use animation::AnimationState;
pub use animation::Timing;
pub use animated::AnimationSettings;
pub use easing::Easing;
pub use fixed::Fx;
pub use fixed::FX_SCALE;
pub use traits::AnimationTime;
pub use traits::FloatRepresentable;
pub use traits::Interpolable;
