//! Scheduling core of a scalar transition: requests that play a value forward
//! or backward between two endpoints, one frame per millisecond tick.

pub mod animation;
pub mod laws;
pub mod model;
pub mod phase;
pub mod token;
pub mod transition;

pub use animation::{Animation, AnimationEasing, TransitionDirection};
pub use model::{Request, Run, TransitionState, Tween};
pub use phase::TransitionPhase;
pub use transition::{use_transition, TickOutcome, UseTransition};
