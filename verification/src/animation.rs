//! What a playback request is made of: the easing variant, the kind of
//! animation with its duration, and the direction of play.

use vstd::prelude::*;

verus! {

/// Which curve shapes the rate of change over a run.
#[derive(Clone, Copy, Debug, PartialEq, Eq, Structural)]
pub enum AnimationEasing {
    /// Slow start.
    EaseIn,
    /// Slow finish.
    EaseOut,
    /// Slow start and finish, fast middle.
    EaseInOut,
}

/// One kind of animation, with its easing and its total duration in
/// milliseconds.
#[derive(Clone, Copy, Debug, PartialEq, Eq, Structural)]
pub enum Animation {
    /// Interpolates between the endpoints along the easing curve.
    Linear(AnimationEasing, u128),
    /// Keeps time like `Linear` but publishes nothing: the value stays as it is.
    Bounce(AnimationEasing, u128),
}

/// Which endpoint a run starts from.
#[derive(Clone, Copy, Debug, PartialEq, Eq, Structural)]
pub enum TransitionDirection {
    /// From the start value to the end value.
    Forward,
    /// From the end value to the start value.
    Backwards,
}

impl Animation {
    /// The total duration in milliseconds.
    pub open spec fn duration(self) -> u128 {
        match self {
            Animation::Linear(_, time) => time,
            Animation::Bounce(_, time) => time,
        }
    }

    /// The easing variant.
    pub open spec fn easing_kind(self) -> AnimationEasing {
        match self {
            Animation::Linear(easing, _) => easing,
            Animation::Bounce(easing, _) => easing,
        }
    }

    /// The total duration in milliseconds.
    pub fn time(&self) -> (time: u128)
        ensures
            time == self.duration(),
    {
        match self {
            Animation::Linear(_, time) => *time,
            Animation::Bounce(_, time) => *time,
        }
    }
}

} // verus!
