//! The transition as a state machine over plain values.
//!
//! `TransitionState` is what a transition is at any instant: its two
//! endpoints, the published value, the latest token, the requests not yet
//! begun and the run in flight. Three steps change it. `submit` records a
//! request, `begin` takes the oldest pending request into flight, and `tick`
//! advances the run in flight by one frame. The executable transition is
//! specified step by step against these functions.

use vstd::prelude::*;
use crate::animation::{Animation, AnimationEasing, TransitionDirection};

verus! {

/// One playback request: what to play and in which direction.
#[derive(Clone, Copy, Debug, PartialEq, Eq, Structural)]
pub struct Request {
    pub animation: Animation,
    pub direction: TransitionDirection,
}

/// The run in flight, as it stands while the scheduler waits for a tick.
#[derive(Clone, Copy, Debug, PartialEq, Eq, Structural)]
pub struct Run {
    /// The request being played.
    pub request: Request,
    /// The token the run goes under: the latest when the run last looked.
    pub active: Option<u128>,
    /// The number of ticks the run has seen.
    pub frame: u128,
}

/// What one frame interpolates: the eased value is taken at `elapsed` of
/// `duration`, on the way from `origin` to `target`.
#[derive(Clone, Copy, Debug, PartialEq, Eq, Structural)]
pub struct Tween {
    pub easing: AnimationEasing,
    pub elapsed: u128,
    pub origin: u32,
    pub target: u32,
    pub duration: u128,
}

/// A transition at one instant.
pub struct TransitionState {
    /// The scalar declared by `From`.
    pub start_value: u32,
    /// The scalar declared by `To`.
    pub end_value: u32,
    /// The published value.
    pub value: u32,
    /// The token of the newest request, or none when idle.
    pub latest: Option<u128>,
    /// The requests not yet begun, oldest first.
    pub pending: Seq<Request>,
    /// The run in flight, if any.
    pub run: Option<Run>,
}

impl Run {
    /// A run that holds a token is superseded once that token is no longer the
    /// latest. A run without a token is never superseded.
    pub open spec fn superseded(self, latest: Option<u128>) -> bool {
        self.active is Some && self.active != latest
    }

    /// The number of ticks from the beginning of the run to its natural end:
    /// the duration, and one where the duration is zero.
    pub open spec fn length(self) -> int {
        if self.request.animation.duration() == 0 {
            1
        } else {
            self.request.animation.duration() as int
        }
    }

    /// The number of ticks left until the natural end.
    pub open spec fn remaining(self) -> int {
        self.length() - self.frame
    }

    /// A run in flight has not reached its natural end.
    pub open spec fn wf(self) -> bool {
        self.frame < self.length()
    }
}

impl TransitionState {
    /// The state of a new transition between `start_value` and `end_value`.
    pub open spec fn init(start_value: u32, end_value: u32) -> TransitionState {
        TransitionState {
            start_value,
            end_value,
            value: start_value,
            latest: None,
            pending: Seq::empty(),
            run: None,
        }
    }

    /// A run in flight has not reached its natural end.
    pub open spec fn wf(self) -> bool {
        self.run matches Some(run) ==> run.wf()
    }

    /// The endpoint a run in `direction` sets out from.
    pub open spec fn origin(self, direction: TransitionDirection) -> u32 {
        match direction {
            TransitionDirection::Forward => self.start_value,
            TransitionDirection::Backwards => self.end_value,
        }
    }

    /// The endpoint a run in `direction` heads for.
    pub open spec fn target(self, direction: TransitionDirection) -> u32 {
        match direction {
            TransitionDirection::Forward => self.end_value,
            TransitionDirection::Backwards => self.start_value,
        }
    }

    /// A new request: `token` becomes the latest and the request joins the
    /// back of the queue. Nothing else moves; a run in flight learns of it
    /// only when it next looks.
    pub open spec fn submit(
        self,
        token: u128,
        animation: Animation,
        direction: TransitionDirection,
    ) -> TransitionState {
        TransitionState {
            latest: Some(token),
            pending: self.pending.push(Request { animation, direction }),
            ..self
        }
    }

    /// A run can begin when none is in flight and a request is pending.
    pub open spec fn can_begin(self) -> bool {
        self.run is None && self.pending.len() > 0
    }

    /// The oldest pending request goes into flight at frame zero, under
    /// whatever token is the latest now. Where no run can begin, nothing
    /// changes.
    pub open spec fn begin(self) -> TransitionState {
        if self.can_begin() {
            TransitionState {
                pending: self.pending.drop_first(),
                run: Some(Run { request: self.pending.first(), active: self.latest, frame: 0 }),
                ..self
            }
        } else {
            self
        }
    }

    /// What the next tick interpolates: the frame after the current one of a
    /// `Linear` run in flight. A `Bounce` run interpolates nothing.
    pub open spec fn next_tween(self) -> Option<Tween> {
        match self.run {
            Some(run) => match run.request.animation {
                Animation::Linear(easing, duration) => Some(
                    Tween {
                        easing,
                        elapsed: (run.frame + 1) as u128,
                        origin: self.origin(run.request.direction),
                        target: self.target(run.request.direction),
                        duration,
                    },
                ),
                Animation::Bounce(_, _) => None,
            },
            None => None,
        }
    }

    /// One tick of the run in flight, where `eased` is the eased value of
    /// `next_tween()`.
    ///
    /// The frame count goes up by one and a `Linear` run publishes `eased`.
    /// Then the run ends if it has reached its duration, and it clears the
    /// latest token if that is still the one it goes under. A run that goes
    /// on looks at the latest token: it stops if it is superseded, and
    /// otherwise it goes under the latest from now on. Without a run in
    /// flight nothing changes.
    pub open spec fn tick(self, eased: u32) -> TransitionState {
        match self.run {
            None => self,
            Some(run) => {
                let value = if self.next_tween() is Some {
                    eased
                } else {
                    self.value
                };
                if run.frame + 1 >= run.request.animation.duration() {
                    TransitionState {
                        value,
                        latest: if run.active == self.latest {
                            None
                        } else {
                            self.latest
                        },
                        run: None,
                        ..self
                    }
                } else if run.superseded(self.latest) {
                    TransitionState { value, run: None, ..self }
                } else {
                    TransitionState {
                        value,
                        run: Some(
                            Run { active: self.latest, frame: (run.frame + 1) as u128, ..run },
                        ),
                        ..self
                    }
                }
            },
        }
    }

    /// As many ticks as `eased` has values, each with its eased value, in
    /// order.
    pub open spec fn ticks(self, eased: Seq<u32>) -> TransitionState
        decreases eased.len(),
    {
        if eased.len() == 0 {
            self
        } else {
            self.tick(eased.first()).ticks(eased.drop_first())
        }
    }
}

} // verus!
