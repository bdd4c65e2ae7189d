//! The executable transition: the handle that callers read and send requests
//! to, and the scheduler steps that a driver takes between its waits.
//!
//! A driver owns the waiting. It calls `begin` when a request is pending, then
//! waits for a tick, computes the eased value of `next_tween`, hands it to
//! `tick`, and goes on until `tick` reports that the run is over.

use std::collections::VecDeque;
use vstd::prelude::*;
use crate::animation::{Animation, TransitionDirection};
use crate::model::{Request, Run, TransitionState, Tween};
use crate::phase::{end_of, end_value, start_of, start_value, TransitionPhase};
use crate::token::{fresh_token, is_random_uuid};

verus! {

/// A transition between two endpoints: the published value, the latest token,
/// the queue of requests and the run in flight.
pub struct UseTransition {
    start_value: u32,
    end_value: u32,
    value: u32,
    current_id: Option<u128>,
    queue: VecDeque<Request>,
    flight: Flight,
}

/// The scheduler's own state: the run in flight, which has not reached its
/// natural end.
struct Flight {
    run: Option<Run>,
}

impl Flight {
    #[verifier::type_invariant]
    spec fn inv(self) -> bool {
        self.run matches Some(run) ==> run.wf()
    }
}

/// What one tick did.
#[derive(Clone, Copy, Debug, PartialEq, Eq, Structural)]
pub struct TickOutcome {
    /// A value was published: the reader should be redrawn once.
    pub published: bool,
    /// The run is still in flight and waits for another tick.
    pub running: bool,
}

impl View for UseTransition {
    type V = TransitionState;

    closed spec fn view(&self) -> TransitionState {
        TransitionState {
            start_value: self.start_value,
            end_value: self.end_value,
            value: self.value,
            latest: self.current_id,
            pending: self.queue@,
            run: self.flight.run,
        }
    }
}

/// Makes a transition from its phase declarations. The first `From` gives the
/// start value and the first `To` the end value; one that is missing counts as
/// zero. The published value is the start value until a run publishes.
pub fn use_transition<const N: usize>(phases: [TransitionPhase; N]) -> (transition: UseTransition)
    ensures
        transition@ == TransitionState::init(start_of(phases@), end_of(phases@)),
        transition@.wf(),
{
    let start = start_value(phases.as_slice());
    let end = end_value(phases.as_slice());
    UseTransition {
        start_value: start,
        end_value: end,
        value: start,
        current_id: None,
        queue: VecDeque::new(),
        flight: Flight { run: None },
    }
}

impl UseTransition {
    /// The published value. It depends on the state alone, so reads with no
    /// step between them agree.
    pub fn read(&self) -> (value: u32)
        ensures
            value == self@.value,
    {
        self.value
    }

    /// The token of the newest request, or none when idle.
    pub fn current_id(&self) -> (token: Option<u128>)
        ensures
            token == self@.latest,
    {
        self.current_id
    }

    /// Requests a run from the start value to the end value, under a fresh
    /// random token.
    pub fn forward(&mut self, animation: Animation)
        ensures
            exists|token: u128|
                is_random_uuid(token) && final(self)@ == #[trigger] old(self)@.submit(
                    token,
                    animation,
                    TransitionDirection::Forward,
                ),
            final(self)@.wf(),
    {
        let token = fresh_token();
        self.submit(token, animation, TransitionDirection::Forward);
    }

    /// Requests a run from the end value to the start value, under a fresh
    /// random token.
    pub fn backwards(&mut self, animation: Animation)
        ensures
            exists|token: u128|
                is_random_uuid(token) && final(self)@ == #[trigger] old(self)@.submit(
                    token,
                    animation,
                    TransitionDirection::Backwards,
                ),
            final(self)@.wf(),
    {
        let token = fresh_token();
        self.submit(token, animation, TransitionDirection::Backwards);
    }

    /// Records a request under `token`: the token becomes the latest and the
    /// request joins the back of the queue.
    pub fn submit(&mut self, token: u128, animation: Animation, direction: TransitionDirection)
        ensures
            final(self)@ == old(self)@.submit(token, animation, direction),
            final(self)@.wf(),
    {
        proof {
            use_type_invariant(&self.flight);
        }
        self.current_id = Some(token);
        self.queue.push_back(Request { animation, direction });
    }

    /// Takes the oldest pending request into flight, if no run is in flight
    /// and a request is pending, and says whether it did.
    pub fn begin(&mut self) -> (started: bool)
        ensures
            started == old(self)@.can_begin(),
            final(self)@ == old(self)@.begin(),
            final(self)@.wf(),
    {
        proof {
            use_type_invariant(&self.flight);
        }
        if self.flight.run.is_some() {
            return false;
        }
        match self.queue.pop_front() {
            Some(request) => {
                self.flight = Flight {
                    run: Some(Run { request, active: self.current_id, frame: 0 }),
                };
                true
            },
            None => false,
        }
    }

    /// What the next tick interpolates, for the driver to compute the eased
    /// value from.
    pub fn next_tween(&self) -> (tween: Option<Tween>)
        ensures
            tween == self@.next_tween(),
    {
        proof {
            use_type_invariant(&self.flight);
        }
        match self.flight.run {
            Some(run) => match run.request.animation {
                Animation::Linear(easing, duration) => {
                    let (origin, target) = match run.request.direction {
                        TransitionDirection::Forward => (self.start_value, self.end_value),
                        TransitionDirection::Backwards => (self.end_value, self.start_value),
                    };
                    Some(Tween { easing, elapsed: run.frame + 1, origin, target, duration })
                },
                Animation::Bounce(_, _) => None,
            },
            None => None,
        }
    }

    /// One tick of the run in flight. `eased` is the eased value of
    /// `next_tween()`; where there is no tween it is not looked at.
    pub fn tick(&mut self, eased: u32) -> (outcome: TickOutcome)
        ensures
            final(self)@ == old(self)@.tick(eased),
            outcome.published == (old(self)@.next_tween() is Some),
            outcome.running == (final(self)@.run is Some),
            final(self)@.wf(),
    {
        proof {
            use_type_invariant(&self.flight);
        }
        let run = match self.flight.run {
            Some(run) => run,
            None => {
                return TickOutcome { published: false, running: false };
            },
        };
        let frame: u128 = run.frame + 1;
        let published = match run.request.animation {
            Animation::Linear(_, _) => true,
            Animation::Bounce(_, _) => false,
        };
        if published {
            self.value = eased;
        }
        if frame >= run.request.animation.time() {
            if same_token(run.active, self.current_id) {
                self.current_id = None;
            }
            self.flight = Flight { run: None };
            TickOutcome { published, running: false }
        } else if run.active.is_some() && !same_token(run.active, self.current_id) {
            self.flight = Flight { run: None };
            TickOutcome { published, running: false }
        } else {
            self.flight = Flight {
                run: Some(Run { request: run.request, active: self.current_id, frame }),
            };
            TickOutcome { published, running: true }
        }
    }
}

/// Whether two tokens, or their absence, are the same.
fn same_token(a: Option<u128>, b: Option<u128>) -> (same: bool)
    ensures
        same == (a == b),
{
    match (a, b) {
        (Some(x), Some(y)) => x == y,
        (None, None) => true,
        _ => false,
    }
}

} // verus!
