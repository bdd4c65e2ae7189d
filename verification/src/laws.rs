//! What holds of every transition, proved over the state machine of
//! `crate::model`.

use vstd::prelude::*;
use crate::animation::{Animation, TransitionDirection};
use crate::model::{Request, Run, TransitionState};

verus! {

/// Every step keeps a well-formed state well formed and leaves the two
/// endpoints as they are.
pub proof fn lemma_steps_preserve(
    s: TransitionState,
    token: u128,
    animation: Animation,
    direction: TransitionDirection,
    eased: u32,
)
    requires
        s.wf(),
    ensures
        s.submit(token, animation, direction).wf(),
        s.begin().wf(),
        s.tick(eased).wf(),
        s.submit(token, animation, direction).start_value == s.start_value,
        s.submit(token, animation, direction).end_value == s.end_value,
        s.begin().start_value == s.start_value,
        s.begin().end_value == s.end_value,
        s.tick(eased).start_value == s.start_value,
        s.tick(eased).end_value == s.end_value,
{
}

/// Every token is accounted for: a run in flight has not reached its natural
/// end, and wherever the latest token is not the one the run in flight goes
/// under, the request it was minted for still waits in the queue.
pub open spec fn coherent(s: TransitionState) -> bool {
    &&& s.wf()
    &&& match s.run {
        Some(run) => run.active != s.latest ==> s.pending.len() > 0,
        None => s.latest is Some ==> s.pending.len() > 0,
    }
}

/// A new transition is coherent.
pub proof fn lemma_new_transition_is_coherent(start_value: u32, end_value: u32)
    ensures
        coherent(TransitionState::init(start_value, end_value)),
{
}

/// Every step keeps a coherent state coherent.
pub proof fn lemma_steps_keep_coherence(
    s: TransitionState,
    token: u128,
    animation: Animation,
    direction: TransitionDirection,
    eased: u32,
)
    requires
        coherent(s),
    ensures
        coherent(s.submit(token, animation, direction)),
        coherent(s.begin()),
        coherent(s.tick(eased)),
{
}

/// A transition at rest holds no token: with no run in flight and no request
/// pending, the latest token is none.
pub proof fn lemma_idle_transition_has_no_token(s: TransitionState)
    requires
        coherent(s),
        s.run is None,
        s.pending.len() == 0,
    ensures
        s.latest is None,
{
}

/// Only a tick of a `Linear` run changes the published value, and it sets it
/// to the eased value it was given. A request, the beginning of a run and a
/// tick of any other run leave the value alone.
pub proof fn lemma_value_changes_only_by_publishing(
    s: TransitionState,
    token: u128,
    animation: Animation,
    direction: TransitionDirection,
    eased: u32,
)
    ensures
        s.submit(token, animation, direction).value == s.value,
        s.begin().value == s.value,
        s.tick(eased).value == if s.next_tween() is Some {
            eased
        } else {
            s.value
        },
{
}

/// Requests begin in the order in which they were submitted: a new request
/// goes behind those that wait, and the run that begins is the oldest of
/// them.
pub proof fn lemma_requests_begin_in_order(
    s: TransitionState,
    token: u128,
    animation: Animation,
    direction: TransitionDirection,
)
    requires
        s.run is None,
    ensures
        s.submit(token, animation, direction).begin().run == Some(
            Run {
                request: if s.pending.len() > 0 {
                    s.pending.first()
                } else {
                    Request { animation, direction }
                },
                active: Some(token),
                frame: 0,
            },
        ),
        s.submit(token, animation, direction).begin().pending == if s.pending.len() > 0 {
            s.pending.drop_first().push(Request { animation, direction })
        } else {
            Seq::empty()
        },
{
    let t = s.submit(token, animation, direction);
    assert(t.pending.first() == if s.pending.len() > 0 {
        s.pending.first()
    } else {
        Request { animation, direction }
    });
    if s.pending.len() > 0 {
        assert(t.pending.drop_first() =~= s.pending.drop_first().push(
            Request { animation, direction },
        ));
    } else {
        assert(t.pending.drop_first() =~= Seq::empty());
    }
}

/// A run that goes under the latest token, with no request arriving, stays in
/// flight for every tick short of its natural end. After `eased.len()` such
/// ticks it stands that many frames further, the published value is the last
/// eased value of a `Linear` run, and nothing else has moved.
pub proof fn lemma_undisturbed_run_in_flight(s: TransitionState, eased: Seq<u32>)
    requires
        s.wf(),
        s.run matches Some(run) && run.active == s.latest && eased.len() < run.remaining(),
    ensures
        s.ticks(eased) == (TransitionState {
            value: if s.next_tween() is Some && eased.len() > 0 {
                eased.last()
            } else {
                s.value
            },
            run: Some(
                Run { frame: (s.run.unwrap().frame + eased.len()) as u128, ..s.run.unwrap() },
            ),
            ..s
        }),
    decreases eased.len(),
{
    if eased.len() > 0 {
        let rest = eased.drop_first();
        lemma_undisturbed_run_in_flight(s.tick(eased.first()), rest);
        if rest.len() > 0 {
            assert(rest.last() == eased.last());
        }
    }
}

/// A run that goes under the latest token, with no request arriving, ends
/// exactly at its natural end: after the ticks that remain, no run is in
/// flight and the latest token is cleared. A `Linear` run has published the
/// eased value of its last frame, which is the frame at which the elapsed
/// time reaches the run's length; a `Bounce` run has left the value alone.
/// The endpoints and the pending requests are as before.
pub proof fn lemma_undisturbed_run_completes(s: TransitionState, eased: Seq<u32>)
    requires
        s.wf(),
        s.run matches Some(run) && run.active == s.latest && eased.len() == run.remaining(),
    ensures
        s.ticks(eased) == (TransitionState {
            value: if s.next_tween() is Some {
                eased.last()
            } else {
                s.value
            },
            latest: None,
            run: None,
            ..s
        }),
        s.ticks(eased.drop_last()).next_tween() matches Some(tween) ==> tween.elapsed
            == s.run.unwrap().length(),
{
    let before = eased.drop_last();
    lemma_undisturbed_run_in_flight(s, before);
    lemma_ticks_then_tick(s, before, eased.last());
    assert(before.push(eased.last()) =~= eased);
}

/// Ticking through `eased` and then once more is ticking through `eased` with
/// the further value at its end.
pub proof fn lemma_ticks_then_tick(s: TransitionState, eased: Seq<u32>, last: u32)
    ensures
        s.ticks(eased.push(last)) == s.ticks(eased).tick(last),
    decreases eased.len(),
{
    let all = eased.push(last);
    if eased.len() == 0 {
        assert(all.drop_first() =~= Seq::<u32>::empty());
        assert(s.tick(last).ticks(all.drop_first()) == s.tick(last));
    } else {
        assert(all.first() == eased.first());
        assert(all.drop_first() =~= eased.drop_first().push(last));
        lemma_ticks_then_tick(s.tick(eased.first()), eased.drop_first(), last);
    }
}

/// A run that holds a token is superseded by a request under any other
/// token, and a superseded run ends with the tick that it was waiting for. It
/// publishes on that tick at most, and it leaves the new token and the queue
/// untouched.
pub proof fn lemma_superseded_run_stops(
    s: TransitionState,
    token: u128,
    animation: Animation,
    direction: TransitionDirection,
    eased: u32,
)
    requires
        s.run matches Some(run) && run.active matches Some(active) && active != token,
    ensures
        s.submit(token, animation, direction).run.unwrap().superseded(Some(token)),
        s.submit(token, animation, direction).tick(eased) == (TransitionState {
            value: if s.next_tween() is Some {
                eased
            } else {
                s.value
            },
            latest: Some(token),
            pending: s.pending.push(Request { animation, direction }),
            run: None,
            ..s
        }),
{
}

/// A request that supersedes the run in flight prevails. With nothing else
/// pending, the old run ends on its next tick, the new request begins under
/// its own token, and after the ticks of its whole length the transition is
/// idle and the published value is the one the new run published last.
pub proof fn lemma_superseding_request_prevails(
    s: TransitionState,
    token: u128,
    animation: Animation,
    direction: TransitionDirection,
    stale: u32,
    eased: Seq<u32>,
)
    requires
        s.wf(),
        s.pending.len() == 0,
        s.run matches Some(run) && run.active matches Some(active) && active != token,
        eased.len() == (Run {
            request: Request { animation, direction },
            active: Some(token),
            frame: 0,
        }).length(),
    ensures
        s.submit(token, animation, direction).tick(stale).begin().ticks(eased) == (TransitionState {
            value: if animation is Linear {
                eased.last()
            } else if s.next_tween() is Some {
                stale
            } else {
                s.value
            },
            latest: None,
            pending: Seq::empty(),
            run: None,
            ..s
        }),
{
    lemma_superseded_run_stops(s, token, animation, direction, stale);
    let stopped = s.submit(token, animation, direction).tick(stale);
    let begun = stopped.begin();
    assert(stopped.pending.drop_first() =~= Seq::<Request>::empty());
    lemma_undisturbed_run_completes(begun, eased);
}

/// The state with the two endpoints exchanged and every direction turned
/// round.
pub open spec fn mirrored(s: TransitionState) -> TransitionState {
    TransitionState {
        start_value: s.end_value,
        end_value: s.start_value,
        pending: s.pending.map_values(|request: Request| turned(request)),
        run: match s.run {
            Some(run) => Some(Run { request: turned(run.request), ..run }),
            None => None,
        },
        ..s
    }
}

/// The request in the other direction.
pub open spec fn turned(request: Request) -> Request {
    Request {
        direction: match request.direction {
            TransitionDirection::Forward => TransitionDirection::Backwards,
            TransitionDirection::Backwards => TransitionDirection::Forward,
        },
        ..request
    }
}

/// Playing backwards between two endpoints is playing forward between the
/// same endpoints exchanged: the mirrored state offers the same tween, and
/// every step of the one is the mirror of the same step of the other.
pub proof fn lemma_backwards_mirrors_forward(
    s: TransitionState,
    token: u128,
    animation: Animation,
    eased: u32,
)
    ensures
        mirrored(s).next_tween() == s.next_tween(),
        mirrored(s).tick(eased) == mirrored(s.tick(eased)),
        mirrored(s).begin() == mirrored(s.begin()),
        mirrored(s).submit(token, animation, TransitionDirection::Forward) == mirrored(
            s.submit(token, animation, TransitionDirection::Backwards),
        ),
        mirrored(s).submit(token, animation, TransitionDirection::Backwards) == mirrored(
            s.submit(token, animation, TransitionDirection::Forward),
        ),
{
    assert(mirrored(s).begin().pending =~= mirrored(s.begin()).pending);
    assert(mirrored(s).submit(token, animation, TransitionDirection::Forward).pending =~= mirrored(
        s.submit(token, animation, TransitionDirection::Backwards),
    ).pending);
    assert(mirrored(s).submit(token, animation, TransitionDirection::Backwards).pending
        =~= mirrored(s.submit(token, animation, TransitionDirection::Forward)).pending);
}

} // verus!
