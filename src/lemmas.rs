use vstd::prelude::*;

use crate::bridge::{
    actions_of, next_state, Bridge, EngineEvent, HostAction, HostEvent, SessionState, RELOAD_KEY,
};
use crate::input::{pixel_delta_of, scroll_phase_of};

verus! {

/// The state after a sequence of events, taken in order.
pub open spec fn run<P, D, S>(b: Bridge<P, S>, es: Seq<HostEvent<P, D, S>>) -> Bridge<P, S>
    decreases es.len(),
{
    if es.len() == 0 {
        b
    } else {
        next_state(run(b, es.drop_last()), es.last())
    }
}

/// The position of the last pointer move among `es`, or `origin` where there is none.
pub open spec fn last_pointer<P, D, S>(origin: P, es: Seq<HostEvent<P, D, S>>) -> P
    decreases es.len(),
{
    if es.len() == 0 {
        origin
    } else {
        match es.last() {
            HostEvent::PointerMoved(p) => p,
            _ => last_pointer(origin, es.drop_last()),
        }
    }
}

/// `n` wake events in a row.
pub open spec fn wakes<P, D, S>(n: nat) -> Seq<HostEvent<P, D, S>> {
    Seq::new(n, |i: int| HostEvent::Awakened)
}

/// After any sequence of events the pointer state is the position of the last
/// pointer move among them (the start position where there was none), so after a
/// run of moves it is the position of the last one; and a wheel event at any
/// point scrolls at the position of the last move before it.
pub proof fn lemma_pointer_tracks_last_move<P, D, S>(b: Bridge<P, S>, es: Seq<HostEvent<P, D, S>>)
    ensures
        run(b, es).pointer == last_pointer(b.pointer, es),
        es.len() > 0 && es.last() is PointerMoved ==> run(b, es).pointer
            == es.last()->PointerMoved_0,
        forall|i: int|
            0 <= i < es.len() && #[trigger] es[i] is Wheel ==> actions_of(run(b, es.take(i)), es[i])
                == seq![
                HostAction::<P, D, S>::Submit(
                    EngineEvent::Scroll {
                        delta: pixel_delta_of(es[i]->delta),
                        at: last_pointer(b.pointer, es.take(i)),
                        phase: scroll_phase_of(es[i]->phase),
                    },
                ),
            ],
    decreases es.len(),
{
    if es.len() > 0 {
        lemma_pointer_tracks_last_move(b, es.drop_last());
    }
    assert forall|i: int| 0 <= i < es.len() && #[trigger] es[i] is Wheel implies actions_of(
        run(b, es.take(i)),
        es[i],
    ) == seq![
        HostAction::<P, D, S>::Submit(
            EngineEvent::Scroll {
                delta: pixel_delta_of(es[i]->delta),
                at: last_pointer(b.pointer, es.take(i)),
                phase: scroll_phase_of(es[i]->phase),
            },
        ),
    ] by {
        lemma_pointer_tracks_last_move(b, es.take(i));
    }
}

/// A resize is reported to the engine exactly once, and only then is the drawing
/// surface resized, once, to the new size; the loop's state is left as it was.
pub proof fn lemma_resize_notifies_then_resizes<P, D, S>(b: Bridge<P, S>, width: u32, height: u32)
    ensures
        actions_of(b, HostEvent::<P, D, S>::Resized { width, height }) == seq![
            HostAction::<P, D, S>::Submit(EngineEvent::Resize),
            HostAction::<P, D, S>::ResizeSurface { width, height },
        ],
        next_state(b, HostEvent::<P, D, S>::Resized { width, height }) == b,
{
}

/// Any number of wake events leave the loop's state as it was, and each of them
/// hands the engine exactly one empty batch.
pub proof fn lemma_wakes_drain<P, D, S>(b: Bridge<P, S>, n: nat)
    ensures
        run(b, wakes::<P, D, S>(n)) == b,
        forall|i: int|
            0 <= i < n ==> actions_of(run(b, #[trigger] wakes::<P, D, S>(n).take(i)), wakes::<P, D, S>(n)[i])
                == seq![HostAction::<P, D, S>::Drain],
    decreases n,
{
    if n > 0 {
        lemma_wakes_drain::<P, D, S>(b, (n - 1) as nat);
        assert(wakes::<P, D, S>(n).drop_last() =~= wakes::<P, D, S>((n - 1) as nat));
    }
    assert forall|i: int| 0 <= i < n implies actions_of(
        run(b, #[trigger] wakes::<P, D, S>(n).take(i)),
        wakes::<P, D, S>(n)[i],
    ) == seq![HostAction::<P, D, S>::Drain] by {
        assert(wakes::<P, D, S>(n).take(i) =~= wakes::<P, D, S>(i as nat));
        lemma_wakes_drain::<P, D, S>(b, i as nat);
    }
}

/// The session handshake: from a fresh state, starting asks the engine for one
/// session; its answer selects exactly that identifier and makes it active; a
/// second start or a later answer changes nothing; the reload key then reloads
/// that session.
pub proof fn lemma_session_handshake<P, D, S>(b: Bridge<P, S>, id: S, later: S)
    requires
        b.session == SessionState::<S>::Unrequested,
    ensures
        ({
            let b1 = next_state(b, HostEvent::<P, D, S>::Start);
            let b2 = next_state(b1, HostEvent::<P, D, S>::SessionCreated(id));
            &&& actions_of(b, HostEvent::<P, D, S>::Start) == seq![
                HostAction::<P, D, S>::RequestSession,
            ]
            &&& b1.session == SessionState::<S>::Pending
            &&& actions_of(b1, HostEvent::<P, D, S>::SessionCreated(id)) == seq![
                HostAction::<P, D, S>::Submit(EngineEvent::SelectSession(id)),
            ]
            &&& b2.session == SessionState::Active(id)
            &&& b2.pointer == b.pointer
            &&& next_state(b2, HostEvent::<P, D, S>::SessionCreated(later)) == b2
            &&& actions_of(b2, HostEvent::<P, D, S>::SessionCreated(later)) == Seq::<
                HostAction<P, D, S>,
            >::empty()
            &&& next_state(b2, HostEvent::<P, D, S>::Start) == b2
            &&& actions_of(b2, HostEvent::<P, D, S>::Start) == Seq::<HostAction<P, D, S>>::empty()
            &&& actions_of(b2, HostEvent::<P, D, S>::Key { pressed: true, letter: Some(RELOAD_KEY) })
                == seq![HostAction::<P, D, S>::Submit(EngineEvent::Reload(id))]
        }),
{
}

} // verus!
