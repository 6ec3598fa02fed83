use vstd::prelude::*;

use crate::input::{
    pixel_delta, pixel_delta_of, scroll_phase, scroll_phase_of, PixelDelta, ScrollPhase,
    TouchPhase, WheelDelta,
};

verus! {

/// The key that reloads the active page.
pub const RELOAD_KEY: char = 'r';

/// What reaches the host's loop: a native event, reduced to what the host reads,
/// or a step of the session handshake.
///
/// `P` is a pointer position, `D` one axis of a wheel delta, `S` a session identifier.
#[derive(Clone, Copy, Debug, PartialEq)]
pub enum HostEvent<P, D, S> {
    /// The loop is starting: ask the engine for the first session.
    Start,
    /// The engine answered the session request with this identifier.
    SessionCreated(S),
    /// Another thread fired the wake signal.
    Awakened,
    /// The pointer moved to this position, in device-independent pixels.
    PointerMoved(P),
    /// A key changed state; `letter` is the lower-case letter on it, if any.
    Key { pressed: bool, letter: Option<char> },
    /// The wheel or touchpad scrolled.
    Wheel { delta: WheelDelta<D>, phase: TouchPhase },
    /// The window now has this inner size.
    Resized { width: u32, height: u32 },
    /// Any event the host has no use for.
    Other,
}

/// An event in the engine's vocabulary.
#[derive(Clone, Copy, Debug, PartialEq)]
pub enum EngineEvent<P, D, S> {
    PointerMove(P),
    Scroll { delta: PixelDelta<D>, at: P, phase: ScrollPhase },
    Reload(S),
    Resize,
    SelectSession(S),
}

/// What the loop must do next, in order.
#[derive(Clone, Copy, Debug, PartialEq)]
pub enum HostAction<P, D, S> {
    /// Send the engine a request for a new session and block until it answers.
    RequestSession,
    /// Hand the engine an empty batch, so that it drains its own queue.
    Drain,
    /// Hand the engine a batch of this one event.
    Submit(EngineEvent<P, D, S>),
    /// Resize the native drawing surface.
    ResizeSurface { width: u32, height: u32 },
}

/// Where the handshake for the host's one session stands.
#[derive(Clone, Copy, Debug, PartialEq)]
pub enum SessionState<S> {
    Unrequested,
    Pending,
    Active(S),
}

/// The state that the loop keeps between events.
#[derive(Clone, Copy, Debug, PartialEq)]
pub struct Bridge<P, S> {
    /// The last known pointer position; scroll events carry it.
    pub pointer: P,
    pub session: SessionState<S>,
}

/// The state after one event.
pub open spec fn next_state<P, D, S>(b: Bridge<P, S>, e: HostEvent<P, D, S>) -> Bridge<P, S> {
    match e {
        HostEvent::Start => match b.session {
            SessionState::Unrequested => Bridge { session: SessionState::Pending, ..b },
            _ => b,
        },
        HostEvent::SessionCreated(id) => match b.session {
            SessionState::Pending => Bridge { session: SessionState::Active(id), ..b },
            _ => b,
        },
        HostEvent::PointerMoved(p) => Bridge { pointer: p, ..b },
        _ => b,
    }
}

/// Whether a key event asks for a reload.
pub open spec fn is_reload_key(pressed: bool, letter: Option<char>) -> bool {
    pressed && letter == Some(RELOAD_KEY)
}

/// The actions that one event calls for, in the order the loop performs them.
pub open spec fn actions_of<P, D, S>(b: Bridge<P, S>, e: HostEvent<P, D, S>) -> Seq<
    HostAction<P, D, S>,
> {
    match e {
        HostEvent::Start => match b.session {
            SessionState::Unrequested => seq![HostAction::RequestSession],
            _ => seq![],
        },
        HostEvent::SessionCreated(id) => match b.session {
            SessionState::Pending => seq![HostAction::Submit(EngineEvent::SelectSession(id))],
            _ => seq![],
        },
        HostEvent::Awakened => seq![HostAction::Drain],
        HostEvent::PointerMoved(p) => seq![HostAction::Submit(EngineEvent::PointerMove(p))],
        HostEvent::Key { pressed, letter } => match b.session {
            SessionState::Active(id) => if is_reload_key(pressed, letter) {
                seq![HostAction::Submit(EngineEvent::Reload(id))]
            } else {
                seq![]
            },
            _ => seq![],
        },
        HostEvent::Wheel { delta, phase } => seq![
            HostAction::Submit(
                EngineEvent::Scroll {
                    delta: pixel_delta_of(delta),
                    at: b.pointer,
                    phase: scroll_phase_of(phase),
                },
            ),
        ],
        HostEvent::Resized { width, height } => seq![
            HostAction::Submit(EngineEvent::Resize),
            HostAction::ResizeSurface { width, height },
        ],
        HostEvent::Other => seq![],
    }
}

impl<P: Copy, S: Copy> Bridge<P, S> {
    /// A bridge with the pointer at `origin` and no session yet.
    pub fn new(origin: P) -> (r: Self)
        ensures
            r.pointer == origin,
            r.session == SessionState::<S>::Unrequested,
    {
        Bridge { pointer: origin, session: SessionState::Unrequested }
    }

    /// The identifier of the active session, once the handshake is done.
    pub fn active_session(&self) -> (r: Option<S>)
        ensures
            r == (match self.session {
                SessionState::Active(id) => Some(id),
                _ => None,
            }),
    {
        match self.session {
            SessionState::Active(id) => Some(id),
            _ => None,
        }
    }

    /// Takes one event and returns what the loop must do for it, in order.
    pub fn handle<D: Copy>(&mut self, e: HostEvent<P, D, S>) -> (r: Vec<HostAction<P, D, S>>)
        ensures
            *final(self) == next_state(*old(self), e),
            r@ == actions_of(*old(self), e),
    {
        let mut r: Vec<HostAction<P, D, S>> = Vec::new();
        match e {
            HostEvent::Start => {
                if let SessionState::Unrequested = self.session {
                    self.session = SessionState::Pending;
                    r.push(HostAction::RequestSession);
                }
            },
            HostEvent::SessionCreated(id) => {
                if let SessionState::Pending = self.session {
                    self.session = SessionState::Active(id);
                    r.push(HostAction::Submit(EngineEvent::SelectSession(id)));
                }
            },
            HostEvent::Awakened => {
                r.push(HostAction::Drain);
            },
            HostEvent::PointerMoved(p) => {
                self.pointer = p;
                r.push(HostAction::Submit(EngineEvent::PointerMove(p)));
            },
            HostEvent::Key { pressed, letter } => {
                if let SessionState::Active(id) = self.session {
                    let reload = match letter {
                        Some(c) => pressed && c == RELOAD_KEY,
                        None => false,
                    };
                    if reload {
                        r.push(HostAction::Submit(EngineEvent::Reload(id)));
                    }
                }
            },
            HostEvent::Wheel { delta, phase } => {
                let scroll = EngineEvent::Scroll {
                    delta: pixel_delta(delta),
                    at: self.pointer,
                    phase: scroll_phase(phase),
                };
                r.push(HostAction::Submit(scroll));
            },
            HostEvent::Resized { width, height } => {
                r.push(HostAction::Submit(EngineEvent::Resize));
                r.push(HostAction::ResizeSurface { width, height });
            },
            HostEvent::Other => {},
        }
        proof {
            assert(r@ =~= actions_of(*old(self), e));
        }
        r
    }
}

} // verus!
