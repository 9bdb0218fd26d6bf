//! The life of a session as a state machine.
//!
//! A session is opened in two native calls and released in one. Which call is
//! due depends on what the previous one answered, so the decisions are a pure
//! function from the current phase and an event to the next phase and the call
//! to perform. The driver performs the call and reports its answer as the next
//! event.

use vstd::prelude::*;
use crate::error::RyzenAdjErr;
use crate::raw::{NativeCall, INVALID_HANDLE};

verus! {

/// Where a session stands.
#[derive(Debug, Clone, Copy, PartialEq, Eq, Structural)]
pub enum Phase {
    /// Nothing was asked of the native library yet.
    Uninitialized,
    /// A handle was requested; its arrival is awaited.
    Opening,
    /// Still opening: the handle is valid and its table is being initialised.
    Initializing { handle: usize },
    /// Open and usable.
    Ready { handle: usize },
    /// Terminal: opening failed. No handle is held.
    Failed { error: RyzenAdjErr },
    /// Terminal: the session was released.
    Closed,
}

/// What happens to a session.
#[derive(Debug, Clone, Copy, PartialEq, Eq, Structural)]
pub enum Event {
    /// The owner asks for the session to be opened.
    Start,
    /// The native library answered the request for a handle.
    Opened { handle: usize },
    /// The native library answered the table initialisation.
    TableInitialized { status: i32 },
    /// The owner lets go of the session.
    Release,
}

impl Phase {
    /// The handle that the session holds and still has to release, if any.
    pub open spec fn held(self) -> Option<usize> {
        match self {
            Phase::Initializing { handle } => Some(handle),
            Phase::Ready { handle } => Some(handle),
            _ => None,
        }
    }

    /// Whether a session can be in this phase at all: a handle that is held
    /// is a valid one, and a failure is one that opening can end in.
    pub open spec fn is_sound(self) -> bool {
        match self {
            Phase::Initializing { handle } | Phase::Ready { handle } => handle != INVALID_HANDLE,
            Phase::Failed { error: RyzenAdjErr::Init } => true,
            Phase::Failed { error: RyzenAdjErr::Table(status) } => status != 0,
            Phase::Failed { .. } => false,
            _ => true,
        }
    }

    /// Whether nothing can happen to the session any more.
    pub open spec fn is_terminal(self) -> bool {
        self is Failed || self is Closed
    }

    /// The transition relation: the phase that follows `self` on `event`, and
    /// the native call that the transition asks for.
    ///
    /// An event that does not belong to the phase changes nothing and asks for
    /// nothing.
    pub open spec fn transition(self, event: Event) -> (Phase, Option<NativeCall>) {
        match (self, event) {
            (Phase::Uninitialized, Event::Start) => (Phase::Opening, Some(NativeCall::Open)),
            (Phase::Opening, Event::Opened { handle }) => if handle == INVALID_HANDLE {
                (Phase::Failed { error: RyzenAdjErr::Init }, None)
            } else {
                (Phase::Initializing { handle }, Some(NativeCall::InitTable { handle }))
            },
            (Phase::Initializing { handle }, Event::TableInitialized { status }) => if status == 0 {
                (Phase::Ready { handle }, None)
            } else {
                (
                    Phase::Failed { error: RyzenAdjErr::Table(status) },
                    Some(NativeCall::Cleanup { handle }),
                )
            },
            (Phase::Initializing { handle }, Event::Release) => (
                Phase::Closed,
                Some(NativeCall::Cleanup { handle }),
            ),
            (Phase::Ready { handle }, Event::Release) => (
                Phase::Closed,
                Some(NativeCall::Cleanup { handle }),
            ),
            _ => (self, None),
        }
    }

    /// Takes one step of the state machine.
    pub fn step(self, event: Event) -> (next: (Phase, Option<NativeCall>))
        ensures
            next == self.transition(event),
            self.is_sound() ==> next.0.is_sound(),
    {
        match (self, event) {
            (Phase::Uninitialized, Event::Start) => (Phase::Opening, Some(NativeCall::Open)),
            (Phase::Opening, Event::Opened { handle }) => {
                if handle == INVALID_HANDLE {
                    (Phase::Failed { error: RyzenAdjErr::Init }, None)
                } else {
                    (Phase::Initializing { handle }, Some(NativeCall::InitTable { handle }))
                }
            },
            (Phase::Initializing { handle }, Event::TableInitialized { status }) => {
                if status == 0 {
                    (Phase::Ready { handle }, None)
                } else {
                    (
                        Phase::Failed { error: RyzenAdjErr::Table(status) },
                        Some(NativeCall::Cleanup { handle }),
                    )
                }
            },
            (Phase::Initializing { handle }, Event::Release) => (
                Phase::Closed,
                Some(NativeCall::Cleanup { handle }),
            ),
            (Phase::Ready { handle }, Event::Release) => (
                Phase::Closed,
                Some(NativeCall::Cleanup { handle }),
            ),
            (phase, _) => (phase, None),
        }
    }
}

/// A release always lets go: afterwards no handle is held, and if one was
/// held, the call that is due is the release of that very handle.
pub proof fn lemma_release_lets_go(phase: Phase)
    ensures
        phase.transition(Event::Release).0.held() is None,
        phase.held() matches Some(handle) ==> phase.transition(Event::Release) == (
            Phase::Closed,
            Some(NativeCall::Cleanup { handle }),
        ),
        phase.held() is None ==> phase.transition(Event::Release) == (
            phase,
            None::<NativeCall>,
        ),
{
}

/// No transition asks for a call on the invalid handle, and no transition
/// leads a sound phase to an unsound one.
pub proof fn lemma_transition_is_sound(phase: Phase, event: Event)
    requires
        phase.is_sound(),
    ensures
        phase.transition(event).0.is_sound(),
        phase.transition(event).1 != Some(NativeCall::InitTable { handle: INVALID_HANDLE }),
        phase.transition(event).1 != Some(NativeCall::Cleanup { handle: INVALID_HANDLE }),
{
}

} // verus!
