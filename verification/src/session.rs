//! The session handle and its typed accessors.
//!
//! A `RyzenAccess` owns at most one native handle. It never performs a native
//! call itself: every method answers with the call that is due, and the driver
//! that owns the session performs it. A session that is not ready answers
//! with no call at all, so nothing can reach the native library through a
//! session that failed to open or was released.

use vstd::prelude::*;
use crate::error::RyzenAdjErr;
use crate::lifecycle::{Event, Phase};
use crate::raw::{Control, CoreTelemetry, Info, Limit, NativeCall, Telemetry};

verus! {

/// Where the live table of a session lies: a region of memory that belongs to
/// the native library.
///
/// The region is only borrowed. It is valid while the session named by
/// `handle` is ready, and only until the table is next refreshed.
#[derive(Debug, Clone, Copy, PartialEq, Eq, Structural)]
pub struct TableView {
    /// The session the table belongs to.
    pub handle: usize,
    /// Address of the first value.
    pub base: usize,
    /// Extent of the table, as the session reports its size.
    pub len: usize,
}

/// A session with the native library.
///
/// It is neither `Clone` nor `Copy`: the native handle has one owner.
#[derive(Debug)]
pub struct RyzenAccess {
    phase: Phase,
}

impl View for RyzenAccess {
    type V = Phase;

    closed spec fn view(&self) -> Phase {
        self.phase
    }
}

impl RyzenAccess {
    /// A session is only ever in a sound phase: the handle it holds is never
    /// the invalid one.
    #[verifier::type_invariant]
    pub open spec fn sound(&self) -> bool {
        self@.is_sound()
    }

    /// A session of which nothing was asked yet. Feed it `Event::Start` to
    /// open it.
    pub fn new() -> (session: Self)
        ensures
            session@ == Phase::Uninitialized,
    {
        RyzenAccess { phase: Phase::Uninitialized }
    }

    /// Tells the session what happened. Answers with the native call that is
    /// due now, whose answer is the next event.
    pub fn step(&mut self, event: Event) -> (call: Option<NativeCall>)
        ensures
            (final(self)@, call) == old(self)@.transition(event),
    {
        proof {
            use_type_invariant(&*self);
        }
        let (next, call) = self.phase.step(event);
        self.phase = next;
        call
    }

    /// Lets go of the session for good. Answers with the release of the
    /// handle if one is held; the session itself is used up.
    pub fn close(self) -> (call: Option<NativeCall>)
        ensures
            call == self@.transition(Event::Release).1,
            call == match self@.held() {
                Some(handle) => Some(NativeCall::Cleanup { handle }),
                None => None,
            },
    {
        let (_, call) = self.phase.step(Event::Release);
        call
    }

    /// The phase the session is in.
    pub fn phase(&self) -> (phase: Phase)
        ensures
            phase == self@,
            phase.is_sound(),
    {
        proof {
            use_type_invariant(self);
        }
        self.phase
    }

    /// Whether accessors may be used.
    pub fn is_ready(&self) -> (ready: bool)
        ensures
            ready == (self@ is Ready),
    {
        match self.phase {
            Phase::Ready { .. } => true,
            _ => false,
        }
    }

    /// How opening ended: `Ok` once the session is ready, the failure once it
    /// has failed, and nothing while it is still opening or after it was
    /// closed.
    pub fn outcome(&self) -> (outcome: Option<Result<(), RyzenAdjErr>>)
        ensures
            outcome == match self@ {
                Phase::Ready { .. } => Some(Ok::<(), RyzenAdjErr>(())),
                Phase::Failed { error } => Some(Err::<(), RyzenAdjErr>(error)),
                _ => None,
            },
    {
        match self.phase {
            Phase::Ready { .. } => Some(Ok(())),
            Phase::Failed { error } => Some(Err(error)),
            _ => None,
        }
    }

    /// Reads an integer that the native library reports about itself.
    pub fn get_info(&self, info: Info) -> (call: Option<NativeCall>)
        ensures
            call == match self@ {
                Phase::Ready { handle } => Some(NativeCall::Query { handle, info }),
                _ => None,
            },
    {
        match self.phase {
            Phase::Ready { handle } => Some(NativeCall::Query { handle, info }),
            _ => None,
        }
    }

    /// Reads one telemetry field of the package.
    ///
    /// The native call answers with a floating-point number, which is the
    /// caller's as it comes. A read cannot fail at this layer: where the
    /// hardware lacks the field, the number is stale or not a number.
    pub fn get(&self, field: Telemetry) -> (call: Option<NativeCall>)
        ensures
            call == match self@ {
                Phase::Ready { handle } => Some(NativeCall::Read { handle, field }),
                _ => None,
            },
    {
        match self.phase {
            Phase::Ready { handle } => Some(NativeCall::Read { handle, field }),
            _ => None,
        }
    }

    /// Reads one telemetry field of one core. The core index is not checked
    /// here: it reaches the native library as it was given.
    pub fn get_core(&self, stat: CoreTelemetry, core: u32) -> (call: Option<NativeCall>)
        ensures
            call == match self@ {
                Phase::Ready { handle } => Some(NativeCall::ReadCore { handle, stat, core }),
                _ => None,
            },
    {
        match self.phase {
            Phase::Ready { handle } => Some(NativeCall::ReadCore { handle, stat, core }),
            _ => None,
        }
    }

    /// Writes a limit. The result code that the native call answers is to be
    /// classified with `RyzenAdjErr::from_set_code`.
    pub fn set(&self, limit: Limit, value: u32) -> (call: Option<NativeCall>)
        ensures
            call == match self@ {
                Phase::Ready { handle } => Some(NativeCall::Write { handle, limit, value }),
                _ => None,
            },
    {
        match self.phase {
            Phase::Ready { handle } => Some(NativeCall::Write { handle, limit, value }),
            _ => None,
        }
    }

    /// Switches a control. The result code is classified like that of `set`.
    pub fn set_control(&self, control: Control) -> (call: Option<NativeCall>)
        ensures
            call == match self@ {
                Phase::Ready { handle } => Some(NativeCall::Toggle { handle, control }),
                _ => None,
            },
    {
        match self.phase {
            Phase::Ready { handle } => Some(NativeCall::Toggle { handle, control }),
            _ => None,
        }
    }

    /// Samples the live table anew. The result code of this call is handed to
    /// the caller as it is: zero for success, anything else for failure.
    pub fn refresh_table(&self) -> (call: Option<NativeCall>)
        ensures
            call == match self@ {
                Phase::Ready { handle } => Some(NativeCall::RefreshTable { handle }),
                _ => None,
            },
    {
        match self.phase {
            Phase::Ready { handle } => Some(NativeCall::RefreshTable { handle }),
            _ => None,
        }
    }

    /// Asks where the live table lies.
    pub fn get_table_values(&self) -> (call: Option<NativeCall>)
        ensures
            call == match self@ {
                Phase::Ready { handle } => Some(NativeCall::TableValues { handle }),
                _ => None,
            },
    {
        match self.phase {
            Phase::Ready { handle } => Some(NativeCall::TableValues { handle }),
            _ => None,
        }
    }

    /// Describes the live table from what the native library answered: `base`
    /// to `get_table_values`, `size` to the query for `Info::TableSize`.
    pub fn table_view(&self, base: usize, size: usize) -> (view: Option<TableView>)
        ensures
            view == match self@ {
                Phase::Ready { handle } => Some(TableView { handle, base, len: size }),
                _ => None,
            },
    {
        match self.phase {
            Phase::Ready { handle } => Some(TableView { handle, base, len: size }),
            _ => None,
        }
    }
}

} // verus!
