//! Whole runs of the session state machine, and what holds of every run.
//!
//! A run starts in some phase and consumes a sequence of events. Its trace is
//! the sequence of native calls that the transitions asked for. The laws below
//! say that a native handle, once obtained, is released exactly once and is
//! never released when none was obtained.

use vstd::prelude::*;
use crate::error::RyzenAdjErr;
use crate::lifecycle::{Event, Phase};
use crate::raw::{NativeCall, INVALID_HANDLE};

verus! {

/// The phase reached from `phase` when `events` happen in order.
pub open spec fn phase_after(phase: Phase, events: Seq<Event>) -> Phase
    decreases events.len(),
{
    if events.len() == 0 {
        phase
    } else {
        phase_after(phase.transition(events[0]).0, events.drop_first())
    }
}

/// The native calls asked for, in order, when `events` happen from `phase`.
pub open spec fn calls_during(phase: Phase, events: Seq<Event>) -> Seq<NativeCall>
    decreases events.len(),
{
    if events.len() == 0 {
        Seq::empty()
    } else {
        let (next, call) = phase.transition(events[0]);
        let later = calls_during(next, events.drop_first());
        match call {
            Some(c) => seq![c] + later,
            None => later,
        }
    }
}

/// How many of `calls` release a handle.
pub open spec fn cleanups(calls: Seq<NativeCall>) -> nat
    decreases calls.len(),
{
    if calls.len() == 0 {
        0
    } else {
        cleanups(calls.drop_last()) + if calls.last() is Cleanup {
            1nat
        } else {
            0nat
        }
    }
}

/// How many of `calls` initialise the table of a handle. The table of a
/// handle is initialised as soon as the handle is obtained, so this is also
/// the number of valid handles that the native library has handed out.
pub open spec fn table_inits(calls: Seq<NativeCall>) -> nat
    decreases calls.len(),
{
    if calls.len() == 0 {
        0
    } else {
        table_inits(calls.drop_last()) + if calls.last() is InitTable {
            1nat
        } else {
            0nat
        }
    }
}

/// The complete trace of a session that obtained `handle` and released it.
pub open spec fn full_trace(handle: usize) -> Seq<NativeCall> {
    seq![NativeCall::Open, NativeCall::InitTable { handle }, NativeCall::Cleanup { handle }]
}

/// What the trace of a run from `Uninitialized` looks like, by the phase the
/// run ended in.
///
/// The trace is always a prefix of "open, initialise the table of the handle,
/// release that handle", and the phase tells how long the prefix is.
pub open spec fn consistent(phase: Phase, calls: Seq<NativeCall>) -> bool {
    match phase {
        Phase::Uninitialized => calls == Seq::<NativeCall>::empty(),
        Phase::Opening => calls == seq![NativeCall::Open],
        Phase::Initializing { handle } | Phase::Ready { handle } => {
            &&& handle != INVALID_HANDLE
            &&& calls == full_trace(handle).take(2)
        },
        Phase::Failed { error: RyzenAdjErr::Init } => calls == seq![NativeCall::Open],
        Phase::Failed { error: RyzenAdjErr::Table(status) } => {
            &&& status != 0
            &&& exists|handle: usize| handle != INVALID_HANDLE && calls == full_trace(handle)
        },
        Phase::Failed { .. } => false,
        Phase::Closed => exists|handle: usize|
            handle != INVALID_HANDLE && calls == full_trace(handle),
    }
}

/// One transition keeps a trace consistent with its phase.
proof fn lemma_transition_keeps_consistent(phase: Phase, calls: Seq<NativeCall>, event: Event)
    requires
        consistent(phase, calls),
    ensures
        consistent(
            phase.transition(event).0,
            match phase.transition(event).1 {
                Some(c) => calls + seq![c],
                None => calls,
            },
        ),
{
    let (next, call) = phase.transition(event);
    match phase {
        Phase::Opening => {
            if let Event::Opened { handle } = event {
                if handle != INVALID_HANDLE {
                    assert(calls + seq![NativeCall::InitTable { handle }] =~= full_trace(
                        handle,
                    ).take(2));
                }
            }
        },
        Phase::Initializing { handle } => {
            if call is Some {
                assert(calls + seq![NativeCall::Cleanup { handle }] =~= full_trace(handle));
            }
        },
        Phase::Ready { handle } => {
            if call is Some {
                assert(calls + seq![NativeCall::Cleanup { handle }] =~= full_trace(handle));
            }
        },
        _ => {},
    }
}

/// Consistency carries over from any point of a run to its end.
proof fn lemma_run_keeps_consistent(phase: Phase, calls: Seq<NativeCall>, events: Seq<Event>)
    requires
        consistent(phase, calls),
    ensures
        consistent(phase_after(phase, events), calls + calls_during(phase, events)),
    decreases events.len(),
{
    if events.len() == 0 {
        assert(calls + calls_during(phase, events) =~= calls);
    } else {
        let (next, call) = phase.transition(events[0]);
        let so_far = match call {
            Some(c) => calls + seq![c],
            None => calls,
        };
        lemma_transition_keeps_consistent(phase, calls, events[0]);
        lemma_run_keeps_consistent(next, so_far, events.drop_first());
        assert(so_far + calls_during(next, events.drop_first()) =~= calls + calls_during(
            phase,
            events,
        ));
    }
}

/// A full trace obtains one handle and releases once; its prefixes show how
/// far that got.
proof fn lemma_counts_of_prefixes(handle: usize)
    ensures
        cleanups(Seq::<NativeCall>::empty()) == 0,
        cleanups(seq![NativeCall::Open]) == 0,
        cleanups(full_trace(handle).take(2)) == 0,
        cleanups(full_trace(handle)) == 1,
        table_inits(Seq::<NativeCall>::empty()) == 0,
        table_inits(seq![NativeCall::Open]) == 0,
        table_inits(full_trace(handle).take(2)) == 1,
        table_inits(full_trace(handle)) == 1,
{
    let full = full_trace(handle);
    let two = full.take(2);
    let one = seq![NativeCall::Open];
    let none = Seq::<NativeCall>::empty();
    assert(one.drop_last() =~= none);
    assert(two.drop_last() =~= one);
    assert(full.drop_last() =~= two);
    assert(cleanups(none) == 0 && table_inits(none) == 0);
    assert(cleanups(one) == 0 && table_inits(one) == 0);
    assert(cleanups(two) == 0 && table_inits(two) == 1);
}

/// Every run of a fresh session, whatever the events and whatever the native
/// library answers, asks for a prefix of the one full trace: the handle whose
/// table is initialised is the one that was obtained, and the only handle ever
/// released is that same one, after its table initialisation was asked for.
pub proof fn lemma_every_run_is_consistent(events: Seq<Event>)
    ensures
        consistent(
            phase_after(Phase::Uninitialized, events),
            calls_during(Phase::Uninitialized, events),
        ),
{
    let none = Seq::<NativeCall>::empty();
    lemma_run_keeps_consistent(Phase::Uninitialized, none, events);
    assert(none + calls_during(Phase::Uninitialized, events) =~= calls_during(
        Phase::Uninitialized,
        events,
    ));
}

/// Handles are neither leaked nor released twice. In every run of a fresh
/// session the native library hands out at most one valid handle, and that
/// handle is either still held by the session or was released exactly once.
/// So a session that holds a handle has not released it, and a session that
/// has ended has released the handle if and only if it had obtained one.
pub proof fn lemma_release_exactly_once(events: Seq<Event>)
    ensures
        ({
            let end = phase_after(Phase::Uninitialized, events);
            let calls = calls_during(Phase::Uninitialized, events);
            let holding: nat = if end.held() is Some {
                1
            } else {
                0
            };
            &&& table_inits(calls) <= 1
            &&& cleanups(calls) + holding == table_inits(calls)
        }),
{
    let end = phase_after(Phase::Uninitialized, events);
    let calls = calls_during(Phase::Uninitialized, events);
    lemma_every_run_is_consistent(events);
    match end {
        Phase::Initializing { handle } | Phase::Ready { handle } => {
            lemma_counts_of_prefixes(handle);
        },
        Phase::Closed | Phase::Failed { error: RyzenAdjErr::Table(_) } => {
            let handle = choose|handle: usize|
                handle != INVALID_HANDLE && calls == full_trace(handle);
            lemma_counts_of_prefixes(handle);
        },
        _ => {
            lemma_counts_of_prefixes(0);
        },
    }
}

/// Nothing happens to a session that has failed or was closed: every further
/// event, a second release among them, leaves the phase as it is and asks
/// for no native call.
pub proof fn lemma_terminal_phase_absorbs(phase: Phase, events: Seq<Event>)
    requires
        phase.is_terminal(),
    ensures
        phase_after(phase, events) == phase,
        calls_during(phase, events) == Seq::<NativeCall>::empty(),
    decreases events.len(),
{
    if events.len() > 0 {
        lemma_terminal_phase_absorbs(phase, events.drop_first());
    }
}

/// Prepending one event to a run: the run takes that transition first.
proof fn lemma_run_unfolds(phase: Phase, first: Event, rest: Seq<Event>)
    ensures
        phase_after(phase, seq![first] + rest) == phase_after(phase.transition(first).0, rest),
        calls_during(phase, seq![first] + rest) == match phase.transition(first).1 {
            Some(c) => seq![c] + calls_during(phase.transition(first).0, rest),
            None => calls_during(phase.transition(first).0, rest),
        },
{
    let events = seq![first] + rest;
    assert(events[0] == first);
    assert(events.drop_first() =~= rest);
}

/// When the native library hands out the invalid handle, opening fails with
/// `Init`. The only native call of the whole run is the request for the
/// handle: no table is initialised and nothing is ever released, whatever
/// happens afterwards.
pub proof fn lemma_invalid_handle_is_never_released(later: Seq<Event>)
    ensures
        ({
            let events = seq![Event::Start, Event::Opened { handle: INVALID_HANDLE }] + later;
            &&& phase_after(Phase::Uninitialized, events) == Phase::Failed {
                error: RyzenAdjErr::Init,
            }
            &&& calls_during(Phase::Uninitialized, events) == seq![NativeCall::Open]
            &&& cleanups(calls_during(Phase::Uninitialized, events)) == 0
        }),
{
    let opened = Event::Opened { handle: INVALID_HANDLE };
    let failed = Phase::Failed { error: RyzenAdjErr::Init };
    assert(seq![Event::Start, opened] + later =~= seq![Event::Start] + (seq![opened] + later));
    lemma_run_unfolds(Phase::Uninitialized, Event::Start, seq![opened] + later);
    lemma_run_unfolds(Phase::Opening, opened, later);
    lemma_terminal_phase_absorbs(failed, later);
    assert(seq![NativeCall::Open] + Seq::<NativeCall>::empty() =~= seq![NativeCall::Open]);
    lemma_counts_of_prefixes(0);
}

/// When a valid handle is obtained but its table initialisation answers a
/// non-zero status, opening fails with `Table` of that status, and the handle
/// is released: exactly once, whatever happens afterwards.
pub proof fn lemma_failed_table_init_releases_once(handle: usize, status: i32, later: Seq<Event>)
    requires
        handle != INVALID_HANDLE,
        status != 0,
    ensures
        ({
            let events = seq![
                Event::Start,
                Event::Opened { handle },
                Event::TableInitialized { status },
            ] + later;
            &&& phase_after(Phase::Uninitialized, events) == Phase::Failed {
                error: RyzenAdjErr::Table(status),
            }
            &&& calls_during(Phase::Uninitialized, events) == full_trace(handle)
            &&& cleanups(calls_during(Phase::Uninitialized, events)) == 1
        }),
{
    let opened = Event::Opened { handle };
    let answered = Event::TableInitialized { status };
    let failed = Phase::Failed { error: RyzenAdjErr::Table(status) };
    assert(seq![Event::Start, opened, answered] + later =~= seq![Event::Start] + (seq![opened] + (
        seq![answered] + later)));
    lemma_run_unfolds(Phase::Uninitialized, Event::Start, seq![opened] + (seq![answered] + later));
    lemma_run_unfolds(Phase::Opening, opened, seq![answered] + later);
    lemma_run_unfolds(Phase::Initializing { handle }, answered, later);
    lemma_terminal_phase_absorbs(failed, later);
    assert(seq![NativeCall::Open] + (seq![NativeCall::InitTable { handle }] + (seq![
        NativeCall::Cleanup { handle },
    ] + Seq::<NativeCall>::empty())) =~= full_trace(handle));
    lemma_counts_of_prefixes(handle);
}

/// When a valid handle is obtained and its table initialisation answers zero,
/// the session is ready and holds that handle, and nothing was released.
pub proof fn lemma_opened_session_holds_its_handle(handle: usize)
    requires
        handle != INVALID_HANDLE,
    ensures
        ({
            let events = seq![
                Event::Start,
                Event::Opened { handle },
                Event::TableInitialized { status: 0 },
            ];
            &&& phase_after(Phase::Uninitialized, events) == Phase::Ready { handle }
            &&& calls_during(Phase::Uninitialized, events) == seq![
                NativeCall::Open,
                NativeCall::InitTable { handle },
            ]
            &&& cleanups(calls_during(Phase::Uninitialized, events)) == 0
        }),
{
    let opened = Event::Opened { handle };
    let answered = Event::TableInitialized { status: 0 };
    let none = Seq::<Event>::empty();
    assert(seq![Event::Start, opened, answered] =~= seq![Event::Start] + (seq![opened] + (
        seq![answered] + none)));
    lemma_run_unfolds(Phase::Uninitialized, Event::Start, seq![opened] + (seq![answered] + none));
    lemma_run_unfolds(Phase::Opening, opened, seq![answered] + none);
    lemma_run_unfolds(Phase::Initializing { handle }, answered, none);
    assert(seq![NativeCall::Open] + (seq![NativeCall::InitTable { handle }] + Seq::<
        NativeCall,
    >::empty()) =~= seq![NativeCall::Open, NativeCall::InitTable { handle }]);
    assert(seq![NativeCall::Open, NativeCall::InitTable { handle }] =~= full_trace(handle).take(2));
    lemma_counts_of_prefixes(handle);
}

/// The events of an opening, as its driver reports them: the request, the
/// handle that the native library answered with and, where that handle is
/// valid, the status that the table initialisation answered with.
pub open spec fn opening(handle: usize, status: i32) -> Seq<Event> {
    if handle == INVALID_HANDLE {
        seq![Event::Start, Event::Opened { handle }]
    } else {
        seq![Event::Start, Event::Opened { handle }, Event::TableInitialized { status }]
    }
}

/// Opening always settles, whatever the native library answers. It ends
/// ready if and only if the handle is valid and the table initialisation
/// answered zero; with `Init` if and only if the handle is invalid; and with
/// `Table` of the status otherwise.
pub proof fn lemma_opening_settles(handle: usize, status: i32)
    ensures
        phase_after(Phase::Uninitialized, opening(handle, status)) == if handle
            == INVALID_HANDLE {
            Phase::Failed { error: RyzenAdjErr::Init }
        } else if status == 0 {
            Phase::Ready { handle }
        } else {
            Phase::Failed { error: RyzenAdjErr::Table(status) }
        },
        phase_after(Phase::Uninitialized, opening(handle, status)) is Ready <==> handle
            != INVALID_HANDLE && status == 0,
{
    let none = Seq::<Event>::empty();
    if handle == INVALID_HANDLE {
        lemma_invalid_handle_is_never_released(none);
        assert(opening(handle, status) + none =~= opening(handle, status));
    } else if status == 0 {
        lemma_opened_session_holds_its_handle(handle);
    } else {
        lemma_failed_table_init_releases_once(handle, status, none);
        assert(opening(handle, status) + none =~= opening(handle, status));
    }
}

/// A run can be cut anywhere: the second part goes on from the phase that the
/// first part reached, and the trace of the whole is the two traces in a row.
pub proof fn lemma_run_splits(phase: Phase, first: Seq<Event>, second: Seq<Event>)
    ensures
        phase_after(phase, first + second) == phase_after(phase_after(phase, first), second),
        calls_during(phase, first + second) == calls_during(phase, first) + calls_during(
            phase_after(phase, first),
            second,
        ),
    decreases first.len(),
{
    if first.len() == 0 {
        assert(first + second =~= second);
        assert(Seq::<NativeCall>::empty() + calls_during(phase, second) =~= calls_during(
            phase,
            second,
        ));
    } else {
        let (next, call) = phase.transition(first[0]);
        let whole = first + second;
        assert(whole[0] == first[0]);
        assert(whole.drop_first() =~= first.drop_first() + second);
        lemma_run_splits(next, first.drop_first(), second);
        let head = calls_during(next, first.drop_first());
        let tail = calls_during(phase_after(next, first.drop_first()), second);
        if let Some(c) = call {
            assert(seq![c] + (head + tail) =~= (seq![c] + head) + tail);
        }
    }
}

/// Releasing a ready session asks for its handle to be released, once.
/// Whatever follows, a second release included, asks for nothing more.
pub proof fn lemma_release_closes_once(handle: usize, later: Seq<Event>)
    ensures
        ({
            let events = seq![Event::Release] + later;
            &&& phase_after(Phase::Ready { handle }, events) == Phase::Closed
            &&& calls_during(Phase::Ready { handle }, events) == seq![
                NativeCall::Cleanup { handle },
            ]
            &&& cleanups(calls_during(Phase::Ready { handle }, events)) == 1
        }),
{
    let released = seq![NativeCall::Cleanup { handle }];
    lemma_run_unfolds(Phase::Ready { handle }, Event::Release, later);
    lemma_terminal_phase_absorbs(Phase::Closed, later);
    assert(released + Seq::<NativeCall>::empty() =~= released);
    assert(released.drop_last() =~= Seq::<NativeCall>::empty());
    assert(cleanups(Seq::<NativeCall>::empty()) == 0);
}

/// The whole life of a session that opened: from the first request to the
/// release and beyond, the native library sees the handle requested, its
/// table initialised and the handle released, each once and in this order.
pub proof fn lemma_whole_life_is_the_full_trace(handle: usize, later: Seq<Event>)
    requires
        handle != INVALID_HANDLE,
    ensures
        ({
            let events = seq![
                Event::Start,
                Event::Opened { handle },
                Event::TableInitialized { status: 0 },
            ] + (seq![Event::Release] + later);
            &&& phase_after(Phase::Uninitialized, events) == Phase::Closed
            &&& calls_during(Phase::Uninitialized, events) == full_trace(handle)
            &&& cleanups(calls_during(Phase::Uninitialized, events)) == 1
        }),
{
    let opening = seq![
        Event::Start,
        Event::Opened { handle },
        Event::TableInitialized { status: 0 },
    ];
    lemma_opened_session_holds_its_handle(handle);
    lemma_release_closes_once(handle, later);
    lemma_run_splits(Phase::Uninitialized, opening, seq![Event::Release] + later);
    assert(seq![NativeCall::Open, NativeCall::InitTable { handle }] + seq![
        NativeCall::Cleanup { handle },
    ] =~= full_trace(handle));
    lemma_counts_of_prefixes(handle);
}

} // verus!
