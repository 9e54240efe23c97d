//! The session manager as a transition system over mathematical values.
//!
//! A state is the content of the registry together with a phase. Entry points
//! choose the first phase; every event the driver reports moves the state on.

use vstd::prelude::*;
use crate::command::{argument_tokens, is_long_running};
use crate::height::rewound;
use crate::protocol::{EventView, PhaseView};
use crate::reply::{failure_text, no_session_text, ok_text, seed_text};

verus! {

/// The first phase of creating a new session.
pub open spec fn begin_new<E>() -> PhaseView<E> {
    PhaseView::QueryingHeight
}

/// The first phase of resuming the persisted session.
pub open spec fn begin_existing<E>() -> PhaseView<E> {
    PhaseView::Restoring
}

/// The first phase of bringing a session up: the persisted one is resumed
/// where there is one, and a new one is created where there is none.
pub open spec fn begin<E>(storage_exists: bool) -> PhaseView<E> {
    if storage_exists {
        begin_existing()
    } else {
        begin_new()
    }
}

/// The first phase of carrying out the command `name` with the argument
/// string `args` while the registry holds `slot`.
pub open spec fn dispatch<E>(slot: Option<E>, name: Seq<char>, args: Seq<char>) -> PhaseView<E> {
    match slot {
        None => PhaseView::Finished { reply: no_session_text() },
        Some(engine) => if is_long_running(name) {
            PhaseView::Spawning { engine, name, args: argument_tokens(args) }
        } else {
            PhaseView::Running { engine, name, args: argument_tokens(args) }
        },
    }
}

/// The registry after the session was torn down, whatever it held.
pub open spec fn torn_down<E>(slot: Option<E>) -> Option<E> {
    None
}

/// Tells whether `event` reports on the outside work that `phase` waits for.
pub open spec fn answers<E>(phase: PhaseView<E>, event: EventView<E>) -> bool {
    match phase {
        PhaseView::QueryingHeight => event is HeightQueried,
        PhaseView::Constructing { .. } => event is EngineConstructed,
        PhaseView::Restoring => event is EngineRestored,
        PhaseView::ReadingSeed { .. } => event is SeedPhraseRead,
        PhaseView::StartingMonitor { .. } => event is MonitorStarted,
        PhaseView::Spawning { .. } => event is CommandSpawned,
        PhaseView::Running { .. } => event is CommandReturned,
        PhaseView::Finished { .. } => false,
    }
}

/// The state that follows `(slot, phase)` when the driver reports `event`.
///
/// An event that does not answer the phase changes nothing. The registry
/// changes in one place only: when the monitor of a new or resumed engine
/// runs, that engine is installed.
pub open spec fn next<E>(slot: Option<E>, phase: PhaseView<E>, event: EventView<E>) -> (
    Option<E>,
    PhaseView<E>,
) {
    match (phase, event) {
        (PhaseView::QueryingHeight, EventView::HeightQueried(Ok(tip))) => (
            slot,
            PhaseView::Constructing { start_height: rewound(tip) },
        ),
        (PhaseView::QueryingHeight, EventView::HeightQueried(Err(why))) => (
            slot,
            PhaseView::Finished { reply: failure_text(why) },
        ),
        (PhaseView::Constructing { .. }, EventView::EngineConstructed(Ok(engine))) => (
            slot,
            PhaseView::ReadingSeed { engine },
        ),
        (PhaseView::Constructing { .. }, EventView::EngineConstructed(Err(why))) => (
            slot,
            PhaseView::Finished { reply: failure_text(why) },
        ),
        (PhaseView::Restoring, EventView::EngineRestored(Ok(engine))) => (
            slot,
            PhaseView::StartingMonitor { engine, reply: ok_text() },
        ),
        (PhaseView::Restoring, EventView::EngineRestored(Err(why))) => (
            slot,
            PhaseView::Finished { reply: failure_text(why) },
        ),
        (PhaseView::ReadingSeed { engine }, EventView::SeedPhraseRead(outcome)) => (
            slot,
            PhaseView::StartingMonitor { engine, reply: seed_text(outcome) },
        ),
        (PhaseView::StartingMonitor { engine, reply }, EventView::MonitorStarted) => (
            Some(engine),
            PhaseView::Finished { reply },
        ),
        (PhaseView::Spawning { .. }, EventView::CommandSpawned) => (
            slot,
            PhaseView::Finished { reply: ok_text() },
        ),
        (PhaseView::Running { .. }, EventView::CommandReturned(result)) => (
            slot,
            PhaseView::Finished { reply: result },
        ),
        _ => (slot, phase),
    }
}

/// The state reached from `(slot, phase)` after the driver reported
/// `events`, first to last.
pub open spec fn run<E>(slot: Option<E>, phase: PhaseView<E>, events: Seq<EventView<E>>) -> (
    Option<E>,
    PhaseView<E>,
)
    decreases events.len(),
{
    if events.len() == 0 {
        (slot, phase)
    } else {
        let before = run(slot, phase, events.drop_last());
        next(before.0, before.1, events.last())
    }
}

/// The state reached when two flows share one registry and the driver
/// reports `turns`, first to last. A turn names the flow it is for (`true`
/// for the first) and carries the event; the other flow stands still.
pub open spec fn run_both<E>(
    slot: Option<E>,
    first: PhaseView<E>,
    second: PhaseView<E>,
    turns: Seq<(bool, EventView<E>)>,
) -> (Option<E>, PhaseView<E>, PhaseView<E>)
    decreases turns.len(),
{
    if turns.len() == 0 {
        (slot, first, second)
    } else {
        let before = run_both(slot, first, second, turns.drop_last());
        let turn = turns.last();
        if turn.0 {
            let after = next(before.0, before.1, turn.1);
            (after.0, after.1, before.2)
        } else {
            let after = next(before.0, before.2, turn.1);
            (after.0, before.1, after.1)
        }
    }
}

/// The number of answers it takes at most until `phase` has a reply. Each
/// answer stands for one piece of outside work, so this bounds the outside
/// work of a flow.
pub open spec fn answers_left<E>(phase: PhaseView<E>) -> nat {
    match phase {
        PhaseView::QueryingHeight => 4,
        PhaseView::Constructing { .. } => 3,
        PhaseView::Restoring => 2,
        PhaseView::ReadingSeed { .. } => 2,
        PhaseView::StartingMonitor { .. } => 1,
        PhaseView::Spawning { .. } => 1,
        PhaseView::Running { .. } => 1,
        PhaseView::Finished { .. } => 0,
    }
}

/// Tells whether `event` hands `engine` to the manager.
pub open spec fn hands_in<E>(event: EventView<E>, engine: E) -> bool {
    event == EventView::EngineConstructed(Ok(engine)) || event == EventView::EngineRestored(
        Ok(engine),
    )
}

/// The engine that `phase` holds, where it holds one.
pub open spec fn engine_in<E>(phase: PhaseView<E>) -> Option<E> {
    match phase {
        PhaseView::ReadingSeed { engine } => Some(engine),
        PhaseView::StartingMonitor { engine, .. } => Some(engine),
        PhaseView::Spawning { engine, .. } => Some(engine),
        PhaseView::Running { engine, .. } => Some(engine),
        _ => None,
    }
}

/// Tells whether one of `events` hands `engine` to the manager.
pub open spec fn handed_in<E>(events: Seq<EventView<E>>, engine: E) -> bool {
    exists|i: int| 0 <= i < events.len() && hands_in(#[trigger] events[i], engine)
}

/// One call that may change the registry, together with what the outside
/// answered while it ran.
pub enum Call<E> {
    /// A new session is created.
    InitializeNew {
        tip: Result<u64, Seq<char>>,
        engine: Result<E, Seq<char>>,
        seed: Result<Seq<char>, Seq<char>>,
    },
    /// The persisted session is resumed.
    InitializeExisting { engine: Result<E, Seq<char>> },
    /// The session is torn down.
    Deinitialize,
}

/// The registry after `call`, which found it holding `slot`. What the
/// outside would have answered to a request that is never made plays no
/// part: a finished flow ignores it.
pub open spec fn after_call<E>(slot: Option<E>, call: Call<E>) -> Option<E> {
    match call {
        Call::InitializeNew { tip, engine, seed } => run(
            slot,
            begin_new(),
            seq![
                EventView::HeightQueried(tip),
                EventView::EngineConstructed(engine),
                EventView::SeedPhraseRead(seed),
                EventView::MonitorStarted,
            ],
        ).0,
        Call::InitializeExisting { engine } => run(
            slot,
            begin_existing(),
            seq![EventView::EngineRestored(engine), EventView::MonitorStarted],
        ).0,
        Call::Deinitialize => torn_down(slot),
    }
}

/// The registry after `calls`, first to last.
pub open spec fn after_calls<E>(slot: Option<E>, calls: Seq<Call<E>>) -> Option<E>
    decreases calls.len(),
{
    if calls.len() == 0 {
        slot
    } else {
        after_call(after_calls(slot, calls.drop_last()), calls.last())
    }
}

} // verus!
