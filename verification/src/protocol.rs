//! The conversation between the session manager and whoever drives it.
//!
//! The manager never touches an engine, the network or a disk. It says, as a
//! [`Phase`], what has to be done outside; the driver does it and reports
//! back with an [`Event`].

use vstd::prelude::*;
use std::sync::Arc;
use crate::reply::text_outcome;

verus! {

/// Where the manager stands, and with it the outside work it waits for.
#[derive(Debug)]
pub enum Phase<E> {
    /// The chain-data server has to be asked for the current chain height.
    QueryingHeight,
    /// A new engine has to be constructed, seeded at `start_height`.
    Constructing { start_height: u64 },
    /// An engine has to be restored from persisted storage.
    Restoring,
    /// The seed phrase of the engine behind `handle` has to be read.
    ReadingSeed { handle: Arc<E> },
    /// The background monitor has to be started, bound to `handle`. Once it
    /// runs the session is installed and `reply` is handed out.
    StartingMonitor { handle: Arc<E>, reply: String },
    /// The command has to be handed, with `handle`, to a detached execution
    /// unit, whose result nobody waits for.
    Spawning { handle: Arc<E>, name: String, args: Vec<String> },
    /// The command has to be run on the calling thread against `handle`.
    Running { handle: Arc<E>, name: String, args: Vec<String> },
    /// Nothing is left to do: `reply` goes to the caller.
    Finished { reply: String },
}

/// What the driver reports back.
#[derive(Debug)]
pub enum Event<E> {
    /// The chain height, or why the server could not be reached.
    HeightQueried(Result<u64, String>),
    /// The new engine, or why it could not be constructed.
    EngineConstructed(Result<E, String>),
    /// The restored engine, or why there was nothing usable to restore.
    EngineRestored(Result<E, String>),
    /// The seed phrase, or why it could not be read.
    SeedPhraseRead(Result<String, String>),
    /// The background monitor runs.
    MonitorStarted,
    /// The command was handed to a detached execution unit.
    CommandSpawned,
    /// The command ran on the calling thread and gave this result.
    CommandReturned(String),
}

/// A [`Phase`] as a mathematical value.
pub enum PhaseView<E> {
    QueryingHeight,
    Constructing { start_height: u64 },
    Restoring,
    ReadingSeed { engine: E },
    StartingMonitor { engine: E, reply: Seq<char> },
    Spawning { engine: E, name: Seq<char>, args: Seq<Seq<char>> },
    Running { engine: E, name: Seq<char>, args: Seq<Seq<char>> },
    Finished { reply: Seq<char> },
}

/// An [`Event`] as a mathematical value.
pub enum EventView<E> {
    HeightQueried(Result<u64, Seq<char>>),
    EngineConstructed(Result<E, Seq<char>>),
    EngineRestored(Result<E, Seq<char>>),
    SeedPhraseRead(Result<Seq<char>, Seq<char>>),
    MonitorStarted,
    CommandSpawned,
    CommandReturned(Seq<char>),
}

/// What an outside operation that yields an engine came back with.
pub open spec fn engine_outcome<E>(outcome: Result<E, String>) -> Result<E, Seq<char>> {
    match outcome {
        Ok(engine) => Ok(engine),
        Err(why) => Err(why@),
    }
}

/// What the query for the chain height came back with.
pub open spec fn height_outcome(outcome: Result<u64, String>) -> Result<u64, Seq<char>> {
    match outcome {
        Ok(tip) => Ok(tip),
        Err(why) => Err(why@),
    }
}

impl<E> View for Phase<E> {
    type V = PhaseView<E>;

    open spec fn view(&self) -> PhaseView<E> {
        match self {
            Phase::QueryingHeight => PhaseView::QueryingHeight,
            Phase::Constructing { start_height } => PhaseView::Constructing {
                start_height: *start_height,
            },
            Phase::Restoring => PhaseView::Restoring,
            Phase::ReadingSeed { handle } => PhaseView::ReadingSeed { engine: **handle },
            Phase::StartingMonitor { handle, reply } => PhaseView::StartingMonitor {
                engine: **handle,
                reply: reply@,
            },
            Phase::Spawning { handle, name, args } => PhaseView::Spawning {
                engine: **handle,
                name: name@,
                args: args.deep_view(),
            },
            Phase::Running { handle, name, args } => PhaseView::Running {
                engine: **handle,
                name: name@,
                args: args.deep_view(),
            },
            Phase::Finished { reply } => PhaseView::Finished { reply: reply@ },
        }
    }
}

impl<E> View for Event<E> {
    type V = EventView<E>;

    open spec fn view(&self) -> EventView<E> {
        match self {
            Event::HeightQueried(outcome) => EventView::HeightQueried(height_outcome(*outcome)),
            Event::EngineConstructed(outcome) => EventView::EngineConstructed(
                engine_outcome(*outcome),
            ),
            Event::EngineRestored(outcome) => EventView::EngineRestored(engine_outcome(*outcome)),
            Event::SeedPhraseRead(outcome) => EventView::SeedPhraseRead(text_outcome(*outcome)),
            Event::MonitorStarted => EventView::MonitorStarted,
            Event::CommandSpawned => EventView::CommandSpawned,
            Event::CommandReturned(result) => EventView::CommandReturned(result@),
        }
    }
}

} // verus!
