//! Moving the session manager on when the driver reports back.

use vstd::prelude::*;
use std::sync::Arc;
use crate::height::start_height;
use crate::model;
use crate::protocol::{Event, Phase};
use crate::registry::SessionRegistry;
use crate::reply;

verus! {

/// Takes what the driver reports and says what has to be done next.
///
/// An event that does not answer `phase` is ignored: `phase` comes back as
/// it was. The registry is written in one case only, when the monitor of a
/// new or resumed engine runs: then that engine's handle is installed.
pub fn advance<E>(registry: &mut SessionRegistry<E>, phase: Phase<E>, event: Event<E>) -> (next:
    Phase<E>)
    ensures
        (final(registry)@, next@) == model::next(old(registry)@, phase@, event@),
{
    match phase {
        Phase::QueryingHeight => match event {
            Event::HeightQueried(Ok(tip)) => Phase::Constructing { start_height: start_height(tip) },
            Event::HeightQueried(Err(why)) => Phase::Finished { reply: reply::failure(why.as_str()) },
            _ => Phase::QueryingHeight,
        },
        Phase::Constructing { start_height } => match event {
            Event::EngineConstructed(Ok(engine)) => Phase::ReadingSeed { handle: Arc::new(engine) },
            Event::EngineConstructed(Err(why)) => Phase::Finished {
                reply: reply::failure(why.as_str()),
            },
            _ => Phase::Constructing { start_height },
        },
        Phase::Restoring => match event {
            Event::EngineRestored(Ok(engine)) => Phase::StartingMonitor {
                handle: Arc::new(engine),
                reply: reply::ok(),
            },
            Event::EngineRestored(Err(why)) => Phase::Finished {
                reply: reply::failure(why.as_str()),
            },
            _ => Phase::Restoring,
        },
        Phase::ReadingSeed { handle } => match event {
            Event::SeedPhraseRead(outcome) => Phase::StartingMonitor {
                handle,
                reply: reply::after_seed(outcome),
            },
            _ => Phase::ReadingSeed { handle },
        },
        Phase::StartingMonitor { handle, reply } => match event {
            Event::MonitorStarted => {
                registry.set(handle);
                Phase::Finished { reply }
            },
            _ => Phase::StartingMonitor { handle, reply },
        },
        Phase::Spawning { handle, name, args } => match event {
            Event::CommandSpawned => Phase::Finished { reply: reply::ok() },
            _ => Phase::Spawning { handle, name, args },
        },
        Phase::Running { handle, name, args } => match event {
            Event::CommandReturned(result) => Phase::Finished { reply: result },
            _ => Phase::Running { handle, name, args },
        },
        Phase::Finished { reply } => Phase::Finished { reply },
    }
}

} // verus!
