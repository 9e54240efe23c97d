//! Routing a command to the active session.

use vstd::prelude::*;
use crate::command::{argument_list, classify, CommandClass};
use crate::model;
use crate::protocol::{Phase, PhaseView};
use crate::registry::SessionRegistry;
use crate::reply;

verus! {

/// Decides how the command `cmd` with the argument string `args_list` is
/// carried out.
///
/// The registry is only read, and only here: the phase that comes back holds
/// a handle of its own, so the engine works without the registry. Without
/// an active session the command is refused at once and no engine is
/// involved.
pub fn exec<E>(registry: &SessionRegistry<E>, cmd: String, args_list: String) -> (phase: Phase<E>)
    ensures
        phase@ == model::dispatch(registry@, cmd@, args_list@),
        registry@ is None ==> phase@ == (PhaseView::<E>::Finished {
            reply: reply::no_session_text(),
        }),
{
    match registry.get() {
        None => Phase::Finished { reply: reply::no_session() },
        Some(handle) => {
            let class = classify(cmd.as_str());
            let args = argument_list(args_list);
            match class {
                CommandClass::LongRunning => Phase::Spawning { handle, name: cmd, args },
                CommandClass::Immediate => Phase::Running { handle, name: cmd, args },
            }
        },
    }
}

} // verus!
