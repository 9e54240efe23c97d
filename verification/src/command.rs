//! Classifying commands and shaping their argument list.

use vstd::prelude::*;
use crate::text::same_text;

verus! {

/// How a command is carried out.
#[derive(Clone, Copy, Debug, PartialEq, Eq, Structural)]
pub enum CommandClass {
    /// Handed to a detached execution unit; the caller gets an
    /// acknowledgement at once and never the result.
    LongRunning,
    /// Run on the calling thread; the caller gets the result.
    Immediate,
}

/// The commands that take long enough to be run in the background.
pub open spec fn is_long_running(name: Seq<char>) -> bool {
    name == "sync"@ || name == "rescan"@ || name == "import"@
}

/// The class of the command called `name`: every command that is not
/// long-running is immediate.
pub open spec fn class_of(name: Seq<char>) -> CommandClass {
    if is_long_running(name) {
        CommandClass::LongRunning
    } else {
        CommandClass::Immediate
    }
}

/// The arguments an engine receives for the argument string `args`: none
/// for the empty string, and otherwise the whole string as one token.
pub open spec fn argument_tokens(args: Seq<char>) -> Seq<Seq<char>> {
    if args.len() == 0 {
        Seq::empty()
    } else {
        seq![args]
    }
}

/// Classifies the command called `name`.
pub fn classify(name: &str) -> (class: CommandClass)
    ensures
        class == class_of(name@),
{
    if same_text(name, "sync") || same_text(name, "rescan") || same_text(name, "import") {
        CommandClass::LongRunning
    } else {
        CommandClass::Immediate
    }
}

/// Turns an argument string into the argument list handed to the engine.
/// The string is never split.
pub fn argument_list(args: String) -> (tokens: Vec<String>)
    ensures
        tokens.deep_view() == argument_tokens(args@),
{
    let mut tokens: Vec<String> = Vec::new();
    if !args.as_str().is_empty() {
        tokens.push(args);
    }
    assert(tokens.deep_view() =~= argument_tokens(args@));
    tokens
}

} // verus!
