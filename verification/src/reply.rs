//! The strings handed back to callers.

use vstd::prelude::*;
use vstd::string::StringExecFns;

verus! {

/// The marker returned when there is nothing more to tell than success:
/// after a session was resumed, and as the acknowledgement of a command
/// that runs in the background.
pub open spec fn ok_text() -> Seq<char> {
    "OK"@
}

/// The reply to a command that arrives while no session is active.
pub open spec fn no_session_text() -> Seq<char> {
    "Error: Light Client is not initialized"@
}

/// The reply that reports the failure an outside operation described as
/// `why`.
pub open spec fn failure_text(why: Seq<char>) -> Seq<char> {
    "Error: "@ + why
}

/// The reply after reading a seed phrase: the phrase itself, or the report
/// of why it could not be read.
pub open spec fn seed_text(seed: Result<Seq<char>, Seq<char>>) -> Seq<char> {
    match seed {
        Ok(phrase) => phrase,
        Err(why) => failure_text(why),
    }
}

/// What an outside operation that yields text came back with, as plain
/// sequences of characters.
pub open spec fn text_outcome(outcome: Result<String, String>) -> Result<Seq<char>, Seq<char>> {
    match outcome {
        Ok(text) => Ok(text@),
        Err(why) => Err(why@),
    }
}

/// Builds the success marker.
pub fn ok() -> (reply: String)
    ensures
        reply@ == ok_text(),
{
    "OK".to_owned()
}

/// Builds the reply to a command that found no active session.
pub fn no_session() -> (reply: String)
    ensures
        reply@ == no_session_text(),
{
    "Error: Light Client is not initialized".to_owned()
}

/// Builds the report of a failure described as `why`.
pub fn failure(why: &str) -> (reply: String)
    ensures
        reply@ == failure_text(why@),
{
    "Error: ".to_owned().concat(why)
}

/// Builds the reply after reading a seed phrase.
pub fn after_seed(outcome: Result<String, String>) -> (reply: String)
    ensures
        reply@ == seed_text(text_outcome(outcome)),
{
    match outcome {
        Ok(phrase) => phrase,
        Err(why) => failure(why.as_str()),
    }
}

} // verus!
