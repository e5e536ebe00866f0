//! Classifying the assistant's answer: a response whose trimmed text
//! starts with the shell marker is a command to confirm and run, any
//! other response is a plain answer to print.

use crate::text::{has_prefix, starts_with, trim, trimmed};
use vstd::prelude::*;

verus! {

/// The fixed prefix that tags a response as a shell command.
pub open spec fn marker() -> Seq<char> {
    "[shell]"@
}

/// Whether the response text, once trimmed, carries the marker.
pub open spec fn is_command(text: Seq<char>) -> bool {
    starts_with(trimmed(text), marker())
}

/// The command a marked response carries: everything after the marker,
/// trimmed.
pub open spec fn command_of(text: Seq<char>) -> Seq<char> {
    trimmed(trimmed(text).skip(marker().len() as int))
}

/// An assistant response, told apart by the marker.
#[derive(Debug)]
pub enum Reply {
    /// A shell command to show and, on confirmation, execute.
    Command(String),
    /// A plain answer to print as it came.
    Answer(String),
}

/// Tell a marked response from a plain one and extract the command.
pub fn classify(text: &str) -> (r: Reply)
    ensures
        is_command(text@) ==> (r matches Reply::Command(c) && c@ == command_of(text@)),
        !is_command(text@) ==> (r matches Reply::Answer(a) && a@ == text@),
{
    let t = trim(text);
    proof {
        reveal_strlit("[shell]");
    }
    if has_prefix(t, "[shell]") {
        let rest = t.substring_char(7, t.unicode_len());
        proof {
            assert(rest@ =~= trimmed(text@).skip(marker().len() as int));
        }
        let cmd = trim(rest);
        Reply::Command(cmd.to_owned())
    } else {
        Reply::Answer(text.to_owned())
    }
}

/// The command to run after the confirmation prompt: the confirmed one,
/// and never one whose confirmation was declined.
pub fn approved_command(command: String, confirmed: bool) -> (r: Option<String>)
    ensures
        confirmed ==> r == Some(command),
        !confirmed ==> r is None,
{
    if confirmed {
        Some(command)
    } else {
        None
    }
}

} // verus!
