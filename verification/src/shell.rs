//! Resolving the operating system to its default command interpreter.

use crate::text::str_eq;
use vstd::prelude::*;

verus! {

/// The interpreter used for a given operating-system identifier:
/// `powershell` on `windows`, `zsh` on `macos`, `bash` anywhere else.
pub open spec fn shell_of(os: Seq<char>) -> Seq<char> {
    if os == "windows"@ {
        "powershell"@
    } else if os == "macos"@ {
        "zsh"@
    } else {
        "bash"@
    }
}

/// The default shell for the given operating-system name.
pub fn shell_for_os(os: &str) -> (r: &'static str)
    ensures
        r@ == shell_of(os@),
{
    if str_eq(os, "windows") {
        "powershell"
    } else if str_eq(os, "macos") {
        "zsh"
    } else {
        "bash"
    }
}

} // verus!
