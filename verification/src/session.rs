//! Session startup decisions: which credential a run uses.

use vstd::prelude::*;

verus! {

/// The credential for the session: the explicit one when given, else
/// the one found in the environment; none means startup must abort
/// before any request is made.
pub fn resolve_credential(explicit: Option<String>, env_value: Option<String>) -> (r: Option<
    String,
>)
    ensures
        explicit matches Some(k) ==> r == Some(k),
        explicit is None ==> r == env_value,
        r is None <==> (explicit is None && env_value is None),
{
    match explicit {
        Some(k) => Some(k),
        None => env_value,
    }
}

} // verus!
