//! IPC handlers of the chat surface that need no agent connection.

use vstd::prelude::*;

verus! {

/// Accepts a non-secret UI preference. Preferences are not persisted by the
/// desktop shell; every key and value is accepted and ignored.
pub fn set_preference(key: String, value: String) -> (r: Result<(), String>)
    ensures
        r is Ok,
{
    let _ = key;
    let _ = value;
    Ok(())
}

} // verus!
