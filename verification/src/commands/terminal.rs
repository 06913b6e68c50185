//! IPC handlers of the terminal handoff that need no process.

use vstd::prelude::*;

use crate::text::to_string;

verus! {

/// The workspace the folder dialog proposes: `C:/work/demo`.
pub fn open_workspace_dialog() -> (r: Result<String, String>)
    ensures
        r is Ok,
        r->Ok_0@ == "C:/work/demo"@,
{
    Ok(to_string("C:/work/demo"))
}

} // verus!
