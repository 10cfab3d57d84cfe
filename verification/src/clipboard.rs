//! Clipboard endpoint for this backend.
//!
//! Clipboard access is a capability gap here: the host integration offers
//! no transfer, so the type carries no state. Callers must not assume an
//! effect from clipboard operations on this backend.

use vstd::prelude::*;

verus! {

/// Handle standing for the backend's (absent) clipboard integration.
pub struct HaikuClipboard {}

impl HaikuClipboard {
    /// A clipboard handle; it holds nothing, as this backend transfers
    /// nothing.
    pub fn new() -> (c: HaikuClipboard)
        ensures
            c == (HaikuClipboard {  }),
    {
        HaikuClipboard {  }
    }
}

} // verus!
