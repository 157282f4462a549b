//! What the development server reports.

use vstd::prelude::*;

verus! {

/// Changes to a running application.
#[derive(Debug, PartialEq, Eq)]
pub struct HotReloadMsg {
    /// The assets that changed.
    pub assets: Vec<String>,
    /// Whether the changes carry a jump table, which is to say that they patch code.
    pub jump_table: bool,
    /// The build the changes were made for, where they name one.
    pub for_build_id: Option<u64>,
    /// How many milliseconds making the changes took.
    pub ms_elapsed: u64,
}

/// A message from the development server.
#[derive(Debug, PartialEq, Eq)]
pub enum DevserverMsg {
    /// There are changes to apply.
    HotReload(HotReloadMsg),
    /// The application was rebuilt.
    FullReloadCommand,
    /// The application is being rebuilt.
    FullReloadStart,
    /// The application could not be rebuilt.
    FullReloadFailed,
    /// Code is being patched.
    HotPatchStart,
    /// The application is to shut down.
    Shutdown,
    /// Anything else.
    Other,
}

impl HotReloadMsg {
    /// Whether the changes patch the code of the build `build_id`.
    pub open spec fn patches(&self, build_id: u64) -> bool {
        self.jump_table && self.for_build_id == Some(build_id)
    }
}

} // verus!
