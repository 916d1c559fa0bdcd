//! Holding an import back until the package registry has loaded.

use vstd::prelude::*;
use crate::status::{StatusUpdate, StatusUpdateView, emit_update, transfer_update};

verus! {

/// What to do after the registry was asked whether it has loaded.
#[derive(Debug, PartialEq, Eq)]
pub enum GateStep {
    /// The registry is ready: go on.
    Proceed,
    /// Publish `update`, let `seconds` pass, and ask again.
    Wait { update: StatusUpdate, seconds: u64 },
}

/// The time between two looks at the registry, in seconds.
pub const POLL_SECONDS: u64 = 1;

/// The message published while the registry is still loading.
pub open spec fn fetching_text() -> Seq<char> {
    "从 Thunderstore 获取模组..."@
}

/// The update published while the registry is still loading.
pub open spec fn fetching_update() -> StatusUpdateView {
    transfer_update(fetching_text())
}

/// One look at the registry: proceed if its packages are fetched, and
/// otherwise publish the fetching message and look again a second later.
/// There is no limit to the number of looks.
pub fn wait_for_mods(packages_fetched: bool) -> (out: GateStep)
    ensures
        packages_fetched ==> out is Proceed,
        !packages_fetched ==> (out matches GateStep::Wait { update, seconds } && update@
            == fetching_update() && seconds == POLL_SECONDS),
{
    if packages_fetched {
        GateStep::Proceed
    } else {
        GateStep::Wait {
            update: emit_update("从 Thunderstore 获取模组...".to_owned()),
            seconds: POLL_SECONDS,
        }
    }
}

} // verus!
