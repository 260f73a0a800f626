//! The HSM extension permits the supervisor to manage the state of
//! other harts.

use crate::ExtensionId;
use vstd::prelude::*;

verus! {

/// Extension identifier for the HSM extension.
pub const EID: ExtensionId = 0x48534d;

} // verus!
