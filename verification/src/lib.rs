//! Client-side assembly of a computation graph and the requests that keep it
//! in step with a remote, versioned execution runtime.
//!
//! The crate is the decision-making half of a client: it builds nodes, wires
//! them by data dependency, stages them for a merge, and says which request
//! each runtime operation sends. Sending is left to the caller.
pub mod bindings;
pub mod client;
pub mod graph;
pub mod handle;
pub mod node;
pub mod requests;
pub mod startup;
pub mod text;
pub mod value;
pub mod worker;

use crate::value::{ChangeValue, Path, SerializedValue, Val};
use vstd::prelude::*;

verus! {

/// Identifier of the root branch of every execution history.
pub const ROOT_BRANCH: u64 = 0;

/// The change value that writes `val` at the path `address` on `branch`.
/// Without a `val` the value written is null.
pub fn create_change_value(address: Vec<String>, val: Option<Val>, branch: u64) -> (change:
    ChangeValue)
    ensures
        change.path.address == address,
        change.value.val == val,
        change.branch == branch,
{
    ChangeValue { path: Path { address }, value: SerializedValue { val }, branch }
}

} // verus!
