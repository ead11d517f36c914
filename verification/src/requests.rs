//! The requests that the client sends to the runtime, as plain records. Each
//! is addressed by the identifier of a file and, where the operation has
//! state, by a branch.
use crate::node::Node;
use crate::value::ChangeValue;
use vstd::prelude::*;

verus! {

/// Asks the runtime to play or to pause the file `id` on `branch` at `frame`.
#[derive(Debug, PartialEq, Eq)]
pub struct RequestAtFrame {
    pub id: String,
    pub frame: u64,
    pub branch: u64,
}

/// Asks for the values that `query` selects from the state of the file `id`
/// as it was on `branch` after `frame` steps.
#[derive(Debug, PartialEq, Eq)]
pub struct QueryAtFrame {
    pub id: String,
    pub query: String,
    pub frame: u64,
    pub branch: u64,
}

/// Asks for the branches of the file `id`.
#[derive(Debug, PartialEq, Eq)]
pub struct RequestListBranches {
    pub id: String,
}

/// Asks for the whole definition of the file `id` on `branch`.
#[derive(Debug, PartialEq, Eq)]
pub struct RequestOnlyId {
    pub id: String,
    pub branch: u64,
}

/// A graph definition, whole or in part: a flat collection of nodes.
#[derive(Debug, PartialEq, Eq)]
pub struct File {
    pub id: String,
    pub nodes: Vec<Node>,
}

/// Asks the runtime to merge `file` into the file `id` on `branch`.
#[derive(Debug, PartialEq, Eq)]
pub struct RequestFileMerge {
    pub id: String,
    pub file: File,
    pub branch: u64,
}

/// Asks for the executions that are pending for the nodes of the file `id`
/// that are hosted by this client.
#[derive(Debug, PartialEq, Eq)]
pub struct FilteredPollNodeWillExecuteEventsRequest {
    pub id: String,
}

/// Claims the pending execution `counter` on `branch` of the file `id`.
#[derive(Debug, PartialEq, Eq)]
pub struct RequestAckNodeWillExecuteEvent {
    pub id: String,
    pub branch: u64,
    pub counter: u64,
}

/// The values that one execution of a node wrote, with the counter of the
/// change and the counters of the changes it was computed from.
#[derive(Debug, PartialEq)]
pub struct ChangeValueWithCounter {
    pub filled_values: Vec<ChangeValue>,
    pub parent_monotonic_counters: Vec<u64>,
    pub monotonic_counter: u64,
    pub branch: u64,
    pub source_node: String,
}

/// Pushes the result of the execution `counter` of the node `node_name` on
/// `branch` of the file `id`.
#[derive(Debug, PartialEq)]
pub struct FileAddressedChangeValueWithCounter {
    pub id: String,
    pub node_name: String,
    pub branch: u64,
    pub counter: u64,
    pub change: ChangeValueWithCounter,
}

/// Whether the counter of `change` is greater than the counter of each change
/// that it was computed from.
pub open spec fn follows_its_parents(change: ChangeValueWithCounter) -> bool {
    forall|i: int|
        0 <= i < change.parent_monotonic_counters@.len()
            ==> change.parent_monotonic_counters@[i] < change.monotonic_counter
}

} // verus!
