//! The protocol by which a client that hosts the logic of a node takes work
//! from the runtime: it polls for executions that are pending, claims one,
//! runs the logic, and pushes what the logic wrote. This module decides what
//! to send at each step; the caller sends it and runs the logic.
use crate::client::Chidori;
use crate::requests::{
    follows_its_parents, FileAddressedChangeValueWithCounter,
    FilteredPollNodeWillExecuteEventsRequest, RequestAckNodeWillExecuteEvent,
};
use crate::value::ChangeValue;
use vstd::prelude::*;

verus! {

/// Where a hosted node stands. Every state but `Idle` names the execution it
/// is about: its branch and its counter on that branch.
#[derive(Clone, Copy, Debug, PartialEq, Eq, Structural)]
pub enum WorkerState {
    /// No execution is in hand.
    Idle,
    /// The runtime has announced an execution; it is not yet claimed.
    Notified { branch: u64, counter: u64 },
    /// The execution is claimed; the logic of the node runs.
    Acknowledged { branch: u64, counter: u64 },
    /// What the logic wrote is on its way to the runtime.
    Responded { branch: u64, counter: u64 },
}

/// What happened.
#[derive(Debug, PartialEq)]
pub enum WorkerEvent {
    /// A poll brought nothing: no execution is pending for the node.
    NothingPending,
    /// A poll brought an execution that is pending for the node.
    WillExecute { branch: u64, counter: u64 },
    /// The runtime accepted the claim.
    ClaimAccepted,
    /// The runtime refused the claim: the execution is no longer pending.
    ClaimRefused,
    /// The logic of the node has run and wrote `changes`.
    Computed { changes: Vec<ChangeValue> },
    /// The runtime took the response.
    ResponseTaken,
}

/// What the caller does next.
#[derive(Debug, PartialEq)]
pub enum WorkerAction {
    /// Ask the runtime for pending executions.
    Poll(FilteredPollNodeWillExecuteEventsRequest),
    /// Claim the execution.
    Acknowledge(RequestAckNodeWillExecuteEvent),
    /// Run the logic of the node.
    Execute,
    /// Push what the logic wrote.
    Respond(FileAddressedChangeValueWithCounter),
    /// The event does not belong to the state: drop it. An execution that was
    /// announced stays queued at the runtime and comes with a later poll.
    Ignore,
}

/// Whether `event` is one that `state` waits for.
pub open spec fn expected(state: WorkerState, event: WorkerEvent) -> bool {
    match state {
        WorkerState::Idle => event is WillExecute || event is NothingPending,
        WorkerState::Notified { .. } => event is ClaimAccepted || event is ClaimRefused,
        WorkerState::Acknowledged { .. } => event is Computed,
        WorkerState::Responded { .. } => event is ResponseTaken,
    }
}

/// The state after `event` in `state`. An event that the state does not wait
/// for changes nothing.
pub open spec fn next_state(state: WorkerState, event: WorkerEvent) -> WorkerState {
    match (state, event) {
        (WorkerState::Idle, WorkerEvent::WillExecute { branch, counter }) => WorkerState::Notified {
            branch,
            counter,
        },
        (
            WorkerState::Notified { branch, counter },
            WorkerEvent::ClaimAccepted,
        ) => WorkerState::Acknowledged { branch, counter },
        (WorkerState::Notified { .. }, WorkerEvent::ClaimRefused) => WorkerState::Idle,
        (
            WorkerState::Acknowledged { branch, counter },
            WorkerEvent::Computed { .. },
        ) => WorkerState::Responded { branch, counter },
        (WorkerState::Responded { .. }, WorkerEvent::ResponseTaken) => WorkerState::Idle,
        _ => state,
    }
}

/// Whether `action` is what a client of the file `file_id` that hosts the
/// node `node_name` does after `event` in `state`.
pub open spec fn is_action_after(
    action: WorkerAction,
    file_id: Seq<char>,
    node_name: Seq<char>,
    state: WorkerState,
    event: WorkerEvent,
) -> bool {
    match (state, event) {
        (WorkerState::Idle, WorkerEvent::NothingPending) => {
            &&& action matches WorkerAction::Poll(request)
            &&& request.id@ == file_id
        },
        (WorkerState::Idle, WorkerEvent::WillExecute { branch, counter }) => {
            &&& action matches WorkerAction::Acknowledge(request)
            &&& request.id@ == file_id
            &&& request.branch == branch
            &&& request.counter == counter
        },
        (WorkerState::Notified { .. }, WorkerEvent::ClaimAccepted) => action is Execute,
        (WorkerState::Notified { .. }, WorkerEvent::ClaimRefused) => {
            &&& action matches WorkerAction::Poll(request)
            &&& request.id@ == file_id
        },
        (WorkerState::Acknowledged { branch, counter }, WorkerEvent::Computed { changes }) => {
            &&& action matches WorkerAction::Respond(request)
            &&& request.id@ == file_id
            &&& request.node_name@ == node_name
            &&& request.branch == branch
            &&& request.counter == counter
            &&& request.change.filled_values == changes
            &&& request.change.parent_monotonic_counters@ == Seq::<u64>::empty()
            &&& request.change.monotonic_counter == counter
            &&& request.change.branch == branch
            &&& request.change.source_node@ == Seq::<char>::empty()
            &&& follows_its_parents(request.change)
        },
        (WorkerState::Responded { .. }, WorkerEvent::ResponseTaken) => {
            &&& action matches WorkerAction::Poll(request)
            &&& request.id@ == file_id
        },
        _ => action is Ignore,
    }
}

/// An execution that is announced, claimed, computed and taken leaves the node
/// idle again, and until then every state names that execution.
pub proof fn execution_runs_full_circle(branch: u64, counter: u64, changes: Vec<ChangeValue>)
    ensures
        ({
            let notified = next_state(
                WorkerState::Idle,
                WorkerEvent::WillExecute { branch, counter },
            );
            let claimed = next_state(notified, WorkerEvent::ClaimAccepted);
            let responded = next_state(claimed, WorkerEvent::Computed { changes });
            &&& notified == WorkerState::Notified { branch, counter }
            &&& claimed == WorkerState::Acknowledged { branch, counter }
            &&& responded == WorkerState::Responded { branch, counter }
            &&& next_state(responded, WorkerEvent::ResponseTaken) == WorkerState::Idle
        }),
{
}

/// An event that a state does not wait for leaves the state as it is.
pub proof fn unexpected_event_changes_nothing(state: WorkerState, event: WorkerEvent)
    requires
        !expected(state, event),
    ensures
        next_state(state, event) == state,
{
}

/// A claim that the runtime refuses leaves the node idle: the execution is
/// dropped, and nothing is pushed for it.
pub proof fn refused_claim_is_dropped(branch: u64, counter: u64)
    ensures
        next_state(WorkerState::Notified { branch, counter }, WorkerEvent::ClaimRefused)
            == WorkerState::Idle,
{
}

/// The state in which a hosted node begins, and the first thing to do.
pub fn begin(client: &Chidori) -> (r: (WorkerState, WorkerAction))
    ensures
        r.0 == WorkerState::Idle,
        r.1 matches WorkerAction::Poll(request) && request.id@ == client@.file_id,
{
    (WorkerState::Idle, WorkerAction::Poll(client.poll_local_code_node_execution()))
}

/// Takes an event for the node `node_name` hosted by `client`: the next
/// state, and what to do in it.
pub fn step(client: &Chidori, node_name: &String, state: WorkerState, event: WorkerEvent) -> (r: (
    WorkerState,
    WorkerAction,
))
    ensures
        r.0 == next_state(state, event),
        is_action_after(r.1, client@.file_id, node_name@, state, event),
{
    match state {
        WorkerState::Idle => match event {
            WorkerEvent::NothingPending => (
                WorkerState::Idle,
                WorkerAction::Poll(client.poll_local_code_node_execution()),
            ),
            WorkerEvent::WillExecute { branch, counter } => (
                WorkerState::Notified { branch, counter },
                WorkerAction::Acknowledge(client.ack_local_code_node_execution(branch, counter)),
            ),
            _ => (state, WorkerAction::Ignore),
        },
        WorkerState::Notified { branch, counter } => match event {
            WorkerEvent::ClaimAccepted => (
                WorkerState::Acknowledged { branch, counter },
                WorkerAction::Execute,
            ),
            WorkerEvent::ClaimRefused => (
                WorkerState::Idle,
                WorkerAction::Poll(client.poll_local_code_node_execution()),
            ),
            _ => (state, WorkerAction::Ignore),
        },
        WorkerState::Acknowledged { branch, counter } => match event {
            WorkerEvent::Computed { changes } => (
                WorkerState::Responded { branch, counter },
                WorkerAction::Respond(
                    client.respond_local_code_node_execution(
                        branch,
                        counter,
                        node_name.clone(),
                        changes,
                    ),
                ),
            ),
            _ => (state, WorkerAction::Ignore),
        },
        WorkerState::Responded { .. } => match event {
            WorkerEvent::ResponseTaken => (
                WorkerState::Idle,
                WorkerAction::Poll(client.poll_local_code_node_execution()),
            ),
            _ => (state, WorkerAction::Ignore),
        },
    }
}

} // verus!
