//! The client of one file on one runtime: what it is addressed by, and the
//! request that each operation of the runtime takes.
use crate::requests::{
    follows_its_parents, ChangeValueWithCounter, FileAddressedChangeValueWithCounter,
    FilteredPollNodeWillExecuteEventsRequest, QueryAtFrame, RequestAckNodeWillExecuteEvent,
    RequestAtFrame, RequestListBranches, RequestOnlyId,
};
use crate::text::{has_scheme, names_scheme};
use crate::value::ChangeValue;
use crate::ROOT_BRANCH;
use vstd::prelude::*;

verus! {

/// The URL of a runtime names no transport scheme.
#[derive(Clone, Copy, Debug, PartialEq, Eq, Structural)]
pub struct InvalidUrl;

impl InvalidUrl {
    /// What is wrong, in words.
    pub fn message(&self) -> (text: String)
        ensures
            text@ == "Invalid url, must include protocol"@,
    {
        "Invalid url, must include protocol".to_string()
    }
}

/// A client of the file `file_id` on the runtime at `url`.
#[derive(Debug, PartialEq, Eq)]
pub struct Chidori {
    file_id: String,
    current_head: u64,
    current_branch: u64,
    url: String,
}

/// Mathematical model of a [`Chidori`].
pub struct ChidoriView {
    pub file_id: Seq<char>,
    pub current_head: u64,
    pub current_branch: u64,
    pub url: Seq<char>,
}

impl View for Chidori {
    type V = ChidoriView;

    closed spec fn view(&self) -> ChidoriView {
        ChidoriView {
            file_id: self.file_id@,
            current_head: self.current_head,
            current_branch: self.current_branch,
            url: self.url@,
        }
    }
}

impl Chidori {
    /// The URL of every client names a transport scheme.
    #[verifier::type_invariant]
    spec fn url_names_scheme(&self) -> bool {
        has_scheme(self.url@)
    }

    /// A client of the file `file_id` on the runtime at `url`, at the head of
    /// the root branch. The URL names a transport scheme: whoever has a URL
    /// of which that is not known asks `names_scheme`, or calls `try_new`.
    pub fn new(file_id: String, url: String) -> (client: Chidori)
        requires
            has_scheme(url@),
        ensures
            client@ == (ChidoriView {
                file_id: file_id@,
                current_head: 0,
                current_branch: ROOT_BRANCH,
                url: url@,
            }),
    {
        Chidori { file_id, current_head: 0, current_branch: ROOT_BRANCH, url }
    }

    /// A client of the file `file_id` on the runtime at `url`, as `new` makes
    /// it, where the URL names a transport scheme. A URL without `://` is
    /// refused, before anything is sent anywhere.
    pub fn try_new(file_id: String, url: String) -> (r: Result<Chidori, InvalidUrl>)
        ensures
            r is Ok <==> has_scheme(url@),
            r matches Ok(client) ==> client@ == (ChidoriView {
                file_id: file_id@,
                current_head: 0,
                current_branch: ROOT_BRANCH,
                url: url@,
            }),
    {
        if !names_scheme(url.as_str()) {
            return Err(InvalidUrl);
        }
        Ok(Chidori::new(file_id, url))
    }

    /// The identifier of the file.
    pub fn file_id(&self) -> (id: &String)
        ensures
            id@ == self@.file_id,
    {
        &self.file_id
    }

    /// The URL of the runtime. It names a transport scheme.
    pub fn url(&self) -> (url: &String)
        ensures
            url@ == self@.url,
            has_scheme(url@),
    {
        proof {
            use_type_invariant(self);
        }
        &self.url
    }

    /// The frame that the client takes for the head of its branch.
    pub fn current_head(&self) -> (frame: u64)
        ensures
            frame == self@.current_head,
    {
        self.current_head
    }

    /// The branch that the client works on.
    pub fn current_branch(&self) -> (branch: u64)
        ensures
            branch == self@.current_branch,
    {
        self.current_branch
    }

    /// The request that resumes evaluation of the file on `branch` at
    /// `frame`.
    pub fn play(&self, branch: u64, frame: u64) -> (request: RequestAtFrame)
        ensures
            request.id@ == self@.file_id,
            request.branch == branch,
            request.frame == frame,
    {
        RequestAtFrame { id: self.file_id.clone(), frame, branch }
    }

    /// The request that halts evaluation of the file on `branch` at `frame`.
    pub fn pause(&self, branch: u64, frame: u64) -> (request: RequestAtFrame)
        ensures
            request.id@ == self@.file_id,
            request.branch == branch,
            request.frame == frame,
    {
        RequestAtFrame { id: self.file_id.clone(), frame, branch }
    }

    /// The request that evaluates `query` on the state of the file as it was
    /// on `branch` after `frame` steps.
    pub fn query(&self, query: String, branch: u64, frame: u64) -> (request: QueryAtFrame)
        ensures
            request.id@ == self@.file_id,
            request.query == query,
            request.branch == branch,
            request.frame == frame,
    {
        QueryAtFrame { id: self.file_id.clone(), query, frame, branch }
    }

    /// The request that lists the branches of the file.
    pub fn list_branches(&self) -> (request: RequestListBranches)
        ensures
            request.id@ == self@.file_id,
    {
        RequestListBranches { id: self.file_id.clone() }
    }

    /// The request that reads the whole definition of the file on `branch`.
    pub fn current_file_state(&self, branch: u64) -> (request: RequestOnlyId)
        ensures
            request.id@ == self@.file_id,
            request.branch == branch,
    {
        RequestOnlyId { id: self.file_id.clone(), branch }
    }

    /// The request that asks which executions are pending for the nodes of
    /// the file that this client hosts.
    pub fn poll_local_code_node_execution(&self) -> (request:
        FilteredPollNodeWillExecuteEventsRequest)
        ensures
            request.id@ == self@.file_id,
    {
        FilteredPollNodeWillExecuteEventsRequest { id: self.file_id.clone() }
    }

    /// The request that claims the pending execution `counter` on `branch`.
    pub fn ack_local_code_node_execution(&self, branch: u64, counter: u64) -> (request:
        RequestAckNodeWillExecuteEvent)
        ensures
            request.id@ == self@.file_id,
            request.branch == branch,
            request.counter == counter,
    {
        RequestAckNodeWillExecuteEvent { id: self.file_id.clone(), branch, counter }
    }

    /// The request that pushes `response`, the values that the execution
    /// `counter` of the node `node_name` wrote on `branch`. The change carries
    /// the counter of the execution and names neither the changes it was
    /// computed from nor a source node: a caller that has to attribute the
    /// change fills both in before the request is sent.
    pub fn respond_local_code_node_execution(
        &self,
        branch: u64,
        counter: u64,
        node_name: String,
        response: Vec<ChangeValue>,
    ) -> (request: FileAddressedChangeValueWithCounter)
        ensures
            request.id@ == self@.file_id,
            request.node_name == node_name,
            request.branch == branch,
            request.counter == counter,
            request.change.filled_values == response,
            request.change.parent_monotonic_counters@ == Seq::<u64>::empty(),
            request.change.monotonic_counter == counter,
            request.change.branch == branch,
            request.change.source_node@ == Seq::<char>::empty(),
            follows_its_parents(request.change),
    {
        FileAddressedChangeValueWithCounter {
            branch,
            counter,
            node_name,
            id: self.file_id.clone(),
            change: ChangeValueWithCounter {
                filled_values: response,
                parent_monotonic_counters: Vec::new(),
                monotonic_counter: counter,
                branch,
                source_node: String::new(),
            },
        }
    }
}

} // verus!
