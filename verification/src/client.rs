//! The engine with its ownership tag: one value that plans every request of a run and
//! reads every answer.

use crate::cidr::Cidr;
use crate::cidr_set::CidrSet;
use crate::classify::{class_of, classify, FailureView, RemoteFailure};
use crate::convergence::{Convergence, ConvergenceView, DEFAULT_TIMEOUT, POLL_PERIOD};
use crate::entry::{AllowListSnapshot, ListState, SnapshotView};
use crate::error::{AWSError, ErrorView};
use crate::fetch::{
    described_list, described_snapshot, described_view, DescribeResponse, DescribeView,
};
use crate::reconcile::{
    cleanup, modify_request, plan_of, plan_view, reconcile, request_of, snapshot_result_view,
    ModifyRequest,
};
use vstd::prelude::*;
use vstd::string::*;

verus! {

/// The engine of one tool instance: it owns the entries whose description is its own.
#[derive(Debug, PartialEq, Eq)]
pub struct AWSClient {
    description: String,
}

/// What the answer to a request to describe one allow-list amounts to.
pub open spec fn described_of(answer: Result<DescribeView, FailureView>) -> Result<
    SnapshotView,
    ErrorView,
> {
    match answer {
        Err(failure) => Err(class_of(failure)),
        Ok(response) => match described_list(response) {
            Ok(list) => Ok(list),
            Err(e) => Err(ErrorView::Cardinality(e)),
        },
    }
}

impl AWSClient {
    /// The description that marks the entries of this engine.
    pub closed spec fn tag(&self) -> Seq<char> {
        self.description@
    }

    /// An engine that owns the entries described by `description`.
    pub fn new(description: &str) -> (client: AWSClient)
        ensures
            client.tag() == description@,
    {
        AWSClient { description: description.to_owned() }
    }

    /// The description that marks the entries of this engine.
    pub fn description(&self) -> (tag: &str)
        ensures
            tag@ == self.tag(),
    {
        self.description.as_str()
    }

    /// Reads the answer to a request to describe one allow-list: the list it names, a
    /// cardinality error where it names none or several, the class of the failure where
    /// the call failed.
    pub fn get_prefix_list(&self, answer: Result<DescribeResponse, RemoteFailure>) -> (r: Result<
        AllowListSnapshot,
        AWSError,
    >)
        ensures
            snapshot_result_view(r) == described_of(described_view(answer)),
    {
        match answer {
            Err(failure) => Err(classify(failure)),
            Ok(response) => match described_snapshot(response) {
                Ok(list) => Ok(list),
                Err(e) => Err(AWSError::Cardinality(e)),
            },
        }
    }

    /// Builds the request that adds `add` under this engine's description and removes
    /// `remove`, against the version of `prefix_list`.
    pub fn modify_entries(&self, prefix_list: &AllowListSnapshot, add: &CidrSet, remove: &CidrSet) -> (request:
        ModifyRequest)
        requires
            add.wf(),
            remove.wf(),
        ensures
            request@ == request_of(prefix_list@, add.elements(), remove.elements(), self.tag()),
    {
        modify_request(prefix_list, add, remove, self.description.as_str())
    }

    /// Plans the modification that makes the owned entries of `snapshot` exactly
    /// `desired`; `NothingToDo` where they already are.
    pub fn reconcile(&self, snapshot: &AllowListSnapshot, desired: &CidrSet) -> (r: Result<
        ModifyRequest,
        AWSError,
    >)
        requires
            snapshot.wf(),
            desired.wf(),
        ensures
            plan_view(r) == plan_of(snapshot@, desired.elements(), self.tag()),
    {
        reconcile(snapshot, desired, self.description.as_str())
    }

    /// Plans the removal of the owned entries of `snapshot`; `NothingToDo` where there
    /// are none.
    pub fn cleanup(&self, snapshot: &AllowListSnapshot) -> (r: Result<ModifyRequest, AWSError>)
        requires
            snapshot.wf(),
        ensures
            plan_view(r) == plan_of(snapshot@, Seq::<Cidr>::empty(), self.tag()),
            r matches Ok(request) ==> request@.add_entries.len() == 0,
    {
        cleanup(snapshot, self.description.as_str())
    }

    /// Starts the wait for an allow-list to reach `state`, given up after
    /// `wait_timeout` seconds, or sixty where none is named.
    pub fn wait_for_state(
        &self,
        prefix_list_id: &str,
        state: ListState,
        wait_timeout: Option<u64>,
    ) -> (wait: Convergence)
        ensures
            wait.wf(),
            wait@ == (ConvergenceView {
                list_id: prefix_list_id@,
                desired_state: state,
                timeout: match wait_timeout {
                    Some(t) => t as nat,
                    None => DEFAULT_TIMEOUT as nat,
                },
                period: POLL_PERIOD as nat,
            }),
    {
        Convergence::new(prefix_list_id, state, wait_timeout)
    }
}

} // verus!
