//! The decisions of the poll loop: when to reconcile, what to tell the operator, and
//! when to stop.

use crate::cidr::{cidr_text, Cidr};
use crate::cidr_set::CidrSet;
use crate::error::{disposition_of, AWSError, Disposition, ErrorView};
use vstd::prelude::*;
use vstd::string::*;

verus! {

/// What the detection of the public address came to.
#[derive(Clone, Copy, Debug, PartialEq, Eq, Structural)]
pub enum Detection {
    /// The detection itself failed.
    Failed,
    /// The detection ran and found no address.
    NoAddress,
    /// The public IPv4 address, as its 32 bits.
    Address(u32),
}

/// A message for the operator's desktop.
#[derive(Debug, PartialEq, Eq)]
pub struct Notification {
    pub summary: String,
    pub body: String,
    pub urgent: bool,
}

/// The mathematical value of a [`Notification`].
pub struct NotificationView {
    pub summary: Seq<char>,
    pub body: Seq<char>,
    pub urgent: bool,
}

impl View for Notification {
    type V = NotificationView;

    open spec fn view(&self) -> NotificationView {
        NotificationView { summary: self.summary@, body: self.body@, urgent: self.urgent }
    }
}

/// What the loop remembers between ticks: the prefix that the allow-list was last
/// brought in step with.
#[derive(Clone, Copy, Debug, PartialEq, Eq, Structural)]
pub struct PollState {
    pub current: Option<Cidr>,
}

/// What the loop does at a tick.
#[derive(Debug)]
pub enum PollAction {
    /// Tell the operator that no address was found, and wait for the next tick.
    Report(Notification),
    /// The address is the one of the last tick: nothing to do.
    Skip,
    /// Bring the allow-list in step with `desired`, then hand the outcome and `address`
    /// to [`on_reconciled`].
    Reconcile { address: Cidr, desired: CidrSet },
}

/// The mathematical value of a [`PollAction`].
pub enum PollActionView {
    Report(NotificationView),
    Skip,
    Reconcile { address: Cidr, desired: Set<Cidr> },
}

impl View for PollAction {
    type V = PollActionView;

    open spec fn view(&self) -> PollActionView {
        match *self {
            PollAction::Report(n) => PollActionView::Report(n@),
            PollAction::Skip => PollActionView::Skip,
            PollAction::Reconcile { address, desired } => PollActionView::Reconcile {
                address,
                desired: desired@,
            },
        }
    }
}

/// How the loop goes on after a reconciliation.
#[derive(Debug, PartialEq, Eq)]
pub enum PollVerdict {
    /// Wait for the next tick with `state`; tell the operator what `notification` says.
    Continue { state: PollState, notification: Option<Notification> },
    /// End the run with the error.
    Abort(AWSError),
}

/// The mathematical value of a [`PollVerdict`].
pub enum PollVerdictView {
    Continue { state: PollState, notification: Option<NotificationView> },
    Abort(ErrorView),
}

impl View for PollVerdict {
    type V = PollVerdictView;

    open spec fn view(&self) -> PollVerdictView {
        match *self {
            PollVerdict::Continue { state, notification } => PollVerdictView::Continue {
                state,
                notification: match notification {
                    Some(n) => Some(n@),
                    None => None,
                },
            },
            PollVerdict::Abort(e) => PollVerdictView::Abort(e@),
        }
    }
}

/// The message about a detection that found no address.
pub open spec fn detection_failure(body: Seq<char>) -> NotificationView {
    NotificationView { summary: "Failed to retrieve external IP."@, body, urgent: true }
}

/// The message about an allow-list that was brought in step with a new address.
pub open spec fn update_notice(address: Cidr) -> NotificationView {
    NotificationView {
        summary: "Updated prefix list"@,
        body: "New IP: "@ + cidr_text(address),
        urgent: false,
    }
}

/// What a tick amounts to, given the detection.
///
/// Without an address the operator is told. With the address of the last tick nothing
/// is done. With a new one the allow-list is to hold exactly its `/32`.
pub open spec fn action_of(state: PollState, detection: Detection) -> PollActionView {
    match detection {
        Detection::Failed => PollActionView::Report(detection_failure(Seq::empty())),
        Detection::NoAddress => PollActionView::Report(detection_failure("No IP found..."@)),
        Detection::Address(bits) => if state.current == Some(Cidr::spec_host_v4(bits)) {
            PollActionView::Skip
        } else {
            PollActionView::Reconcile {
                address: Cidr::spec_host_v4(bits),
                desired: set![Cidr::spec_host_v4(bits)],
            }
        },
    }
}

/// How the loop goes on after it tried to bring the allow-list in step with `address`.
///
/// After a modification the address is remembered and the operator told. Where there
/// was nothing to do the address is remembered. An error to try again leaves the state
/// as it was, so that the next tick reconciles again. Any other error ends the run.
pub open spec fn verdict_of(
    state: PollState,
    address: Cidr,
    outcome: Result<(), ErrorView>,
) -> PollVerdictView {
    match outcome {
        Ok(()) => PollVerdictView::Continue {
            state: PollState { current: Some(address) },
            notification: Some(update_notice(address)),
        },
        Err(e) => match disposition_of(e) {
            Disposition::Success => PollVerdictView::Continue {
                state: PollState { current: Some(address) },
                notification: None,
            },
            Disposition::RetryNextTick => PollVerdictView::Continue { state, notification: None },
            Disposition::Fatal => PollVerdictView::Abort(e),
        },
    }
}

/// The views of the outcome of a reconciliation.
pub open spec fn outcome_view(outcome: Result<(), AWSError>) -> Result<(), ErrorView> {
    match outcome {
        Ok(()) => Ok(()),
        Err(e) => Err(e@),
    }
}

impl PollState {
    /// The state of a loop that has not reconciled yet.
    pub fn new() -> (state: PollState)
        ensures
            state.current is None,
    {
        PollState { current: None }
    }
}

/// Decides what to do at a tick, given the detection of the public address.
pub fn on_detection(state: &PollState, detection: Detection) -> (action: PollAction)
    ensures
        action@ == action_of(*state, detection),
        action matches PollAction::Reconcile { address, desired } ==> desired.wf() && address.wf(),
{
    match detection {
        Detection::Failed => {
            proof {
                reveal_strlit("");
            }
            let body = "".to_owned();
            assert(body@ =~= Seq::<char>::empty());
            PollAction::Report(
                Notification {
                    summary: "Failed to retrieve external IP.".to_owned(),
                    body,
                    urgent: true,
                },
            )
        },
        Detection::NoAddress => PollAction::Report(
            Notification {
                summary: "Failed to retrieve external IP.".to_owned(),
                body: "No IP found...".to_owned(),
                urgent: true,
            },
        ),
        Detection::Address(bits) => {
            let address = Cidr::host_v4(bits);
            let unchanged = match state.current {
                Some(current) => current == address,
                None => false,
            };
            if unchanged {
                PollAction::Skip
            } else {
                let mut desired = CidrSet::new();
                desired.insert(address);
                assert(desired@ =~= set![address]);
                PollAction::Reconcile { address, desired }
            }
        },
    }
}

/// Decides how to go on after a reconciliation against the `/32` of `address`.
pub fn on_reconciled(state: PollState, address: Cidr, outcome: Result<(), AWSError>) -> (verdict:
    PollVerdict)
    requires
        address.wf(),
    ensures
        verdict@ == verdict_of(state, address, outcome_view(outcome)),
{
    match outcome {
        Ok(()) => {
            let mut body = "New IP: ".to_owned();
            let text = address.to_text();
            body.append(text.as_str());
            PollVerdict::Continue {
                state: PollState { current: Some(address) },
                notification: Some(
                    Notification { summary: "Updated prefix list".to_owned(), body, urgent: false },
                ),
            }
        },
        Err(e) => match e.disposition() {
            Disposition::Success => PollVerdict::Continue {
                state: PollState { current: Some(address) },
                notification: None,
            },
            Disposition::RetryNextTick => PollVerdict::Continue { state, notification: None },
            Disposition::Fatal => PollVerdict::Abort(e),
        },
    }
}

/// The desired set of the last reconciliation of a run: the empty one, so that every
/// owned entry is removed.
pub fn on_cancel() -> (desired: CidrSet)
    ensures
        desired.wf(),
        desired@ == Set::<Cidr>::empty(),
{
    CidrSet::new()
}

} // verus!
