//! Waiting until an allow-list has reached a state.
//!
//! A modification is applied out of band: the remote reports a list as being modified
//! for a while. The driver polls the description at a fixed period until the awaited
//! state shows, bounded by a timeout. Times are whole units since the wait began.

use crate::classify::{class_of, classify, FailureView, RemoteFailure};
use crate::entry::{AllowListSnapshot, ListState, SnapshotView};
use crate::error::{AWSError, ErrorView};
use crate::fetch::{described_list, described_snapshot, described_view, DescribeResponse, DescribeView};
use vstd::prelude::*;
use vstd::string::*;

verus! {

/// The timeout of a wait that names none.
pub const DEFAULT_TIMEOUT: u64 = 60;

/// The period at which the description is polled.
pub const POLL_PERIOD: u64 = 10;

/// A wait for an allow-list to reach a state.
#[derive(Debug, PartialEq, Eq)]
pub struct Convergence {
    pub list_id: String,
    pub desired_state: ListState,
    pub timeout: u64,
    pub period: u64,
}

/// What the driver does next.
#[derive(Debug, PartialEq, Eq)]
pub enum AwaitStep {
    /// Ask the remote to describe the list, and hand the answer to `on_described`.
    Describe,
    /// Sleep until the given time, then call `on_tick`.
    Sleep { until: u64 },
    /// The list has reached the awaited state.
    Done(AllowListSnapshot),
    Failed(AWSError),
}

/// The mathematical value of a [`Convergence`].
pub struct ConvergenceView {
    pub list_id: Seq<char>,
    pub desired_state: ListState,
    pub timeout: nat,
    pub period: nat,
}

/// The mathematical value of an [`AwaitStep`].
pub enum AwaitStepView {
    Describe,
    Sleep { until: nat },
    Done(SnapshotView),
    Failed(ErrorView),
}

impl View for Convergence {
    type V = ConvergenceView;

    open spec fn view(&self) -> ConvergenceView {
        ConvergenceView {
            list_id: self.list_id@,
            desired_state: self.desired_state,
            timeout: self.timeout as nat,
            period: self.period as nat,
        }
    }
}

impl View for AwaitStep {
    type V = AwaitStepView;

    open spec fn view(&self) -> AwaitStepView {
        match *self {
            AwaitStep::Describe => AwaitStepView::Describe,
            AwaitStep::Sleep { until } => AwaitStepView::Sleep { until: until as nat },
            AwaitStep::Done(snapshot) => AwaitStepView::Done(snapshot@),
            AwaitStep::Failed(e) => AwaitStepView::Failed(e@),
        }
    }
}

/// The first tick after `now` of a timer that ticks at every multiple of `period`.
///
/// A timer that has fallen behind does not make up for the ticks it missed: whatever
/// the delay, the next tick is the next multiple of the period.
pub open spec fn tick_after(period: nat, now: nat) -> nat
    recommends
        period > 0,
{
    ((now / period + 1) * period) as nat
}

/// What a tick of the timer amounts to: a poll, or the timeout where the time is up.
pub open spec fn tick_of(wait: ConvergenceView, now: nat) -> AwaitStepView {
    if now >= wait.timeout {
        AwaitStepView::Failed(ErrorView::Timeout)
    } else {
        AwaitStepView::Describe
    }
}

/// What a description amounts to. A list in the awaited state ends the wait, even at
/// the last moment. Any other list leaves the driver to sleep until the next tick, if
/// there is one before the timeout. Where none is left the wait times out at once: no
/// poll could be made before the time is up. A failed call ends the wait with its
/// class, and so does a description that does not name one list.
pub open spec fn described_of(
    wait: ConvergenceView,
    answer: Result<DescribeView, FailureView>,
    now: nat,
) -> AwaitStepView {
    match answer {
        Err(failure) => AwaitStepView::Failed(class_of(failure)),
        Ok(response) => match described_list(response) {
            Err(e) => AwaitStepView::Failed(ErrorView::Cardinality(e)),
            Ok(list) => if list.state == Some(wait.desired_state) {
                AwaitStepView::Done(list)
            } else if tick_after(wait.period, now) < wait.timeout {
                AwaitStepView::Sleep { until: tick_after(wait.period, now) }
            } else {
                AwaitStepView::Failed(ErrorView::Timeout)
            },
        },
    }
}

/// The next tick is later than now, no later than one period from now, and a multiple
/// of the period.
pub proof fn lemma_tick_after(period: nat, now: nat)
    requires
        period > 0,
    ensures
        now < tick_after(period, now) <= now + period,
        tick_after(period, now) % period == 0,
{
    let p = period as int;
    let n = now as int;
    assert(n == p * (n / p) + n % p) by (nonlinear_arith)
        requires
            p > 0,
    ;
    assert((n / p + 1) * p == p * (n / p) + p) by (nonlinear_arith);
    assert(0 <= n / p) by (nonlinear_arith)
        requires
            p > 0,
            n >= 0,
    ;
    assert(0 <= n % p < p) by (nonlinear_arith)
        requires
            p > 0,
    ;
    assert(((n / p + 1) * p) % p == 0) by (nonlinear_arith)
        requires
            p > 0,
    ;
}

/// A wait makes progress and stays within its timeout: whenever the driver is sent to
/// sleep, it is until a tick that is later than now and earlier than the timeout.
pub proof fn lemma_sleep_is_bounded(
    wait: ConvergenceView,
    answer: Result<DescribeView, FailureView>,
    now: nat,
)
    requires
        wait.period > 0,
    ensures
        described_of(wait, answer, now) matches AwaitStepView::Sleep { until } ==> now < until
            < wait.timeout && until % wait.period == 0,
{
    lemma_tick_after(wait.period, now);
}

/// The first tick after `now` of a timer with the given period, if it fits the
/// machine's numbers.
pub fn next_tick(period: u64, now: u64) -> (tick: Option<u64>)
    requires
        period > 0,
    ensures
        match tick {
            Some(t) => t == tick_after(period as nat, now as nat),
            None => tick_after(period as nat, now as nat) > u64::MAX,
        },
{
    let behind: u64 = now % period;
    assert(behind <= now) by (nonlinear_arith)
        requires
            behind == now % period,
            period > 0,
    ;
    let base: u64 = now - behind;
    proof {
        let p = period as int;
        let n = now as int;
        assert(n == p * (n / p) + n % p) by (nonlinear_arith)
            requires
                p > 0,
        ;
        assert((n / p + 1) * p == p * (n / p) + p) by (nonlinear_arith);
        assert(0 <= n / p) by (nonlinear_arith)
            requires
                p > 0,
                n >= 0,
        ;
        assert(tick_after(period as nat, now as nat) == base + period);
    }
    base.checked_add(period)
}

impl Convergence {
    /// The period is not zero.
    pub open spec fn wf(&self) -> bool {
        self.period > 0
    }

    /// A wait for `list_id` to reach `desired_state`, polled every [`POLL_PERIOD`] units
    /// and given up after `timeout` units, or [`DEFAULT_TIMEOUT`] where none is named.
    pub fn new(list_id: &str, desired_state: ListState, timeout: Option<u64>) -> (wait:
        Convergence)
        ensures
            wait.wf(),
            wait@ == (ConvergenceView {
                list_id: list_id@,
                desired_state,
                timeout: match timeout {
                    Some(t) => t as nat,
                    None => DEFAULT_TIMEOUT as nat,
                },
                period: POLL_PERIOD as nat,
            }),
    {
        let timeout = match timeout {
            Some(t) => t,
            None => DEFAULT_TIMEOUT,
        };
        Convergence { list_id: list_id.to_owned(), desired_state, timeout, period: POLL_PERIOD }
    }

    /// The timer has ticked at time `now`.
    pub fn on_tick(&self, now: u64) -> (step: AwaitStep)
        ensures
            step@ == tick_of(self@, now as nat),
    {
        if now >= self.timeout {
            AwaitStep::Failed(AWSError::Timeout)
        } else {
            AwaitStep::Describe
        }
    }

    /// The remote has answered the request to describe the list, at time `now`.
    pub fn on_described(&self, answer: Result<DescribeResponse, RemoteFailure>, now: u64) -> (step:
        AwaitStep)
        requires
            self.wf(),
        ensures
            step@ == described_of(self@, described_view(answer), now as nat),
    {
        match answer {
            Err(failure) => AwaitStep::Failed(classify(failure)),
            Ok(response) => match described_snapshot(response) {
                Err(e) => AwaitStep::Failed(AWSError::Cardinality(e)),
                Ok(list) => {
                    let reached = match list.state {
                        Some(state) => state == self.desired_state,
                        None => false,
                    };
                    if reached {
                        AwaitStep::Done(list)
                    } else {
                        match next_tick(self.period, now) {
                            Some(tick) => if tick < self.timeout {
                                AwaitStep::Sleep { until: tick }
                            } else {
                                AwaitStep::Failed(AWSError::Timeout)
                            },
                            None => AwaitStep::Failed(AWSError::Timeout),
                        }
                    }
                },
            },
        }
    }
}

} // verus!
