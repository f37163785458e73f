use allowlist_sync::batch::{BatchProgress, TolerantBatch};
use allowlist_sync::cidr::Cidr;
use allowlist_sync::cidr_set::CidrSet;
use allowlist_sync::classify::RemoteFailure;
use allowlist_sync::client::AWSClient;
use allowlist_sync::convergence::{next_tick, AwaitStep, Convergence, DEFAULT_TIMEOUT, POLL_PERIOD};
use allowlist_sync::entry::{AllowListSnapshot, ListState};
use allowlist_sync::error::{AWSError, CardinalityError};
use allowlist_sync::fetch::DescribeResponse;
use allowlist_sync::reconcile::AddEntry;

fn list(version: u64, state: Option<ListState>) -> AllowListSnapshot {
    AllowListSnapshot { id: "pl-1".to_string(), version, max_entries: 20, state, entries: vec![] }
}

fn described(state: Option<ListState>) -> Result<DescribeResponse, RemoteFailure> {
    Ok(DescribeResponse { lists: Some(vec![list(2, state)]), next_token: None })
}

fn net(text: &str) -> Cidr {
    Cidr::parse(text).unwrap()
}

#[test]
fn wait_defaults() {
    assert_eq!(DEFAULT_TIMEOUT, 60);
    assert_eq!(POLL_PERIOD, 10);
    let wait = Convergence::new("pl-1", ListState::ModifyComplete, None);
    assert_eq!(
        wait,
        Convergence {
            list_id: "pl-1".to_string(),
            desired_state: ListState::ModifyComplete,
            timeout: 60,
            period: 10
        }
    );
    let wait = Convergence::new("pl-1", ListState::DeleteComplete, Some(5));
    assert_eq!(wait.timeout, 5);
    assert_eq!(wait.period, 10);
    let client = AWSClient::new("tag");
    assert_eq!(
        client.wait_for_state("pl-1", ListState::ModifyComplete, Some(90)),
        Convergence::new("pl-1", ListState::ModifyComplete, Some(90))
    );
}

#[test]
fn next_tick_is_the_next_multiple_of_the_period() {
    assert_eq!(next_tick(10, 0), Some(10));
    assert_eq!(next_tick(10, 9), Some(10));
    assert_eq!(next_tick(10, 10), Some(20));
    // A timer that fell behind skips the ticks it missed.
    assert_eq!(next_tick(10, 37), Some(40));
    assert_eq!(next_tick(1, 7), Some(8));
    assert_eq!(next_tick(7, 50), Some(56));
    assert_eq!(next_tick(10, u64::MAX), None);
    assert_eq!(next_tick(u64::MAX, 3), Some(u64::MAX));
    assert_eq!(next_tick(u64::MAX, u64::MAX), None);
}

#[test]
fn tick_polls_until_the_time_is_up() {
    let wait = Convergence::new("pl-1", ListState::ModifyComplete, None);
    assert_eq!(wait.on_tick(0), AwaitStep::Describe);
    assert_eq!(wait.on_tick(59), AwaitStep::Describe);
    assert_eq!(wait.on_tick(60), AwaitStep::Failed(AWSError::Timeout));
    assert_eq!(wait.on_tick(61), AwaitStep::Failed(AWSError::Timeout));
    let none = Convergence::new("pl-1", ListState::ModifyComplete, Some(0));
    assert_eq!(none.on_tick(0), AwaitStep::Failed(AWSError::Timeout));
}

#[test]
fn description_in_the_awaited_state_ends_the_wait() {
    let wait = Convergence::new("pl-1", ListState::ModifyComplete, None);
    assert_eq!(
        wait.on_described(described(Some(ListState::ModifyComplete)), 0),
        AwaitStep::Done(list(2, Some(ListState::ModifyComplete)))
    );
    // Even at the last moment.
    assert_eq!(
        wait.on_described(described(Some(ListState::ModifyComplete)), 75),
        AwaitStep::Done(list(2, Some(ListState::ModifyComplete)))
    );
}

#[test]
fn description_in_another_state_sleeps_until_the_next_tick() {
    let wait = Convergence::new("pl-1", ListState::ModifyComplete, None);
    assert_eq!(
        wait.on_described(described(Some(ListState::ModifyInProgress)), 0),
        AwaitStep::Sleep { until: 10 }
    );
    assert_eq!(wait.on_described(described(None), 3), AwaitStep::Sleep { until: 10 });
    // A slow answer skips the ticks that were missed.
    assert_eq!(
        wait.on_described(described(Some(ListState::ModifyInProgress)), 27),
        AwaitStep::Sleep { until: 30 }
    );
    assert_eq!(
        wait.on_described(described(Some(ListState::ModifyInProgress)), 49),
        AwaitStep::Sleep { until: 50 }
    );
}

#[test]
fn wait_times_out_when_no_tick_is_left() {
    let wait = Convergence::new("pl-1", ListState::ModifyComplete, None);
    assert_eq!(
        wait.on_described(described(Some(ListState::ModifyInProgress)), 50),
        AwaitStep::Failed(AWSError::Timeout)
    );
    assert_eq!(
        wait.on_described(described(Some(ListState::ModifyFailed)), 1000),
        AwaitStep::Failed(AWSError::Timeout)
    );
    assert_eq!(
        wait.on_described(described(Some(ListState::ModifyInProgress)), u64::MAX),
        AwaitStep::Failed(AWSError::Timeout)
    );
}

#[test]
fn wait_ends_on_a_failed_or_ambiguous_description() {
    let wait = Convergence::new("pl-1", ListState::ModifyComplete, None);
    assert_eq!(
        wait.on_described(Err(RemoteFailure::Http { status: 403, body: vec![] }), 0),
        AwaitStep::Failed(AWSError::PermissionDenied)
    );
    let none = Ok(DescribeResponse { lists: Some(vec![]), next_token: None });
    assert_eq!(
        wait.on_described(none, 0),
        AwaitStep::Failed(AWSError::Cardinality(CardinalityError::NoneFound))
    );
    let two = Ok(DescribeResponse {
        lists: Some(vec![
            list(1, Some(ListState::ModifyComplete)),
            list(1, Some(ListState::ModifyComplete)),
        ]),
        next_token: None,
    });
    assert_eq!(
        wait.on_described(two, 0),
        AwaitStep::Failed(AWSError::Cardinality(CardinalityError::TooMany))
    );
}

#[test]
fn wait_converges_after_some_polls() {
    let wait = Convergence::new("pl-1", ListState::ModifyComplete, Some(35));
    let mut now = 0;
    let mut polls = 0;
    let outcome = loop {
        match wait.on_tick(now) {
            AwaitStep::Describe => {}
            AwaitStep::Failed(e) => break Err(e),
            other => panic!("{:?}", other),
        }
        polls += 1;
        let state =
            if polls == 3 { ListState::ModifyComplete } else { ListState::ModifyInProgress };
        // Each call takes two units.
        now += 2;
        match wait.on_described(described(Some(state)), now) {
            AwaitStep::Sleep { until } => now = until,
            AwaitStep::Done(snapshot) => break Ok(snapshot),
            AwaitStep::Failed(e) => break Err(e),
            AwaitStep::Describe => unreachable!(),
        }
    };
    assert_eq!(outcome, Ok(list(2, Some(ListState::ModifyComplete))));
    assert_eq!(polls, 3);
    assert_eq!(now, 22);
}

#[test]
fn tolerant_batch_passes_over_duplicates() {
    let additions = CidrSet::from_slice(&[net("1.1.1.1/32"), net("2.2.2.2/32"), net("3.3.3.3/32")]);
    let mut batch = TolerantBatch::new(&list(4, None), &additions, "tag");
    assert!(!batch.is_done());

    let request = batch.next_request().unwrap();
    assert_eq!(request.list_id, "pl-1");
    assert_eq!(request.current_version, 4);
    assert_eq!(
        request.add_entries,
        vec![AddEntry { cidr: "1.1.1.1/32".to_string(), description: "tag".to_string() }]
    );
    assert!(request.remove_entries.is_empty());

    // The call succeeds: the next one names the new version.
    let BatchProgress { batch: next, skipped } = batch.on_answer(Ok(Some(list(5, None)))).unwrap();
    assert_eq!(skipped, None);
    batch = next;
    let request = batch.next_request().unwrap();
    assert_eq!(request.current_version, 5);
    assert_eq!(request.add_entries[0].cidr, "2.2.2.2/32");

    // The entry is there already: a warning, and the batch goes on.
    let duplicate = b"<Errors><Error><Code>InvalidPermission.Duplicate</Code><Message>already exists</Message></Error></Errors>";
    let answer = Err(RemoteFailure::Http { status: 400, body: duplicate.to_vec() });
    let BatchProgress { batch: next, skipped } = batch.on_answer(answer).unwrap();
    assert_eq!(skipped, Some(net("2.2.2.2/32")));
    batch = next;
    let request = batch.next_request().unwrap();
    assert_eq!(request.current_version, 5);
    assert_eq!(request.add_entries[0].cidr, "3.3.3.3/32");

    let BatchProgress { batch: next, skipped } =
        batch.on_answer(Err(RemoteFailure::Service(AWSError::Duplicate))).unwrap();
    assert_eq!(skipped, Some(net("3.3.3.3/32")));
    batch = next;
    assert!(batch.is_done());
    assert_eq!(batch.next_request(), None);

    // An answer to a batch that is done changes nothing.
    let BatchProgress { batch: same, skipped } = batch.on_answer(Ok(Some(list(9, None)))).unwrap();
    assert_eq!(skipped, None);
    assert_eq!(same.version, 5);
    assert_eq!(same.position, 3);
}

#[test]
fn tolerant_batch_stops_at_any_other_error() {
    let additions = CidrSet::from_slice(&[net("1.1.1.1/32"), net("2.2.2.2/32")]);
    let batch = TolerantBatch::new(&list(4, None), &additions, "tag");
    let full = b"<Errors><Error><Code>PrefixListMaxEntriesExceeded</Code><Message>full</Message></Error></Errors>";
    assert_eq!(
        batch.on_answer(Err(RemoteFailure::Http { status: 400, body: full.to_vec() })),
        Err(AWSError::LimitExceeded)
    );
    let batch = TolerantBatch::new(&list(4, None), &additions, "tag");
    assert_eq!(
        batch.on_answer(Ok(None)),
        Err(AWSError::Cardinality(CardinalityError::NoneFound))
    );
    let batch = TolerantBatch::new(&list(4, None), &additions, "tag");
    assert_eq!(
        batch.on_answer(Err(RemoteFailure::Service(AWSError::VersionConflict))),
        Err(AWSError::VersionConflict)
    );
}

#[test]
fn tolerant_batch_of_nothing_is_done() {
    let batch = TolerantBatch::new(&list(4, None), &CidrSet::new(), "tag");
    assert!(batch.is_done());
    assert_eq!(batch.next_request(), None);
}
