use allowlist_sync::classify::RemoteFailure;
use allowlist_sync::cidr::ParseError;
use allowlist_sync::client::AWSClient;
use allowlist_sync::entry::{AllowListEntry, AllowListSnapshot, ListState};
use allowlist_sync::error::{AWSError, CardinalityError};
use allowlist_sync::fetch::{
    begin_fetch, continue_fetch, described_snapshot, read_page, read_record, report_unreadable,
    DescribeResponse, EntryPage, EntryRecord, Fetch, FetchStep, MAX_PAGES,
};

fn list(id: &str, version: u64) -> AllowListSnapshot {
    AllowListSnapshot {
        id: id.to_string(),
        version,
        max_entries: 20,
        state: Some(ListState::CreateComplete),
        entries: vec![],
    }
}

fn record(cidr: &str, description: &str) -> EntryRecord {
    EntryRecord { cidr: Some(cidr.to_string()), description: Some(description.to_string()) }
}

fn entry(cidr: &str, description: &str) -> AllowListEntry {
    AllowListEntry::parse(cidr, description).unwrap()
}

fn described(lists: Option<Vec<AllowListSnapshot>>) -> Result<DescribeResponse, RemoteFailure> {
    Ok(DescribeResponse { lists, next_token: None })
}

/// A remote that serves a fixed sequence of pages and counts the calls.
struct Stub {
    pages: Vec<Vec<EntryRecord>>,
    calls: usize,
    tokens_seen: Vec<Option<String>>,
}

impl Stub {
    fn list_entries(&mut self, list_id: &str, version: u64, token: Option<String>) -> EntryPage {
        assert_eq!(list_id, "pl-1");
        assert_eq!(version, 9);
        let index = match &token {
            None => 0,
            Some(t) => t.parse::<usize>().unwrap(),
        };
        self.calls += 1;
        self.tokens_seen.push(token);
        let entries = std::mem::take(&mut self.pages[index]);
        let next_token =
            if index + 1 < self.pages.len() { Some((index + 1).to_string()) } else { None };
        EntryPage { entries: Some(entries), next_token }
    }
}

fn run(stub: &mut Stub) -> Result<AllowListSnapshot, AWSError> {
    let mut step = begin_fetch(described(Some(vec![list("pl-1", 9)])));
    loop {
        match step {
            FetchStep::Request { fetch, page_token } => {
                let page =
                    stub.list_entries(&fetch.snapshot.id, fetch.snapshot.version, page_token);
                step = continue_fetch(fetch, Ok(page));
            }
            FetchStep::Done(snapshot) => return Ok(snapshot),
            FetchStep::Failed(e) => return Err(e),
        }
    }
}

#[test]
fn fetch_against_zero_lists_is_cardinality_none() {
    assert_eq!(
        begin_fetch(described(Some(vec![]))),
        FetchStep::Failed(AWSError::Cardinality(CardinalityError::NoneFound))
    );
    assert_eq!(
        begin_fetch(described(None)),
        FetchStep::Failed(AWSError::Cardinality(CardinalityError::NoneFound))
    );
}

#[test]
fn fetch_against_two_lists_is_cardinality_too_many() {
    assert_eq!(
        begin_fetch(described(Some(vec![list("pl-1", 1), list("pl-2", 1)]))),
        FetchStep::Failed(AWSError::Cardinality(CardinalityError::TooMany))
    );
}

#[test]
fn fetch_with_a_token_on_the_description_is_too_many() {
    let answer = Ok(DescribeResponse {
        lists: Some(vec![list("pl-1", 1)]),
        next_token: Some("more".to_string()),
    });
    assert_eq!(
        begin_fetch(answer),
        FetchStep::Failed(AWSError::Cardinality(CardinalityError::TooMany))
    );
    // No list at all is reported as such, token or not.
    let answer =
        Ok(DescribeResponse { lists: Some(vec![]), next_token: Some("more".to_string()) });
    assert_eq!(
        begin_fetch(answer),
        FetchStep::Failed(AWSError::Cardinality(CardinalityError::NoneFound))
    );
}

#[test]
fn fetch_begins_with_the_first_page_and_no_entries() {
    let mut described_list = list("pl-1", 9);
    described_list.entries.push(entry("9.9.9.9/32", "stale"));
    let step = begin_fetch(described(Some(vec![described_list])));
    assert_eq!(
        step,
        FetchStep::Request {
            fetch: Fetch { snapshot: list("pl-1", 9), pages: 0 },
            page_token: None
        }
    );
}

#[test]
fn fetch_failure_of_the_description_is_classified() {
    let failure = RemoteFailure::Http { status: 403, body: vec![] };
    assert_eq!(begin_fetch(Err(failure)), FetchStep::Failed(AWSError::PermissionDenied));
}

#[test]
fn pagination_returns_all_pages_in_order_with_one_call_each() {
    for n in 1..6usize {
        let pages: Vec<Vec<EntryRecord>> = (0..n)
            .map(|p| {
                (0..p + 1).map(|i| record(&format!("10.{}.{}.0/24", p, i), "tag")).collect()
            })
            .collect();
        let expected: Vec<AllowListEntry> = (0..n)
            .flat_map(|p| (0..p + 1).map(move |i| entry(&format!("10.{}.{}.0/24", p, i), "tag")))
            .collect();
        let mut stub = Stub { pages, calls: 0, tokens_seen: vec![] };
        let snapshot = run(&mut stub).unwrap();
        assert_eq!(snapshot.entries, expected);
        assert_eq!(snapshot.id, "pl-1");
        assert_eq!(snapshot.version, 9);
        assert_eq!(stub.calls, n);
        let tokens: Vec<Option<String>> =
            (0..n).map(|i| if i == 0 { None } else { Some(i.to_string()) }).collect();
        assert_eq!(stub.tokens_seen, tokens);
    }
}

#[test]
fn pagination_counts_the_pages() {
    let fetch = Fetch { snapshot: list("pl-1", 9), pages: 3 };
    let page = EntryPage { entries: Some(vec![record("1.1.1.1/32", "a")]), next_token: Some("t".into()) };
    let mut after = list("pl-1", 9);
    after.entries.push(entry("1.1.1.1/32", "a"));
    assert_eq!(
        continue_fetch(fetch, Ok(page)),
        FetchStep::Request {
            fetch: Fetch { snapshot: after, pages: 4 },
            page_token: Some("t".to_string())
        }
    );
}

#[test]
fn pagination_gives_up_after_the_page_limit() {
    assert_eq!(MAX_PAGES, 4096);
    let page = |token: Option<&str>| EntryPage { entries: None, next_token: token.map(String::from) };
    // The last page that may carry a token is the one before the limit.
    let fetch = Fetch { snapshot: list("pl-1", 9), pages: MAX_PAGES - 2 };
    assert!(matches!(continue_fetch(fetch, Ok(page(Some("t")))), FetchStep::Request { .. }));
    let fetch = Fetch { snapshot: list("pl-1", 9), pages: MAX_PAGES - 1 };
    assert_eq!(
        continue_fetch(fetch, Ok(page(Some("t")))),
        FetchStep::Failed(AWSError::Unknown { details: "Too many pages.".to_string() })
    );
    // A last page is taken even there.
    let fetch = Fetch { snapshot: list("pl-1", 9), pages: MAX_PAGES - 1 };
    assert_eq!(continue_fetch(fetch, Ok(page(None))), FetchStep::Done(list("pl-1", 9)));
    let fetch = Fetch { snapshot: list("pl-1", 9), pages: u64::MAX };
    assert!(matches!(continue_fetch(fetch, Ok(page(Some("t")))), FetchStep::Failed(_)));
}

#[test]
fn page_without_a_list_has_no_entries() {
    let fetch = Fetch { snapshot: list("pl-1", 9), pages: 0 };
    let page = EntryPage { entries: None, next_token: None };
    assert_eq!(continue_fetch(fetch, Ok(page)), FetchStep::Done(list("pl-1", 9)));
}

#[test]
fn page_failure_is_classified() {
    let fetch = Fetch { snapshot: list("pl-1", 9), pages: 0 };
    let failure = RemoteFailure::Credentials { message: "expired".to_string() };
    assert_eq!(
        continue_fetch(fetch, Err(failure)),
        FetchStep::Failed(AWSError::Credentials { message: "expired".to_string() })
    );
}

#[test]
fn unreadable_record_fails_the_fetch_with_its_prefix() {
    let fetch = Fetch { snapshot: list("pl-1", 9), pages: 0 };
    let page = EntryPage {
        entries: Some(vec![
            record("1.1.1.1/32", "ok"),
            record("1.1.1.1/40", "bad"),
            record("also bad", "bad"),
        ]),
        next_token: None,
    };
    assert_eq!(
        continue_fetch(fetch, Ok(page)),
        FetchStep::Failed(AWSError::Unknown {
            details: "Malformed CIDR in entry: 1.1.1.1/40".to_string()
        })
    );
}

#[test]
fn records_are_read_with_their_defaults() {
    assert_eq!(read_record(&record("1.2.3.4/32", "home")), Ok(entry("1.2.3.4/32", "home")));
    let bare = EntryRecord { cidr: Some("1.2.3.4/32".to_string()), description: None };
    assert_eq!(read_record(&bare), Ok(entry("1.2.3.4/32", "")));
    let empty = EntryRecord { cidr: None, description: Some("home".to_string()) };
    assert_eq!(read_record(&empty), Err(ParseError::MalformedCidr));
    assert_eq!(report_unreadable(&empty, ParseError::MalformedCidr), "Malformed CIDR in entry: ");
    assert_eq!(read_record(&record("nope", "home")), Err(ParseError::MalformedCidr));
    assert_eq!(
        report_unreadable(&record("nope", "home"), ParseError::MalformedCidr),
        "Malformed CIDR in entry: nope"
    );
    assert_eq!(
        report_unreadable(&record("1.2.3.4/32", "home"), ParseError::DescriptionTooLong),
        "Description too long in entry: 1.2.3.4/32"
    );
    let long = record("1.2.3.4/32", &"x".repeat(256));
    assert_eq!(read_record(&long), Err(ParseError::DescriptionTooLong));
    assert_eq!(
        read_page(&vec![record("1.2.3.4/32", "a"), long]),
        Err("Description too long in entry: 1.2.3.4/32".to_string())
    );
    assert_eq!(read_page(&vec![]), Ok(vec![]));
}

#[test]
fn described_snapshot_takes_the_only_list() {
    let response = DescribeResponse { lists: Some(vec![list("pl-7", 3)]), next_token: None };
    assert_eq!(described_snapshot(response), Ok(list("pl-7", 3)));
    let response = DescribeResponse { lists: None, next_token: None };
    assert_eq!(described_snapshot(response), Err(CardinalityError::NoneFound));
}

#[test]
fn client_get_prefix_list_reads_the_description() {
    let client = AWSClient::new("tag");
    assert_eq!(client.get_prefix_list(described(Some(vec![list("pl-7", 3)]))), Ok(list("pl-7", 3)));
    assert_eq!(
        client.get_prefix_list(described(Some(vec![]))),
        Err(AWSError::Cardinality(CardinalityError::NoneFound))
    );
    assert_eq!(
        client.get_prefix_list(described(Some(vec![list("a", 1), list("b", 1)]))),
        Err(AWSError::Cardinality(CardinalityError::TooMany))
    );
    assert_eq!(
        client.get_prefix_list(Err(RemoteFailure::Http { status: 500, body: b"x".to_vec() })),
        Err(AWSError::Unknown { details: "HTTP 500: x".to_string() })
    );
}

#[test]
fn fetch_report_tells_a_long_description_from_a_malformed_prefix() {
    let page = |records: Vec<EntryRecord>| EntryPage { entries: Some(records), next_token: None };
    let fetch = || Fetch { snapshot: list("pl-1", 9), pages: 0 };
    assert_eq!(
        continue_fetch(fetch(), Ok(page(vec![record("10.0.0.0/8", &"d".repeat(256))]))),
        FetchStep::Failed(AWSError::Unknown {
            details: "Description too long in entry: 10.0.0.0/8".to_string()
        })
    );
    assert_eq!(
        continue_fetch(fetch(), Ok(page(vec![EntryRecord { cidr: None, description: None }]))),
        FetchStep::Failed(AWSError::Unknown { details: "Malformed CIDR in entry: ".to_string() })
    );
    // The first record that cannot be read is the one reported.
    assert_eq!(
        continue_fetch(
            fetch(),
            Ok(page(vec![record("10.0.0.0/8", &"d".repeat(256)), record("x", "y")]))
        ),
        FetchStep::Failed(AWSError::Unknown {
            details: "Description too long in entry: 10.0.0.0/8".to_string()
        })
    );
}
