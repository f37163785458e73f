//! Fetching an allow-list: one description, then the pages of its entries.
//!
//! The driver makes the remote calls. It hands each answer to this module, which says
//! what to do next: ask for another page, stop with the snapshot, or stop with an
//! error.

use crate::cidr::{ipnet_parse, ParseError};
use crate::classify::{class_of, classify, FailureView, RemoteFailure};
use crate::entry::{
    entry_of_parse, parse_view, AllowListEntry, AllowListSnapshot, EntryView, SnapshotView,
};
use crate::error::{AWSError, CardinalityError, ErrorView};
use crate::helpers::{get_only_item, only_item};
use crate::http::{opt_text, or_empty};
use vstd::prelude::*;
use vstd::string::*;

verus! {

/// The most pages that one fetch follows before it gives up on the remote.
pub const MAX_PAGES: u64 = 4096;

/// The remote's answer to a request to describe an allow-list.
#[derive(Debug, PartialEq, Eq)]
pub struct DescribeResponse {
    pub lists: Option<Vec<AllowListSnapshot>>,
    pub next_token: Option<String>,
}

/// An entry as the remote sends it.
#[derive(Debug, PartialEq, Eq)]
pub struct EntryRecord {
    pub cidr: Option<String>,
    pub description: Option<String>,
}

/// One page of the entries of an allow-list, and the token of the next page if there
/// is one.
#[derive(Debug, PartialEq, Eq)]
pub struct EntryPage {
    pub entries: Option<Vec<EntryRecord>>,
    pub next_token: Option<String>,
}

/// A fetch that has pages to ask for: the snapshot with the entries read so far, and
/// the number of pages read.
#[derive(Debug, PartialEq, Eq)]
pub struct Fetch {
    pub snapshot: AllowListSnapshot,
    pub pages: u64,
}

/// What the driver does next.
#[derive(Debug, PartialEq, Eq)]
pub enum FetchStep {
    /// Ask for the entries of `fetch.snapshot`, from `page_token` on, and hand the
    /// answer to [`continue_fetch`].
    Request { fetch: Fetch, page_token: Option<String> },
    /// The allow-list with all its entries.
    Done(AllowListSnapshot),
    Failed(AWSError),
}

/// The mathematical value of a [`DescribeResponse`].
pub struct DescribeView {
    pub lists: Option<Seq<SnapshotView>>,
    pub next_token: Option<Seq<char>>,
}

/// The mathematical value of an [`EntryRecord`].
pub struct RecordView {
    pub cidr: Option<Seq<char>>,
    pub description: Option<Seq<char>>,
}

/// The mathematical value of an [`EntryPage`].
pub struct PageView {
    pub entries: Option<Seq<RecordView>>,
    pub next_token: Option<Seq<char>>,
}

/// The mathematical value of a [`Fetch`].
pub struct FetchView {
    pub snapshot: SnapshotView,
    pub pages: nat,
}

/// The mathematical value of a [`FetchStep`].
pub enum FetchStepView {
    Request { fetch: FetchView, page_token: Option<Seq<char>> },
    Done(SnapshotView),
    Failed(ErrorView),
}

impl View for DescribeResponse {
    type V = DescribeView;

    open spec fn view(&self) -> DescribeView {
        DescribeView { lists: self.lists.deep_view(), next_token: opt_text(self.next_token) }
    }
}

impl View for EntryRecord {
    type V = RecordView;

    open spec fn view(&self) -> RecordView {
        RecordView { cidr: opt_text(self.cidr), description: opt_text(self.description) }
    }
}

impl DeepView for EntryRecord {
    type V = RecordView;

    open spec fn deep_view(&self) -> RecordView {
        self@
    }
}

impl View for EntryPage {
    type V = PageView;

    open spec fn view(&self) -> PageView {
        PageView { entries: self.entries.deep_view(), next_token: opt_text(self.next_token) }
    }
}

impl View for Fetch {
    type V = FetchView;

    open spec fn view(&self) -> FetchView {
        FetchView { snapshot: self.snapshot@, pages: self.pages as nat }
    }
}

impl View for FetchStep {
    type V = FetchStepView;

    open spec fn view(&self) -> FetchStepView {
        match *self {
            FetchStep::Request { fetch, page_token } => FetchStepView::Request {
                fetch: fetch@,
                page_token: opt_text(page_token),
            },
            FetchStep::Done(snapshot) => FetchStepView::Done(snapshot@),
            FetchStep::Failed(e) => FetchStepView::Failed(e@),
        }
    }
}

/// The views of a remote answer.
pub open spec fn described_view(answer: Result<DescribeResponse, RemoteFailure>) -> Result<
    DescribeView,
    FailureView,
> {
    match answer {
        Ok(response) => Ok(response@),
        Err(failure) => Err(failure@),
    }
}

/// The views of a remote answer.
pub open spec fn page_view(answer: Result<EntryPage, RemoteFailure>) -> Result<
    PageView,
    FailureView,
> {
    match answer {
        Ok(page) => Ok(page@),
        Err(failure) => Err(failure@),
    }
}

/// The one allow-list that a description names: none where the remote lists none,
/// too many where it lists several or says that more follow.
pub open spec fn described_list(response: DescribeView) -> Result<SnapshotView, CardinalityError> {
    match only_item(response.lists) {
        Ok(list) => if response.next_token is Some {
            Err(CardinalityError::TooMany)
        } else {
            Ok(list)
        },
        Err(e) => Err(e),
    }
}

/// The first step of a fetch, given the remote's description: ask for the first page of
/// the one allow-list that it names.
pub open spec fn begin_of(answer: Result<DescribeView, FailureView>) -> FetchStepView {
    match answer {
        Err(failure) => FetchStepView::Failed(class_of(failure)),
        Ok(response) => match described_list(response) {
            Err(e) => FetchStepView::Failed(ErrorView::Cardinality(e)),
            Ok(list) => FetchStepView::Request {
                fetch: FetchView {
                    snapshot: SnapshotView { entries: Seq::empty(), ..list },
                    pages: 0,
                },
                page_token: None,
            },
        },
    }
}

/// The entry that a record of the remote stands for. A record without a prefix is
/// malformed; one without a description has the empty description.
pub open spec fn entry_of_record(record: RecordView) -> Result<EntryView, ParseError> {
    match record.cidr {
        Some(text) => entry_of_parse(ipnet_parse(text), or_empty(record.description)),
        None => Err(ParseError::MalformedCidr),
    }
}

/// What is reported of a record that stands for no entry: what is wrong with it, and
/// its prefix as the remote wrote it.
pub open spec fn unreadable(record: RecordView, e: ParseError) -> Seq<char> {
    complaint_of(e) + or_empty(record.cidr)
}

/// What is wrong with a record, by the kind of its parse error.
pub open spec fn complaint_of(e: ParseError) -> Seq<char> {
    match e {
        ParseError::MalformedCidr => "Malformed CIDR in entry: "@,
        ParseError::DescriptionTooLong => "Description too long in entry: "@,
    }
}

/// The entries that a list of records stands for, or the report of the first record
/// that stands for none.
pub open spec fn read_records(records: Seq<RecordView>) -> Result<Seq<EntryView>, Seq<char>>
    decreases records.len(),
{
    if records.len() == 0 {
        Ok(Seq::empty())
    } else {
        match read_records(records.drop_last()) {
            Err(report) => Err(report),
            Ok(entries) => match entry_of_record(records.last()) {
                Ok(entry) => Ok(entries.push(entry)),
                Err(e) => Err(unreadable(records.last(), e)),
            },
        }
    }
}

/// The records of a page; a page without a list has none.
pub open spec fn records_of(page: PageView) -> Seq<RecordView> {
    match page.entries {
        Some(records) => records,
        None => Seq::empty(),
    }
}

/// The next step of a fetch, given the remote's answer to the last request.
///
/// The entries of the page follow those read so far. Without a next token the fetch is
/// done; with one, the next page is asked for, unless [`MAX_PAGES`] pages were read.
pub open spec fn continue_of(fetch: FetchView, answer: Result<PageView, FailureView>) -> FetchStepView {
    match answer {
        Err(failure) => FetchStepView::Failed(class_of(failure)),
        Ok(page) => match read_records(records_of(page)) {
            Err(report) => FetchStepView::Failed(ErrorView::Unknown { details: report }),
            Ok(entries) => {
                let snapshot = SnapshotView {
                    entries: fetch.snapshot.entries + entries,
                    ..fetch.snapshot
                };
                match page.next_token {
                    None => FetchStepView::Done(snapshot),
                    Some(token) => if fetch.pages + 1 >= MAX_PAGES {
                        FetchStepView::Failed(
                            ErrorView::Unknown { details: "Too many pages."@ },
                        )
                    } else {
                        FetchStepView::Request {
                            fetch: FetchView { snapshot, pages: fetch.pages + 1 },
                            page_token: Some(token),
                        }
                    },
                }
            },
        }
    }
}

/// A failure on a record stays a failure however many records follow.
pub proof fn lemma_read_records_err(records: Seq<RecordView>, n: int)
    requires
        0 <= n <= records.len(),
        read_records(records.take(n)) is Err,
    ensures
        read_records(records) == read_records(records.take(n)),
    decreases records.len() - n,
{
    if n < records.len() {
        assert(records.take(n + 1).drop_last() =~= records.take(n));
        lemma_read_records_err(records, n + 1);
    } else {
        assert(records.take(n) =~= records);
    }
}

/// Reads one record of the remote.
pub fn read_record(record: &EntryRecord) -> (r: Result<AllowListEntry, ParseError>)
    ensures
        parse_view(r) == entry_of_record(record@),
        r matches Ok(entry) ==> entry.wf(),
{
    let description: &str = match &record.description {
        Some(text) => text.as_str(),
        None => "",
    };
    proof {
        reveal_strlit("");
        assert(description@ =~= or_empty(opt_text(record.description)));
    }
    match &record.cidr {
        Some(text) => AllowListEntry::parse(text.as_str(), description),
        None => Err(ParseError::MalformedCidr),
    }
}

/// Reports a record that stands for no entry.
pub fn report_unreadable(record: &EntryRecord, e: ParseError) -> (report: String)
    ensures
        report@ == unreadable(record@, e),
{
    let mut report = match e {
        ParseError::MalformedCidr => "Malformed CIDR in entry: ".to_owned(),
        ParseError::DescriptionTooLong => "Description too long in entry: ".to_owned(),
    };
    match &record.cidr {
        Some(text) => {
            report.append(text.as_str());
        },
        None => {
            assert(report@ + Seq::<char>::empty() =~= report@);
        },
    }
    report
}

/// Reads the records of a page.
pub fn read_page(records: &Vec<EntryRecord>) -> (r: Result<Vec<AllowListEntry>, String>)
    ensures
        match r {
            Ok(entries) => read_records(records.deep_view()) == Ok::<Seq<EntryView>, Seq<char>>(
                entries.deep_view(),
            ) && forall|i: int| 0 <= i < entries@.len() ==> (#[trigger] entries@[i]).wf(),
            Err(report) => read_records(records.deep_view()) == Err::<Seq<EntryView>, Seq<char>>(
                report@,
            ),
        },
{
    let ghost rs = records.deep_view();
    let mut entries: Vec<AllowListEntry> = Vec::new();
    assert(entries.deep_view() =~= Seq::<EntryView>::empty());
    let mut i: usize = 0;
    while i < records.len()
        invariant
            i <= records.len(),
            rs == records.deep_view(),
            read_records(rs.take(i as int)) == Ok::<Seq<EntryView>, Seq<char>>(
                entries.deep_view(),
            ),
            forall|k: int| 0 <= k < entries@.len() ==> (#[trigger] entries@[k]).wf(),
        decreases records.len() - i,
    {
        proof {
            assert(rs.take(i + 1).drop_last() =~= rs.take(i as int));
            assert(rs.take(i + 1).last() == records[i as int]@);
        }
        match read_record(&records[i]) {
            Ok(entry) => {
                let ghost before = entries.deep_view();
                let ghost made = entry@;
                entries.push(entry);
                assert(entries.deep_view() =~= before.push(made));
            },
            Err(e) => {
                let report = report_unreadable(&records[i], e);
                proof {
                    lemma_read_records_err(rs, i + 1);
                }
                return Err(report);
            },
        }
        i += 1;
    }
    assert(rs.take(i as int) =~= rs);
    Ok(entries)
}

/// The views of a description read for its one allow-list.
pub open spec fn list_result_view(r: Result<AllowListSnapshot, CardinalityError>) -> Result<
    SnapshotView,
    CardinalityError,
> {
    match r {
        Ok(list) => Ok(list@),
        Err(e) => Err(e),
    }
}

/// Takes the one allow-list that a description names.
///
/// None is `NoneFound`; several, or a token that says that more follow, is `TooMany`.
pub fn described_snapshot(response: DescribeResponse) -> (r: Result<
    AllowListSnapshot,
    CardinalityError,
>)
    ensures
        list_result_view(r) == described_list(response@),
{
    let DescribeResponse { lists, next_token } = response;
    let verdict: Result<(), CardinalityError> = match get_only_item(&lists) {
        Ok(_) => if next_token.is_some() {
            Err(CardinalityError::TooMany)
        } else {
            Ok(())
        },
        Err(e) => Err(e),
    };
    match verdict {
        Err(e) => Err(e),
        Ok(()) => {
            let mut lists = lists.unwrap();
            assert(lists.deep_view()[0] == lists[0]@);
            Ok(lists.pop().unwrap())
        },
    }
}

/// Starts a fetch from the remote's description of the allow-list.
///
/// The description must name exactly one allow-list: none is `Cardinality(NoneFound)`,
/// several, or a token for more, is `Cardinality(TooMany)`.
pub fn begin_fetch(answer: Result<DescribeResponse, RemoteFailure>) -> (step: FetchStep)
    ensures
        step@ == begin_of(described_view(answer)),
        step matches FetchStep::Request { fetch, .. } ==> fetch.snapshot.wf(),
{
    match answer {
        Err(failure) => FetchStep::Failed(classify(failure)),
        Ok(response) => match described_snapshot(response) {
            Err(e) => FetchStep::Failed(AWSError::Cardinality(e)),
            Ok(list) => {
                let AllowListSnapshot { id, version, max_entries, state, entries: _ } = list;
                let snapshot = AllowListSnapshot {
                    id,
                    version,
                    max_entries,
                    state,
                    entries: Vec::new(),
                };
                assert(snapshot@.entries =~= Seq::<EntryView>::empty());
                FetchStep::Request { fetch: Fetch { snapshot, pages: 0 }, page_token: None }
            },
        },
    }
}

/// Continues a fetch with the remote's answer to the last request for a page.
pub fn continue_fetch(fetch: Fetch, answer: Result<EntryPage, RemoteFailure>) -> (step: FetchStep)
    ensures
        step@ == continue_of(fetch@, page_view(answer)),
        fetch.snapshot.wf() ==> match step {
            FetchStep::Request { fetch: next, .. } => next.snapshot.wf(),
            FetchStep::Done(snapshot) => snapshot.wf(),
            FetchStep::Failed(_) => true,
        },
{
    match answer {
        Err(failure) => FetchStep::Failed(classify(failure)),
        Ok(page) => {
            let EntryPage { entries, next_token } = page;
            let read = match &entries {
                Some(records) => read_page(records),
                None => Ok(Vec::new()),
            };
            match read {
                Err(report) => FetchStep::Failed(AWSError::Unknown { details: report }),
                Ok(mut fresh) => {
                    let Fetch { snapshot, pages } = fetch;
                    let AllowListSnapshot { id, version, max_entries, state, entries: mut all } =
                        snapshot;
                    let ghost before = all.deep_view();
                    let ghost added = fresh.deep_view();
                    all.append(&mut fresh);
                    assert(all.deep_view() =~= before + added);
                    let snapshot = AllowListSnapshot {
                        id,
                        version,
                        max_entries,
                        state,
                        entries: all,
                    };
                    match next_token {
                        None => FetchStep::Done(snapshot),
                        Some(token) => {
                            if pages >= MAX_PAGES - 1 {
                                FetchStep::Failed(
                                    AWSError::Unknown { details: "Too many pages.".to_owned() },
                                )
                            } else {
                                FetchStep::Request {
                                    fetch: Fetch { snapshot, pages: pages + 1 },
                                    page_token: Some(token),
                                }
                            }
                        },
                    }
                },
            }
        },
    }
}

/// The request that a fetch starts with once the remote has described `list`.
pub open spec fn first_request(list: SnapshotView) -> FetchStepView {
    FetchStepView::Request {
        fetch: FetchView { snapshot: SnapshotView { entries: Seq::empty(), ..list }, pages: 0 },
        page_token: None,
    }
}

/// The step that a fetch has reached once its requests were answered by `answers`, in
/// this order. Answers that arrive after the fetch has ended change nothing.
pub open spec fn fetch_after(
    start: FetchStepView,
    answers: Seq<Result<PageView, FailureView>>,
) -> FetchStepView
    decreases answers.len(),
{
    if answers.len() == 0 {
        start
    } else {
        match fetch_after(start, answers.drop_last()) {
            FetchStepView::Request { fetch, .. } => continue_of(fetch, answers.last()),
            ended => ended,
        }
    }
}

/// The entries of a page, none where a record of it is unreadable.
pub open spec fn page_entries(page: PageView) -> Seq<EntryView> {
    match read_records(records_of(page)) {
        Ok(entries) => entries,
        Err(_) => Seq::empty(),
    }
}

/// The entries of some pages, in the order of the pages.
pub open spec fn all_entries(pages: Seq<PageView>) -> Seq<EntryView>
    decreases pages.len(),
{
    if pages.len() == 0 {
        Seq::empty()
    } else {
        all_entries(pages.drop_last()) + page_entries(pages.last())
    }
}

/// The answers of a remote that delivers `pages` without a failure.
pub open spec fn delivered(pages: Seq<PageView>) -> Seq<Result<PageView, FailureView>> {
    pages.map_values(|page: PageView| Ok::<PageView, FailureView>(page))
}

/// Pagination is complete. Let the remote hold no more than [`MAX_PAGES`] readable
/// pages, each with a token for the next but the last. Then after each of the first
/// answers the fetch asks for one more page, with the token it just received, and with
/// the last answer it ends with the entries of all pages in order. It makes one request
/// for each page and none beyond.
pub proof fn lemma_pagination_complete(list: SnapshotView, pages: Seq<PageView>, k: int)
    requires
        1 <= pages.len() <= MAX_PAGES,
        forall|i: int| 0 <= i < pages.len() - 1 ==> (#[trigger] pages[i]).next_token is Some,
        pages.last().next_token is None,
        forall|i: int| 0 <= i < pages.len() ==> read_records(records_of(#[trigger] pages[i])) is Ok,
        0 <= k <= pages.len(),
    ensures
        k < pages.len() ==> fetch_after(first_request(list), delivered(pages.take(k)))
            == (FetchStepView::Request {
            fetch: FetchView {
                snapshot: SnapshotView { entries: all_entries(pages.take(k)), ..list },
                pages: k as nat,
            },
            page_token: if k == 0 {
                None
            } else {
                pages[k - 1].next_token
            },
        }),
        k == pages.len() ==> fetch_after(first_request(list), delivered(pages))
            == FetchStepView::Done(SnapshotView { entries: all_entries(pages), ..list }),
    decreases k,
{
    if k == 0 {
        assert(delivered(pages.take(0)) =~= Seq::empty());
        assert(all_entries(pages.take(0)) =~= Seq::empty());
    } else {
        lemma_pagination_complete(list, pages, k - 1);
        let answers = delivered(pages.take(k));
        assert(answers.drop_last() =~= delivered(pages.take(k - 1)));
        assert(answers.last() == Ok::<PageView, FailureView>(pages[k - 1]));
        assert(pages.take(k).drop_last() =~= pages.take(k - 1));
        assert(pages.take(k).last() == pages[k - 1]);
        assert(read_records(records_of(pages[k - 1])) is Ok);
        if k == pages.len() {
            assert(pages.take(k) =~= pages);
            assert(pages[k - 1] == pages.last());
        } else {
            assert(pages[k - 1].next_token is Some);
        }
    }
}

} // verus!
