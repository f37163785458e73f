//! From a snapshot and a desired set to the one modification that the remote is asked
//! for, and from the remote's answer to the fresh snapshot.

use crate::cidr::{cidr_text, Cidr};
use crate::cidr_set::{without, CidrSet};
use crate::classify::{class_of, classify, FailureView, RemoteFailure};
use crate::diff::{
    after_modify, diff, diff_of, lemma_diff_idempotent, owned_cidrs, owned_seq, Diff,
};
use crate::entry::{AllowListSnapshot, SnapshotView};
use crate::error::{AWSError, CardinalityError, ErrorView};
use vstd::prelude::*;
use vstd::string::*;

verus! {

/// An entry that the remote is asked to add: the prefix in CIDR notation and the
/// description that marks it as owned.
#[derive(Debug, PartialEq, Eq)]
pub struct AddEntry {
    pub cidr: String,
    pub description: String,
}

/// An entry that the remote is asked to remove, named by its prefix.
#[derive(Debug, PartialEq, Eq)]
pub struct RemoveEntry {
    pub cidr: String,
}

/// One modification of an allow-list, with the version it was computed from.
#[derive(Debug, PartialEq, Eq)]
pub struct ModifyRequest {
    pub list_id: String,
    pub current_version: u64,
    pub add_entries: Vec<AddEntry>,
    pub remove_entries: Vec<RemoveEntry>,
}

/// The mathematical value of an [`AddEntry`].
pub struct AddEntryView {
    pub cidr: Seq<char>,
    pub description: Seq<char>,
}

/// The mathematical value of a [`RemoveEntry`].
pub struct RemoveEntryView {
    pub cidr: Seq<char>,
}

/// The mathematical value of a [`ModifyRequest`].
pub struct ModifyRequestView {
    pub list_id: Seq<char>,
    pub current_version: nat,
    pub add_entries: Seq<AddEntryView>,
    pub remove_entries: Seq<RemoveEntryView>,
}

impl View for AddEntry {
    type V = AddEntryView;

    open spec fn view(&self) -> AddEntryView {
        AddEntryView { cidr: self.cidr@, description: self.description@ }
    }
}

impl DeepView for AddEntry {
    type V = AddEntryView;

    open spec fn deep_view(&self) -> AddEntryView {
        self@
    }
}

impl View for RemoveEntry {
    type V = RemoveEntryView;

    open spec fn view(&self) -> RemoveEntryView {
        RemoveEntryView { cidr: self.cidr@ }
    }
}

impl DeepView for RemoveEntry {
    type V = RemoveEntryView;

    open spec fn deep_view(&self) -> RemoveEntryView {
        self@
    }
}

impl View for ModifyRequest {
    type V = ModifyRequestView;

    open spec fn view(&self) -> ModifyRequestView {
        ModifyRequestView {
            list_id: self.list_id@,
            current_version: self.current_version as nat,
            add_entries: self.add_entries.deep_view(),
            remove_entries: self.remove_entries.deep_view(),
        }
    }
}

/// The entry to add for a prefix: its text and the tag.
pub open spec fn add_entry_for(tag: Seq<char>) -> spec_fn(Cidr) -> AddEntryView {
    |net: Cidr| AddEntryView { cidr: cidr_text(net), description: tag }
}

/// The entry to remove for a prefix: its text.
pub open spec fn remove_entry_for() -> spec_fn(Cidr) -> RemoveEntryView {
    |net: Cidr| RemoveEntryView { cidr: cidr_text(net) }
}

/// The request that adds `add` under `tag` and removes `remove`, against the version
/// of `snapshot`.
pub open spec fn request_of(
    snapshot: SnapshotView,
    add: Seq<Cidr>,
    remove: Seq<Cidr>,
    tag: Seq<char>,
) -> ModifyRequestView {
    ModifyRequestView {
        list_id: snapshot.id,
        current_version: snapshot.version,
        add_entries: add.map_values(add_entry_for(tag)),
        remove_entries: remove.map_values(remove_entry_for()),
    }
}

/// The prefixes that a reconciliation adds, in the order of `desired`.
pub open spec fn additions(snapshot: SnapshotView, desired: Seq<Cidr>, tag: Seq<char>) -> Seq<Cidr> {
    without(desired, owned_cidrs(snapshot.entries, tag))
}

/// The prefixes that a reconciliation removes, in the order of the snapshot's entries.
pub open spec fn removals(snapshot: SnapshotView, desired: Seq<Cidr>, tag: Seq<char>) -> Seq<Cidr> {
    without(owned_seq(snapshot.entries, tag), desired.to_set())
}

/// What a reconciliation amounts to: `NothingToDo` where the owned entries are already
/// the desired set, else the one request that makes them so.
pub open spec fn plan_of(snapshot: SnapshotView, desired: Seq<Cidr>, tag: Seq<char>) -> Result<
    ModifyRequestView,
    ErrorView,
> {
    if diff_of(snapshot, desired.to_set(), tag).is_noop() {
        Err(ErrorView::NothingToDo)
    } else {
        Ok(
            request_of(
                snapshot,
                additions(snapshot, desired, tag),
                removals(snapshot, desired, tag),
                tag,
            ),
        )
    }
}

/// The views of a planned request.
pub open spec fn plan_view(r: Result<ModifyRequest, AWSError>) -> Result<
    ModifyRequestView,
    ErrorView,
> {
    match r {
        Ok(request) => Ok(request@),
        Err(e) => Err(e@),
    }
}

/// The views of a remote answer that carries a snapshot.
pub open spec fn snapshot_result_view(r: Result<AllowListSnapshot, AWSError>) -> Result<
    SnapshotView,
    ErrorView,
> {
    match r {
        Ok(snapshot) => Ok(snapshot@),
        Err(e) => Err(e@),
    }
}

/// What the answer to a modification amounts to: the snapshot that the remote returned,
/// a cardinality error where it returned none, and the class of the failure where the
/// call failed.
pub open spec fn modified_of(answer: Result<Option<SnapshotView>, FailureView>) -> Result<
    SnapshotView,
    ErrorView,
> {
    match answer {
        Ok(Some(snapshot)) => Ok(snapshot),
        Ok(None) => Err(ErrorView::Cardinality(CardinalityError::NoneFound)),
        Err(failure) => Err(class_of(failure)),
    }
}

/// The views of a remote answer to a modification.
pub open spec fn answer_view(answer: Result<Option<AllowListSnapshot>, RemoteFailure>) -> Result<
    Option<SnapshotView>,
    FailureView,
> {
    match answer {
        Ok(Some(snapshot)) => Ok(Some(snapshot@)),
        Ok(None) => Ok(None),
        Err(failure) => Err(failure@),
    }
}

/// Builds the request that adds `add` under `tag` and removes `remove`.
pub fn modify_request(
    snapshot: &AllowListSnapshot,
    add: &CidrSet,
    remove: &CidrSet,
    tag: &str,
) -> (request: ModifyRequest)
    requires
        add.wf(),
        remove.wf(),
    ensures
        request@ == request_of(snapshot@, add.elements(), remove.elements(), tag@),
{
    let add_list = add.to_vec();
    let remove_list = remove.to_vec();
    proof {
        add.lemma_elements();
        remove.lemma_elements();
    }
    let mut add_entries: Vec<AddEntry> = Vec::new();
    let mut i: usize = 0;
    while i < add_list.len()
        invariant
            i <= add_list.len(),
            forall|k: int| 0 <= k < add_list@.len() ==> (#[trigger] add_list@[k]).wf(),
            add_entries.deep_view() == add_list@.take(i as int).map_values(add_entry_for(tag@)),
        decreases add_list.len() - i,
    {
        let entry = AddEntry { cidr: add_list[i].to_text(), description: tag.to_owned() };
        let ghost before = add_entries.deep_view();
        let ghost made = entry@;
        add_entries.push(entry);
        assert(add_entries.deep_view() =~= before.push(made));
        assert(made == add_entry_for(tag@)(add_list@[i as int]));
        assert(add_entries.deep_view() =~= add_list@.take(i + 1).map_values(
            add_entry_for(tag@),
        ));
        i += 1;
    }
    assert(add_list@.take(i as int) =~= add_list@);
    let mut remove_entries: Vec<RemoveEntry> = Vec::new();
    let mut j: usize = 0;
    while j < remove_list.len()
        invariant
            j <= remove_list.len(),
            forall|k: int| 0 <= k < remove_list@.len() ==> (#[trigger] remove_list@[k]).wf(),
            remove_entries.deep_view() == remove_list@.take(j as int).map_values(
                remove_entry_for(),
            ),
        decreases remove_list.len() - j,
    {
        let entry = RemoveEntry { cidr: remove_list[j].to_text() };
        let ghost before = remove_entries.deep_view();
        let ghost made = entry@;
        remove_entries.push(entry);
        assert(remove_entries.deep_view() =~= before.push(made));
        assert(made == remove_entry_for()(remove_list@[j as int]));
        assert(remove_entries.deep_view() =~= remove_list@.take(j + 1).map_values(
            remove_entry_for(),
        ));
        j += 1;
    }
    assert(remove_list@.take(j as int) =~= remove_list@);
    ModifyRequest {
        list_id: snapshot.id.clone(),
        current_version: snapshot.version,
        add_entries,
        remove_entries,
    }
}

/// Plans the modification that makes the entries carrying `tag` exactly `desired`.
///
/// Returns `NothingToDo` where they already are: no call to the remote is due then.
pub fn reconcile(snapshot: &AllowListSnapshot, desired: &CidrSet, tag: &str) -> (r: Result<
    ModifyRequest,
    AWSError,
>)
    requires
        snapshot.wf(),
        desired.wf(),
    ensures
        plan_view(r) == plan_of(snapshot@, desired.elements(), tag@),
{
    proof {
        desired.lemma_elements();
    }
    let d: Diff = diff(snapshot, desired, tag);
    if d.is_noop() {
        Err(AWSError::NothingToDo)
    } else {
        Ok(modify_request(snapshot, &d.to_add, &d.to_remove, tag))
    }
}

/// Plans the removal of every entry that carries `tag`: a reconciliation against the
/// empty desired set.
pub fn cleanup(snapshot: &AllowListSnapshot, tag: &str) -> (r: Result<ModifyRequest, AWSError>)
    requires
        snapshot.wf(),
    ensures
        plan_view(r) == plan_of(snapshot@, Seq::<Cidr>::empty(), tag@),
        r matches Ok(request) ==> request@.add_entries.len() == 0,
{
    let nothing = CidrSet::new();
    reconcile(snapshot, &nothing, tag)
}

/// Reads the remote's answer to a modification.
pub fn modify_outcome(answer: Result<Option<AllowListSnapshot>, RemoteFailure>) -> (r: Result<
    AllowListSnapshot,
    AWSError,
>)
    ensures
        snapshot_result_view(r) == modified_of(answer_view(answer)),
{
    match answer {
        Ok(Some(snapshot)) => Ok(snapshot),
        Ok(None) => Err(AWSError::Cardinality(CardinalityError::NoneFound)),
        Err(failure) => Err(classify(failure)),
    }
}

/// Once the planned modification is applied, a second reconciliation against the same
/// desired set has nothing to do.
pub proof fn lemma_reconcile_idempotent(snapshot: SnapshotView, desired: Seq<Cidr>, tag: Seq<char>)
    ensures
        plan_of(
            after_modify(
                snapshot,
                additions(snapshot, desired, tag),
                removals(snapshot, desired, tag).to_set(),
                tag,
            ),
            desired,
            tag,
        ) == Err::<ModifyRequestView, ErrorView>(ErrorView::NothingToDo),
{
    let mine = owned_cidrs(snapshot.entries, tag);
    crate::cidr_set::lemma_without(desired, mine);
    crate::cidr_set::lemma_without(owned_seq(snapshot.entries, tag), desired.to_set());
    crate::diff::lemma_owned_seq(snapshot.entries, tag);
    lemma_diff_idempotent(snapshot, desired.to_set(), tag, additions(snapshot, desired, tag));
}

/// A reconciliation has nothing to do exactly when the owned entries are the desired
/// set already.
pub proof fn lemma_noop_iff_in_sync(snapshot: SnapshotView, desired: Seq<Cidr>, tag: Seq<char>)
    ensures
        plan_of(snapshot, desired, tag) is Err <==> owned_cidrs(snapshot.entries, tag)
            == desired.to_set(),
{
    let mine = owned_cidrs(snapshot.entries, tag);
    let want = desired.to_set();
    if mine == want {
        assert(want.difference(mine) =~= Set::<Cidr>::empty());
        assert(mine.difference(want) =~= Set::<Cidr>::empty());
    }
    if diff_of(snapshot, want, tag).is_noop() {
        assert forall|net: Cidr| mine.contains(net) <==> want.contains(net) by {
            if mine.contains(net) && !want.contains(net) {
                assert(mine.difference(want).contains(net));
            }
            if want.contains(net) && !mine.contains(net) {
                assert(want.difference(mine).contains(net));
            }
        }
        assert(mine =~= want);
    }
}

} // verus!
