//! The difference between what is desired and what this tool owns on the allow-list.

use crate::cidr::Cidr;
use crate::cidr_set::{without, CidrSet};
use crate::entry::{AllowListSnapshot, EntryView, SnapshotView};
use crate::text::same_ignoring_case;
use vstd::prelude::*;

verus! {

/// The prefixes of the entries that carry `tag`.
pub open spec fn owned_cidrs(entries: Seq<EntryView>, tag: Seq<char>) -> Set<Cidr> {
    Set::new(
        |net: Cidr|
            exists|i: int|
                0 <= i < entries.len() && (#[trigger] entries[i]).owned_by(tag) && entries[i].cidr
                    == net,
    )
}

/// The prefixes of the entries that carry `tag`, each once, in the order of the entries.
pub open spec fn owned_seq(entries: Seq<EntryView>, tag: Seq<char>) -> Seq<Cidr>
    decreases entries.len(),
{
    if entries.len() == 0 {
        Seq::empty()
    } else {
        let before = owned_seq(entries.drop_last(), tag);
        let entry = entries.last();
        if entry.owned_by(tag) && !before.contains(entry.cidr) {
            before.push(entry.cidr)
        } else {
            before
        }
    }
}

/// `owned_seq` lists exactly `owned_cidrs`, each prefix once.
pub proof fn lemma_owned_seq(entries: Seq<EntryView>, tag: Seq<char>)
    ensures
        owned_seq(entries, tag).no_duplicates(),
        owned_seq(entries, tag).to_set() == owned_cidrs(entries, tag),
    decreases entries.len(),
{
    let out = owned_seq(entries, tag);
    if entries.len() == 0 {
        assert(out.to_set() =~= owned_cidrs(entries, tag));
    } else {
        let init = entries.drop_last();
        let entry = entries.last();
        lemma_owned_seq(init, tag);
        let before = owned_seq(init, tag);
        assert forall|net: Cidr| out.to_set().contains(net) <==> owned_cidrs(entries, tag).contains(
            net,
        ) by {
            if owned_cidrs(entries, tag).contains(net) {
                let i = choose|i: int|
                    0 <= i < entries.len() && (#[trigger] entries[i]).owned_by(tag)
                        && entries[i].cidr == net;
                if i < entries.len() - 1 {
                    assert(init[i].owned_by(tag) && init[i].cidr == net);
                    assert(owned_cidrs(init, tag).contains(net));
                    assert(before.to_set().contains(net));
                    let j = choose|j: int| 0 <= j < before.len() && before[j] == net;
                    assert(out[j] == net);
                } else {
                    if before.contains(net) {
                    } else {
                        assert(out[before.len() as int] == net);
                    }
                }
            }
            if out.contains(net) {
                let j = choose|j: int| 0 <= j < out.len() && out[j] == net;
                if j < before.len() {
                    assert(before[j] == net);
                    assert(before.to_set().contains(net));
                    assert(owned_cidrs(init, tag).contains(net));
                    let i = choose|i: int|
                        0 <= i < init.len() && (#[trigger] init[i]).owned_by(tag) && init[i].cidr
                            == net;
                    assert(entries[i].owned_by(tag) && entries[i].cidr == net);
                } else {
                    assert(entries[entries.len() - 1].owned_by(tag));
                }
            }
        }
        assert(out.to_set() =~= owned_cidrs(entries, tag));
    }
}

/// The prefixes to add to an allow-list and the prefixes to remove from it.
#[derive(Debug)]
pub struct Diff {
    pub to_add: CidrSet,
    pub to_remove: CidrSet,
}

/// The mathematical value of a [`Diff`].
pub struct DiffView {
    pub to_add: Set<Cidr>,
    pub to_remove: Set<Cidr>,
}

impl DiffView {
    /// Nothing is to be added and nothing removed.
    pub open spec fn is_noop(self) -> bool {
        self.to_add == Set::<Cidr>::empty() && self.to_remove == Set::<Cidr>::empty()
    }
}

impl View for Diff {
    type V = DiffView;

    open spec fn view(&self) -> DiffView {
        DiffView { to_add: self.to_add@, to_remove: self.to_remove@ }
    }
}

impl Diff {
    /// Both sets are well formed.
    pub open spec fn wf(&self) -> bool {
        self.to_add.wf() && self.to_remove.wf()
    }

    /// Whether there is nothing to add and nothing to remove.
    pub fn is_noop(&self) -> (noop: bool)
        ensures
            noop == self@.is_noop(),
    {
        self.to_add.is_empty() && self.to_remove.is_empty()
    }
}

/// What has to change so that the entries carrying `tag` are exactly `desired`:
/// `desired` without the owned prefixes is added, the owned prefixes outside `desired`
/// are removed. Entries that carry another description play no part.
pub open spec fn diff_of(snapshot: SnapshotView, desired: Set<Cidr>, tag: Seq<char>) -> DiffView {
    DiffView {
        to_add: desired.difference(owned_cidrs(snapshot.entries, tag)),
        to_remove: owned_cidrs(snapshot.entries, tag).difference(desired),
    }
}

/// The prefixes of the entries of `snapshot` that carry `tag`.
pub fn owned(snapshot: &AllowListSnapshot, tag: &str) -> (set: CidrSet)
    requires
        snapshot.wf(),
    ensures
        set.wf(),
        set@ == owned_cidrs(snapshot@.entries, tag@),
        set.elements() == owned_seq(snapshot@.entries, tag@),
{
    let mut set = CidrSet::new();
    let ghost entries = snapshot@.entries;
    let mut i: usize = 0;
    while i < snapshot.entries.len()
        invariant
            i <= snapshot.entries.len(),
            snapshot.wf(),
            entries == snapshot@.entries,
            entries.len() == snapshot.entries.len(),
            set.wf(),
            set.elements() == owned_seq(entries.take(i as int), tag@),
        decreases snapshot.entries.len() - i,
    {
        proof {
            assert(entries.take(i + 1).drop_last() =~= entries.take(i as int));
            assert(entries.take(i + 1).last() == entries[i as int]);
            assert(entries[i as int] == snapshot.entries[i as int]@);
            assert(entries[i as int].wf());
            set.lemma_elements();
        }
        if snapshot.entries[i].is_owned(tag) {
            set.insert(snapshot.entries[i].cidr);
        }
        i += 1;
    }
    proof {
        assert(entries.take(i as int) =~= entries);
        lemma_owned_seq(entries, tag@);
        set.lemma_elements();
    }
    set
}

/// Computes what to add and what to remove so that the entries of `snapshot` that carry
/// `tag` become exactly `desired`.
pub fn diff(snapshot: &AllowListSnapshot, desired: &CidrSet, tag: &str) -> (d: Diff)
    requires
        snapshot.wf(),
        desired.wf(),
    ensures
        d.wf(),
        d@ == diff_of(snapshot@, desired@, tag@),
        d.to_add.elements() == without(
            desired.elements(),
            owned_cidrs(snapshot@.entries, tag@),
        ),
        d.to_remove.elements() == without(owned_seq(snapshot@.entries, tag@), desired@),
{
    let mine = owned(snapshot, tag);
    let to_add = desired.difference(&mine);
    let to_remove = mine.difference(desired);
    Diff { to_add, to_remove }
}

/// Only owned prefixes are removed, and only desired prefixes that are not owned yet
/// are added.
pub proof fn lemma_diff_members(
    snapshot: SnapshotView,
    desired: Set<Cidr>,
    tag: Seq<char>,
    net: Cidr,
)
    ensures
        diff_of(snapshot, desired, tag).to_remove.contains(net) ==> !desired.contains(net) && exists|
            i: int,
        |
            0 <= i < snapshot.entries.len() && (#[trigger] snapshot.entries[i]).owned_by(tag)
                && snapshot.entries[i].cidr == net,
        diff_of(snapshot, desired, tag).to_add.contains(net) ==> desired.contains(net) && forall|
            i: int,
        |
            0 <= i < snapshot.entries.len() && (#[trigger] snapshot.entries[i]).cidr == net
                ==> !snapshot.entries[i].owned_by(tag),
{
}

/// A prefix that only entries with another description carry is never removed,
/// whatever is desired.
pub proof fn lemma_ownership_isolation(
    snapshot: SnapshotView,
    desired: Set<Cidr>,
    tag: Seq<char>,
    net: Cidr,
)
    requires
        forall|i: int|
            0 <= i < snapshot.entries.len() && (#[trigger] snapshot.entries[i]).cidr == net
                ==> !snapshot.entries[i].owned_by(tag),
    ensures
        !diff_of(snapshot, desired, tag).to_remove.contains(net),
{
}

/// The test that an entry passes when its prefix is not in `remove`.
pub open spec fn survives(remove: Set<Cidr>) -> spec_fn(EntryView) -> bool {
    |e: EntryView| !remove.contains(e.cidr)
}

/// The entry that carries `tag` for a prefix.
pub open spec fn tagged(tag: Seq<char>) -> spec_fn(Cidr) -> EntryView {
    |net: Cidr| EntryView { cidr: net, description: tag }
}

/// The entries that the remote holds once a modification is applied: every entry whose
/// prefix is in `remove` is gone, and one entry tagged `tag` follows for each prefix of
/// `add`. The version moves on by one.
pub open spec fn after_modify(
    snapshot: SnapshotView,
    add: Seq<Cidr>,
    remove: Set<Cidr>,
    tag: Seq<char>,
) -> SnapshotView {
    SnapshotView {
        entries: snapshot.entries.filter(survives(remove)) + add.map_values(tagged(tag)),
        version: snapshot.version + 1,
        ..snapshot
    }
}

/// A modification does what it is for: once the diff is applied, the entries that carry
/// `tag` are exactly the desired set.
pub proof fn lemma_modify_reaches_desired(
    snapshot: SnapshotView,
    desired: Set<Cidr>,
    tag: Seq<char>,
    add: Seq<Cidr>,
)
    requires
        add.to_set() == diff_of(snapshot, desired, tag).to_add,
    ensures
        owned_cidrs(
            after_modify(snapshot, add, diff_of(snapshot, desired, tag).to_remove, tag).entries,
            tag,
        ) == desired,
{
    let d = diff_of(snapshot, desired, tag);
    let next = after_modify(snapshot, add, d.to_remove, tag);
    let kept = snapshot.entries.filter(survives(d.to_remove));
    let added = add.map_values(tagged(tag));
    let mine = owned_cidrs(next.entries, tag);
    assert(next.entries == kept + added);
    assert forall|net: Cidr| mine.contains(net) <==> desired.contains(net) by {
        if mine.contains(net) {
            let i = choose|i: int|
                0 <= i < next.entries.len() && (#[trigger] next.entries[i]).owned_by(tag)
                    && next.entries[i].cidr == net;
            if i < kept.len() {
                snapshot.entries.lemma_filter_pred(survives(d.to_remove), i);
                assert(kept.contains(kept[i]));
                snapshot.entries.lemma_filter_contains_rev(survives(d.to_remove), kept[i]);
                assert(snapshot.entries.contains(kept[i]));
                let k = choose|k: int| 0 <= k < snapshot.entries.len() && snapshot.entries[k] == kept[i];
                assert(snapshot.entries[k].owned_by(tag));
                assert(owned_cidrs(snapshot.entries, tag).contains(net));
                assert(!d.to_remove.contains(net));
            } else {
                assert(added[i - kept.len()].cidr == add[i - kept.len()]);
                assert(add.to_set().contains(add[i - kept.len()]));
            }
        }
        if desired.contains(net) {
            if owned_cidrs(snapshot.entries, tag).contains(net) {
                let k = choose|k: int|
                    0 <= k < snapshot.entries.len() && (#[trigger] snapshot.entries[k]).owned_by(
                        tag,
                    ) && snapshot.entries[k].cidr == net;
                assert(!d.to_remove.contains(net));
                snapshot.entries.lemma_filter_contains(survives(d.to_remove), k);
                assert(kept.contains(snapshot.entries[k]));
                let i = choose|i: int| 0 <= i < kept.len() && kept[i] == snapshot.entries[k];
                assert(next.entries[i] == kept[i]);
            } else {
                assert(d.to_add.contains(net));
                assert(add.to_set().contains(net));
                let j = choose|j: int| 0 <= j < add.len() && add[j] == net;
                assert(added[j].cidr == net);
                assert(same_ignoring_case(tag, tag));
                assert(next.entries[kept.len() + j] == added[j]);
            }
        }
    }
    assert(mine =~= desired);
}

/// After a diff is applied, nothing is left to do: the diff of the new snapshot against
/// the same desired set adds nothing and removes nothing.
pub proof fn lemma_diff_idempotent(
    snapshot: SnapshotView,
    desired: Set<Cidr>,
    tag: Seq<char>,
    add: Seq<Cidr>,
)
    requires
        add.to_set() == diff_of(snapshot, desired, tag).to_add,
    ensures
        diff_of(
            after_modify(snapshot, add, diff_of(snapshot, desired, tag).to_remove, tag),
            desired,
            tag,
        ).is_noop(),
{
    lemma_modify_reaches_desired(snapshot, desired, tag, add);
    assert(desired.difference(desired) =~= Set::<Cidr>::empty());
}

/// No prefix is both added and removed.
pub proof fn lemma_diff_disjoint(snapshot: SnapshotView, desired: Set<Cidr>, tag: Seq<char>)
    ensures
        diff_of(snapshot, desired, tag).to_add.disjoint(
            diff_of(snapshot, desired, tag).to_remove,
        ),
{
}

/// A modification leaves alone what it does not name: an entry whose prefix is not
/// removed is still there afterwards, before the entries that were added.
pub proof fn lemma_modify_keeps_the_rest(
    snapshot: SnapshotView,
    add: Seq<Cidr>,
    remove: Set<Cidr>,
    tag: Seq<char>,
    i: int,
)
    requires
        0 <= i < snapshot.entries.len(),
        !remove.contains(snapshot.entries[i].cidr),
    ensures
        after_modify(snapshot, add, remove, tag).entries.contains(snapshot.entries[i]),
{
    let kept = snapshot.entries.filter(survives(remove));
    let next = after_modify(snapshot, add, remove, tag).entries;
    snapshot.entries.lemma_filter_contains(survives(remove), i);
    let k = choose|k: int| 0 <= k < kept.len() && kept[k] == snapshot.entries[i];
    assert(next[k] == snapshot.entries[i]);
}

} // verus!
