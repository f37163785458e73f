//! Allow-list entries and snapshots of an allow-list.

use crate::cidr::{ipnet_parse, Cidr, ParseError};
use crate::text::{eq_ignore_case, same_ignoring_case};
use vstd::prelude::*;
use vstd::string::*;

verus! {

/// The most characters that the remote API stores in a description.
pub const MAX_DESCRIPTION_LEN: usize = 255;

/// One entry of an allow-list: a network prefix and the description that tags it.
#[derive(Debug, PartialEq, Eq)]
pub struct AllowListEntry {
    pub cidr: Cidr,
    pub description: String,
}

/// The mathematical value of an [`AllowListEntry`].
pub struct EntryView {
    pub cidr: Cidr,
    pub description: Seq<char>,
}

impl EntryView {
    /// The prefix is valid and the description is within the remote limit.
    pub open spec fn wf(self) -> bool {
        &&& self.cidr.wf()
        &&& self.description.len() <= MAX_DESCRIPTION_LEN
    }

    /// The entry carries `tag`: its description is the tag, ASCII case aside.
    pub open spec fn owned_by(self, tag: Seq<char>) -> bool {
        same_ignoring_case(self.description, tag)
    }
}

impl View for AllowListEntry {
    type V = EntryView;

    open spec fn view(&self) -> EntryView {
        EntryView { cidr: self.cidr, description: self.description@ }
    }
}

impl DeepView for AllowListEntry {
    type V = EntryView;

    open spec fn deep_view(&self) -> EntryView {
        self@
    }
}

impl Clone for AllowListEntry {
    fn clone(&self) -> (copy: Self)
        ensures
            copy@ == self@,
    {
        AllowListEntry { cidr: self.cidr, description: self.description.clone() }
    }
}

/// The entry that a prefix, as the parser read it, and a description make.
pub open spec fn entry_of_parse(parsed: Option<Cidr>, description: Seq<char>) -> Result<
    EntryView,
    ParseError,
> {
    match parsed {
        None => Err(ParseError::MalformedCidr),
        Some(cidr) => if description.len() > MAX_DESCRIPTION_LEN {
            Err(ParseError::DescriptionTooLong)
        } else {
            Ok(EntryView { cidr, description })
        },
    }
}

/// The views of a parse outcome.
pub open spec fn parse_view(r: Result<AllowListEntry, ParseError>) -> Result<
    EntryView,
    ParseError,
> {
    match r {
        Ok(entry) => Ok(entry@),
        Err(e) => Err(e),
    }
}

impl AllowListEntry {
    /// The prefix is valid and the description is within the remote limit.
    pub open spec fn wf(&self) -> bool {
        self@.wf()
    }

    /// Builds an entry from a prefix in CIDR notation and a description.
    ///
    /// Fails with `MalformedCidr` when `cidr_str` is not an address and a prefix length,
    /// and with `DescriptionTooLong` when the prefix is fine and the description has
    /// more than [`MAX_DESCRIPTION_LEN`] characters.
    pub fn parse(cidr_str: &str, description: &str) -> (r: Result<AllowListEntry, ParseError>)
        ensures
            parse_view(r) == entry_of_parse(ipnet_parse(cidr_str@), description@),
            r matches Ok(entry) ==> entry.wf(),
    {
        match Cidr::parse(cidr_str) {
            Ok(cidr) => AllowListEntry::new(cidr, description),
            Err(e) => Err(e),
        }
    }

    /// Builds an entry from a prefix and a description.
    pub fn new(cidr: Cidr, description: &str) -> (r: Result<AllowListEntry, ParseError>)
        ensures
            parse_view(r) == entry_of_parse(Some(cidr), description@),
            r matches Ok(entry) ==> (entry.wf() <==> cidr.wf()),
    {
        if description.unicode_len() > MAX_DESCRIPTION_LEN {
            Err(ParseError::DescriptionTooLong)
        } else {
            Ok(AllowListEntry { cidr, description: description.to_owned() })
        }
    }

    /// Whether the prefix is valid and the description within the remote limit.
    pub fn is_valid(&self) -> (ok: bool)
        ensures
            ok == self.wf(),
    {
        self.cidr.is_valid() && self.description.as_str().unicode_len() <= MAX_DESCRIPTION_LEN
    }

    /// Whether this tool manages the entry: its description is `tag`, ASCII case aside.
    pub fn is_owned(&self, tag: &str) -> (owned: bool)
        ensures
            owned == self@.owned_by(tag@),
    {
        eq_ignore_case(self.description.as_str(), tag)
    }
}

/// The state that the remote API reports for an allow-list.
#[derive(Clone, Copy, Debug, PartialEq, Eq, Structural)]
pub enum ListState {
    CreateInProgress,
    CreateComplete,
    CreateFailed,
    ModifyInProgress,
    ModifyComplete,
    ModifyFailed,
    RestoreInProgress,
    RestoreComplete,
    RestoreFailed,
    DeleteInProgress,
    DeleteComplete,
    DeleteFailed,
}

/// An allow-list as the remote API last described it.
///
/// `version` is the token of the remote's optimistic concurrency control: a
/// modification names the version it was computed from.
#[derive(Debug, PartialEq, Eq)]
pub struct AllowListSnapshot {
    pub id: String,
    pub version: u64,
    pub max_entries: u64,
    pub state: Option<ListState>,
    pub entries: Vec<AllowListEntry>,
}

/// The mathematical value of an [`AllowListSnapshot`].
pub struct SnapshotView {
    pub id: Seq<char>,
    pub version: nat,
    pub max_entries: nat,
    pub state: Option<ListState>,
    pub entries: Seq<EntryView>,
}

impl SnapshotView {
    /// Every entry is well formed.
    pub open spec fn wf(self) -> bool {
        forall|i: int| 0 <= i < self.entries.len() ==> (#[trigger] self.entries[i]).wf()
    }
}

impl View for AllowListSnapshot {
    type V = SnapshotView;

    open spec fn view(&self) -> SnapshotView {
        SnapshotView {
            id: self.id@,
            version: self.version as nat,
            max_entries: self.max_entries as nat,
            state: self.state,
            entries: self.entries.deep_view(),
        }
    }
}

impl DeepView for AllowListSnapshot {
    type V = SnapshotView;

    open spec fn deep_view(&self) -> SnapshotView {
        self@
    }
}

impl AllowListSnapshot {
    /// Every entry is well formed.
    pub open spec fn wf(&self) -> bool {
        self@.wf()
    }

    /// Whether every entry is well formed.
    pub fn is_valid(&self) -> (ok: bool)
        ensures
            ok == self.wf(),
    {
        let mut i: usize = 0;
        while i < self.entries.len()
            invariant
                i <= self.entries.len(),
                forall|k: int| 0 <= k < i ==> (#[trigger] self@.entries[k]).wf(),
            decreases self.entries.len() - i,
        {
            assert(self@.entries[i as int] == self.entries[i as int]@);
            if !self.entries[i].is_valid() {
                return false;
            }
            i += 1;
        }
        true
    }
}

} // verus!
