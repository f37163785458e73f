//! Adding entries one call at a time, tolerating those that are already there.
//!
//! The remote fails a whole modification if one of its entries is a duplicate. Where a
//! batch may succeed in part, each entry gets a call of its own: a duplicate is passed
//! over with a warning, any other error ends the batch at once.

use crate::cidr::Cidr;
use crate::cidr_set::CidrSet;
use crate::classify::{class_of, classify, FailureView, RemoteFailure};
use crate::entry::{AllowListSnapshot, SnapshotView};
use crate::error::{AWSError, CardinalityError, ErrorView};
use crate::reconcile::{
    add_entry_for, answer_view, AddEntry, ModifyRequest, ModifyRequestView,
};
use vstd::prelude::*;
use vstd::string::*;

verus! {

/// A batch of additions under way: the list and the version that the next call names,
/// the prefixes to add, and how many of them are dealt with.
#[derive(Debug, PartialEq, Eq)]
pub struct TolerantBatch {
    pub list_id: String,
    pub version: u64,
    pub description: String,
    pub pending: Vec<Cidr>,
    pub position: usize,
}

/// The batch after an answer, and the prefix that was passed over as a duplicate, if
/// the answer said so.
#[derive(Debug, PartialEq, Eq)]
pub struct BatchProgress {
    pub batch: TolerantBatch,
    pub skipped: Option<Cidr>,
}

/// The mathematical value of a [`TolerantBatch`].
pub struct BatchView {
    pub list_id: Seq<char>,
    pub version: nat,
    pub description: Seq<char>,
    pub pending: Seq<Cidr>,
    pub position: nat,
}

/// The mathematical value of a [`BatchProgress`].
pub struct ProgressView {
    pub batch: BatchView,
    pub skipped: Option<Cidr>,
}

impl View for TolerantBatch {
    type V = BatchView;

    open spec fn view(&self) -> BatchView {
        BatchView {
            list_id: self.list_id@,
            version: self.version as nat,
            description: self.description@,
            pending: self.pending@,
            position: self.position as nat,
        }
    }
}

impl View for BatchProgress {
    type V = ProgressView;

    open spec fn view(&self) -> ProgressView {
        ProgressView { batch: self.batch@, skipped: self.skipped }
    }
}

impl BatchView {
    /// Every prefix is valid.
    pub open spec fn wf(self) -> bool {
        forall|i: int| 0 <= i < self.pending.len() ==> (#[trigger] self.pending[i]).wf()
    }

    /// Whether a prefix is left to add.
    pub open spec fn has_next(self) -> bool {
        self.position < self.pending.len()
    }

    /// The batch with its next prefix dealt with.
    pub open spec fn advanced(self) -> BatchView {
        BatchView { position: self.position + 1, ..self }
    }
}

/// The call for the next prefix: one addition against the batch's version. `None`
/// where the batch is done.
pub open spec fn next_request_of(batch: BatchView) -> Option<ModifyRequestView> {
    if batch.has_next() {
        Some(
            ModifyRequestView {
                list_id: batch.list_id,
                current_version: batch.version,
                add_entries: seq![add_entry_for(batch.description)(batch.pending[batch.position as int])],
                remove_entries: Seq::empty(),
            },
        )
    } else {
        None
    }
}

/// The batch after the answer to the call for its next prefix.
///
/// A snapshot moves the batch on with the snapshot's version. A duplicate moves it on
/// too, and the prefix is reported as passed over. Every other failure ends the batch.
/// An answer to a batch that is done changes nothing.
pub open spec fn answered_of(
    batch: BatchView,
    answer: Result<Option<SnapshotView>, FailureView>,
) -> Result<ProgressView, ErrorView> {
    if !batch.has_next() {
        Ok(ProgressView { batch, skipped: None })
    } else {
        match answer {
            Ok(Some(snapshot)) => Ok(
                ProgressView {
                    batch: BatchView { version: snapshot.version, ..batch.advanced() },
                    skipped: None,
                },
            ),
            Ok(None) => Err(ErrorView::Cardinality(CardinalityError::NoneFound)),
            Err(failure) => if class_of(failure) == ErrorView::Duplicate {
                Ok(
                    ProgressView {
                        batch: batch.advanced(),
                        skipped: Some(batch.pending[batch.position as int]),
                    },
                )
            } else {
                Err(class_of(failure))
            },
        }
    }
}

/// The views of the outcome of an answer.
pub open spec fn progress_view(r: Result<BatchProgress, AWSError>) -> Result<
    ProgressView,
    ErrorView,
> {
    match r {
        Ok(progress) => Ok(progress@),
        Err(e) => Err(e@),
    }
}

/// The view of a request that may be missing.
pub open spec fn request_view(r: Option<ModifyRequest>) -> Option<ModifyRequestView> {
    match r {
        Some(request) => Some(request@),
        None => None,
    }
}

impl TolerantBatch {
    /// Every prefix of the batch is valid.
    pub open spec fn wf(&self) -> bool {
        self@.wf()
    }

    /// A batch that adds `additions` to the list of `snapshot`, each under `tag`.
    pub fn new(snapshot: &AllowListSnapshot, additions: &CidrSet, tag: &str) -> (batch:
        TolerantBatch)
        requires
            additions.wf(),
        ensures
            batch.wf(),
            batch@ == (BatchView {
                list_id: snapshot@.id,
                version: snapshot@.version,
                description: tag@,
                pending: additions.elements(),
                position: 0,
            }),
    {
        proof {
            additions.lemma_elements();
        }
        TolerantBatch {
            list_id: snapshot.id.clone(),
            version: snapshot.version,
            description: tag.to_owned(),
            pending: additions.to_vec(),
            position: 0,
        }
    }

    /// Whether every prefix is dealt with.
    pub fn is_done(&self) -> (done: bool)
        ensures
            done == !self@.has_next(),
    {
        self.position >= self.pending.len()
    }

    /// The call to make next, if a prefix is left.
    pub fn next_request(&self) -> (request: Option<ModifyRequest>)
        requires
            self.wf(),
        ensures
            request_view(request) == next_request_of(self@),
    {
        if self.position < self.pending.len() {
            let entry = AddEntry {
                cidr: self.pending[self.position].to_text(),
                description: self.description.clone(),
            };
            let ghost made = entry@;
            let mut add_entries: Vec<AddEntry> = Vec::new();
            add_entries.push(entry);
            let remove_entries: Vec<crate::reconcile::RemoveEntry> = Vec::new();
            assert(add_entries.deep_view() =~= seq![made]);
            assert(remove_entries.deep_view() =~= Seq::empty());
            Some(
                ModifyRequest {
                    list_id: self.list_id.clone(),
                    current_version: self.version,
                    add_entries,
                    remove_entries,
                },
            )
        } else {
            None
        }
    }

    /// Takes the remote's answer to the call for the next prefix.
    pub fn on_answer(self, answer: Result<Option<AllowListSnapshot>, RemoteFailure>) -> (r: Result<
        BatchProgress,
        AWSError,
    >)
        ensures
            progress_view(r) == answered_of(self@, answer_view(answer)),
            r matches Err(e) ==> e@ != ErrorView::Duplicate,
            self.wf() ==> (r matches Ok(progress) ==> progress.batch.wf()),
    {
        if self.position >= self.pending.len() {
            return Ok(BatchProgress { batch: self, skipped: None });
        }
        let TolerantBatch { list_id, version, description, pending, position } = self;
        match answer {
            Ok(Some(snapshot)) => Ok(
                BatchProgress {
                    batch: TolerantBatch {
                        list_id,
                        version: snapshot.version,
                        description,
                        pending,
                        position: position + 1,
                    },
                    skipped: None,
                },
            ),
            Ok(None) => Err(AWSError::Cardinality(CardinalityError::NoneFound)),
            Err(failure) => {
                let e = classify(failure);
                match e {
                    AWSError::Duplicate => {
                        let skipped = Some(pending[position]);
                        Ok(
                            BatchProgress {
                                batch: TolerantBatch {
                                    list_id,
                                    version,
                                    description,
                                    pending,
                                    position: position + 1,
                                },
                                skipped,
                            },
                        )
                    },
                    other => Err(other),
                }
            },
        }
    }
}

} // verus!
