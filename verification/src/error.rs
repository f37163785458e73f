//! The closed set of errors that the engine hands to its caller.

use vstd::prelude::*;
use vstd::string::*;

verus! {

/// A query that must name exactly one thing named none, or more than one.
#[derive(Clone, Copy, Debug, PartialEq, Eq, Structural)]
pub enum CardinalityError {
    NoneFound,
    TooMany,
}

/// Every way in which a reconciliation can end other than with a fresh snapshot.
#[derive(Debug, PartialEq, Eq)]
pub enum AWSError {
    /// The allow-list already holds what is desired: a signal to the caller, not a failure.
    NothingToDo,
    /// A result that should name one allow-list named none or several.
    Cardinality(CardinalityError),
    /// The caller's identity could not be established.
    Credentials { message: String },
    /// The remote API refused the caller (HTTP 403).
    PermissionDenied,
    /// The remote API rejected the request (HTTP 400) with a code this crate has no
    /// variant for.
    BadRequest { code: String, message: String },
    /// The entry is already there.
    Duplicate,
    /// The entry's shape is invalid.
    Malformed,
    /// The allow-list is full.
    LimitExceeded,
    /// The version sent with a modification is not the remote one any more.
    VersionConflict,
    /// The allow-list did not reach the awaited state in time.
    Timeout,
    /// Anything else, with what is known of it.
    Unknown { details: String },
}

/// The mathematical value of an [`AWSError`].
pub enum ErrorView {
    NothingToDo,
    Cardinality(CardinalityError),
    Credentials { message: Seq<char> },
    PermissionDenied,
    BadRequest { code: Seq<char>, message: Seq<char> },
    Duplicate,
    Malformed,
    LimitExceeded,
    VersionConflict,
    Timeout,
    Unknown { details: Seq<char> },
}

impl View for AWSError {
    type V = ErrorView;

    open spec fn view(&self) -> ErrorView {
        match *self {
            AWSError::NothingToDo => ErrorView::NothingToDo,
            AWSError::Cardinality(c) => ErrorView::Cardinality(c),
            AWSError::Credentials { message } => ErrorView::Credentials { message: message@ },
            AWSError::PermissionDenied => ErrorView::PermissionDenied,
            AWSError::BadRequest { code, message } => ErrorView::BadRequest {
                code: code@,
                message: message@,
            },
            AWSError::Duplicate => ErrorView::Duplicate,
            AWSError::Malformed => ErrorView::Malformed,
            AWSError::LimitExceeded => ErrorView::LimitExceeded,
            AWSError::VersionConflict => ErrorView::VersionConflict,
            AWSError::Timeout => ErrorView::Timeout,
            AWSError::Unknown { details } => ErrorView::Unknown { details: details@ },
        }
    }
}

/// What the poll loop does about the end of a reconciliation.
#[derive(Clone, Copy, Debug, PartialEq, Eq, Structural)]
pub enum Disposition {
    /// Nothing went wrong: the allow-list holds what is desired.
    Success,
    /// Log the error and try again at the next tick.
    RetryNextTick,
    /// Stop the run: waiting will not mend it.
    Fatal,
}

/// How the poll loop treats each error.
///
/// Nothing to do and a duplicate entry leave the allow-list as desired. A wrong
/// identity, a refusal, a malformed entry, a full list and a query that did not name
/// one list will not mend by waiting. Everything else is tried again at the next tick.
pub open spec fn disposition_of(e: ErrorView) -> Disposition {
    match e {
        ErrorView::NothingToDo | ErrorView::Duplicate => Disposition::Success,
        ErrorView::Credentials { .. }
        | ErrorView::PermissionDenied
        | ErrorView::Malformed
        | ErrorView::LimitExceeded
        | ErrorView::Cardinality(_) => Disposition::Fatal,
        ErrorView::BadRequest { .. }
        | ErrorView::VersionConflict
        | ErrorView::Timeout
        | ErrorView::Unknown { .. } => Disposition::RetryNextTick,
    }
}

/// The text shown to the operator for each error.
pub open spec fn message_of(e: ErrorView) -> Seq<char> {
    match e {
        ErrorView::NothingToDo => "Nothing to do."@,
        ErrorView::Cardinality(CardinalityError::NoneFound) => "Expected one result, found none."@,
        ErrorView::Cardinality(CardinalityError::TooMany) => "Expected one result, found too many."@,
        ErrorView::Credentials { .. } => "Credentials were rejected or not found."@,
        ErrorView::PermissionDenied => "Permission denied."@,
        ErrorView::BadRequest { code, message } => "Request failed. "@ + code + " - "@ + message,
        ErrorView::Duplicate => "The entry already exists."@,
        ErrorView::Malformed => "The entry is malformed."@,
        ErrorView::LimitExceeded => "The list is full."@,
        ErrorView::VersionConflict => "The list was modified by someone else."@,
        ErrorView::Timeout => "Timed out waiting for the list to change state."@,
        ErrorView::Unknown { .. } => "Unknown error occurred."@,
    }
}

/// The raw detail kept for diagnosis, for the errors that carry one.
pub open spec fn detail_of(e: ErrorView) -> Option<Seq<char>> {
    match e {
        ErrorView::Credentials { message } => Some(message),
        ErrorView::Unknown { details } => Some(details),
        _ => None,
    }
}

impl CardinalityError {
    /// The text shown for the error.
    pub fn message(&self) -> (text: String)
        ensures
            text@ == message_of(ErrorView::Cardinality(*self)),
    {
        match self {
            CardinalityError::NoneFound => "Expected one result, found none.".to_owned(),
            CardinalityError::TooMany => "Expected one result, found too many.".to_owned(),
        }
    }
}

impl AWSError {
    /// Whether the error only says that the allow-list already holds what is desired.
    pub fn is_nothing_to_do(&self) -> (yes: bool)
        ensures
            yes == (self@ == ErrorView::NothingToDo),
    {
        match self {
            AWSError::NothingToDo => true,
            _ => false,
        }
    }

    /// How the poll loop treats the error.
    pub fn disposition(&self) -> (d: Disposition)
        ensures
            d == disposition_of(self@),
    {
        match self {
            AWSError::NothingToDo | AWSError::Duplicate => Disposition::Success,
            AWSError::Credentials { .. }
            | AWSError::PermissionDenied
            | AWSError::Malformed
            | AWSError::LimitExceeded
            | AWSError::Cardinality(_) => Disposition::Fatal,
            AWSError::BadRequest { .. }
            | AWSError::VersionConflict
            | AWSError::Timeout
            | AWSError::Unknown { .. } => Disposition::RetryNextTick,
        }
    }

    /// The text to log at error level.
    pub fn message(&self) -> (text: String)
        ensures
            text@ == message_of(self@),
    {
        match self {
            AWSError::NothingToDo => "Nothing to do.".to_owned(),
            AWSError::Cardinality(c) => c.message(),
            AWSError::Credentials { .. } => "Credentials were rejected or not found.".to_owned(),
            AWSError::PermissionDenied => "Permission denied.".to_owned(),
            AWSError::BadRequest { code, message } => {
                let mut text = "Request failed. ".to_owned();
                text.append(code.as_str());
                text.append(" - ");
                text.append(message.as_str());
                text
            },
            AWSError::Duplicate => "The entry already exists.".to_owned(),
            AWSError::Malformed => "The entry is malformed.".to_owned(),
            AWSError::LimitExceeded => "The list is full.".to_owned(),
            AWSError::VersionConflict => "The list was modified by someone else.".to_owned(),
            AWSError::Timeout => "Timed out waiting for the list to change state.".to_owned(),
            AWSError::Unknown { .. } => "Unknown error occurred.".to_owned(),
        }
    }

    /// The raw detail to log at debug level, for the errors that carry one.
    pub fn detail(&self) -> (text: Option<String>)
        ensures
            match text {
                Some(t) => detail_of(self@) == Some(t@),
                None => detail_of(self@) is None,
            },
    {
        match self {
            AWSError::Credentials { message } => Some(message.clone()),
            AWSError::Unknown { details } => Some(details.clone()),
            _ => None,
        }
    }
}

impl Clone for AWSError {
    fn clone(&self) -> (copy: Self)
        ensures
            copy@ == self@,
    {
        match self {
            AWSError::NothingToDo => AWSError::NothingToDo,
            AWSError::Cardinality(c) => AWSError::Cardinality(*c),
            AWSError::Credentials { message } => AWSError::Credentials { message: message.clone() },
            AWSError::PermissionDenied => AWSError::PermissionDenied,
            AWSError::BadRequest { code, message } => AWSError::BadRequest {
                code: code.clone(),
                message: message.clone(),
            },
            AWSError::Duplicate => AWSError::Duplicate,
            AWSError::Malformed => AWSError::Malformed,
            AWSError::LimitExceeded => AWSError::LimitExceeded,
            AWSError::VersionConflict => AWSError::VersionConflict,
            AWSError::Timeout => AWSError::Timeout,
            AWSError::Unknown { details } => AWSError::Unknown { details: details.clone() },
        }
    }
}

} // verus!
