//! From a failed remote call to the error that the caller branches on.

use crate::error::{AWSError, ErrorView};
use crate::http::{
    body_errors, opt_text, or_empty, parse_error_body, HttpErrorView, HttpResponseError,
};
use crate::text::{decimal, push_decimal, str_eq};
use vstd::prelude::*;
use vstd::string::*;
use vstd::utf8::{decode_utf8, valid_utf8};

verus! {

/// A remote call that failed, in one of the three shapes in which failures arrive.
#[derive(Debug, PartialEq, Eq)]
pub enum RemoteFailure {
    /// The service answered with an error that already has its place among the errors
    /// of this crate.
    Service(AWSError),
    /// The caller's credentials were missing or rejected.
    Credentials { message: String },
    /// An HTTP response that the transport could not interpret: its status and body.
    Http { status: u16, body: Vec<u8> },
}

/// The mathematical value of a [`RemoteFailure`].
pub enum FailureView {
    Service(ErrorView),
    Credentials { message: Seq<char> },
    Http { status: u16, body: Seq<u8> },
}

impl View for RemoteFailure {
    type V = FailureView;

    open spec fn view(&self) -> FailureView {
        match *self {
            RemoteFailure::Service(e) => FailureView::Service(e@),
            RemoteFailure::Credentials { message } => FailureView::Credentials {
                message: message@,
            },
            RemoteFailure::Http { status, body } => FailureView::Http { status, body: body@ },
        }
    }
}

/// The text that `String::from_utf8_lossy` makes of a byte string.
pub uninterp spec fn utf8_lossy(bytes: Seq<u8>) -> Seq<char>;

/// `String::from_utf8_lossy`: the bytes as a text, with a replacement character for
/// what is not UTF-8. Valid UTF-8 comes back unchanged.
#[verifier::external_body]
fn lossy_text(bytes: &[u8]) -> (text: String)
    ensures
        text@ == utf8_lossy(bytes@),
        valid_utf8(bytes@) ==> text@ == decode_utf8(bytes@),
{
    String::from_utf8_lossy(bytes).into_owned()
}

/// What is kept of a response that has no better classification: the status and the
/// body as text.
pub open spec fn payload_text(status: u16, body: Seq<u8>) -> Seq<char> {
    "HTTP "@ + decimal(status as nat) + ": "@ + utf8_lossy(body)
}

/// The place of a vendor error code among the errors of this crate. A code that the
/// table does not hold stays a `BadRequest` with the code and the message.
pub open spec fn refine(code: Seq<char>, message: Seq<char>) -> ErrorView {
    if code == "InvalidPermission.Duplicate"@ {
        ErrorView::Duplicate
    } else if code == "InvalidPermission.Malformed"@ {
        ErrorView::Malformed
    } else if code == "RulesPerSecurityGroupLimitExceeded"@ {
        ErrorView::LimitExceeded
    } else if code == "PrefixListMaxEntriesExceeded"@ {
        ErrorView::LimitExceeded
    } else if code == "PrefixListVersionMismatch"@ {
        ErrorView::VersionConflict
    } else {
        ErrorView::BadRequest { code, message }
    }
}

/// The class of an HTTP response, given the vendor's error list of its body.
///
/// Status 403 is a refusal whatever the body holds. Status 400 goes by the first error
/// of the list; without a list, or with an empty one, the response is unknown. So is
/// every other status.
pub open spec fn class_of_response(
    status: u16,
    body: Seq<u8>,
    errors: Option<Seq<HttpErrorView>>,
) -> ErrorView {
    if status == 403 {
        ErrorView::PermissionDenied
    } else if status == 400 && errors is Some && errors->0.len() > 0 {
        refine(or_empty(errors->0[0].code), or_empty(errors->0[0].message))
    } else {
        ErrorView::Unknown { details: payload_text(status, body) }
    }
}

/// The class of a failure.
pub open spec fn class_of(failure: FailureView) -> ErrorView {
    match failure {
        FailureView::Service(e) => e,
        FailureView::Credentials { message } => ErrorView::Credentials { message },
        FailureView::Http { status, body } => class_of_response(status, body, body_errors(body)),
    }
}

/// A copy of a text that may be missing; the empty text where it is.
fn text_or_empty(text: &Option<String>) -> (copy: String)
    ensures
        copy@ == or_empty(opt_text(*text)),
{
    match text {
        Some(t) => t.clone(),
        None => String::new(),
    }
}

/// Places a vendor error code among the errors of this crate.
pub fn refine_code(code: String, message: String) -> (e: AWSError)
    ensures
        e@ == refine(code@, message@),
{
    if str_eq(code.as_str(), "InvalidPermission.Duplicate") {
        AWSError::Duplicate
    } else if str_eq(code.as_str(), "InvalidPermission.Malformed") {
        AWSError::Malformed
    } else if str_eq(code.as_str(), "RulesPerSecurityGroupLimitExceeded") {
        AWSError::LimitExceeded
    } else if str_eq(code.as_str(), "PrefixListMaxEntriesExceeded") {
        AWSError::LimitExceeded
    } else if str_eq(code.as_str(), "PrefixListVersionMismatch") {
        AWSError::VersionConflict
    } else {
        AWSError::BadRequest { code, message }
    }
}

/// Describes a response that has no better classification.
pub fn describe_payload(status: u16, body: &[u8]) -> (text: String)
    ensures
        text@ == payload_text(status, body@),
{
    let mut text = "HTTP ".to_owned();
    push_decimal(&mut text, status as u64);
    text.append(": ");
    let tail = lossy_text(body);
    text.append(tail.as_str());
    text
}

/// Classifies an HTTP response, given the vendor's error list of its body.
pub fn classify_response(status: u16, body: &[u8], errors: Option<Vec<HttpResponseError>>) -> (e:
    AWSError)
    ensures
        e@ == class_of_response(status, body@, errors.deep_view()),
{
    if status == 403 {
        return AWSError::PermissionDenied;
    }
    if status == 400 {
        match &errors {
            Some(list) => {
                if list.len() > 0 {
                    assert(errors.deep_view()->0[0] == list[0]@);
                    return refine_code(
                        text_or_empty(&list[0].code),
                        text_or_empty(&list[0].message),
                    );
                }
            },
            None => {},
        }
    }
    AWSError::Unknown { details: describe_payload(status, body) }
}

/// Classifies a failed remote call.
pub fn classify(failure: RemoteFailure) -> (e: AWSError)
    ensures
        e@ == class_of(failure@),
{
    match failure {
        RemoteFailure::Service(e) => e,
        RemoteFailure::Credentials { message } => AWSError::Credentials { message },
        RemoteFailure::Http { status, body } => {
            if status == 400 {
                let errors = parse_error_body(body.as_slice());
                classify_response(status, body.as_slice(), errors)
            } else {
                classify_response(status, body.as_slice(), None)
            }
        },
    }
}

} // verus!
