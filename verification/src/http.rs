//! HTTP error responses of the remote API: the vendor's error list in the XML body.

use crate::xml::{
    find_named, first_named, parse_document, roxmltree_nodes, XmlNode, XmlNodeView,
};
use vstd::prelude::*;
use vstd::string::*;
use vstd::utf8::{decode_utf8, encode_utf8, encode_utf8_decode_utf8, valid_utf8};

verus! {

/// One error of a vendor error body: the texts of its `Code` and `Message` elements.
#[derive(Debug, PartialEq, Eq)]
pub struct HttpResponseError {
    pub code: Option<String>,
    pub message: Option<String>,
}

/// The mathematical value of an [`HttpResponseError`].
pub struct HttpErrorView {
    pub code: Option<Seq<char>>,
    pub message: Option<Seq<char>>,
}

/// The view of a text that may be missing.
pub open spec fn opt_text(text: Option<String>) -> Option<Seq<char>> {
    match text {
        Some(t) => Some(t@),
        None => None,
    }
}

/// A text that may be missing, as a text: the empty one where it is.
pub open spec fn or_empty(text: Option<Seq<char>>) -> Seq<char> {
    match text {
        Some(t) => t,
        None => Seq::empty(),
    }
}

impl View for HttpResponseError {
    type V = HttpErrorView;

    open spec fn view(&self) -> HttpErrorView {
        HttpErrorView { code: opt_text(self.code), message: opt_text(self.message) }
    }
}

impl DeepView for HttpResponseError {
    type V = HttpErrorView;

    open spec fn deep_view(&self) -> HttpErrorView {
        self@
    }
}

/// The error that node `j` describes: the texts of the first `Code` and the first
/// `Message` at or below it. `None` where either element is missing.
pub open spec fn error_at(nodes: Seq<XmlNodeView>, j: int) -> Option<HttpErrorView> {
    match (first_named(nodes, j, "Code"@), first_named(nodes, j, "Message"@)) {
        (Some(c), Some(m)) => Some(HttpErrorView { code: nodes[c].text, message: nodes[m].text }),
        _ => None,
    }
}

/// The errors that the children of node `container` describe, among the nodes before
/// position `n`. `None` as soon as one child describes no error.
pub open spec fn errors_upto(nodes: Seq<XmlNodeView>, container: int, n: int) -> Option<
    Seq<HttpErrorView>,
>
    decreases n,
{
    if n <= 0 {
        Some(Seq::empty())
    } else {
        match errors_upto(nodes, container, n - 1) {
            None => None,
            Some(found) => if nodes[n - 1].parent == Some(container as usize) {
                match error_at(nodes, n - 1) {
                    Some(e) => Some(found.push(e)),
                    None => None,
                }
            } else {
                Some(found)
            },
        }
    }
}

/// Once a child describes no error, the list stays undefined however far one reads.
pub proof fn lemma_errors_upto_none(nodes: Seq<XmlNodeView>, container: int, n: int, m: int)
    requires
        n <= m,
        errors_upto(nodes, container, n) is None,
    ensures
        errors_upto(nodes, container, m) is None,
    decreases m - n,
{
    if n < m {
        lemma_errors_upto_none(nodes, container, n, m - 1);
    }
}

/// The vendor's error list of a document: the errors that the children of the first
/// `Errors` element describe. `None` where there is no such element, or where one of
/// its children lacks a `Code` or a `Message`.
pub open spec fn errors_of(nodes: Seq<XmlNodeView>) -> Option<Seq<HttpErrorView>> {
    match first_named(nodes, 0, "Errors"@) {
        Some(container) => errors_upto(nodes, container, nodes.len() as int),
        None => None,
    }
}

/// The text that a body holds, if it is UTF-8.
pub open spec fn body_text(body: Seq<u8>) -> Option<Seq<char>> {
    if valid_utf8(body) {
        Some(decode_utf8(body))
    } else {
        None
    }
}

/// The vendor's error list of a response body, given the nodes that the XML parser
/// made of its text.
pub open spec fn errors_of_parsed(parsed: Option<Seq<XmlNodeView>>) -> Option<Seq<HttpErrorView>> {
    match parsed {
        Some(nodes) => errors_of(nodes),
        None => None,
    }
}

/// The vendor's error list of a response body: `None` for a body that is not UTF-8,
/// not XML, or not of the expected shape.
pub open spec fn body_errors(body: Seq<u8>) -> Option<Seq<HttpErrorView>> {
    match body_text(body) {
        Some(text) => errors_of_parsed(roxmltree_nodes(text)),
        None => None,
    }
}

/// `core::str::from_utf8`: the bytes as a text where they are valid UTF-8, `None`
/// where they are not.
#[verifier::external_body]
pub(crate) fn utf8_text(bytes: &[u8]) -> (r: Option<&str>)
    ensures
        match r {
            Some(text) => valid_utf8(bytes@) && encode_utf8(text@) == bytes@,
            None => !valid_utf8(bytes@),
        },
{
    core::str::from_utf8(bytes).ok()
}

/// A copy of a text that may be missing.
fn clone_text(text: &Option<String>) -> (copy: Option<String>)
    ensures
        opt_text(copy) == opt_text(*text),
{
    match text {
        Some(t) => Some(t.clone()),
        None => None,
    }
}

/// Reads the error that node `j` describes.
pub fn read_error(nodes: &Vec<XmlNode>, j: usize) -> (r: Option<HttpResponseError>)
    ensures
        r.deep_view() == error_at(nodes.deep_view(), j as int),
{
    let code = find_named(nodes, j, "Code");
    let message = find_named(nodes, j, "Message");
    match (code, message) {
        (Some(c), Some(m)) => {
            assert(nodes.deep_view()[c as int] == nodes[c as int]@);
            assert(nodes.deep_view()[m as int] == nodes[m as int]@);
            Some(
                HttpResponseError {
                    code: clone_text(&nodes[c].text),
                    message: clone_text(&nodes[m].text),
                },
            )
        },
        _ => None,
    }
}

/// Reads the vendor's error list out of a parsed document.
pub fn read_errors(nodes: &Vec<XmlNode>) -> (r: Option<Vec<HttpResponseError>>)
    ensures
        r.deep_view() == errors_of(nodes.deep_view()),
{
    let ghost ns = nodes.deep_view();
    let container = match find_named(nodes, 0, "Errors") {
        Some(container) => container,
        None => {
            return None;
        },
    };
    let mut errors: Vec<HttpResponseError> = Vec::new();
    let mut j: usize = 0;
    while j < nodes.len()
        invariant
            j <= nodes.len(),
            ns == nodes.deep_view(),
            first_named(ns, 0, "Errors"@) == Some(container as int),
            errors_upto(ns, container as int, j as int) == Some(errors.deep_view()),
        decreases nodes.len() - j,
    {
        assert(ns[j as int] == nodes[j as int]@);
        let is_child = match nodes[j].parent {
            Some(p) => p == container,
            None => false,
        };
        if is_child {
            match read_error(nodes, j) {
                Some(e) => {
                    let ghost before = errors.deep_view();
                    errors.push(e);
                    assert(errors.deep_view() =~= before.push(e@));
                },
                None => {
                    proof {
                        lemma_errors_upto_none(ns, container as int, j + 1, nodes.len() as int);
                    }
                    return None;
                },
            }
        }
        j += 1;
    }
    Some(errors)
}

/// Reads the vendor's error list out of a response body.
pub fn parse_error_body(body: &[u8]) -> (r: Option<Vec<HttpResponseError>>)
    ensures
        r.deep_view() == body_errors(body@),
{
    match utf8_text(body) {
        Some(text) => {
            proof {
                encode_utf8_decode_utf8(text@);
            }
            errors_from_parsed(parse_document(text))
        },
        None => None,
    }
}

/// The vendor's error list, given what the XML parser made of the body's text.
pub fn errors_from_parsed(parsed: Option<Vec<XmlNode>>) -> (r: Option<Vec<HttpResponseError>>)
    ensures
        r.deep_view() == errors_of_parsed(parsed.deep_view()),
{
    match parsed {
        Some(nodes) => read_errors(&nodes),
        None => None,
    }
}

/// An HTTP error response: its status, the vendor's error list of its body, and the
/// body itself.
#[derive(Debug, PartialEq, Eq)]
pub struct HttpResponseDescription {
    pub status: u16,
    pub errors: Vec<HttpResponseError>,
    pub source: Vec<u8>,
}

/// The mathematical value of an [`HttpResponseDescription`].
pub struct HttpDescriptionView {
    pub status: u16,
    pub errors: Seq<HttpErrorView>,
    pub source: Seq<u8>,
}

impl View for HttpResponseDescription {
    type V = HttpDescriptionView;

    open spec fn view(&self) -> HttpDescriptionView {
        HttpDescriptionView {
            status: self.status,
            errors: self.errors.deep_view(),
            source: self.source@,
        }
    }
}

/// The errors of a list as text: for each a space, the code, a dash between spaces,
/// and the message.
pub open spec fn errors_text(errors: Seq<HttpErrorView>) -> Seq<char>
    decreases errors.len(),
{
    if errors.len() == 0 {
        Seq::empty()
    } else {
        errors_text(errors.drop_last()) + " "@ + or_empty(errors.last().code) + " - "@
            + or_empty(errors.last().message)
    }
}

/// The description of a response: the errors that its body lists, none where the body
/// lists none that can be read.
pub open spec fn description_of(status: u16, body: Seq<u8>) -> HttpDescriptionView {
    HttpDescriptionView {
        status,
        errors: match body_errors(body) {
            Some(errors) => errors,
            None => Seq::empty(),
        },
        source: body,
    }
}

impl HttpResponseDescription {
    /// Describes a response with the given status and body.
    ///
    /// A body that is not the vendor's XML gives a description without errors.
    pub fn from_response(status: u16, body: Vec<u8>) -> (description: HttpResponseDescription)
        ensures
            description@ == description_of(status, body@),
    {
        let errors = match parse_error_body(body.as_slice()) {
            Some(errors) => errors,
            None => {
                let none: Vec<HttpResponseError> = Vec::new();
                assert(none.deep_view() =~= Seq::<HttpErrorView>::empty());
                none
            },
        };
        HttpResponseDescription { status, errors, source: body }
    }

    /// The text shown for the response: `Request failed.`, then each error.
    pub fn message(&self) -> (text: String)
        ensures
            text@ == "Request failed."@ + errors_text(self@.errors),
    {
        let ghost es = self.errors.deep_view();
        let mut text = "Request failed.".to_owned();
        let mut i: usize = 0;
        assert(text@ =~= "Request failed."@ + errors_text(es.take(0)));
        while i < self.errors.len()
            invariant
                i <= self.errors.len(),
                es == self.errors.deep_view(),
                text@ == "Request failed."@ + errors_text(es.take(i as int)),
            decreases self.errors.len() - i,
        {
            proof {
                assert(es.take(i + 1).drop_last() =~= es.take(i as int));
                assert(es.take(i + 1).last() == self.errors[i as int]@);
            }
            let ghost before = text@;
            text.append(" ");
            match &self.errors[i].code {
                Some(code) => {
                    text.append(code.as_str());
                },
                None => {},
            }
            text.append(" - ");
            match &self.errors[i].message {
                Some(message) => {
                    text.append(message.as_str());
                },
                None => {},
            }
            assert(text@ =~= before + " "@ + or_empty(es[i as int].code) + " - "@
                + or_empty(es[i as int].message));
            assert(text@ =~= "Request failed."@ + errors_text(es.take(i + 1)));
            i += 1;
        }
        assert(es.take(i as int) =~= es);
        text
    }
}

} // verus!
