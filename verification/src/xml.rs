//! XML documents as a flat list of nodes, and the searches that the error classifier
//! makes in them.

use crate::text::str_eq;
use vstd::prelude::*;
use vstd::string::*;

verus! {

/// One node of a parsed document.
///
/// The nodes of a document stand in document order, the root first, and `parent` is
/// the position of the node that holds this one.
#[derive(Debug, PartialEq, Eq)]
pub struct XmlNode {
    /// The namespace of the tag, if the node is an element in a namespace.
    pub namespace: Option<String>,
    /// The local name of the tag; empty for a node that is no element.
    pub name: String,
    /// The node's own text, or for an element the text it starts with.
    pub text: Option<String>,
    pub parent: Option<usize>,
}

/// The mathematical value of an [`XmlNode`].
pub struct XmlNodeView {
    pub namespace: Option<Seq<char>>,
    pub name: Seq<char>,
    pub text: Option<Seq<char>>,
    pub parent: Option<usize>,
}

impl View for XmlNode {
    type V = XmlNodeView;

    open spec fn view(&self) -> XmlNodeView {
        XmlNodeView {
            namespace: match self.namespace {
                Some(ns) => Some(ns@),
                None => None,
            },
            name: self.name@,
            text: match self.text {
                Some(t) => Some(t@),
                None => None,
            },
            parent: self.parent,
        }
    }
}

impl DeepView for XmlNode {
    type V = XmlNodeView;

    open spec fn deep_view(&self) -> XmlNodeView {
        self@
    }
}

/// The nodes that `roxmltree` makes of a text, in document order; `None` where it
/// rejects the text.
pub uninterp spec fn roxmltree_nodes(text: Seq<char>) -> Option<Seq<XmlNodeView>>;

/// `roxmltree::Document::parse`, and `Document::descendants` to list the nodes: for
/// each node its tag name (`Node::tag_name`), its text (`Node::text`) and the position
/// of its parent (`Node::parent`, `Node::id`).
#[verifier::external_body]
pub(crate) fn parse_document(text: &str) -> (r: Option<Vec<XmlNode>>)
    ensures
        r.deep_view() == roxmltree_nodes(text@),
{
    let doc = roxmltree::Document::parse(text).ok()?;
    Some(
        doc.descendants().map(
            |n| XmlNode {
                namespace: n.tag_name().namespace().map(String::from),
                name: String::from(n.tag_name().name()),
                text: n.text().map(String::from),
                parent: n.parent().map(|p| p.id().get_usize()),
            },
        ).collect(),
    )
}

/// Node `j` is node `root` or stands below it.
pub open spec fn within(nodes: Seq<XmlNodeView>, root: int, j: int) -> bool
    decreases j,
{
    if j == root {
        true
    } else if 0 <= j < nodes.len() {
        match nodes[j].parent {
            Some(p) => root <= p < j && 0 <= p && within(nodes, root, p as int),
            None => false,
        }
    } else {
        false
    }
}

/// Node `j` is an element called `name` in no namespace.
pub open spec fn is_named(nodes: Seq<XmlNodeView>, j: int, name: Seq<char>) -> bool {
    nodes[j].namespace is None && nodes[j].name == name
}

/// Node `j` is at or below `root` and is called `name`.
pub open spec fn hit(nodes: Seq<XmlNodeView>, root: int, name: Seq<char>, j: int) -> bool {
    root <= j < nodes.len() && within(nodes, root, j) && is_named(nodes, j, name)
}

/// The first node in document order, from position `from` on, that is at or below
/// `root` and called `name`.
pub open spec fn first_named_from(
    nodes: Seq<XmlNodeView>,
    root: int,
    name: Seq<char>,
    from: int,
) -> Option<int>
    decreases nodes.len() - from,
{
    if from >= nodes.len() {
        None
    } else if hit(nodes, root, name, from) {
        Some(from)
    } else {
        first_named_from(nodes, root, name, from + 1)
    }
}

/// The first node in document order that is `root` or below it and is called `name`.
pub open spec fn first_named(nodes: Seq<XmlNodeView>, root: int, name: Seq<char>) -> Option<int> {
    first_named_from(nodes, root, name, root)
}

/// `first_named_from` finds a hit and nothing before it is one; it finds nothing only
/// where nothing is a hit.
pub proof fn lemma_first_named_from(
    nodes: Seq<XmlNodeView>,
    root: int,
    name: Seq<char>,
    from: int,
)
    requires
        0 <= from,
    ensures
        match first_named_from(nodes, root, name, from) {
            Some(j) => from <= j && hit(nodes, root, name, j) && forall|k: int|
                from <= k < j ==> !hit(nodes, root, name, k),
            None => forall|k: int| from <= k ==> !hit(nodes, root, name, k),
        },
    decreases nodes.len() - from,
{
    if from < nodes.len() && !hit(nodes, root, name, from) {
        lemma_first_named_from(nodes, root, name, from + 1);
    }
}

/// Whether node `j` is node `root` or stands below it.
pub fn is_within(nodes: &Vec<XmlNode>, root: usize, j: usize) -> (below: bool)
    requires
        j < nodes.len(),
    ensures
        below == within(nodes.deep_view(), root as int, j as int),
{
    let ghost ns = nodes.deep_view();
    let mut k: usize = j;
    while k != root
        invariant
            k < nodes.len(),
            ns == nodes.deep_view(),
            within(ns, root as int, j as int) == within(ns, root as int, k as int),
        decreases k,
    {
        assert(ns[k as int] == nodes[k as int]@);
        match nodes[k].parent {
            Some(p) => {
                if root <= p && p < k {
                    k = p;
                } else {
                    return false;
                }
            },
            None => {
                return false;
            },
        }
    }
    true
}

/// Whether node `j` is an element called `name` in no namespace.
pub fn has_name(nodes: &Vec<XmlNode>, j: usize, name: &str) -> (named: bool)
    requires
        j < nodes.len(),
    ensures
        named == is_named(nodes.deep_view(), j as int, name@),
{
    assert(nodes.deep_view()[j as int] == nodes[j as int]@);
    nodes[j].namespace.is_none() && str_eq(nodes[j].name.as_str(), name)
}

/// Finds the first node in document order that is `root` or below it and is called
/// `name`.
pub fn find_named(nodes: &Vec<XmlNode>, root: usize, name: &str) -> (found: Option<usize>)
    ensures
        match found {
            Some(j) => first_named(nodes.deep_view(), root as int, name@) == Some(j as int) && j
                < nodes.len(),
            None => first_named(nodes.deep_view(), root as int, name@) is None,
        },
        match found {
            Some(j) => hit(nodes.deep_view(), root as int, name@, j as int) && forall|k: int|
                root <= k < j ==> !hit(nodes.deep_view(), root as int, name@, k),
            None => forall|k: int| root <= k ==> !hit(nodes.deep_view(), root as int, name@, k),
        },
{
    let ghost ns = nodes.deep_view();
    let mut j: usize = root;
    while j < nodes.len()
        invariant
            root <= j,
            ns == nodes.deep_view(),
            first_named(ns, root as int, name@) == first_named_from(
                ns,
                root as int,
                name@,
                j as int,
            ),
        decreases nodes.len() - j,
    {
        if is_within(nodes, root, j) && has_name(nodes, j, name) {
            proof {
                lemma_first_named_from(ns, root as int, name@, root as int);
            }
            return Some(j);
        }
        j += 1;
    }
    proof {
        lemma_first_named_from(ns, root as int, name@, root as int);
    }
    None
}

} // verus!
