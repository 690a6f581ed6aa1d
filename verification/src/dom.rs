use vstd::prelude::*;

verus! {

// A parsed HTML document is a pure function of the markup it was parsed
// from, and every query below is a pure function of the document, so each
// query result is named as a function of the markup text itself. A node is
// handed around as its index in the document's node table, a plain number.

/// Upper bound on the length, in characters, of markup handed to the HTML
/// parser. The parser's backing buffer keeps lengths in 32 bits and aborts
/// on anything at or past 4 GB; a UTF-8 character takes at most four
/// bytes, so markup shorter than this bound always fits.
pub const MAX_HTML_LEN: usize = 0x4000_0000;

/// The combined text of the first element whose `id` attribute equals
/// `id`, in document order; `None` when no such element exists.
pub uninterp spec fn text_by_id(html: Seq<char>, id: Seq<char>) -> Option<Seq<char>>;

/// For the first element whose `id` attribute equals `id`: `None` when no
/// such element exists, otherwise the value of its attribute `attr`
/// (`Some(None)` when the element is there but the attribute is not).
pub uninterp spec fn attr_by_id(html: Seq<char>, id: Seq<char>, attr: Seq<char>) -> Option<
    Option<Seq<char>>,
>;

/// The node indices of the elements carrying class `class`, in document
/// order.
pub uninterp spec fn elems_of_class(html: Seq<char>, class: Seq<char>) -> Seq<int>;

/// The combined text of the first descendant named `name` of node `node`;
/// `None` when the node index is out of range or no such descendant
/// exists.
pub uninterp spec fn first_text_by_name_in(html: Seq<char>, node: int, name: Seq<char>) -> Option<
    Seq<char>,
>;

/// The combined texts of the descendants of node `node` carrying class
/// `class`, in document order; empty when the node index is out of range.
pub uninterp spec fn texts_by_class_in(html: Seq<char>, node: int, class: Seq<char>) -> Seq<
    Seq<char>,
>;

/// Relies on `select::document::Document::from` (parsing is a pure
/// function of the markup), `Document::find` with the
/// `select::predicate::Attr` predicate (yields matches in document order)
/// and `Node::text`.
#[verifier::external_body]
pub fn find_text_by_id(html: &str, id: &str) -> (r: Option<String>)
    requires
        html@.len() < MAX_HTML_LEN,
    ensures
        match r {
            Some(t) => text_by_id(html@, id@) == Some(t@),
            None => text_by_id(html@, id@) is None,
        },
{
    let doc = select::document::Document::from(html);
    match doc.find(select::predicate::Attr("id", id)).next() {
        Some(node) => Some(node.text()),
        None => None,
    }
}

/// Relies on `select::document::Document::from`, `Document::find` with the
/// `select::predicate::Attr` predicate, and `Node::attr`.
#[verifier::external_body]
pub fn find_attr_by_id(html: &str, id: &str, attr: &str) -> (r: Option<Option<String>>)
    requires
        html@.len() < MAX_HTML_LEN,
    ensures
        match r {
            Some(Some(v)) => attr_by_id(html@, id@, attr@) == Some(Some(v@)),
            Some(None::<String>) => attr_by_id(html@, id@, attr@) == Some(None::<Seq<char>>),
            None => attr_by_id(html@, id@, attr@) is None,
        },
{
    let doc = select::document::Document::from(html);
    match doc.find(select::predicate::Attr("id", id)).next() {
        Some(node) => match node.attr(attr) {
            Some(v) => Some(Some(v.to_string())),
            None => Some(None),
        },
        None => None,
    }
}

/// Relies on `select::document::Document::from`, `Document::find` with the
/// `select::predicate::Class` predicate (matches in document order) and
/// `Node::index`.
#[verifier::external_body]
pub fn find_elems_of_class(html: &str, class: &str) -> (r: Vec<usize>)
    requires
        html@.len() < MAX_HTML_LEN,
    ensures
        r@.map_values(|u: usize| u as int) == elems_of_class(html@, class@),
{
    let doc = select::document::Document::from(html);
    doc.find(select::predicate::Class(class)).map(|n| n.index()).collect()
}

/// Relies on `select::document::Document::from`, `Document::nth`,
/// `Node::find` with the `select::predicate::Name` predicate and
/// `Node::text`.
#[verifier::external_body]
pub fn find_first_text_by_name_in(html: &str, node: usize, name: &str) -> (r: Option<String>)
    requires
        html@.len() < MAX_HTML_LEN,
    ensures
        match r {
            Some(t) => first_text_by_name_in(html@, node as int, name@) == Some(t@),
            None => first_text_by_name_in(html@, node as int, name@) is None,
        },
{
    let doc = select::document::Document::from(html);
    match doc.nth(node) {
        Some(scope) => match scope.find(select::predicate::Name(name)).next() {
            Some(n) => Some(n.text()),
            None => None,
        },
        None => None,
    }
}

/// Relies on `select::document::Document::from`, `Document::nth`,
/// `Node::find` with the `select::predicate::Class` predicate (matches in
/// document order) and `Node::text`.
#[verifier::external_body]
pub fn find_texts_by_class_in(html: &str, node: usize, class: &str) -> (r: Vec<String>)
    requires
        html@.len() < MAX_HTML_LEN,
    ensures
        r@.map_values(|s: String| s@) == texts_by_class_in(html@, node as int, class@),
{
    let doc = select::document::Document::from(html);
    match doc.nth(node) {
        Some(scope) => scope.find(select::predicate::Class(class)).map(|n| n.text()).collect(),
        None => Vec::new(),
    }
}

} // verus!
