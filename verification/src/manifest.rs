//! The package manifest: where it declares the logo of the application.

use vstd::prelude::*;
use crate::text::{find_from, index_of, index_of_is_first, occurs_at, same_text, to_chars};

verus! {

/// One attribute of an element, as text.
pub struct AttributeView {
    pub name: Seq<char>,
    pub value: Seq<char>,
}

/// One node of a parsed document, as text.
pub struct NodeView {
    pub is_element: bool,
    pub name: Seq<char>,
    pub attributes: Seq<AttributeView>,
    pub span: nat,
}

/// One attribute of an element: its local name and its value.
#[derive(Debug)]
pub struct XmlAttribute {
    pub name: String,
    pub value: String,
}

/// One node of a parsed document. The nodes of a document stand in document
/// order, so that a node and all that is below it are `span` neighbours,
/// the node first.
#[derive(Debug)]
pub struct XmlNode {
    /// Whether the node is an element, and no text, comment or the like.
    pub is_element: bool,
    /// The local name of the element's tag; empty for other nodes.
    pub name: String,
    /// The attributes of the element, in the order in which it has them.
    pub attributes: Vec<XmlAttribute>,
    /// The number of nodes in the subtree of this node, itself included.
    pub span: usize,
}

impl View for XmlAttribute {
    type V = AttributeView;

    open spec fn view(&self) -> AttributeView {
        AttributeView { name: self.name@, value: self.value@ }
    }
}

impl View for XmlNode {
    type V = NodeView;

    open spec fn view(&self) -> NodeView {
        NodeView {
            is_element: self.is_element,
            name: self.name@,
            attributes: attribute_views(self.attributes@),
            span: self.span as nat,
        }
    }
}

/// A run of attributes, as text.
pub open spec fn attribute_views(attributes: Seq<XmlAttribute>) -> Seq<AttributeView> {
    Seq::new(attributes.len(), |i: int| attributes[i]@)
}

/// What parsing gave, as text.
pub open spec fn parsed_views(parsed: Option<Vec<XmlNode>>) -> Option<Seq<NodeView>> {
    match parsed {
        Some(nodes) => Some(node_views(nodes@)),
        None => None,
    }
}

/// A run of nodes, as text.
pub open spec fn node_views(nodes: Seq<XmlNode>) -> Seq<NodeView> {
    Seq::new(nodes.len(), |i: int| nodes[i]@)
}

/// The nodes of the XML document `text`, the root node first and the rest
/// in document order; nothing where `text` is no well-formed document.
pub uninterp spec fn xml_nodes(text: Seq<char>) -> Option<Seq<NodeView>>;

/// Parses `text` with `roxmltree::Document::parse` and copies each node that
/// `Document::descendants` yields: whether `Node::is_element` holds, the
/// local name of `Node::tag_name`, the local name and value of each of
/// `Node::attributes`, and the length of `Node::descendants`. The contract
/// only gives the outcome its name: it depends on the text alone.
#[verifier::external_body]
fn parse_nodes(text: &str) -> (r: Option<Vec<XmlNode>>)
    ensures
        match r {
            Some(nodes) => xml_nodes(text@) == Some(node_views(nodes@)),
            None => xml_nodes(text@) is None,
        },
{
    let doc = roxmltree::Document::parse(text).ok()?;
    let copy = |n: roxmltree::Node| XmlNode {
        is_element: n.is_element(),
        name: n.tag_name().name().to_string(),
        attributes: n.attributes().map(|a| XmlAttribute {
            name: a.name().to_string(),
            value: a.value().to_string(),
        }).collect(),
        span: n.descendants().count(),
    };
    Some(doc.descendants().map(copy).collect())
}

/// The elements that lead to the logo, from the outside in.
#[derive(Clone, Copy, Debug, PartialEq, Eq, Structural)]
pub enum Landmark {
    /// The element that lists the applications of the package.
    Applications,
    /// The application whose identifier is `App`.
    Application,
    /// The element that holds the visual assets of an application.
    VisualElements,
    /// An element of visual assets that carries a square logo.
    LogoHolder,
}

/// The value of the first attribute named `name`.
pub open spec fn attribute_value(attributes: Seq<AttributeView>, name: Seq<char>) -> Option<
    Seq<char>,
>
    decreases attributes.len(),
{
    if attributes.len() == 0 {
        None
    } else if attributes[0].name == name {
        Some(attributes[0].value)
    } else {
        attribute_value(attributes.drop_first(), name)
    }
}

/// Some attribute is named `name` and has the value `value`.
pub open spec fn has_attribute(attributes: Seq<AttributeView>, name: Seq<char>, value: Seq<char>) -> bool {
    exists|i: int|
        0 <= i < attributes.len() && (#[trigger] attributes[i]).name == name && attributes[i].value
            == value
}

/// The tag name of a landmark.
pub open spec fn landmark_name(landmark: Landmark) -> Seq<char> {
    match landmark {
        Landmark::Applications => "Applications"@,
        Landmark::Application => "Application"@,
        Landmark::VisualElements => "VisualElements"@,
        Landmark::LogoHolder => "VisualElements"@,
    }
}

/// The node is the element that `landmark` asks for.
pub open spec fn is_landmark(node: NodeView, landmark: Landmark) -> bool {
    &&& node.is_element
    &&& node.name == landmark_name(landmark)
    &&& landmark == Landmark::Application ==> has_attribute(node.attributes, "Id"@, "App"@)
    &&& landmark == Landmark::LogoHolder ==> attribute_value(node.attributes, logo_attribute())
        is Some
}

/// The first node from index `from` up to, not including, `to` that is the
/// element which `landmark` asks for.
pub open spec fn first_landmark(nodes: Seq<NodeView>, landmark: Landmark, from: int, to: int) -> Option<
    int,
>
    decreases to - from,
{
    if from < 0 || from >= to || from >= nodes.len() {
        None
    } else if is_landmark(nodes[from], landmark) {
        Some(from)
    } else {
        first_landmark(nodes, landmark, from + 1, to)
    }
}

/// The index just behind the subtree of the node at index `at`.
pub open spec fn subtree_end(nodes: Seq<NodeView>, at: int) -> int {
    if at + nodes[at].span <= nodes.len() {
        at + nodes[at].span
    } else {
        nodes.len() as int
    }
}

/// The name of the attribute that holds the square logo.
pub open spec fn logo_attribute() -> Seq<char> {
    "Square44x44Logo"@
}

/// The logo of the main application: the square logo of the first
/// visual-elements element below the first application named `App` below
/// the first list of applications. There is none where one of these lacks
/// what is looked for below it.
pub open spec fn application_logo(nodes: Seq<NodeView>) -> Option<Seq<char>> {
    match first_landmark(nodes, Landmark::Applications, 0, nodes.len() as int) {
        None => None,
        Some(list) => match first_landmark(
            nodes,
            Landmark::Application,
            list,
            subtree_end(nodes, list),
        ) {
            None => None,
            Some(app) => match first_landmark(
                nodes,
                Landmark::VisualElements,
                app,
                subtree_end(nodes, app),
            ) {
                None => None,
                Some(visual) => attribute_value(nodes[visual].attributes, logo_attribute()),
            },
        },
    }
}

/// The square logo of the first visual-elements element of the document
/// that carries one, wherever it stands.
pub open spec fn first_logo(nodes: Seq<NodeView>) -> Option<Seq<char>> {
    match first_landmark(nodes, Landmark::LogoHolder, 0, nodes.len() as int) {
        Some(holder) => attribute_value(nodes[holder].attributes, logo_attribute()),
        None => None,
    }
}

/// The logo that a parsed manifest declares: that of the main application
/// where there is one, else the first square logo of the document,
/// whatever the application is called that it belongs to.
pub open spec fn declared_logo(nodes: Seq<NodeView>) -> Option<Seq<char>> {
    match application_logo(nodes) {
        Some(logo) => Some(logo),
        None => first_logo(nodes),
    }
}

/// The text between the first `<Logo>` and the first `</Logo>` behind it.
pub open spec fn logo_span(text: Seq<char>) -> Option<Seq<char>> {
    match index_of(text, "<Logo>"@, 0) {
        None => None,
        Some(open) => match index_of(text, "</Logo>"@, open + "<Logo>"@.len()) {
            None => None,
            Some(close) => Some(text.subrange(open + "<Logo>"@.len(), close)),
        },
    }
}

/// The logo of a manifest, given what parsing it gave: the declared logo
/// where the document was parsed and declares one, else the logo span of
/// the raw text.
pub open spec fn logo_given(parsed: Option<Seq<NodeView>>, text: Seq<char>) -> Option<Seq<char>> {
    match parsed {
        Some(nodes) => match declared_logo(nodes) {
            Some(logo) => Some(logo),
            None => logo_span(text),
        },
        None => logo_span(text),
    }
}

/// The logo reference of the manifest `text`.
pub open spec fn logo_reference(text: Seq<char>) -> Option<Seq<char>> {
    logo_given(xml_nodes(text), text)
}

/// The value of the first attribute named `name`.
pub fn find_attribute<'a>(attributes: &'a Vec<XmlAttribute>, name: &str) -> (r: Option<&'a String>)
    ensures
        match r {
            Some(value) => attribute_value(attribute_views(attributes@), name@) == Some(value@),
            None => attribute_value(attribute_views(attributes@), name@) is None,
        },
{
    let ghost all = attribute_views(attributes@);
    let mut i: usize = 0;
    assert(all.skip(0) =~= all);
    while i < attributes.len()
        invariant
            i <= attributes@.len(),
            all == attribute_views(attributes@),
            attribute_value(all, name@) == attribute_value(all.skip(i as int), name@),
        decreases attributes@.len() - i,
    {
        assert(all.skip(i as int)[0] == attributes@[i as int]@);
        if same_text(attributes[i].name.as_str(), name) {
            return Some(&attributes[i].value);
        }
        assert(all.skip(i as int).drop_first() =~= all.skip(i + 1));
        i += 1;
    }
    assert(all.skip(i as int).len() == 0);
    None
}

/// Whether some attribute is named `name` and has the value `value`.
pub fn holds_attribute(attributes: &Vec<XmlAttribute>, name: &str, value: &str) -> (r: bool)
    ensures
        r == has_attribute(attribute_views(attributes@), name@, value@),
{
    let ghost all = attribute_views(attributes@);
    let mut i: usize = 0;
    while i < attributes.len()
        invariant
            i <= attributes@.len(),
            all == attribute_views(attributes@),
            forall|j: int| 0 <= j < i ==> !((#[trigger] all[j]).name == name@ && all[j].value == value@),
        decreases attributes@.len() - i,
    {
        if same_text(attributes[i].name.as_str(), name) && same_text(
            attributes[i].value.as_str(),
            value,
        ) {
            assert(all[i as int].name == name@ && all[i as int].value == value@);
            return true;
        }
        i += 1;
    }
    false
}

/// Whether `node` is the element that `landmark` asks for.
pub fn at_landmark(node: &XmlNode, landmark: Landmark) -> (r: bool)
    ensures
        r == is_landmark(node@, landmark),
{
    if !node.is_element {
        return false;
    }
    match landmark {
        Landmark::Applications => same_text(node.name.as_str(), "Applications"),
        Landmark::Application => same_text(node.name.as_str(), "Application") && holds_attribute(
            &node.attributes,
            "Id",
            "App",
        ),
        Landmark::VisualElements => same_text(node.name.as_str(), "VisualElements"),
        Landmark::LogoHolder => {
            let named = same_text(node.name.as_str(), "VisualElements");
            match find_attribute(&node.attributes, "Square44x44Logo") {
                Some(_) => named,
                None => false,
            }
        },
    }
}

/// The first node from index `from` up to, not including, `to` that is the
/// element which `landmark` asks for.
pub fn find_landmark(nodes: &Vec<XmlNode>, landmark: Landmark, from: usize, to: usize) -> (r:
    Option<usize>)
    ensures
        match r {
            Some(at) => at < nodes@.len() && first_landmark(
                node_views(nodes@),
                landmark,
                from as int,
                to as int,
            ) == Some(at as int),
            None => first_landmark(node_views(nodes@), landmark, from as int, to as int) is None,
        },
{
    let ghost all = node_views(nodes@);
    let mut i: usize = from;
    while i < to && i < nodes.len()
        invariant
            from <= i,
            all == node_views(nodes@),
            first_landmark(all, landmark, from as int, to as int) == first_landmark(
                all,
                landmark,
                i as int,
                to as int,
            ),
        decreases nodes@.len() - i,
    {
        if at_landmark(&nodes[i], landmark) {
            return Some(i);
        }
        i += 1;
    }
    None
}

/// The index just behind the subtree of the node at index `at`.
pub fn end_of_subtree(nodes: &Vec<XmlNode>, at: usize) -> (r: usize)
    requires
        at < nodes@.len(),
    ensures
        r == subtree_end(node_views(nodes@), at as int),
{
    let n: usize = nodes.len();
    if nodes[at].span <= n - at {
        at + nodes[at].span
    } else {
        n
    }
}

/// The square logo of the element at index `at`.
fn logo_at(nodes: &Vec<XmlNode>, at: usize) -> (r: Option<String>)
    requires
        at < nodes@.len(),
    ensures
        match r {
            Some(logo) => attribute_value(node_views(nodes@)[at as int].attributes, logo_attribute())
                == Some(logo@),
            None => attribute_value(node_views(nodes@)[at as int].attributes, logo_attribute())
                is None,
        },
{
    assert(node_views(nodes@)[at as int].attributes == attribute_views(
        nodes@[at as int].attributes@,
    ));
    match find_attribute(&nodes[at].attributes, "Square44x44Logo") {
        Some(value) => Some(value.clone()),
        None => None,
    }
}

/// The logo of the main application of a parsed manifest.
pub fn application_logo_from_nodes(nodes: &Vec<XmlNode>) -> (r: Option<String>)
    ensures
        match r {
            Some(logo) => application_logo(node_views(nodes@)) == Some(logo@),
            None => application_logo(node_views(nodes@)) is None,
        },
{
    let list: usize = match find_landmark(nodes, Landmark::Applications, 0, nodes.len()) {
        Some(at) => at,
        None => { return None; },
    };
    let app: usize = match find_landmark(
        nodes,
        Landmark::Application,
        list,
        end_of_subtree(nodes, list),
    ) {
        Some(at) => at,
        None => { return None; },
    };
    let visual: usize = match find_landmark(
        nodes,
        Landmark::VisualElements,
        app,
        end_of_subtree(nodes, app),
    ) {
        Some(at) => at,
        None => { return None; },
    };
    logo_at(nodes, visual)
}

/// The logo that a parsed manifest declares.
pub fn logo_from_nodes(nodes: &Vec<XmlNode>) -> (r: Option<String>)
    ensures
        match r {
            Some(logo) => declared_logo(node_views(nodes@)) == Some(logo@),
            None => declared_logo(node_views(nodes@)) is None,
        },
{
    match application_logo_from_nodes(nodes) {
        Some(logo) => Some(logo),
        None => match find_landmark(nodes, Landmark::LogoHolder, 0, nodes.len()) {
            Some(holder) => logo_at(nodes, holder),
            None => None,
        },
    }
}

/// The text between the first `<Logo>` of `text` and the first `</Logo>`
/// behind it.
pub fn logo_from_text(text: &str) -> (r: Option<String>)
    ensures
        match r {
            Some(logo) => logo_span(text@) == Some(logo@),
            None => logo_span(text@) is None,
        },
{
    let chars = to_chars(text);
    let opening = to_chars("<Logo>");
    let closing = to_chars("</Logo>");
    let open: usize = match find_from(&chars, &opening, 0) {
        Some(at) => at,
        None => { return None; },
    };
    let total: usize = chars.len();
    proof {
        index_of_is_first(chars@, opening@, 0);
        assert(occurs_at(chars@, opening@, open as int));
        assert(open + opening@.len() <= total);
        index_of_is_first(chars@, closing@, open + opening@.len());
    }
    let from: usize = open + opening.len();
    match find_from(&chars, &closing, from) {
        Some(close) => Some(text.substring_char(from, close).to_owned()),
        None => None,
    }
}

/// The logo of a manifest, given what parsing it gave.
pub fn logo_from_parts(parsed: &Option<Vec<XmlNode>>, text: &str) -> (r: Option<String>)
    ensures
        match r {
            Some(logo) => logo_given(parsed_views(*parsed), text@) == Some(logo@),
            None => logo_given(parsed_views(*parsed), text@) is None,
        },
{
    match parsed {
        Some(nodes) => match logo_from_nodes(nodes) {
            Some(logo) => Some(logo),
            None => logo_from_text(text),
        },
        None => logo_from_text(text),
    }
}

/// Extracts from the manifest `manifest_content` the reference to the logo
/// of the application: the square logo of the application `App`, or else
/// the first square logo that the document declares, or else the text of
/// its first `<Logo>` element.
pub fn extract_icon_path(manifest_content: &str) -> (r: Option<String>)
    ensures
        match r {
            Some(logo) => logo_reference(manifest_content@) == Some(logo@),
            None => logo_reference(manifest_content@) is None,
        },
{
    let parsed = parse_nodes(manifest_content);
    logo_from_parts(&parsed, manifest_content)
}

} // verus!
