use vstd::prelude::*;
use crate::node::{levels_of, DocNode};
use crate::segment::{segment, segment_spec, slide_views};
use markdown::mdast;
use markdown::message::Message;

verus! {

/// The syntax tree that the `markdown` crate makes of a text. The library
/// never looks inside one but through the functions below.
#[verifier::external_type_specification]
#[verifier::external_body]
pub struct ExTree(markdown::mdast::Node);

/// The error with which the `markdown` crate gives up on a text.
#[verifier::external_type_specification]
#[verifier::external_body]
pub struct ExMessage(markdown::message::Message);

/// Why a text gave no slides.
#[derive(Debug, PartialEq, Eq)]
pub enum LoadError {
    /// The parser made no tree of the text; what it said.
    ParseFailure(String),
    /// The tree is not a root with a list of top-level nodes, or it is
    /// nested deeper than a walk can follow.
    NodeStructureFailure,
}

/// The top-level nodes of the tree that `markdown::to_mdast`, with the
/// default options, makes of `text`, each as the node of the library that
/// `convert_tree` makes of it; `None` where `convert_tree` gives none.
pub uninterp spec fn parsed_top(text: Seq<char>) -> Option<Seq<DocNode>>;

/// `markdown::to_mdast` with the default options, which parses a text as
/// CommonMark, and `convert_tree` on the tree that it makes.
///
/// The call gives no error: the options turn on no MDX construct, and the
/// parser has no error for markdown without MDX. What comes back depends
/// on the text alone, so it has the name `parsed_top`; nothing else is
/// claimed of it.
#[verifier::external_body]
fn parse_tree(text: &str) -> (r: Result<Option<Vec<DocNode>>, Message>)
    ensures
        r is Ok,
        r matches Ok(Some(nodes)) ==> parsed_top(text@) == Some(nodes@),
        r matches Ok(None) ==> parsed_top(text@) is None,
{
    markdown::to_mdast(text, &markdown::ParseOptions::default()).map(|tree| convert_tree(&tree))
}

/// The text of a parser error, as its `Display` gives it.
#[verifier::external_body]
fn message_text(message: &Message) -> String {
    message.to_string()
}

/// `mdast::Node::children`: the list of children of a tree node of a kind
/// that has one. Nothing is claimed of it.
#[verifier::external_body]
fn tree_children(node: &mdast::Node) -> Option<&Vec<mdast::Node>> {
    node.children()
}

/// A tree node of a kind that never has children, as a node of the
/// library with the same fields; `None` for every other kind. The node
/// that comes back is of a kind without children; nothing is claimed of
/// what it holds.
#[verifier::external_body]
fn leaf_node(node: &mdast::Node) -> (r: Option<DocNode>)
    ensures
        r matches Some(leaf) ==> leaf.children().len() == 0,
{
    match node {
        mdast::Node::Code(c) => {
            Some(DocNode::Code { lang: c.lang.clone(), value: c.value.clone() })
        },
        mdast::Node::ThematicBreak(_) => Some(DocNode::ThematicBreak),
        mdast::Node::Text(t) => Some(DocNode::Text { value: t.value.clone() }),
        mdast::Node::InlineCode(c) => Some(DocNode::InlineCode { value: c.value.clone() }),
        mdast::Node::Break(_) => Some(DocNode::LineBreak),
        _ => None,
    }
}

/// A tree node as a node of the library of the same kind, with the same
/// rank or ordering and with `children` for its children; a node of a
/// kind that the library does not tell apart becomes an `Other`. The
/// children of the node that comes back are `children`; nothing is
/// claimed of its kind.
#[verifier::external_body]
fn parent_node(node: &mdast::Node, children: Vec<DocNode>) -> (r: DocNode)
    ensures
        r.children() == children@,
{
    match node {
        mdast::Node::Root(_) => DocNode::Root { children },
        mdast::Node::Heading(h) => DocNode::Heading { depth: h.depth, children },
        mdast::Node::Paragraph(_) => DocNode::Paragraph { children },
        mdast::Node::List(l) => DocNode::List { ordered: l.ordered, children },
        mdast::Node::ListItem(_) => DocNode::ListItem { children },
        mdast::Node::Blockquote(_) => DocNode::Blockquote { children },
        mdast::Node::Strong(_) => DocNode::Strong { children },
        mdast::Node::Emphasis(_) => DocNode::Emphasis { children },
        mdast::Node::Link(_) => DocNode::Link { children },
        _ => DocNode::Other { children },
    }
}

/// Converts a tree node and all below it. `None` where the tree goes more
/// than `depth_left` levels down from the node: a node that comes back
/// has at most `depth_left` levels below it.
fn convert_node(node: &mdast::Node, depth_left: usize) -> (r: Option<DocNode>)
    ensures
        r matches Some(converted) ==> converted.levels() <= depth_left,
    decreases depth_left, 0nat,
{
    match leaf_node(node) {
        Some(leaf) => Some(leaf),
        None => {
            let children = match tree_children(node) {
                Some(list) => {
                    if depth_left == 0 {
                        return None;
                    }
                    match convert_nodes(list, depth_left - 1) {
                        Some(converted) => converted,
                        None => {
                            return None;
                        },
                    }
                },
                None => Vec::new(),
            };
            Some(parent_node(node, children))
        },
    }
}

/// Converts tree nodes in order, one node of the library for each. An
/// empty list converts to an empty list; a list with nodes converts where
/// each of its nodes does, none of them with more than `depth_left` levels
/// below it.
fn convert_nodes(nodes: &Vec<mdast::Node>, depth_left: usize) -> (r: Option<Vec<DocNode>>)
    ensures
        r matches Some(converted) ==> converted@.len() == nodes@.len() && levels_of(converted@)
            <= depth_left + 1,
        nodes@.len() == 0 ==> r is Some,
    decreases depth_left, 1nat,
{
    let mut converted: Vec<DocNode> = Vec::new();
    let mut i: usize = 0;
    while i < nodes.len()
        invariant
            i <= nodes.len(),
            converted@.len() == i,
            levels_of(converted@) <= depth_left + 1,
        decreases nodes.len() - i,
    {
        match convert_node(&nodes[i], depth_left) {
            Some(node) => {
                assert(converted@.push(node).drop_last() =~= converted@);
                converted.push(node);
            },
            None => {
                return None;
            },
        }
        i += 1;
    }
    Some(converted)
}

/// The top-level nodes of a tree as nodes of the library; `None` for a
/// tree that has no list of top-level nodes or is nested deeper than a
/// walk can follow.
fn convert_tree(tree: &mdast::Node) -> (r: Option<Vec<DocNode>>)
    ensures
        r matches Some(nodes) ==> levels_of(nodes@) <= usize::MAX + 1,
{
    match tree_children(tree) {
        None => None,
        Some(top) => convert_nodes(top, usize::MAX),
    }
}

/// What the parser made of a text: the top-level nodes of the tree, or
/// `None` for a tree that is no document. This parser has no error for
/// any text; were there one, its words would come back.
fn parse_document(content: &str) -> (r: Result<Option<Vec<DocNode>>, String>)
    ensures
        r is Ok,
        r matches Ok(Some(nodes)) ==> parsed_top(content@) == Some(nodes@),
        r matches Ok(None) ==> parsed_top(content@) is None,
{
    match parse_tree(content) {
        Ok(top) => Ok(top),
        Err(message) => Err(message_text(&message)),
    }
}

/// Makes slides of what a parser made of a text.
///
/// The parser's error comes back as `ParseFailure` with the parser's
/// words, the lack of top-level nodes as `NodeStructureFailure`, and a
/// document as its slides.
pub fn slides_from_parse(parsed: Result<Option<Vec<DocNode>>, String>) -> (r: Result<
    Vec<Vec<DocNode>>,
    LoadError,
>)
    ensures
        match parsed {
            Err(message) => r == Err::<Vec<Vec<DocNode>>, LoadError>(
                LoadError::ParseFailure(message),
            ),
            Ok(None) => r == Err::<Vec<Vec<DocNode>>, LoadError>(LoadError::NodeStructureFailure),
            Ok(Some(nodes)) => r matches Ok(slides) && slide_views(slides@) == segment_spec(
                nodes@,
            ),
        },
{
    match parsed {
        Err(message) => Err(LoadError::ParseFailure(message)),
        Ok(None) => Err(LoadError::NodeStructureFailure),
        Ok(Some(nodes)) => Ok(segment(nodes)),
    }
}

/// Parses a markdown text and splits it into slides.
///
/// The slides are those of the top-level nodes that the parser's tree
/// holds. A tree that is no document gives `NodeStructureFailure`. No
/// text gives `ParseFailure`: this parser has no error for markdown.
pub fn load_slides(content: &str) -> (r: Result<Vec<Vec<DocNode>>, LoadError>)
    ensures
        match parsed_top(content@) {
            Some(nodes) => r matches Ok(slides) && slide_views(slides@) == segment_spec(nodes),
            None => r matches Err(LoadError::NodeStructureFailure),
        },
{
    slides_from_parse(parse_document(content))
}

} // verus!
