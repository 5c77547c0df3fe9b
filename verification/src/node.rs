use vstd::prelude::*;

verus! {

/// One element of a parsed document tree.
///
/// The block-level and inline-level kinds that the renderer treats
/// specially have a variant each; every other kind of element is an
/// `Other`, which keeps its children so that nothing below it is lost.
#[derive(Debug, PartialEq, Eq)]
pub enum DocNode {
    /// The document itself.
    Root { children: Vec<DocNode> },
    /// A heading; `depth` is its rank, 1 to 6.
    Heading { depth: u8, children: Vec<DocNode> },
    Paragraph { children: Vec<DocNode> },
    /// A list; its items are the `ListItem`s among `children`.
    List { ordered: bool, children: Vec<DocNode> },
    ListItem { children: Vec<DocNode> },
    /// A block of code with its optional language tag and its raw text.
    Code { lang: Option<String>, value: String },
    Blockquote { children: Vec<DocNode> },
    ThematicBreak,
    Text { value: String },
    Strong { children: Vec<DocNode> },
    Emphasis { children: Vec<DocNode> },
    InlineCode { value: String },
    Link { children: Vec<DocNode> },
    LineBreak,
    /// Any other kind of element, with the children it has, if any.
    Other { children: Vec<DocNode> },
}

impl DocNode {
    /// The children of a node; a node of a kind without children has none.
    pub open spec fn children(self) -> Seq<DocNode> {
        match self {
            DocNode::Root { children } => children@,
            DocNode::Heading { children, .. } => children@,
            DocNode::Paragraph { children } => children@,
            DocNode::List { children, .. } => children@,
            DocNode::ListItem { children } => children@,
            DocNode::Blockquote { children } => children@,
            DocNode::Strong { children } => children@,
            DocNode::Emphasis { children } => children@,
            DocNode::Link { children } => children@,
            DocNode::Other { children } => children@,
            DocNode::Code { .. } => Seq::empty(),
            DocNode::ThematicBreak => Seq::empty(),
            DocNode::Text { .. } => Seq::empty(),
            DocNode::InlineCode { .. } => Seq::empty(),
            DocNode::LineBreak => Seq::empty(),
        }
    }

    /// How many levels of nodes lie below the node: none below a node
    /// without children, else one more than below its deepest child.
    pub open spec fn levels(self) -> nat
        decreases self,
    {
        match self {
            DocNode::Root { children } => levels_of(children@),
            DocNode::Heading { children, .. } => levels_of(children@),
            DocNode::Paragraph { children } => levels_of(children@),
            DocNode::List { children, .. } => levels_of(children@),
            DocNode::ListItem { children } => levels_of(children@),
            DocNode::Blockquote { children } => levels_of(children@),
            DocNode::Strong { children } => levels_of(children@),
            DocNode::Emphasis { children } => levels_of(children@),
            DocNode::Link { children } => levels_of(children@),
            DocNode::Other { children } => levels_of(children@),
            DocNode::Code { .. } => 0,
            DocNode::ThematicBreak => 0,
            DocNode::Text { .. } => 0,
            DocNode::InlineCode { .. } => 0,
            DocNode::LineBreak => 0,
        }
    }

    /// Whether the node is a heading of rank 1 or 2, the kind that opens a
    /// new slide.
    pub open spec fn opens_slide(self) -> bool {
        self matches DocNode::Heading { depth, .. } && (depth == 1 || depth == 2)
    }

    /// Tells whether the node is a heading of rank 1 or 2.
    pub fn is_slide_heading(&self) -> (r: bool)
        ensures
            r == self.opens_slide(),
    {
        match self {
            DocNode::Heading { depth, .. } => *depth == 1 || *depth == 2,
            _ => false,
        }
    }
}

/// How many levels of nodes `nodes` make up: none where there is no node,
/// else one more than lie below the deepest of them.
pub open spec fn levels_of(nodes: Seq<DocNode>) -> nat
    decreases nodes,
{
    if nodes.len() == 0 {
        0
    } else {
        let before = levels_of(nodes.drop_last());
        let last = nodes.last().levels() + 1;
        if before >= last {
            before
        } else {
            last
        }
    }
}

} // verus!
