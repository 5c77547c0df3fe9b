use vstd::prelude::*;
use crate::line::{raw_span, SpanView};
use crate::node::DocNode;
use crate::render::{
    block_lines, block_lines_of, inline_spans, inline_spans_of, link_style, quote_marker,
    quote_style, quoted,
};
use crate::style::{Color, Style};

verus! {

impl Style {
    /// Whether this style has every attribute that `base` has, and the
    /// colour of `base` or that of a link.
    pub open spec fn extends(self, base: Style) -> bool {
        &&& base.bold ==> self.bold
        &&& base.italic ==> self.italic
        &&& base.underline ==> self.underline
        &&& self.fg == base.fg || self.fg == Some(Color::Blue)
    }
}

impl DocNode {
    /// Whether the node and all below it pass the style they inherit on to
    /// their spans: there is no inline code and no line break among them,
    /// the two kinds whose spans have a style of their own.
    pub open spec fn passes_style(self) -> bool
        decreases self,
    {
        match self {
            DocNode::InlineCode { .. } => false,
            DocNode::LineBreak => false,
            DocNode::Text { .. } => true,
            DocNode::Code { .. } => true,
            DocNode::ThematicBreak => true,
            DocNode::Root { children } => all_pass_style(children@),
            DocNode::Heading { children, .. } => all_pass_style(children@),
            DocNode::Paragraph { children } => all_pass_style(children@),
            DocNode::List { children, .. } => all_pass_style(children@),
            DocNode::ListItem { children } => all_pass_style(children@),
            DocNode::Blockquote { children } => all_pass_style(children@),
            DocNode::Strong { children } => all_pass_style(children@),
            DocNode::Emphasis { children } => all_pass_style(children@),
            DocNode::Link { children } => all_pass_style(children@),
            DocNode::Other { children } => all_pass_style(children@),
        }
    }
}

/// Whether each of `nodes` passes the style it inherits on to its spans.
pub open spec fn all_pass_style(nodes: Seq<DocNode>) -> bool
    decreases nodes,
{
    forall|i: int| 0 <= i < nodes.len() ==> (#[trigger] nodes[i]).passes_style()
}

/// Whether every span of `spans` is in a style that extends `base`.
pub open spec fn all_extend(spans: Seq<SpanView>, base: Style) -> bool {
    forall|i: int| 0 <= i < spans.len() ==> (#[trigger] spans[i]).style.extends(base)
}

/// Inheritance: the spans of a node that passes its style on are all in a
/// style that extends the inherited one. What a parent has set, no child
/// takes away.
pub proof fn lemma_inline_spans_extend(node: DocNode, style: Style)
    requires
        node.passes_style(),
    ensures
        all_extend(inline_spans(node, style), style),
    decreases node, 0nat,
{
    match node {
        DocNode::Strong { children } => {
            lemma_inline_spans_of_extend(children@, style.with_bold());
        },
        DocNode::Emphasis { children } => {
            lemma_inline_spans_of_extend(children@, style.with_italic());
        },
        DocNode::Link { children } => {
            lemma_inline_spans_of_extend(children@, link_style(style));
        },
        DocNode::Root { children } => {
            lemma_inline_spans_of_extend(children@, style);
        },
        DocNode::Heading { children, .. } => {
            lemma_inline_spans_of_extend(children@, style);
        },
        DocNode::Paragraph { children } => {
            lemma_inline_spans_of_extend(children@, style);
        },
        DocNode::List { children, .. } => {
            lemma_inline_spans_of_extend(children@, style);
        },
        DocNode::ListItem { children } => {
            lemma_inline_spans_of_extend(children@, style);
        },
        DocNode::Blockquote { children } => {
            lemma_inline_spans_of_extend(children@, style);
        },
        DocNode::Other { children } => {
            lemma_inline_spans_of_extend(children@, style);
        },
        _ => {},
    }
}

/// Inheritance, for the nodes of a sequence.
pub proof fn lemma_inline_spans_of_extend(nodes: Seq<DocNode>, style: Style)
    requires
        all_pass_style(nodes),
    ensures
        all_extend(inline_spans_of(nodes, style), style),
    decreases nodes, 1nat,
{
    if nodes.len() > 0 {
        assert(nodes.last().passes_style());
        assert(all_pass_style(nodes.drop_last())) by {
            assert forall|i: int| 0 <= i < nodes.drop_last().len() implies (
            #[trigger] nodes.drop_last()[i]).passes_style() by {
                assert(nodes.drop_last()[i] == nodes[i]);
            }
        }
        lemma_inline_spans_of_extend(nodes.drop_last(), style);
        lemma_inline_spans_extend(nodes.last(), style);
    }
}

/// Strong inside emphasis: the spans of a strong node that is rendered as
/// the content of an emphasis are bold and italic, all of them, where the
/// node below passes its style on.
pub proof fn lemma_strong_in_emphasis(strong: DocNode, style: Style)
    requires
        strong is Strong,
        strong.passes_style(),
    ensures
        forall|i: int|
            0 <= i < inline_spans(strong, style.with_italic()).len() ==> {
                let span = #[trigger] inline_spans(strong, style.with_italic())[i];
                span.style.bold && span.style.italic
            },
{
    let inner = strong->Strong_children@;
    lemma_inline_spans_of_extend(inner, style.with_italic().with_bold());
    assert forall|i: int| 0 <= i < inline_spans(strong, style.with_italic()).len() implies {
        let span = #[trigger] inline_spans(strong, style.with_italic())[i];
        span.style.bold && span.style.italic
    } by {
        let span = inline_spans_of(inner, style.with_italic().with_bold())[i];
        assert(span.style.extends(style.with_italic().with_bold()));
    }
}

/// Emphasis inside strong: the spans of an emphasis that is rendered as
/// the content of a strong node are bold and italic, all of them, where
/// the node below passes its style on.
pub proof fn lemma_emphasis_in_strong(emphasis: DocNode, style: Style)
    requires
        emphasis is Emphasis,
        emphasis.passes_style(),
    ensures
        forall|i: int|
            0 <= i < inline_spans(emphasis, style.with_bold()).len() ==> {
                let span = #[trigger] inline_spans(emphasis, style.with_bold())[i];
                span.style.bold && span.style.italic
            },
{
    let inner = emphasis->Emphasis_children@;
    lemma_inline_spans_of_extend(inner, style.with_bold().with_italic());
    assert forall|i: int| 0 <= i < inline_spans(emphasis, style.with_bold()).len() implies {
        let span = #[trigger] inline_spans(emphasis, style.with_bold())[i];
        span.style.bold && span.style.italic
    } by {
        let span = inline_spans_of(inner, style.with_bold().with_italic())[i];
        assert(span.style.extends(style.with_bold().with_italic()));
    }
}

/// The spans of a link are underlined and in the colour of a link, all of
/// them, and keep what the inherited style has set, where the node below
/// passes its style on.
pub proof fn lemma_link_spans(link: DocNode, style: Style)
    requires
        link is Link,
        link.passes_style(),
    ensures
        forall|i: int|
            0 <= i < inline_spans(link, style).len() ==> {
                let span = #[trigger] inline_spans(link, style)[i];
                &&& span.style.underline
                &&& span.style.fg == Some(Color::Blue)
                &&& span.style.extends(style)
            },
{
    let inner = link->Link_children@;
    lemma_inline_spans_of_extend(inner, link_style(style));
    assert forall|i: int| 0 <= i < inline_spans(link, style).len() implies {
        let span = #[trigger] inline_spans(link, style)[i];
        &&& span.style.underline
        &&& span.style.fg == Some(Color::Blue)
        &&& span.style.extends(style)
    } by {
        let span = inline_spans_of(inner, link_style(style))[i];
        assert(span.style.extends(link_style(style)));
    }
}

/// Every line of a block quote starts with the quote marker, in the plain
/// style; the blank lines of its content too.
pub proof fn lemma_blockquote_lines_marked(quote: DocNode, style: Style)
    requires
        quote is Blockquote,
    ensures
        forall|i: int|
            0 <= i < block_lines(quote, style).len() ==> {
                let line = #[trigger] block_lines(quote, style)[i];
                line.len() > 0 && line[0] == raw_span(quote_marker())
            },
{
}

/// A link inside a block quote: a block quote that holds one paragraph
/// renders to the paragraph's line and the blank line after it, each
/// behind the quote marker, and the spans of a link in that paragraph are
/// underlined, in the colour of a link and italic as the quote is, where
/// the node below passes its style on.
pub proof fn lemma_link_in_blockquote(quote: DocNode, link: DocNode, style: Style)
    requires
        quote matches DocNode::Blockquote { children: blocks } && blocks@.len() == 1 && (
        blocks@[0] matches DocNode::Paragraph { children: content } && content@.len() == 1
            && content@[0] == link),
        link is Link,
        link.passes_style(),
    ensures
        block_lines(quote, style) == seq![
            seq![raw_span(quote_marker())] + inline_spans(link, quote_style()),
            seq![raw_span(quote_marker())],
        ],
        forall|i: int|
            0 <= i < inline_spans(link, quote_style()).len() ==> {
                let span = #[trigger] inline_spans(link, quote_style())[i];
                &&& span.style.underline
                &&& span.style.fg == Some(Color::Blue)
                &&& span.style.italic
            },
{
    let blocks = quote->Blockquote_children@;
    let paragraph = blocks[0];
    let content = paragraph->Paragraph_children@;
    lemma_link_spans(link, quote_style());
    assert(inline_spans_of(content, quote_style()) =~= inline_spans(link, quote_style())) by {
        assert(content.drop_last() =~= Seq::<DocNode>::empty());
        assert(inline_spans_of(content.drop_last(), quote_style()) =~= Seq::<SpanView>::empty());
    }
    assert(block_lines_of(blocks, quote_style()) =~= block_lines(paragraph, quote_style())) by {
        assert(blocks.drop_last() =~= Seq::<DocNode>::empty());
        assert(block_lines_of(blocks.drop_last(), quote_style()) =~= Seq::<
            Seq<SpanView>,
        >::empty());
    }
    assert(block_lines(quote, style) =~= seq![
        seq![raw_span(quote_marker())] + inline_spans(link, quote_style()),
        seq![raw_span(quote_marker())],
    ]) by {
        let inner = block_lines(paragraph, quote_style());
        assert(inner.len() == 2);
        assert(quoted(inner)[0] =~= seq![raw_span(quote_marker())] + inline_spans(
            link,
            quote_style(),
        ));
        assert(quoted(inner)[1] =~= seq![raw_span(quote_marker())]);
    }
}

} // verus!
