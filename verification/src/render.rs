use vstd::prelude::*;
use crate::line::{blank_line, raw_span, Line, Span, SpanView};
use crate::node::DocNode;
use crate::style::{Color, Style};
use crate::text::{
    decimal, push_char, push_decimal, repeat_char, repeated, split_lines, string_views, text_lines,
};

verus! {

/// The style of a heading: bold, in the heading's accent colour.
pub open spec fn heading_style() -> Style {
    Style { fg: Some(Color::Cyan), bold: true, italic: false, underline: false }
}

/// The style under which the content of a block quote is rendered.
pub open spec fn quote_style() -> Style {
    Style { fg: Some(Color::Yellow), bold: false, italic: true, underline: false }
}

/// The style of every line of a code block.
pub open spec fn code_style() -> Style {
    Style { fg: Some(Color::Gray), bold: false, italic: false, underline: false }
}

/// The style of inline code.
pub open spec fn inline_code_style() -> Style {
    Style { fg: Some(Color::Green), bold: true, italic: false, underline: false }
}

/// The style of a link's content under the style `base`.
pub open spec fn link_style(base: Style) -> Style {
    base.with_fg(Color::Blue).with_underline()
}

/// The marker that opens a heading line: one `#` for each rank, and a space.
pub open spec fn heading_marker(depth: u8) -> Seq<char> {
    repeated('#', depth as nat).push(' ')
}

/// The marker of the list item at position `index` of its list, counted from 0.
pub open spec fn item_marker(ordered: bool, index: nat) -> Seq<char> {
    if ordered {
        decimal(index + 1) + seq!['.', ' ']
    } else {
        seq!['•', ' ']
    }
}

/// The text that opens and closes a code block.
pub open spec fn fence() -> Seq<char> {
    repeated('`', 3)
}

/// The text of a thematic break.
pub open spec fn rule() -> Seq<char> {
    repeated('─', 40)
}

/// The text that starts every line of a block quote.
pub open spec fn quote_marker() -> Seq<char> {
    seq!['>', ' ']
}

/// The spans of `node` rendered inline under `style`.
pub open spec fn inline_spans(node: DocNode, style: Style) -> Seq<SpanView>
    decreases node,
{
    match node {
        DocNode::Text { value } => seq![SpanView { content: value@, style }],
        DocNode::Strong { children } => inline_spans_of(children@, style.with_bold()),
        DocNode::Emphasis { children } => inline_spans_of(children@, style.with_italic()),
        DocNode::InlineCode { value } => seq![
            SpanView { content: value@, style: inline_code_style() },
        ],
        DocNode::Link { children } => inline_spans_of(children@, link_style(style)),
        DocNode::LineBreak => seq![raw_span(seq!['\n'])],
        DocNode::Root { children } => inline_spans_of(children@, style),
        DocNode::Heading { children, .. } => inline_spans_of(children@, style),
        DocNode::Paragraph { children } => inline_spans_of(children@, style),
        DocNode::List { children, .. } => inline_spans_of(children@, style),
        DocNode::ListItem { children } => inline_spans_of(children@, style),
        DocNode::Blockquote { children } => inline_spans_of(children@, style),
        DocNode::Other { children } => inline_spans_of(children@, style),
        DocNode::Code { .. } => Seq::empty(),
        DocNode::ThematicBreak => Seq::empty(),
    }
}

/// The spans of `nodes`, each rendered inline under `style`, in order.
pub open spec fn inline_spans_of(nodes: Seq<DocNode>, style: Style) -> Seq<SpanView>
    decreases nodes,
{
    if nodes.len() == 0 {
        Seq::empty()
    } else {
        inline_spans_of(nodes.drop_last(), style) + inline_spans(nodes.last(), style)
    }
}

/// The line of a code block that holds `text`.
pub open spec fn code_line(text: Seq<char>) -> Seq<SpanView> {
    seq![SpanView { content: text, style: code_style() }]
}

/// The lines of a code block: the opening fence with the language tag, the
/// raw lines, the closing fence and a blank line.
pub open spec fn code_lines(lang: Option<String>, value: String) -> Seq<Seq<SpanView>> {
    let tag = match lang {
        Some(l) => l@,
        None => Seq::empty(),
    };
    seq![code_line(fence() + tag)] + text_lines(value@).map_values(|l: Seq<char>| code_line(l))
        + seq![code_line(fence()), blank_line()]
}

/// The lines of the list items among `items`, one line for each, under `style`.
/// An item's number is its position among all the children of the list.
pub open spec fn item_lines(items: Seq<DocNode>, ordered: bool, style: Style) -> Seq<Seq<SpanView>>
    decreases items,
{
    if items.len() == 0 {
        Seq::empty()
    } else {
        let before = item_lines(items.drop_last(), ordered, style);
        match items.last() {
            DocNode::ListItem { children } => before.push(
                seq![raw_span(item_marker(ordered, (items.len() - 1) as nat))] + inline_spans_of(
                    children@,
                    style,
                ),
            ),
            _ => before,
        }
    }
}

/// `lines` with the quote marker in front of each.
pub open spec fn quoted(lines: Seq<Seq<SpanView>>) -> Seq<Seq<SpanView>> {
    lines.map_values(|l: Seq<SpanView>| seq![raw_span(quote_marker())] + l)
}

/// The lines of `node` rendered as a block under `style`.
pub open spec fn block_lines(node: DocNode, style: Style) -> Seq<Seq<SpanView>>
    decreases node,
{
    match node {
        DocNode::Root { children } => block_lines_of(children@, style),
        DocNode::Heading { depth, children } => seq![
            seq![SpanView { content: heading_marker(depth), style: heading_style() }]
                + inline_spans_of(children@, heading_style()),
            blank_line(),
        ],
        DocNode::Paragraph { children } => seq![inline_spans_of(children@, style), blank_line()],
        DocNode::List { ordered, children } => item_lines(children@, ordered, style).push(
            blank_line(),
        ),
        DocNode::Code { lang, value } => code_lines(lang, value),
        DocNode::Blockquote { children } => quoted(block_lines_of(children@, quote_style())),
        DocNode::ThematicBreak => seq![seq![raw_span(rule())], blank_line()],
        DocNode::ListItem { children } => block_lines_of(children@, style),
        DocNode::Strong { children } => block_lines_of(children@, style),
        DocNode::Emphasis { children } => block_lines_of(children@, style),
        DocNode::Link { children } => block_lines_of(children@, style),
        DocNode::Other { children } => block_lines_of(children@, style),
        DocNode::Text { .. } => Seq::empty(),
        DocNode::InlineCode { .. } => Seq::empty(),
        DocNode::LineBreak => Seq::empty(),
    }
}

/// The lines of `nodes`, each rendered as a block under `style`, in order.
pub open spec fn block_lines_of(nodes: Seq<DocNode>, style: Style) -> Seq<Seq<SpanView>>
    decreases nodes,
{
    if nodes.len() == 0 {
        Seq::empty()
    } else {
        block_lines_of(nodes.drop_last(), style) + block_lines(nodes.last(), style)
    }
}

/// Appends one line.
fn push_line(lines: &mut Vec<Line>, line: Line)
    ensures
        final(lines).deep_view() == old(lines).deep_view().push(line@),
{
    lines.push(line);
    assert(lines.deep_view() =~= old(lines).deep_view().push(line@));
}

/// A new string that holds the two given characters.
fn two_chars(a: char, b: char) -> (r: String)
    ensures
        r@ == seq![a, b],
{
    let mut r = String::new();
    push_char(&mut r, a);
    push_char(&mut r, b);
    assert(r@ =~= seq![a, b]);
    r
}

/// Builds the marker of the list item at position `index`.
fn make_item_marker(ordered: bool, index: usize) -> (r: String)
    ensures
        r@ == item_marker(ordered, index as nat),
{
    if ordered {
        let mut r = String::new();
        push_decimal(&mut r, index as u128 + 1);
        push_char(&mut r, '.');
        push_char(&mut r, ' ');
        assert(r@ =~= item_marker(ordered, index as nat));
        r
    } else {
        two_chars('•', ' ')
    }
}

/// Appends to `spans` the spans of `node` rendered inline under
/// `base_style`. What `spans` held stays in front.
pub fn collect_inline_spans(node: &DocNode, spans: &mut Vec<Span>, base_style: Style)
    ensures
        final(spans).deep_view() == old(spans).deep_view() + inline_spans(*node, base_style),
    decreases node,
{
    let ghost before = spans.deep_view();
    match node {
        DocNode::Text { value } => {
            spans.push(Span::styled(value.clone(), base_style));
            assert(spans.deep_view() =~= before + inline_spans(*node, base_style));
        },
        DocNode::Strong { children } => {
            collect_inline_children(children, spans, base_style.bold());
        },
        DocNode::Emphasis { children } => {
            collect_inline_children(children, spans, base_style.italic());
        },
        DocNode::InlineCode { value } => {
            let style = Style::default().fg(Color::Green).bold();
            spans.push(Span::styled(value.clone(), style));
            assert(spans.deep_view() =~= before + inline_spans(*node, base_style));
        },
        DocNode::Link { children } => {
            collect_inline_children(children, spans, base_style.fg(Color::Blue).underlined());
        },
        DocNode::LineBreak => {
            let mut newline = String::new();
            push_char(&mut newline, '\n');
            assert(newline@ =~= seq!['\n']);
            spans.push(Span::raw(newline));
            assert(spans.deep_view() =~= before + inline_spans(*node, base_style));
        },
        DocNode::Root { children } => {
            collect_inline_children(children, spans, base_style);
        },
        DocNode::Heading { children, .. } => {
            collect_inline_children(children, spans, base_style);
        },
        DocNode::Paragraph { children } => {
            collect_inline_children(children, spans, base_style);
        },
        DocNode::List { children, .. } => {
            collect_inline_children(children, spans, base_style);
        },
        DocNode::ListItem { children } => {
            collect_inline_children(children, spans, base_style);
        },
        DocNode::Blockquote { children } => {
            collect_inline_children(children, spans, base_style);
        },
        DocNode::Other { children } => {
            collect_inline_children(children, spans, base_style);
        },
        DocNode::Code { .. } => {
            assert(spans.deep_view() =~= before + inline_spans(*node, base_style));
        },
        DocNode::ThematicBreak => {
            assert(spans.deep_view() =~= before + inline_spans(*node, base_style));
        },
    }
}

/// Appends to `spans` the spans of each of `children` in order, rendered
/// inline under `style`.
pub fn collect_inline_children(children: &Vec<DocNode>, spans: &mut Vec<Span>, style: Style)
    ensures
        final(spans).deep_view() == old(spans).deep_view() + inline_spans_of(children@, style),
    decreases children,
{
    let ghost before = spans.deep_view();
    let mut i: usize = 0;
    assert(spans.deep_view() =~= before + inline_spans_of(children@.take(0), style));
    while i < children.len()
        invariant
            i <= children.len(),
            spans.deep_view() == before + inline_spans_of(children@.take(i as int), style),
        decreases children.len() - i,
    {
        collect_inline_spans(&children[i], spans, style);
        proof {
            let upto = children@.take(i + 1);
            assert(upto.drop_last() =~= children@.take(i as int));
            assert(upto.last() == children@[i as int]);
            assert(spans.deep_view() =~= before + inline_spans_of(upto, style));
        }
        i += 1;
    }
    assert(children@.take(i as int) =~= children@);
}

/// Appends to `lines` the lines of `node` rendered as a block under
/// `style`. What `lines` held stays in front.
pub fn node_to_lines(node: &DocNode, lines: &mut Vec<Line>, style: Style)
    ensures
        final(lines).deep_view() == old(lines).deep_view() + block_lines(*node, style),
    decreases node,
{
    let ghost before = lines.deep_view();
    match node {
        DocNode::Root { children } => {
            nodes_to_lines(children, lines, style);
        },
        DocNode::Heading { depth, children } => {
            let heading = Style::default().fg(Color::Cyan).bold();
            let mut marker = repeat_char('#', *depth as usize);
            push_char(&mut marker, ' ');
            let mut spans: Vec<Span> = Vec::new();
            spans.push(Span::styled(marker, heading));
            assert(spans.deep_view() =~= seq![
                SpanView { content: heading_marker(*depth), style: heading_style() },
            ]);
            collect_inline_children(children, &mut spans, heading);
            push_line(lines, Line::from_spans(spans));
            push_line(lines, Line::blank());
            assert(lines.deep_view() =~= before + block_lines(*node, style));
        },
        DocNode::Paragraph { children } => {
            let mut spans: Vec<Span> = Vec::new();
            assert(spans.deep_view() =~= Seq::<SpanView>::empty());
            collect_inline_children(children, &mut spans, style);
            assert(spans.deep_view() =~= inline_spans_of(children@, style));
            push_line(lines, Line::from_spans(spans));
            push_line(lines, Line::blank());
            assert(lines.deep_view() =~= before + block_lines(*node, style));
        },
        DocNode::List { ordered, children } => {
            let mut i: usize = 0;
            assert(lines.deep_view() =~= before + item_lines(children@.take(0), *ordered, style));
            while i < children.len()
                invariant
                    i <= children.len(),
                    lines.deep_view() == before + item_lines(
                        children@.take(i as int),
                        *ordered,
                        style,
                    ),
                decreases children.len() - i,
            {
                let ghost upto = children@.take(i + 1);
                proof {
                    assert(upto.drop_last() =~= children@.take(i as int));
                    assert(upto.last() == children@[i as int]);
                }
                match &children[i] {
                    DocNode::ListItem { children: content } => {
                        let mut spans: Vec<Span> = Vec::new();
                        spans.push(Span::raw(make_item_marker(*ordered, i)));
                        assert(spans.deep_view() =~= seq![
                            raw_span(item_marker(*ordered, i as nat)),
                        ]);
                        collect_inline_children(content, &mut spans, style);
                        push_line(lines, Line::from_spans(spans));
                        assert(lines.deep_view() =~= before + item_lines(upto, *ordered, style));
                    },
                    _ => {},
                }
                i += 1;
            }
            assert(children@.take(i as int) =~= children@);
            push_line(lines, Line::blank());
            assert(lines.deep_view() =~= before + block_lines(*node, style));
        },
        DocNode::Code { lang, value } => {
            let code = Style::default().fg(Color::Gray);
            let mut opening = repeat_char('`', 3);
            match lang {
                Some(tag) => {
                    opening.append(tag.as_str());
                },
                None => {
                    assert(opening@ =~= fence() + Seq::<char>::empty());
                },
            }
            push_line(lines, Line::styled(opening, code));
            let raw = split_lines(value.as_str());
            let ghost texts = text_lines(value@);
            let ghost head = lines.deep_view();
            let mut i: usize = 0;
            assert(lines.deep_view() =~= head + texts.take(0).map_values(
                |l: Seq<char>| code_line(l),
            ));
            while i < raw.len()
                invariant
                    i <= raw.len(),
                    code == code_style(),
                    string_views(raw@) == texts,
                    lines.deep_view() == head + texts.take(i as int).map_values(
                        |l: Seq<char>| code_line(l),
                    ),
                decreases raw.len() - i,
            {
                assert(string_views(raw@)[i as int] == raw@[i as int]@);
                push_line(lines, Line::styled(raw[i].clone(), code));
                assert(texts.take(i + 1).map_values(|l: Seq<char>| code_line(l)) =~= texts.take(
                    i as int,
                ).map_values(|l: Seq<char>| code_line(l)).push(code_line(texts[i as int])));
                assert(lines.deep_view() =~= head + texts.take(i + 1).map_values(
                    |l: Seq<char>| code_line(l),
                ));
                i += 1;
            }
            assert(texts.take(i as int) =~= texts);
            push_line(lines, Line::styled(repeat_char('`', 3), code));
            push_line(lines, Line::blank());
            assert(lines.deep_view() =~= before + block_lines(*node, style));
        },
        DocNode::Blockquote { children } => {
            let quote = Style::default().fg(Color::Yellow).italic();
            let mut inner: Vec<Line> = Vec::new();
            nodes_to_lines(children, &mut inner, quote);
            let ghost content = block_lines_of(children@, quote_style());
            assert(inner.deep_view() =~= content);
            assert(lines.deep_view() =~= before + quoted(content.take(0)));
            for line in it: inner
                invariant
                    it.seq().len() == content.len(),
                    forall|k: int|
                        0 <= k < content.len() ==> (#[trigger] it.seq()[k])@ == content[k],
                    lines.deep_view() == before + quoted(content.take(it.index())),
            {
                let Line { spans: mut rest } = line;
                let mut spans: Vec<Span> = Vec::new();
                spans.push(Span::raw(two_chars('>', ' ')));
                spans.append(&mut rest);
                assert(spans.deep_view() =~= seq![raw_span(quote_marker())] + line@);
                push_line(lines, Line::from_spans(spans));
                assert(line == it.seq()[it.index()]);
                assert(quoted(content.take(it.index() + 1)) =~= quoted(
                    content.take(it.index()),
                ).push(seq![raw_span(quote_marker())] + content[it.index()]));
                assert(lines.deep_view() =~= before + quoted(content.take(it.index() + 1)));
            }
            assert(content.take(content.len() as int) =~= content);
        },
        DocNode::ThematicBreak => {
            let mut spans: Vec<Span> = Vec::new();
            spans.push(Span::raw(repeat_char('─', 40)));
            assert(spans.deep_view() =~= seq![raw_span(rule())]);
            push_line(lines, Line::from_spans(spans));
            push_line(lines, Line::blank());
            assert(lines.deep_view() =~= before + block_lines(*node, style));
        },
        DocNode::ListItem { children } => {
            nodes_to_lines(children, lines, style);
        },
        DocNode::Strong { children } => {
            nodes_to_lines(children, lines, style);
        },
        DocNode::Emphasis { children } => {
            nodes_to_lines(children, lines, style);
        },
        DocNode::Link { children } => {
            nodes_to_lines(children, lines, style);
        },
        DocNode::Other { children } => {
            nodes_to_lines(children, lines, style);
        },
        DocNode::Text { .. } => {
            assert(lines.deep_view() =~= before + block_lines(*node, style));
        },
        DocNode::InlineCode { .. } => {
            assert(lines.deep_view() =~= before + block_lines(*node, style));
        },
        DocNode::LineBreak => {
            assert(lines.deep_view() =~= before + block_lines(*node, style));
        },
    }
}

/// Appends to `lines` the lines of each of `nodes` in order, rendered as
/// blocks under `style`.
pub fn nodes_to_lines(nodes: &Vec<DocNode>, lines: &mut Vec<Line>, style: Style)
    ensures
        final(lines).deep_view() == old(lines).deep_view() + block_lines_of(nodes@, style),
    decreases nodes,
{
    let ghost before = lines.deep_view();
    let mut i: usize = 0;
    assert(lines.deep_view() =~= before + block_lines_of(nodes@.take(0), style));
    while i < nodes.len()
        invariant
            i <= nodes.len(),
            lines.deep_view() == before + block_lines_of(nodes@.take(i as int), style),
        decreases nodes.len() - i,
    {
        node_to_lines(&nodes[i], lines, style);
        proof {
            let upto = nodes@.take(i + 1);
            assert(upto.drop_last() =~= nodes@.take(i as int));
            assert(upto.last() == nodes@[i as int]);
            assert(lines.deep_view() =~= before + block_lines_of(upto, style));
        }
        i += 1;
    }
    assert(nodes@.take(i as int) =~= nodes@);
}


} // verus!
