use markdeck::line::{Line, Span};
use markdeck::node::DocNode;
use markdeck::style::{Color, Style};

#[test]
fn default_style_is_plain() {
    assert_eq!(
        Style::default(),
        Style { fg: None, bold: false, italic: false, underline: false }
    );
}

#[test]
fn style_builders_set_one_attribute_each() {
    let plain = Style::default();
    assert_eq!(plain.bold(), Style { bold: true, ..plain });
    assert_eq!(plain.italic(), Style { italic: true, ..plain });
    assert_eq!(plain.underlined(), Style { underline: true, ..plain });
    assert_eq!(plain.fg(Color::Cyan), Style { fg: Some(Color::Cyan), ..plain });
}

#[test]
fn style_builders_keep_what_is_set() {
    let style = Style::default().fg(Color::Yellow).italic();
    assert_eq!(
        style.bold().underlined(),
        Style { fg: Some(Color::Yellow), bold: true, italic: true, underline: true }
    );
    assert_eq!(style.fg(Color::Blue).fg(Color::Green).fg, Some(Color::Green));
    assert_eq!(style.italic(), style);
}

#[test]
fn extending_a_style_leaves_it_untouched() {
    let base = Style::default().italic();
    let _extended = base.bold().fg(Color::Blue);
    assert_eq!(base, Style { fg: None, bold: false, italic: true, underline: false });
}

#[test]
fn raw_span_is_plain() {
    let span = Span::raw("text".to_string());
    assert_eq!(span, Span { content: "text".to_string(), style: Style::default() });
}

#[test]
fn styled_span_has_the_style() {
    let style = Style::default().bold();
    let span = Span::styled("text".to_string(), style);
    assert_eq!(span, Span { content: "text".to_string(), style });
}

#[test]
fn line_constructors() {
    assert_eq!(Line::blank(), Line { spans: vec![] });
    let style = Style::default().fg(Color::Gray);
    assert_eq!(
        Line::styled("x".to_string(), style),
        Line { spans: vec![Span { content: "x".to_string(), style }] }
    );
    let spans = vec![Span::raw("a".to_string()), Span::styled("b".to_string(), style)];
    assert_eq!(
        Line::from_spans(spans),
        Line {
            spans: vec![
                Span { content: "a".to_string(), style: Style::default() },
                Span { content: "b".to_string(), style },
            ]
        }
    );
}

#[test]
fn clones_are_equal() {
    let style = Style::default().underlined();
    let span = Span::styled("b".to_string(), style);
    assert_eq!(span.clone(), span);
    let line = Line::from_spans(vec![Span::raw("a".to_string()), span]);
    assert_eq!(line.clone(), line);
    assert_eq!(Line::blank().clone(), Line::blank());
}

#[test]
fn only_headings_of_rank_one_and_two_open_a_slide() {
    for depth in 0u8..=7 {
        let node = DocNode::Heading { depth, children: vec![] };
        assert_eq!(node.is_slide_heading(), depth == 1 || depth == 2);
    }
    assert!(!DocNode::ThematicBreak.is_slide_heading());
    assert!(!DocNode::Paragraph { children: vec![] }.is_slide_heading());
    let nested = DocNode::Other { children: vec![DocNode::Heading { depth: 1, children: vec![] }] };
    assert!(!nested.is_slide_heading());
}
