use vstd::prelude::*;
use crate::style::Style;

verus! {

/// A run of text that shares one style.
#[derive(Debug, PartialEq, Eq)]
pub struct Span {
    pub content: String,
    pub style: Style,
}

/// What a span is: its characters and its style.
pub struct SpanView {
    pub content: Seq<char>,
    pub style: Style,
}

impl View for Span {
    type V = SpanView;

    open spec fn view(&self) -> SpanView {
        SpanView { content: self.content@, style: self.style }
    }
}

impl DeepView for Span {
    type V = SpanView;

    open spec fn deep_view(&self) -> SpanView {
        self@
    }
}

impl Clone for Span {
    /// A span of the same characters in the same style.
    fn clone(&self) -> (r: Span)
        ensures
            r@ == self@,
    {
        Span { content: self.content.clone(), style: self.style }
    }
}

impl Span {
    /// A span in the plain style.
    pub fn raw(content: String) -> (r: Span)
        ensures
            r@ == raw_span(content@),
    {
        Span { content, style: Style::default() }
    }

    /// A span in the given style.
    pub fn styled(content: String, style: Style) -> (r: Span)
        ensures
            r@ == (SpanView { content: content@, style }),
    {
        Span { content, style }
    }
}

/// The span of `content` in the plain style.
pub open spec fn raw_span(content: Seq<char>) -> SpanView {
    SpanView { content, style: Style::plain() }
}

/// One row of output: its spans from left to right.
#[derive(Debug, PartialEq, Eq)]
pub struct Line {
    pub spans: Vec<Span>,
}

impl View for Line {
    type V = Seq<SpanView>;

    open spec fn view(&self) -> Seq<SpanView> {
        self.spans.deep_view()
    }
}

impl DeepView for Line {
    type V = Seq<SpanView>;

    open spec fn deep_view(&self) -> Seq<SpanView> {
        self@
    }
}

impl Clone for Line {
    /// A line of the same spans.
    fn clone(&self) -> (r: Line)
        ensures
            r@ == self@,
    {
        let mut spans: Vec<Span> = Vec::new();
        let mut i: usize = 0;
        while i < self.spans.len()
            invariant
                i <= self.spans.len(),
                spans.deep_view() == self.spans.deep_view().take(i as int),
            decreases self.spans.len() - i,
        {
            let ghost before = spans.deep_view();
            let span = self.spans[i].clone();
            spans.push(span);
            assert(spans.deep_view() =~= before.push(span@));
            assert(self.spans.deep_view()[i as int] == self.spans@[i as int]@);
            i += 1;
        }
        assert(self.spans.deep_view().take(i as int) =~= self.spans.deep_view());
        Line { spans }
    }
}

impl Line {
    /// The line made of the given spans.
    pub fn from_spans(spans: Vec<Span>) -> (r: Line)
        ensures
            r@ == spans.deep_view(),
    {
        Line { spans }
    }

    /// The line without any span.
    pub fn blank() -> (r: Line)
        ensures
            r@ == blank_line(),
    {
        let r = Line { spans: Vec::new() };
        assert(r@ =~= blank_line());
        r
    }

    /// The line of one span.
    pub fn styled(content: String, style: Style) -> (r: Line)
        ensures
            r@ == seq![SpanView { content: content@, style }],
    {
        let mut spans: Vec<Span> = Vec::new();
        spans.push(Span::styled(content, style));
        let r = Line { spans };
        assert(r@ =~= seq![SpanView { content: content@, style }]);
        r
    }
}

/// The line without any span.
pub open spec fn blank_line() -> Seq<SpanView> {
    Seq::empty()
}

} // verus!
