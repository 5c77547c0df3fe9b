use vstd::prelude::*;
use crate::line::{Line, SpanView};
use crate::navigation::NavigationState;
use crate::node::DocNode;
use crate::render::{block_lines_of, nodes_to_lines};
use crate::style::Style;
use crate::text::{decimal, push_char, push_decimal};

verus! {

/// A scroll offset: `x` columns to the right and `y` rows down.
#[derive(Clone, Copy, Debug, PartialEq, Eq, Structural)]
pub struct Position {
    pub x: u16,
    pub y: u16,
}

/// How far the current slide is scrolled.
#[derive(Clone, Copy, Debug, PartialEq, Eq, Structural)]
pub struct ScrollState {
    pub offset: Position,
}

impl ScrollState {
    /// The offset.
    pub fn offset(&self) -> (r: Position)
        ensures
            r == self.offset,
    {
        self.offset
    }

    /// Sets the offset.
    pub fn set_offset(&mut self, offset: Position)
        ensures
            final(self).offset == offset,
    {
        self.offset = offset;
    }
}

impl Default for ScrollState {
    /// The state that is not scrolled.
    fn default() -> (r: ScrollState)
        ensures
            r.offset == (Position { x: 0, y: 0 }),
    {
        ScrollState { offset: Position { x: 0, y: 0 } }
    }
}

/// The viewer: the slides of a document and where the viewer stands in them.
pub struct App {
    pub slides: Vec<Vec<DocNode>>,
    pub current_slide: usize,
    pub scroll_view_state: ScrollState,
    pub viewport_height: u16,
}

impl App {
    /// Where the viewer stands.
    pub open spec fn nav(&self) -> NavigationState {
        NavigationState {
            current_slide_index: self.current_slide,
            scroll_offset_rows: self.scroll_view_state.offset.y,
            viewport_height_rows: self.viewport_height,
        }
    }

    /// Whether the current slide is one of the slides.
    pub open spec fn in_range(&self) -> bool {
        self.nav().in_range(self.slides@.len())
    }

    /// The lines of the current slide: each of its nodes rendered as a
    /// block in the plain style, in order. There are none where the slide
    /// index names no slide.
    pub open spec fn current_lines(&self) -> Seq<Seq<SpanView>> {
        if self.current_slide < self.slides@.len() {
            block_lines_of(self.slides@[self.current_slide as int]@, Style::plain())
        } else {
            Seq::empty()
        }
    }

    /// The number of lines of the current slide.
    pub open spec fn content_rows(&self) -> nat {
        self.current_lines().len()
    }

    /// The text that tells which slide of how many is shown: the number of
    /// the current slide, counted from 1, a slash, and the number of slides.
    pub open spec fn indicator(&self) -> Seq<char> {
        decimal((self.current_slide + 1) as nat) + seq!['/'] + decimal(self.slides@.len())
    }

    /// A viewer of `slides`, at the top of the first slide.
    pub fn new(slides: Vec<Vec<DocNode>>) -> (r: App)
        ensures
            r.slides == slides,
            r.current_slide == 0,
            r.scroll_view_state.offset == (Position { x: 0, y: 0 }),
            r.viewport_height == 0,
            slides@.len() >= 1 ==> r.in_range(),
    {
        App {
            slides,
            current_slide: 0,
            scroll_view_state: ScrollState::default(),
            viewport_height: 0,
        }
    }

    /// Renders the current slide.
    pub fn lines(&self) -> (r: Vec<Line>)
        ensures
            r.deep_view() == self.current_lines(),
    {
        let mut lines: Vec<Line> = Vec::new();
        assert(lines.deep_view() =~= Seq::<Seq<SpanView>>::empty());
        if self.current_slide < self.slides.len() {
            nodes_to_lines(&self.slides[self.current_slide], &mut lines, Style::default());
            assert(lines.deep_view() =~= self.current_lines());
        }
        lines
    }

    /// Counts the lines of the current slide.
    pub fn count_rows(&self) -> (r: usize)
        ensures
            r == self.content_rows(),
    {
        let lines = self.lines();
        lines.len()
    }

    /// Tells which slide of how many is shown.
    pub fn position_indicator(&self) -> (r: String)
        ensures
            r@ == self.indicator(),
    {
        let mut r = String::new();
        push_decimal(&mut r, self.current_slide as u128 + 1);
        push_char(&mut r, '/');
        push_decimal(&mut r, self.slides.len() as u128);
        assert(r@ =~= self.indicator());
        r
    }
}

/// Takes note of the height of the viewport and renders the current
/// slide for it. Nothing else of the viewer changes.
pub fn render(app: &mut App, viewport_height: u16) -> (lines: Vec<Line>)
    ensures
        final(app).viewport_height == viewport_height,
        final(app).slides == old(app).slides,
        final(app).current_slide == old(app).current_slide,
        final(app).scroll_view_state == old(app).scroll_view_state,
        lines.deep_view() == old(app).current_lines(),
{
    app.viewport_height = viewport_height;
    app.lines()
}

} // verus!
