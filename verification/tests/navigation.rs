use markdeck::app::{render, App, Position};
use markdeck::commands::{command_for_key, handle_key, Command};
use markdeck::keys::{KeyCode, KeyModifiers};
use markdeck::line::Line;
use markdeck::navigation::NavigationState;
use markdeck::node::DocNode;

fn state(index: usize, offset: u16, height: u16) -> NavigationState {
    NavigationState {
        current_slide_index: index,
        scroll_offset_rows: offset,
        viewport_height_rows: height,
    }
}

fn paragraph(value: &str) -> DocNode {
    DocNode::Paragraph { children: vec![DocNode::Text { value: value.to_string() }] }
}

fn long_slide(paragraphs: usize) -> Vec<DocNode> {
    let mut nodes = Vec::new();
    for i in 0..paragraphs {
        nodes.push(paragraph(&format!("p{}", i)));
    }
    nodes
}

const ALL: [Command; 10] = [
    Command::ScrollDown,
    Command::ScrollUp,
    Command::PageDown,
    Command::PageUp,
    Command::HalfPageDown,
    Command::HalfPageUp,
    Command::JumpToTop,
    Command::JumpToBottom,
    Command::NextSlide,
    Command::PreviousSlide,
];

#[test]
fn scroll_moves_by_one_row() {
    assert_eq!(state(0, 5, 10).apply(Command::ScrollDown, 3, 100), state(0, 6, 10));
    assert_eq!(state(0, 5, 10).apply(Command::ScrollUp, 3, 100), state(0, 4, 10));
}

#[test]
fn page_moves_by_the_viewport_height() {
    assert_eq!(state(1, 5, 10).apply(Command::PageDown, 3, 100), state(1, 15, 10));
    assert_eq!(state(1, 25, 10).apply(Command::PageUp, 3, 100), state(1, 15, 10));
    assert_eq!(state(1, 5, 10).apply(Command::PageUp, 3, 100), state(1, 0, 10));
}

#[test]
fn half_page_moves_by_half_the_viewport_height_rounded_down() {
    assert_eq!(state(1, 5, 11).apply(Command::HalfPageDown, 3, 100), state(1, 10, 11));
    assert_eq!(state(1, 5, 11).apply(Command::HalfPageUp, 3, 100), state(1, 0, 11));
    assert_eq!(state(1, 3, 11).apply(Command::HalfPageUp, 3, 100), state(1, 0, 11));
    assert_eq!(state(1, 5, 1).apply(Command::HalfPageDown, 3, 100), state(1, 5, 1));
}

#[test]
fn scrolling_is_not_held_to_the_content() {
    assert_eq!(state(0, 5, 10).apply(Command::ScrollDown, 1, 2), state(0, 6, 10));
    assert_eq!(state(0, 5, 10).apply(Command::PageDown, 1, 0), state(0, 15, 10));
}

#[test]
fn scrolling_down_stops_at_the_largest_offset() {
    let top = u16::MAX;
    assert_eq!(state(0, top, 10).apply(Command::ScrollDown, 1, 0), state(0, top, 10));
    assert_eq!(state(0, top - 3, 10).apply(Command::PageDown, 1, 0), state(0, top, 10));
    assert_eq!(state(0, top - 3, 10).apply(Command::HalfPageDown, 1, 0), state(0, top, 10));
}

#[test]
fn scrolling_up_stops_at_zero() {
    let mut s = state(0, 0, 10);
    for _ in 0..5 {
        s = s.apply(Command::ScrollUp, 1, 50);
        assert_eq!(s, state(0, 0, 10));
    }
    assert_eq!(state(0, 0, 10).apply(Command::PageUp, 1, 50), state(0, 0, 10));
    assert_eq!(state(0, 0, 10).apply(Command::HalfPageUp, 1, 50), state(0, 0, 10));
}

#[test]
fn jump_to_top_sets_the_offset_to_zero() {
    assert_eq!(state(2, 77, 10).apply(Command::JumpToTop, 3, 100), state(2, 0, 10));
}

#[test]
fn jump_to_bottom_shows_the_last_row_at_the_bottom() {
    assert_eq!(state(0, 0, 10).apply(Command::JumpToBottom, 1, 25), state(0, 15, 10));
    assert_eq!(state(0, 99, 10).apply(Command::JumpToBottom, 1, 25), state(0, 15, 10));
    assert_eq!(state(0, 3, 10).apply(Command::JumpToBottom, 1, 10), state(0, 0, 10));
    assert_eq!(state(0, 3, 10).apply(Command::JumpToBottom, 1, 4), state(0, 0, 10));
    assert_eq!(state(0, 3, 0).apply(Command::JumpToBottom, 1, 4), state(0, 4, 0));
}

#[test]
fn jump_to_bottom_stops_at_the_largest_offset() {
    assert_eq!(
        state(0, 0, 10).apply(Command::JumpToBottom, 1, 70_000),
        state(0, u16::MAX, 10)
    );
    assert_eq!(
        state(0, 0, 10).apply(Command::JumpToBottom, 1, 65_545),
        state(0, u16::MAX, 10)
    );
    assert_eq!(
        state(0, 0, 10).apply(Command::JumpToBottom, 1, 65_544),
        state(0, 65_534, 10)
    );
}

#[test]
fn next_slide_moves_and_resets_the_offset() {
    assert_eq!(state(0, 9, 10).apply(Command::NextSlide, 3, 100), state(1, 0, 10));
    assert_eq!(state(1, 9, 10).apply(Command::NextSlide, 3, 100), state(2, 0, 10));
}

#[test]
fn next_slide_on_the_last_slide_changes_nothing() {
    let mut s = state(2, 9, 10);
    for _ in 0..5 {
        s = s.apply(Command::NextSlide, 3, 100);
        assert_eq!(s, state(2, 9, 10));
    }
    assert_eq!(state(0, 4, 10).apply(Command::NextSlide, 1, 100), state(0, 4, 10));
    assert_eq!(state(0, 4, 10).apply(Command::NextSlide, 0, 100), state(0, 4, 10));
    assert_eq!(
        state(usize::MAX, 4, 10).apply(Command::NextSlide, usize::MAX, 100),
        state(usize::MAX, 4, 10)
    );
}

#[test]
fn previous_slide_moves_and_resets_the_offset() {
    assert_eq!(state(2, 9, 10).apply(Command::PreviousSlide, 3, 100), state(1, 0, 10));
}

#[test]
fn previous_slide_on_the_first_slide_changes_nothing() {
    let mut s = state(0, 9, 10);
    for _ in 0..5 {
        s = s.apply(Command::PreviousSlide, 3, 100);
        assert_eq!(s, state(0, 9, 10));
    }
}

#[test]
fn no_command_leaves_the_slides_or_changes_the_viewport() {
    for count in 1usize..4 {
        for index in 0..count {
            for command in ALL {
                let next = state(index, 7, 10).apply(command, count, 30);
                assert!(next.current_slide_index < count);
                assert_eq!(next.viewport_height_rows, 10);
            }
        }
    }
}

#[test]
fn a_change_of_slide_always_resets_the_offset() {
    for index in 0usize..3 {
        for command in [Command::NextSlide, Command::PreviousSlide] {
            let next = state(index, 7, 10).apply(command, 3, 30);
            if next.current_slide_index != index {
                assert_eq!(next.scroll_offset_rows, 0);
            } else {
                assert_eq!(next.scroll_offset_rows, 7);
            }
        }
    }
}

#[test]
fn new_app_stands_at_the_top_of_the_first_slide() {
    let app = App::new(vec![vec![paragraph("a")], vec![]]);
    assert_eq!(app.slides.len(), 2);
    assert_eq!(app.current_slide, 0);
    assert_eq!(app.scroll_view_state.offset(), Position { x: 0, y: 0 });
    assert_eq!(app.viewport_height, 0);
}

#[test]
fn execute_scrolls_the_app() {
    let mut app = App::new(vec![long_slide(20)]);
    app.viewport_height = 10;
    Command::ScrollDown.execute(&mut app);
    assert_eq!(app.scroll_view_state.offset().y, 1);
    Command::PageDown.execute(&mut app);
    assert_eq!(app.scroll_view_state.offset().y, 11);
    Command::HalfPageUp.execute(&mut app);
    assert_eq!(app.scroll_view_state.offset().y, 6);
    Command::PageUp.execute(&mut app);
    assert_eq!(app.scroll_view_state.offset().y, 0);
    Command::HalfPageDown.execute(&mut app);
    assert_eq!(app.scroll_view_state.offset().y, 5);
    Command::ScrollUp.execute(&mut app);
    assert_eq!(app.scroll_view_state.offset().y, 4);
    Command::JumpToTop.execute(&mut app);
    assert_eq!(app.scroll_view_state.offset().y, 0);
    assert_eq!(app.current_slide, 0);
    assert_eq!(app.viewport_height, 10);
    assert_eq!(app.slides.len(), 1);
}

#[test]
fn execute_jumps_to_the_bottom_of_the_rendered_slide() {
    let mut app = App::new(vec![long_slide(20), long_slide(2)]);
    app.viewport_height = 10;
    Command::JumpToBottom.execute(&mut app);
    assert_eq!(app.scroll_view_state.offset().y, 30);
    Command::NextSlide.execute(&mut app);
    assert_eq!(app.scroll_view_state.offset().y, 0);
    Command::ScrollDown.execute(&mut app);
    Command::JumpToBottom.execute(&mut app);
    assert_eq!(app.scroll_view_state.offset().y, 0);
    app.viewport_height = 3;
    Command::JumpToBottom.execute(&mut app);
    assert_eq!(app.scroll_view_state.offset().y, 1);
}

#[test]
fn execute_keeps_the_column_unless_the_slide_changes() {
    let mut app = App::new(vec![long_slide(3), long_slide(3)]);
    app.scroll_view_state.set_offset(Position { x: 4, y: 2 });
    Command::JumpToTop.execute(&mut app);
    assert_eq!(app.scroll_view_state.offset(), Position { x: 4, y: 0 });
    Command::PreviousSlide.execute(&mut app);
    assert_eq!(app.scroll_view_state.offset(), Position { x: 4, y: 0 });
    Command::NextSlide.execute(&mut app);
    assert_eq!(app.scroll_view_state.offset(), Position { x: 0, y: 0 });
}

#[test]
fn execute_on_an_app_without_slides_changes_no_slide() {
    let mut app = App::new(vec![]);
    Command::NextSlide.execute(&mut app);
    assert_eq!(app.current_slide, 0);
    Command::PreviousSlide.execute(&mut app);
    assert_eq!(app.current_slide, 0);
    Command::JumpToBottom.execute(&mut app);
    assert_eq!(app.scroll_view_state.offset().y, 0);
}

#[test]
fn builtin_keys_stand_for_their_commands() {
    let none = KeyModifiers::none();
    let control = KeyModifiers::control();
    assert_eq!(command_for_key(KeyCode::Char('j'), none), Some(Command::ScrollDown));
    assert_eq!(command_for_key(KeyCode::Char('k'), none), Some(Command::ScrollUp));
    assert_eq!(command_for_key(KeyCode::Char('h'), none), Some(Command::PreviousSlide));
    assert_eq!(command_for_key(KeyCode::Char('l'), none), Some(Command::NextSlide));
    assert_eq!(command_for_key(KeyCode::Char('f'), control), Some(Command::PageDown));
    assert_eq!(command_for_key(KeyCode::Char('b'), control), Some(Command::PageUp));
    assert_eq!(command_for_key(KeyCode::Char('d'), control), Some(Command::HalfPageDown));
    assert_eq!(command_for_key(KeyCode::Char('u'), control), Some(Command::HalfPageUp));
    assert_eq!(command_for_key(KeyCode::Char('g'), none), Some(Command::JumpToTop));
    assert_eq!(command_for_key(KeyCode::Char('G'), none), Some(Command::JumpToBottom));
    assert_eq!(
        command_for_key(KeyCode::Char('G'), KeyModifiers::shift()),
        Some(Command::JumpToBottom)
    );
}

#[test]
fn other_key_presses_stand_for_no_command() {
    let none = KeyModifiers::none();
    let control = KeyModifiers::control();
    assert_eq!(command_for_key(KeyCode::Char('q'), none), None);
    assert_eq!(command_for_key(KeyCode::Char('j'), control), None);
    assert_eq!(command_for_key(KeyCode::Char('f'), none), None);
    assert_eq!(command_for_key(KeyCode::Char('j'), KeyModifiers::shift()), None);
    assert_eq!(command_for_key(KeyCode::Char('j'), KeyModifiers::alt()), None);
    assert_eq!(command_for_key(KeyCode::Down, none), None);
    assert_eq!(command_for_key(KeyCode::Other, none), None);
    let both = KeyModifiers { shift: true, ..control };
    assert_eq!(command_for_key(KeyCode::Char('f'), both), None);
    let with_super = KeyModifiers { super_key: true, ..none };
    assert_eq!(command_for_key(KeyCode::Char('j'), with_super), None);
}

#[test]
fn handle_key_applies_the_command_of_the_key() {
    let mut app = App::new(vec![long_slide(1), long_slide(1)]);
    handle_key(&mut app, KeyCode::Char('j'), KeyModifiers::none());
    assert_eq!(app.scroll_view_state.offset().y, 1);
    handle_key(&mut app, KeyCode::Char('l'), KeyModifiers::none());
    assert_eq!(app.current_slide, 1);
    assert_eq!(app.scroll_view_state.offset().y, 0);
    handle_key(&mut app, KeyCode::Char('x'), KeyModifiers::none());
    handle_key(&mut app, KeyCode::Enter, KeyModifiers::none());
    assert_eq!(app.current_slide, 1);
    assert_eq!(app.scroll_view_state.offset().y, 0);
    handle_key(&mut app, KeyCode::Char('h'), KeyModifiers::none());
    assert_eq!(app.current_slide, 0);
}

#[test]
fn render_records_the_viewport_and_gives_the_lines_of_the_slide() {
    let mut app = App::new(vec![vec![paragraph("a")], vec![paragraph("b"), paragraph("c")]]);
    let lines = render(&mut app, 24);
    assert_eq!(app.viewport_height, 24);
    assert_eq!(lines.len(), 2);
    assert_eq!(lines[0].spans[0].content, "a");
    app.current_slide = 1;
    let lines = render(&mut app, 30);
    assert_eq!(app.viewport_height, 30);
    assert_eq!(lines.len(), 4);
    assert_eq!(lines[2].spans[0].content, "c");
    assert_eq!(app.current_slide, 1);
    app.current_slide = 5;
    assert_eq!(render(&mut app, 30), Vec::<Line>::new());
}

#[test]
fn count_rows_is_the_number_of_lines() {
    let app = App::new(vec![long_slide(7)]);
    assert_eq!(app.count_rows(), 14);
    assert_eq!(app.lines().len(), 14);
}

#[test]
fn position_indicator_counts_slides_from_one() {
    let mut app = App::new(vec![vec![], vec![], vec![]]);
    assert_eq!(app.position_indicator(), "1/3");
    app.current_slide = 2;
    assert_eq!(app.position_indicator(), "3/3");
    let mut slides = Vec::new();
    for _ in 0..12 {
        slides.push(Vec::new());
    }
    let mut app = App::new(slides);
    app.current_slide = 9;
    assert_eq!(app.position_indicator(), "10/12");
}
