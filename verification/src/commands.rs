use vstd::prelude::*;
use crate::app::App;
use crate::navigation::NavigationState;
use crate::keys::{KeyCode, KeyModifiers};

verus! {

/// What a user can ask of the viewer.
#[derive(Clone, Copy, Debug, PartialEq, Eq, Structural)]
pub enum Command {
    ScrollDown,
    ScrollUp,
    PageDown,
    PageUp,
    HalfPageDown,
    HalfPageUp,
    JumpToTop,
    JumpToBottom,
    NextSlide,
    PreviousSlide,
}

/// Whether `after` is the viewer `before` with `command` applied.
///
/// The slides and the viewport height are those of `before`. The slide
/// index and the scroll offset are what `NavigationState::step` gives for
/// the number of slides and for the number of lines of the current slide.
/// The horizontal offset is that of `before`, or 0 where the slide has
/// changed.
pub open spec fn applied(before: App, command: Command, after: App) -> bool {
    &&& after.slides == before.slides
    &&& after.viewport_height == before.viewport_height
    &&& after.nav() == before.nav().step(
        command,
        before.slides@.len() as usize,
        before.content_rows(),
    )
    &&& after.scroll_view_state.offset.x == if after.current_slide == before.current_slide {
        before.scroll_view_state.offset.x
    } else {
        0
    }
}

/// The command that a key press stands for where no key map is in use:
/// `j` and `k` scroll by a row, `h` and `l` change the slide, control with
/// `f` and `b` scrolls by a page, control with `d` and `u` by half a page,
/// `g` jumps to the top and `G`, with or without shift, to the bottom.
/// Any other key press, and any of these with other modifiers, stands for
/// no command.
pub open spec fn builtin_command(key_code: KeyCode, modifiers: KeyModifiers) -> Option<Command> {
    match key_code {
        KeyCode::Char(c) => if modifiers == KeyModifiers::none() {
            if c == 'j' {
                Some(Command::ScrollDown)
            } else if c == 'k' {
                Some(Command::ScrollUp)
            } else if c == 'h' {
                Some(Command::PreviousSlide)
            } else if c == 'l' {
                Some(Command::NextSlide)
            } else if c == 'g' {
                Some(Command::JumpToTop)
            } else if c == 'G' {
                Some(Command::JumpToBottom)
            } else {
                None
            }
        } else if modifiers == KeyModifiers::control() {
            if c == 'f' {
                Some(Command::PageDown)
            } else if c == 'b' {
                Some(Command::PageUp)
            } else if c == 'd' {
                Some(Command::HalfPageDown)
            } else if c == 'u' {
                Some(Command::HalfPageUp)
            } else {
                None
            }
        } else if modifiers == KeyModifiers::shift() && c == 'G' {
            Some(Command::JumpToBottom)
        } else {
            None
        },
        _ => None,
    }
}

/// Finds the command that a key press stands for where no key map is in use.
pub fn command_for_key(key_code: KeyCode, modifiers: KeyModifiers) -> (r: Option<Command>)
    ensures
        r == builtin_command(key_code, modifiers),
{
    match key_code {
        KeyCode::Char(c) => {
            if modifiers == KeyModifiers::none() {
                if c == 'j' {
                    Some(Command::ScrollDown)
                } else if c == 'k' {
                    Some(Command::ScrollUp)
                } else if c == 'h' {
                    Some(Command::PreviousSlide)
                } else if c == 'l' {
                    Some(Command::NextSlide)
                } else if c == 'g' {
                    Some(Command::JumpToTop)
                } else if c == 'G' {
                    Some(Command::JumpToBottom)
                } else {
                    None
                }
            } else if modifiers == KeyModifiers::control() {
                if c == 'f' {
                    Some(Command::PageDown)
                } else if c == 'b' {
                    Some(Command::PageUp)
                } else if c == 'd' {
                    Some(Command::HalfPageDown)
                } else if c == 'u' {
                    Some(Command::HalfPageUp)
                } else {
                    None
                }
            } else if modifiers == KeyModifiers::shift() && c == 'G' {
                Some(Command::JumpToBottom)
            } else {
                None
            }
        },
        _ => None,
    }
}

/// Applies to the viewer the command that a key press stands for where no
/// key map is in use. A key press that stands for none changes nothing.
pub fn handle_key(app: &mut App, key_code: KeyCode, modifiers: KeyModifiers)
    ensures
        match builtin_command(key_code, modifiers) {
            Some(command) => applied(*old(app), command, *final(app)),
            None => *final(app) == *old(app),
        },
        old(app).in_range() ==> final(app).in_range(),
{
    match command_for_key(key_code, modifiers) {
        Some(command) => command.execute(app),
        None => {},
    }
}

impl Command {
    /// Applies the command to the viewer. A viewer whose slide index names
    /// a slide stays one.
    pub fn execute(&self, app: &mut App)
        ensures
            applied(*old(app), *self, *final(app)),
            old(app).in_range() ==> final(app).in_range(),
    {
        let rows = match self {
            Command::JumpToBottom => app.count_rows(),
            _ => 0,
        };
        let before = NavigationState {
            current_slide_index: app.current_slide,
            scroll_offset_rows: app.scroll_view_state.offset.y,
            viewport_height_rows: app.viewport_height,
        };
        let after = before.apply(*self, app.slides.len(), rows);
        if after.current_slide_index != app.current_slide {
            app.scroll_view_state.offset.x = 0;
        }
        app.current_slide = after.current_slide_index;
        app.scroll_view_state.offset.y = after.scroll_offset_rows;
    }
}

} // verus!
