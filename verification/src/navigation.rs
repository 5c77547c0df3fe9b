use vstd::prelude::*;
use crate::commands::Command;

verus! {

/// Where the viewer stands: the slide it shows, how many rows that slide
/// is scrolled down, and how many rows the viewport has.
#[derive(Clone, Copy, Debug, PartialEq, Eq, Structural)]
pub struct NavigationState {
    pub current_slide_index: usize,
    pub scroll_offset_rows: u16,
    pub viewport_height_rows: u16,
}

/// The largest offset that still shows the last of `content_rows` rows, at
/// the bottom of a viewport of `viewport_height_rows` rows: the rows that
/// do not fit, as far as the offset can count them.
pub open spec fn bottom_offset(content_rows: nat, viewport_height_rows: u16) -> u16 {
    if content_rows <= viewport_height_rows {
        0
    } else if content_rows - viewport_height_rows > u16::MAX {
        u16::MAX
    } else {
        (content_rows - viewport_height_rows) as u16
    }
}

impl NavigationState {
    /// Whether the slide index names one of `slide_count` slides.
    pub open spec fn in_range(self, slide_count: nat) -> bool {
        self.current_slide_index < slide_count
    }

    /// This state at another scroll offset.
    pub open spec fn scrolled_to(self, rows: u16) -> NavigationState {
        NavigationState { scroll_offset_rows: rows, ..self }
    }

    /// This state at the top of another slide.
    pub open spec fn moved_to(self, index: usize) -> NavigationState {
        NavigationState { current_slide_index: index, scroll_offset_rows: 0, ..self }
    }

    /// The state that `command` leads to, where the document has
    /// `slide_count` slides and the current slide renders to
    /// `content_rows` rows.
    ///
    /// Scrolling moves the offset by one row, by the viewport height or by
    /// half of it, and stops at 0 and at the largest offset rather than
    /// wrap; it is not held to the length of the content. A change of
    /// slide happens only where there is a slide to go to, and puts the
    /// offset back to 0.
    pub open spec fn step(
        self,
        command: Command,
        slide_count: usize,
        content_rows: nat,
    ) -> NavigationState {
        let offset = self.scroll_offset_rows;
        let height = self.viewport_height_rows;
        match command {
            Command::ScrollDown => self.scrolled_to(offset.saturating_add(1)),
            Command::ScrollUp => self.scrolled_to(offset.saturating_sub(1)),
            Command::PageDown => self.scrolled_to(offset.saturating_add(height)),
            Command::PageUp => self.scrolled_to(offset.saturating_sub(height)),
            Command::HalfPageDown => self.scrolled_to(offset.saturating_add(height / 2)),
            Command::HalfPageUp => self.scrolled_to(offset.saturating_sub(height / 2)),
            Command::JumpToTop => self.scrolled_to(0),
            Command::JumpToBottom => self.scrolled_to(bottom_offset(content_rows, height)),
            Command::NextSlide => if self.current_slide_index + 1 < slide_count {
                self.moved_to((self.current_slide_index + 1) as usize)
            } else {
                self
            },
            Command::PreviousSlide => if self.current_slide_index > 0 {
                self.moved_to((self.current_slide_index - 1) as usize)
            } else {
                self
            },
        }
    }

    /// The state after `command` has been applied `times` times.
    pub open spec fn step_times(
        self,
        command: Command,
        times: nat,
        slide_count: usize,
        content_rows: nat,
    ) -> NavigationState
        decreases times,
    {
        if times == 0 {
            self
        } else {
            self.step(command, slide_count, content_rows).step_times(
                command,
                (times - 1) as nat,
                slide_count,
                content_rows,
            )
        }
    }

    /// Computes the state that `command` leads to.
    pub fn apply(self, command: Command, slide_count: usize, content_rows: usize) -> (r:
        NavigationState)
        ensures
            r == self.step(command, slide_count, content_rows as nat),
    {
        let offset = self.scroll_offset_rows;
        let height = self.viewport_height_rows;
        let index = self.current_slide_index;
        match command {
            Command::ScrollDown => self.at_offset(offset.saturating_add(1)),
            Command::ScrollUp => self.at_offset(offset.saturating_sub(1)),
            Command::PageDown => self.at_offset(offset.saturating_add(height)),
            Command::PageUp => self.at_offset(offset.saturating_sub(height)),
            Command::HalfPageDown => self.at_offset(offset.saturating_add(height / 2)),
            Command::HalfPageUp => self.at_offset(offset.saturating_sub(height / 2)),
            Command::JumpToTop => self.at_offset(0),
            Command::JumpToBottom => {
                let fits = height as usize;
                let hidden: usize = if content_rows > fits {
                    content_rows - fits
                } else {
                    0
                };
                let rows: u16 = if hidden > u16::MAX as usize {
                    u16::MAX
                } else {
                    hidden as u16
                };
                self.at_offset(rows)
            },
            Command::NextSlide => {
                if index < slide_count && index + 1 < slide_count {
                    self.at_slide(index + 1)
                } else {
                    self
                }
            },
            Command::PreviousSlide => {
                if index > 0 {
                    self.at_slide(index - 1)
                } else {
                    self
                }
            },
        }
    }

    fn at_offset(self, rows: u16) -> (r: NavigationState)
        ensures
            r == self.scrolled_to(rows),
    {
        NavigationState {
            current_slide_index: self.current_slide_index,
            scroll_offset_rows: rows,
            viewport_height_rows: self.viewport_height_rows,
        }
    }

    fn at_slide(self, index: usize) -> (r: NavigationState)
        ensures
            r == self.moved_to(index),
    {
        NavigationState {
            current_slide_index: index,
            scroll_offset_rows: 0,
            viewport_height_rows: self.viewport_height_rows,
        }
    }
}

/// No command leads out of the slides: from a state whose index names a
/// slide, every command leads to a state whose index names a slide.
pub proof fn lemma_step_stays_in_range(
    state: NavigationState,
    command: Command,
    slide_count: usize,
    content_rows: nat,
)
    requires
        state.in_range(slide_count as nat),
    ensures
        state.step(command, slide_count, content_rows).in_range(slide_count as nat),
{
}

/// No command changes the height of the viewport.
pub proof fn lemma_step_keeps_viewport(
    state: NavigationState,
    command: Command,
    slide_count: usize,
    content_rows: nat,
)
    ensures
        state.step(command, slide_count, content_rows).viewport_height_rows
            == state.viewport_height_rows,
{
}

/// On the first slide, going to the previous slide changes nothing,
/// however often it is asked for.
pub proof fn lemma_previous_slide_at_first(
    state: NavigationState,
    times: nat,
    slide_count: usize,
    content_rows: nat,
)
    requires
        state.current_slide_index == 0,
    ensures
        state.step_times(Command::PreviousSlide, times, slide_count, content_rows) == state,
    decreases times,
{
    if times > 0 {
        lemma_previous_slide_at_first(state, (times - 1) as nat, slide_count, content_rows);
    }
}

/// On the last slide, going to the next slide changes nothing, however
/// often it is asked for.
pub proof fn lemma_next_slide_at_last(
    state: NavigationState,
    times: nat,
    slide_count: usize,
    content_rows: nat,
)
    requires
        state.current_slide_index + 1 == slide_count,
    ensures
        state.step_times(Command::NextSlide, times, slide_count, content_rows) == state,
    decreases times,
{
    if times > 0 {
        lemma_next_slide_at_last(state, (times - 1) as nat, slide_count, content_rows);
    }
}

/// At offset 0, scrolling up changes nothing, however often it is asked
/// for.
pub proof fn lemma_scroll_up_at_top(
    state: NavigationState,
    times: nat,
    slide_count: usize,
    content_rows: nat,
)
    requires
        state.scroll_offset_rows == 0,
    ensures
        state.step_times(Command::ScrollUp, times, slide_count, content_rows) == state,
    decreases times,
{
    if times > 0 {
        lemma_scroll_up_at_top(state, (times - 1) as nat, slide_count, content_rows);
    }
}

/// A change of slide resets the scroll offset: where going to the next or
/// the previous slide changes the slide index, the offset is 0 afterwards,
/// whatever it was.
pub proof fn lemma_slide_change_resets_scroll(
    state: NavigationState,
    command: Command,
    slide_count: usize,
    content_rows: nat,
)
    requires
        command == Command::NextSlide || command == Command::PreviousSlide,
        state.step(command, slide_count, content_rows).current_slide_index
            != state.current_slide_index,
    ensures
        state.step(command, slide_count, content_rows).scroll_offset_rows == 0,
{
}

/// Only going to the next or to the previous slide changes the slide
/// index, and by one slide at most.
pub proof fn lemma_step_moves_one_slide(
    state: NavigationState,
    command: Command,
    slide_count: usize,
    content_rows: nat,
)
    ensures
        ({
            let next = state.step(command, slide_count, content_rows);
            &&& command != Command::NextSlide && command != Command::PreviousSlide
                ==> next.current_slide_index == state.current_slide_index
            &&& command == Command::NextSlide ==> next.current_slide_index
                == state.current_slide_index || next.current_slide_index
                == state.current_slide_index + 1
            &&& command == Command::PreviousSlide ==> next.current_slide_index
                == state.current_slide_index || next.current_slide_index
                == state.current_slide_index - 1
        }),
{
}

} // verus!
