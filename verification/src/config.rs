use vstd::prelude::*;
use vstd::string::StringExecFns;
use crate::commands::Command;
use crate::keys::{key_text, keycode_to_string, KeyCode, KeyModifiers};
use crate::text::string_views;

verus! {

/// The keys bound to each command, each list in the order of preference.
#[derive(Debug)]
pub struct Keymaps {
    pub scroll_down: Vec<String>,
    pub scroll_up: Vec<String>,
    pub previous_slide: Vec<String>,
    pub next_slide: Vec<String>,
    pub page_down: Vec<String>,
    pub page_up: Vec<String>,
    pub half_page_down: Vec<String>,
    pub half_page_up: Vec<String>,
    pub jump_to_top: Vec<String>,
    pub jump_to_bottom: Vec<String>,
}

/// The configuration of the viewer.
#[derive(Debug)]
pub struct Config {
    pub keymaps: Keymaps,
}

impl Keymaps {
    /// The keys bound to `command`, as texts.
    pub open spec fn bindings(&self, command: Command) -> Seq<Seq<char>> {
        match command {
            Command::ScrollDown => string_views(self.scroll_down@),
            Command::ScrollUp => string_views(self.scroll_up@),
            Command::PreviousSlide => string_views(self.previous_slide@),
            Command::NextSlide => string_views(self.next_slide@),
            Command::PageDown => string_views(self.page_down@),
            Command::PageUp => string_views(self.page_up@),
            Command::HalfPageDown => string_views(self.half_page_down@),
            Command::HalfPageUp => string_views(self.half_page_up@),
            Command::JumpToTop => string_views(self.jump_to_top@),
            Command::JumpToBottom => string_views(self.jump_to_bottom@),
        }
    }

    /// The command that `key` is bound to. Where several commands have the
    /// key, the first in this order has it: scroll down, scroll up,
    /// previous slide, next slide, page down, page up, half page down,
    /// half page up, jump to top, jump to bottom.
    pub open spec fn command_for(&self, key: Seq<char>) -> Option<Command> {
        if self.bindings(Command::ScrollDown).contains(key) {
            Some(Command::ScrollDown)
        } else if self.bindings(Command::ScrollUp).contains(key) {
            Some(Command::ScrollUp)
        } else if self.bindings(Command::PreviousSlide).contains(key) {
            Some(Command::PreviousSlide)
        } else if self.bindings(Command::NextSlide).contains(key) {
            Some(Command::NextSlide)
        } else if self.bindings(Command::PageDown).contains(key) {
            Some(Command::PageDown)
        } else if self.bindings(Command::PageUp).contains(key) {
            Some(Command::PageUp)
        } else if self.bindings(Command::HalfPageDown).contains(key) {
            Some(Command::HalfPageDown)
        } else if self.bindings(Command::HalfPageUp).contains(key) {
            Some(Command::HalfPageUp)
        } else if self.bindings(Command::JumpToTop).contains(key) {
            Some(Command::JumpToTop)
        } else if self.bindings(Command::JumpToBottom).contains(key) {
            Some(Command::JumpToBottom)
        } else {
            None
        }
    }

    /// The list of keys bound to `command`.
    pub fn keys_of(&self, command: Command) -> (r: &Vec<String>)
        ensures
            string_views(r@) == self.bindings(command),
    {
        match command {
            Command::ScrollDown => &self.scroll_down,
            Command::ScrollUp => &self.scroll_up,
            Command::PreviousSlide => &self.previous_slide,
            Command::NextSlide => &self.next_slide,
            Command::PageDown => &self.page_down,
            Command::PageUp => &self.page_up,
            Command::HalfPageDown => &self.half_page_down,
            Command::HalfPageUp => &self.half_page_up,
            Command::JumpToTop => &self.jump_to_top,
            Command::JumpToBottom => &self.jump_to_bottom,
        }
    }
}

impl Default for Keymaps {
    /// The key maps that bind no key.
    fn default() -> (r: Keymaps)
        ensures
            forall|command: Command| #[trigger] r.bindings(command) == Seq::<Seq<char>>::empty(),
    {
        let r = Keymaps {
            scroll_down: Vec::new(),
            scroll_up: Vec::new(),
            previous_slide: Vec::new(),
            next_slide: Vec::new(),
            page_down: Vec::new(),
            page_up: Vec::new(),
            half_page_down: Vec::new(),
            half_page_up: Vec::new(),
            jump_to_top: Vec::new(),
            jump_to_bottom: Vec::new(),
        };
        assert forall|command: Command| #[trigger]
            r.bindings(command) == Seq::<Seq<char>>::empty() by {
            assert(r.bindings(command) =~= Seq::<Seq<char>>::empty());
        }
        r
    }
}

/// Tells whether `key` is among `bindings`.
fn is_bound(bindings: &Vec<String>, key: &String) -> (r: bool)
    ensures
        r == string_views(bindings@).contains(key@),
{
    let mut i: usize = 0;
    while i < bindings.len()
        invariant
            i <= bindings.len(),
            forall|k: int| 0 <= k < i ==> string_views(bindings@)[k] != key@,
        decreases bindings.len() - i,
    {
        if bindings[i] == *key {
            assert(string_views(bindings@)[i as int] == key@);
            return true;
        }
        i += 1;
    }
    false
}

/// A list of one key.
fn one_key(key: &str) -> (r: Vec<String>)
    ensures
        string_views(r@) == seq![key@],
{
    let mut r: Vec<String> = Vec::new();
    r.push(String::from_str(key));
    assert(string_views(r@) =~= seq![key@]);
    r
}

/// A list of two keys.
fn two_keys(first: &str, second: &str) -> (r: Vec<String>)
    ensures
        string_views(r@) == seq![first@, second@],
{
    let mut r: Vec<String> = Vec::new();
    r.push(String::from_str(first));
    r.push(String::from_str(second));
    assert(string_views(r@) =~= seq![first@, second@]);
    r
}

/// The entry of the help text for a pair of commands: the first key of
/// each, a slash between them, and `label`. There is none where either
/// command has no key.
pub open spec fn help_entry(first: Seq<Seq<char>>, second: Seq<Seq<char>>, label: Seq<char>) -> Seq<
    Seq<char>,
> {
    if first.len() > 0 && second.len() > 0 {
        seq![first[0] + "/"@ + second[0] + label]
    } else {
        Seq::empty()
    }
}

/// `parts` in one text, with `separator` between every two of them.
pub open spec fn joined(parts: Seq<Seq<char>>, separator: Seq<char>) -> Seq<char>
    decreases parts.len(),
{
    if parts.len() == 0 {
        Seq::empty()
    } else if parts.len() == 1 {
        parts[0]
    } else {
        joined(parts.drop_last(), separator) + separator + parts.last()
    }
}

/// Joins `parts` with `separator` between every two of them.
pub fn join(parts: &Vec<String>, separator: &str) -> (r: String)
    ensures
        r@ == joined(string_views(parts@), separator@),
{
    let ghost texts = string_views(parts@);
    let mut r = String::new();
    let mut i: usize = 0;
    while i < parts.len()
        invariant
            i <= parts.len(),
            texts == string_views(parts@),
            r@ == joined(texts.take(i as int), separator@),
        decreases parts.len() - i,
    {
        let ghost upto = texts.take(i + 1);
        proof {
            assert(upto.drop_last() =~= texts.take(i as int));
            assert(upto.last() == parts@[i as int]@);
        }
        if i > 0 {
            r.append(separator);
        }
        r.append(parts[i].as_str());
        proof {
            if i == 0 {
                assert(r@ =~= upto[0]);
            }
        }
        i += 1;
    }
    assert(texts.take(i as int) =~= texts);
    r
}

impl Config {
    /// The entries of the help text, in order: slides, scroll, half page,
    /// full page, top and bottom, each only where both of its commands
    /// have a key, and last the entry for quitting.
    pub open spec fn help_parts(&self) -> Seq<Seq<char>> {
        let keys = self.keymaps;
        help_entry(
            keys.bindings(Command::PreviousSlide),
            keys.bindings(Command::NextSlide),
            ": slides"@,
        ) + help_entry(
            keys.bindings(Command::ScrollDown),
            keys.bindings(Command::ScrollUp),
            ": scroll"@,
        ) + help_entry(
            keys.bindings(Command::HalfPageDown),
            keys.bindings(Command::HalfPageUp),
            ": half page"@,
        ) + help_entry(
            keys.bindings(Command::PageDown),
            keys.bindings(Command::PageUp),
            ": full page"@,
        ) + help_entry(
            keys.bindings(Command::JumpToTop),
            keys.bindings(Command::JumpToBottom),
            ": top/bottom"@,
        ) + seq!["q: quit"@]
    }

    /// The help text: the entries with two spaces between them.
    pub open spec fn help_text(&self) -> Seq<char> {
        joined(self.help_parts(), "  "@)
    }

    /// The command that a key press is bound to, if any.
    pub fn get_command(&self, key_code: KeyCode, modifiers: KeyModifiers) -> (r: Option<Command>)
        ensures
            r == self.keymaps.command_for(key_text(key_code, modifiers)),
    {
        let key = keycode_to_string(key_code, modifiers);
        if is_bound(&self.keymaps.scroll_down, &key) {
            Some(Command::ScrollDown)
        } else if is_bound(&self.keymaps.scroll_up, &key) {
            Some(Command::ScrollUp)
        } else if is_bound(&self.keymaps.previous_slide, &key) {
            Some(Command::PreviousSlide)
        } else if is_bound(&self.keymaps.next_slide, &key) {
            Some(Command::NextSlide)
        } else if is_bound(&self.keymaps.page_down, &key) {
            Some(Command::PageDown)
        } else if is_bound(&self.keymaps.page_up, &key) {
            Some(Command::PageUp)
        } else if is_bound(&self.keymaps.half_page_down, &key) {
            Some(Command::HalfPageDown)
        } else if is_bound(&self.keymaps.half_page_up, &key) {
            Some(Command::HalfPageUp)
        } else if is_bound(&self.keymaps.jump_to_top, &key) {
            Some(Command::JumpToTop)
        } else if is_bound(&self.keymaps.jump_to_bottom, &key) {
            Some(Command::JumpToBottom)
        } else {
            None
        }
    }

    /// The first key bound to `command`, if it has any.
    pub fn get_keys_for_command(&self, command: Command) -> (r: Option<&str>)
        ensures
            match r {
                Some(key) => self.keymaps.bindings(command).len() > 0 && key@
                    == self.keymaps.bindings(command)[0],
                None => self.keymaps.bindings(command).len() == 0,
            },
    {
        let keys = self.keymaps.keys_of(command);
        if keys.len() > 0 {
            assert(string_views(keys@)[0] == keys@[0]@);
            Some(keys[0].as_str())
        } else {
            assert(string_views(keys@).len() == keys@.len());
            None
        }
    }

    /// Appends to `parts` the help entry for the pair of commands.
    fn push_help_entry(&self, parts: &mut Vec<String>, first: Command, second: Command, label: &str)
        ensures
            string_views(final(parts)@) == string_views(old(parts)@) + help_entry(
                self.keymaps.bindings(first),
                self.keymaps.bindings(second),
                label@,
            ),
    {
        let ghost before = string_views(parts@);
        match (self.get_keys_for_command(first), self.get_keys_for_command(second)) {
            (Some(a), Some(b)) => {
                let mut entry = String::from_str(a);
                entry.append("/");
                entry.append(b);
                entry.append(label);
                parts.push(entry);
                assert(string_views(parts@) =~= before + help_entry(
                    self.keymaps.bindings(first),
                    self.keymaps.bindings(second),
                    label@,
                ));
            },
            _ => {
                assert(string_views(parts@) =~= before + help_entry(
                    self.keymaps.bindings(first),
                    self.keymaps.bindings(second),
                    label@,
                ));
            },
        }
    }

    /// The one-line help text for the key maps.
    pub fn format_help_text(&self) -> (r: String)
        ensures
            r@ == self.help_text(),
    {
        let mut parts: Vec<String> = Vec::new();
        assert(string_views(parts@) =~= Seq::<Seq<char>>::empty());
        self.push_help_entry(&mut parts, Command::PreviousSlide, Command::NextSlide, ": slides");
        self.push_help_entry(&mut parts, Command::ScrollDown, Command::ScrollUp, ": scroll");
        self.push_help_entry(
            &mut parts,
            Command::HalfPageDown,
            Command::HalfPageUp,
            ": half page",
        );
        self.push_help_entry(&mut parts, Command::PageDown, Command::PageUp, ": full page");
        self.push_help_entry(&mut parts, Command::JumpToTop, Command::JumpToBottom, ": top/bottom");
        let ghost entries = string_views(parts@);
        parts.push(String::from_str("q: quit"));
        assert(string_views(parts@) =~= entries + seq!["q: quit"@]);
        assert(string_views(parts@) =~= self.help_parts());
        join(&parts, "  ")
    }
}

impl Default for Config {
    /// The key maps of a viewer that is not configured.
    fn default() -> (r: Config)
        ensures
            r.keymaps.bindings(Command::ScrollDown) == seq!["j"@, "Down"@],
            r.keymaps.bindings(Command::ScrollUp) == seq!["k"@, "Up"@],
            r.keymaps.bindings(Command::PreviousSlide) == seq!["h"@],
            r.keymaps.bindings(Command::NextSlide) == seq!["l"@],
            r.keymaps.bindings(Command::PageDown) == seq!["C-f"@],
            r.keymaps.bindings(Command::PageUp) == seq!["C-b"@],
            r.keymaps.bindings(Command::HalfPageDown) == seq!["C-d"@],
            r.keymaps.bindings(Command::HalfPageUp) == seq!["C-u"@],
            r.keymaps.bindings(Command::JumpToTop) == seq!["g"@],
            r.keymaps.bindings(Command::JumpToBottom) == seq!["G"@],
    {
        Config {
            keymaps: Keymaps {
                scroll_down: two_keys("j", "Down"),
                scroll_up: two_keys("k", "Up"),
                previous_slide: one_key("h"),
                next_slide: one_key("l"),
                page_down: one_key("C-f"),
                page_up: one_key("C-b"),
                half_page_down: one_key("C-d"),
                half_page_up: one_key("C-u"),
                jump_to_top: one_key("g"),
                jump_to_bottom: one_key("G"),
            },
        }
    }
}

} // verus!
