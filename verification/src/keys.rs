use vstd::prelude::*;
use vstd::string::StringExecFns;
use crate::text::push_char;

verus! {

/// A key of the keyboard. The keys that can be bound by name have a
/// variant each; every other key is `Other`.
#[derive(Clone, Copy, Debug, PartialEq, Eq, Structural)]
pub enum KeyCode {
    Char(char),
    Up,
    Down,
    Left,
    Right,
    Enter,
    Esc,
    Tab,
    Backspace,
    Other,
}

/// The modifier keys held down together with a key.
#[derive(Clone, Copy, Debug, PartialEq, Eq, Structural)]
pub struct KeyModifiers {
    pub shift: bool,
    pub control: bool,
    pub alt: bool,
    pub super_key: bool,
    pub hyper: bool,
    pub meta: bool,
}

impl KeyModifiers {
    /// No modifier.
    pub open spec fn spec_none() -> KeyModifiers {
        KeyModifiers {
            shift: false,
            control: false,
            alt: false,
            super_key: false,
            hyper: false,
            meta: false,
        }
    }

    /// Shift alone.
    pub open spec fn spec_shift() -> KeyModifiers {
        KeyModifiers { shift: true, ..Self::spec_none() }
    }

    /// Control alone.
    pub open spec fn spec_control() -> KeyModifiers {
        KeyModifiers { control: true, ..Self::spec_none() }
    }

    /// Alt alone.
    pub open spec fn spec_alt() -> KeyModifiers {
        KeyModifiers { alt: true, ..Self::spec_none() }
    }

    /// No modifier.
    #[verifier::when_used_as_spec(spec_none)]
    pub fn none() -> (r: KeyModifiers)
        ensures
            r == Self::spec_none(),
    {
        KeyModifiers {
            shift: false,
            control: false,
            alt: false,
            super_key: false,
            hyper: false,
            meta: false,
        }
    }

    /// Shift alone.
    #[verifier::when_used_as_spec(spec_shift)]
    pub fn shift() -> (r: KeyModifiers)
        ensures
            r == Self::spec_shift(),
    {
        KeyModifiers {
            shift: true,
            control: false,
            alt: false,
            super_key: false,
            hyper: false,
            meta: false,
        }
    }

    /// Control alone.
    #[verifier::when_used_as_spec(spec_control)]
    pub fn control() -> (r: KeyModifiers)
        ensures
            r == Self::spec_control(),
    {
        KeyModifiers {
            shift: false,
            control: true,
            alt: false,
            super_key: false,
            hyper: false,
            meta: false,
        }
    }

    /// Alt alone.
    #[verifier::when_used_as_spec(spec_alt)]
    pub fn alt() -> (r: KeyModifiers)
        ensures
            r == Self::spec_alt(),
    {
        KeyModifiers {
            shift: false,
            control: false,
            alt: true,
            super_key: false,
            hyper: false,
            meta: false,
        }
    }
}

/// The name under which a key is bound, where it has one: a character
/// key is named by its character.
pub open spec fn key_name(key_code: KeyCode) -> Option<Seq<char>> {
    match key_code {
        KeyCode::Char(c) => Some(seq![c]),
        KeyCode::Up => Some("Up"@),
        KeyCode::Down => Some("Down"@),
        KeyCode::Left => Some("Left"@),
        KeyCode::Right => Some("Right"@),
        KeyCode::Enter => Some("Enter"@),
        KeyCode::Esc => Some("Esc"@),
        KeyCode::Tab => Some("Tab"@),
        KeyCode::Backspace => Some("Backspace"@),
        KeyCode::Other => None,
    }
}

/// The text that stands for a key press in a key map: the key's name,
/// after `C-` where control is held, else after `A-` where alt is held.
/// A key without a name gives the empty text, whatever is held.
pub open spec fn key_text(key_code: KeyCode, modifiers: KeyModifiers) -> Seq<char> {
    match key_name(key_code) {
        None => Seq::empty(),
        Some(name) => if modifiers.control {
            "C-"@ + name
        } else if modifiers.alt {
            "A-"@ + name
        } else {
            name
        },
    }
}

/// The text that stands for a key press in a key map.
pub fn keycode_to_string(key_code: KeyCode, modifiers: KeyModifiers) -> (r: String)
    ensures
        r@ == key_text(key_code, modifiers),
{
    let name: String = match key_code {
        KeyCode::Char(c) => {
            let mut s = String::new();
            push_char(&mut s, c);
            assert(s@ =~= seq![c]);
            s
        },
        KeyCode::Up => String::from_str("Up"),
        KeyCode::Down => String::from_str("Down"),
        KeyCode::Left => String::from_str("Left"),
        KeyCode::Right => String::from_str("Right"),
        KeyCode::Enter => String::from_str("Enter"),
        KeyCode::Esc => String::from_str("Esc"),
        KeyCode::Tab => String::from_str("Tab"),
        KeyCode::Backspace => String::from_str("Backspace"),
        KeyCode::Other => {
            return String::new();
        },
    };
    if modifiers.control {
        let mut r = String::from_str("C-");
        r.append(name.as_str());
        r
    } else if modifiers.alt {
        let mut r = String::from_str("A-");
        r.append(name.as_str());
        r
    } else {
        name
    }
}

} // verus!
