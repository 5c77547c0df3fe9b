use vstd::prelude::*;

verus! {

/// Foreground colours the renderer assigns.
#[derive(Clone, Copy, Debug, PartialEq, Eq, Structural)]
pub enum Color {
    Blue,
    Cyan,
    Gray,
    Green,
    Yellow,
}

/// Inheritable text attributes. A style is a plain value: extending it
/// yields a new style and leaves the one it was made from untouched.
#[derive(Clone, Copy, Debug, PartialEq, Eq, Structural)]
pub struct Style {
    pub fg: Option<Color>,
    pub bold: bool,
    pub italic: bool,
    pub underline: bool,
}

impl Style {
    /// The style with no colour and no attribute set.
    pub open spec fn plain() -> Style {
        Style { fg: None, bold: false, italic: false, underline: false }
    }

    /// This style in the colour `color`.
    pub open spec fn with_fg(self, color: Color) -> Style {
        Style { fg: Some(color), ..self }
    }

    /// This style, and bold.
    pub open spec fn with_bold(self) -> Style {
        Style { bold: true, ..self }
    }

    /// This style, and italic.
    pub open spec fn with_italic(self) -> Style {
        Style { italic: true, ..self }
    }

    /// This style, and underlined.
    pub open spec fn with_underline(self) -> Style {
        Style { underline: true, ..self }
    }

    /// Sets the foreground colour.
    pub fn fg(self, color: Color) -> (r: Style)
        ensures
            r == self.with_fg(color),
    {
        Style { fg: Some(color), bold: self.bold, italic: self.italic, underline: self.underline }
    }

    /// Adds bold.
    pub fn bold(self) -> (r: Style)
        ensures
            r == self.with_bold(),
    {
        Style { fg: self.fg, bold: true, italic: self.italic, underline: self.underline }
    }

    /// Adds italic.
    pub fn italic(self) -> (r: Style)
        ensures
            r == self.with_italic(),
    {
        Style { fg: self.fg, bold: self.bold, italic: true, underline: self.underline }
    }

    /// Adds underline.
    pub fn underlined(self) -> (r: Style)
        ensures
            r == self.with_underline(),
    {
        Style { fg: self.fg, bold: self.bold, italic: self.italic, underline: true }
    }
}

impl Default for Style {
    /// The style with no colour and no attribute set.
    fn default() -> (r: Style)
        ensures
            r == Style::plain(),
    {
        Style { fg: None, bold: false, italic: false, underline: false }
    }
}

} // verus!
