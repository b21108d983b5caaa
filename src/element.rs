use vstd::prelude::*;

verus! {

/// A terminal colour, as the renderer hands it to the terminal layer.
#[derive(Clone, Copy, Debug, PartialEq, Eq, Structural)]
pub enum Color {
    Reset,
    Black,
    DarkGrey,
    Red,
    Green,
    Yellow,
    Blue,
    Magenta,
    Cyan,
    White,
    Grey,
}

/// Foreground colour of a blank cell.
pub const DEFAULT_FOREGROUND: Color = Color::White;

/// Background colour of a blank cell.
pub const DEFAULT_BACKGROUND: Color = Color::Black;

/// One renderable cell: a glyph with its two colours.
#[derive(Clone, Copy, Debug, PartialEq, Eq, Structural)]
pub struct Element {
    pub value: char,
    pub foreground: Color,
    pub background: Color,
}

/// The look of a blank cell.
pub open spec fn default_element() -> Element {
    Element { value: ' ', foreground: DEFAULT_FOREGROUND, background: DEFAULT_BACKGROUND }
}

impl Element {
    pub fn new(value: char, foreground: Color, background: Color) -> (r: Element)
        ensures
            r.value == value,
            r.foreground == foreground,
            r.background == background,
    {
        Element { value, foreground, background }
    }
}

impl Default for Element {
    fn default() -> (r: Element)
        ensures
            r == default_element(),
    {
        Element { value: ' ', foreground: DEFAULT_FOREGROUND, background: DEFAULT_BACKGROUND }
    }
}

} // verus!
