//! Style values that the painting and layout logic reads.

use vstd::prelude::*;

verus! {

/// A terminal colour: the terminal's own default, a named palette colour,
/// or a 24-bit RGB triple.
#[derive(Clone, Copy, Debug, PartialEq, Eq, Structural)]
pub enum Background {
    Default,
    Black,
    Red,
    Green,
    Yellow,
    Blue,
    Magenta,
    Cyan,
    White,
    Rgb(u8, u8, u8),
}

/// The RGB triple a colour names exactly, if it names one.
pub open spec fn spec_rgb(color: Background) -> Option<(u8, u8, u8)> {
    match color {
        Background::Rgb(r, g, b) => Some((r, g, b)),
        _ => None,
    }
}

impl Background {
    /// The exact RGB value of this colour; palette and default colours have
    /// none, since the terminal decides how they look.
    pub fn rgb(self) -> (r: Option<(u8, u8, u8)>)
        ensures
            r == spec_rgb(self),
    {
        match self {
            Background::Rgb(r, g, b) => Some((r, g, b)),
            _ => None,
        }
    }
}

/// The border styles that can be drawn with box-drawing glyphs.
#[derive(Clone, Copy, Debug, PartialEq, Eq, Structural)]
pub enum BorderStyle {
    NoBorder,
    Solid,
    Double,
    Heavy,
    Rounded,
    ChunkyRounded,
    Ascii,
}

/// The part of an element's style that painting of boxes reads: the style
/// of each of its four borders.
#[derive(Clone, Copy, Debug, PartialEq, Eq, Structural)]
pub struct DivStyle {
    pub border_top: BorderStyle,
    pub border_right: BorderStyle,
    pub border_bottom: BorderStyle,
    pub border_left: BorderStyle,
}

impl Default for DivStyle {
    fn default() -> (r: Self)
        ensures
            r.border_top == BorderStyle::NoBorder,
            r.border_right == BorderStyle::NoBorder,
            r.border_bottom == BorderStyle::NoBorder,
            r.border_left == BorderStyle::NoBorder,
    {
        DivStyle {
            border_top: BorderStyle::NoBorder,
            border_right: BorderStyle::NoBorder,
            border_bottom: BorderStyle::NoBorder,
            border_left: BorderStyle::NoBorder,
        }
    }
}

/// CSS `white-space`.
#[derive(Clone, Copy, Debug, PartialEq, Eq, Structural)]
pub enum CssWhiteSpace {
    Normal,
    Nowrap,
    Pre,
    PreWrap,
    PreLine,
}

/// CSS `word-break`.
#[derive(Clone, Copy, Debug, PartialEq, Eq, Structural)]
pub enum CssWordBreak {
    Inherit,
    Normal,
    BreakAll,
    KeepAll,
    BreakWord,
}

/// CSS `overflow` on one axis.
#[derive(Clone, Copy, Debug, PartialEq, Eq, Structural)]
pub enum LayoutOverflow {
    Visible,
    Hidden,
    Scroll,
}

/// The properties that can transition.
#[derive(Clone, Copy, Debug, PartialEq, Eq, Structural)]
pub enum TransitionProperty {
    Color,
    BackgroundColor,
    BorderColor,
    Opacity,
}

} // verus!
