//! Box-drawing glyphs for borders and the geometry of rounded corners.

use vstd::prelude::*;
use crate::clip::ClipRect;
use crate::style::{BorderStyle, DivStyle};

verus! {

/// The six glyphs one border style draws with.
#[derive(Clone, Copy, Debug, PartialEq, Eq, Structural)]
pub struct BorderGlyphs {
    pub horizontal: char,
    pub vertical: char,
    pub top_left: char,
    pub top_right: char,
    pub bottom_left: char,
    pub bottom_right: char,
}

pub open spec fn glyphs(
    horizontal: char,
    vertical: char,
    top_left: char,
    top_right: char,
    bottom_left: char,
    bottom_right: char,
) -> BorderGlyphs {
    BorderGlyphs { horizontal, vertical, top_left, top_right, bottom_left, bottom_right }
}

/// The glyph set of each border style; `NoBorder` shares the solid set.
pub open spec fn spec_border_glyphs(style: BorderStyle) -> BorderGlyphs {
    match style {
        BorderStyle::NoBorder | BorderStyle::Solid => glyphs('─', '│', '┌', '┐', '└', '┘'),
        BorderStyle::Double => glyphs('═', '║', '╔', '╗', '╚', '╝'),
        BorderStyle::Heavy => glyphs('━', '┃', '┏', '┓', '┗', '┛'),
        BorderStyle::Rounded => glyphs('─', '│', '╭', '╮', '╰', '╯'),
        BorderStyle::ChunkyRounded => glyphs('█', '█', '🭁', '🭌', '🭒', '🭝'),
        BorderStyle::Ascii => glyphs('-', '|', '+', '+', '+', '+'),
    }
}

/// The glyph set of a border style.
pub fn border_glyphs(style: BorderStyle) -> (r: BorderGlyphs)
    ensures
        r == spec_border_glyphs(style),
{
    match style {
        BorderStyle::NoBorder | BorderStyle::Solid => BorderGlyphs {
            horizontal: '─',
            vertical: '│',
            top_left: '┌',
            top_right: '┐',
            bottom_left: '└',
            bottom_right: '┘',
        },
        BorderStyle::Double => BorderGlyphs {
            horizontal: '═',
            vertical: '║',
            top_left: '╔',
            top_right: '╗',
            bottom_left: '╚',
            bottom_right: '╝',
        },
        BorderStyle::Heavy => BorderGlyphs {
            horizontal: '━',
            vertical: '┃',
            top_left: '┏',
            top_right: '┓',
            bottom_left: '┗',
            bottom_right: '┛',
        },
        BorderStyle::Rounded => BorderGlyphs {
            horizontal: '─',
            vertical: '│',
            top_left: '╭',
            top_right: '╮',
            bottom_left: '╰',
            bottom_right: '╯',
        },
        BorderStyle::ChunkyRounded => BorderGlyphs {
            horizontal: '█',
            vertical: '█',
            top_left: '🭁',
            top_right: '🭌',
            bottom_left: '🭒',
            bottom_right: '🭝',
        },
        BorderStyle::Ascii => BorderGlyphs {
            horizontal: '-',
            vertical: '|',
            top_left: '+',
            top_right: '+',
            bottom_left: '+',
            bottom_right: '+',
        },
    }
}

/// Whether any of the four borders is drawn.
pub open spec fn spec_has_border(style: DivStyle) -> bool {
    style.border_top != BorderStyle::NoBorder || style.border_right != BorderStyle::NoBorder
        || style.border_bottom != BorderStyle::NoBorder || style.border_left
        != BorderStyle::NoBorder
}

/// Whether any of the four borders is drawn.
pub fn has_border(style: &DivStyle) -> (r: bool)
    ensures
        r == spec_has_border(*style),
{
    style.border_top != BorderStyle::NoBorder || style.border_right != BorderStyle::NoBorder
        || style.border_bottom != BorderStyle::NoBorder || style.border_left
        != BorderStyle::NoBorder
}

/// Whether some corner joins a chunky-rounded horizontal border with a
/// chunky-rounded vertical one.
pub open spec fn spec_has_chunky_rounded_corner(style: DivStyle) -> bool {
    (style.border_top == BorderStyle::ChunkyRounded || style.border_bottom
        == BorderStyle::ChunkyRounded) && (style.border_left == BorderStyle::ChunkyRounded
        || style.border_right == BorderStyle::ChunkyRounded)
}

/// Whether some corner joins a chunky-rounded horizontal border with a
/// chunky-rounded vertical one.
pub fn has_chunky_rounded_corner(style: &DivStyle) -> (r: bool)
    ensures
        r == spec_has_chunky_rounded_corner(*style),
{
    (style.border_top == BorderStyle::ChunkyRounded || style.border_bottom
        == BorderStyle::ChunkyRounded) && (style.border_left == BorderStyle::ChunkyRounded
        || style.border_right == BorderStyle::ChunkyRounded)
}

/// Whether `(x, y)` is a corner cell of `rect` whose two adjoining borders
/// are both chunky-rounded; a one-cell-wide or one-cell-high box has no
/// distinct right or bottom corners.
pub open spec fn spec_is_chunky_rounded_corner(rect: ClipRect, style: DivStyle, x: int, y: int) -> bool {
    let left = rect.left as int;
    let right = rect.right - 1;
    let top = rect.top as int;
    let bottom = rect.bottom - 1;
    if left > right || top > bottom {
        false
    } else {
        ||| (x == left && y == top && style.border_top == BorderStyle::ChunkyRounded
            && style.border_left == BorderStyle::ChunkyRounded)
        ||| (right != left && x == right && y == top && style.border_top
            == BorderStyle::ChunkyRounded && style.border_right == BorderStyle::ChunkyRounded)
        ||| (bottom != top && x == left && y == bottom && style.border_bottom
            == BorderStyle::ChunkyRounded && style.border_left == BorderStyle::ChunkyRounded)
        ||| (right != left && bottom != top && x == right && y == bottom && style.border_bottom
            == BorderStyle::ChunkyRounded && style.border_right == BorderStyle::ChunkyRounded)
    }
}

/// Whether `(x, y)` is a chunky-rounded corner cell of `rect`.
pub fn is_chunky_rounded_corner(rect: ClipRect, style: &DivStyle, x: i32, y: i32) -> (r: bool)
    ensures
        r == spec_is_chunky_rounded_corner(rect, *style, x as int, y as int),
{
    let left: i64 = rect.left as i64;
    let right: i64 = rect.right as i64 - 1;
    let top: i64 = rect.top as i64;
    let bottom: i64 = rect.bottom as i64 - 1;
    if left > right || top > bottom {
        return false;
    }
    let x: i64 = x as i64;
    let y: i64 = y as i64;
    (x == left && y == top && style.border_top == BorderStyle::ChunkyRounded && style.border_left
        == BorderStyle::ChunkyRounded) || (right != left && x == right && y == top
        && style.border_top == BorderStyle::ChunkyRounded && style.border_right
        == BorderStyle::ChunkyRounded) || (bottom != top && x == left && y == bottom
        && style.border_bottom == BorderStyle::ChunkyRounded && style.border_left
        == BorderStyle::ChunkyRounded) || (right != left && bottom != top && x == right && y
        == bottom && style.border_bottom == BorderStyle::ChunkyRounded && style.border_right
        == BorderStyle::ChunkyRounded)
}

/// The glyph of a border cell: which edges of the box the cell lies on
/// (and that are drawn) decides between a corner, a horizontal and a
/// vertical glyph; the corner's style comes from the first drawn edge in
/// the order top, bottom, left, right.
pub open spec fn spec_border_char_at(
    style: DivStyle,
    at_left: bool,
    at_right: bool,
    at_top: bool,
    at_bottom: bool,
) -> char {
    let border_top = at_top && style.border_top != BorderStyle::NoBorder;
    let border_right = at_right && style.border_right != BorderStyle::NoBorder;
    let border_bottom = at_bottom && style.border_bottom != BorderStyle::NoBorder;
    let border_left = at_left && style.border_left != BorderStyle::NoBorder;
    let corner_style = if border_top {
        style.border_top
    } else if border_bottom {
        style.border_bottom
    } else if border_left {
        style.border_left
    } else if border_right {
        style.border_right
    } else {
        BorderStyle::NoBorder
    };
    let g = spec_border_glyphs(corner_style);
    if border_top && border_right {
        g.top_right
    } else if border_top && border_left {
        g.top_left
    } else if border_right && border_bottom {
        g.bottom_right
    } else if border_bottom && border_left {
        g.bottom_left
    } else if border_top || border_bottom {
        g.horizontal
    } else if border_right || border_left {
        g.vertical
    } else {
        ' '
    }
}

/// The glyph of a border cell on the given edges of a box.
pub fn border_char_at(
    style: &DivStyle,
    at_left: bool,
    at_right: bool,
    at_top: bool,
    at_bottom: bool,
) -> (r: char)
    ensures
        r == spec_border_char_at(*style, at_left, at_right, at_top, at_bottom),
{
    let border_top = at_top && style.border_top != BorderStyle::NoBorder;
    let border_right = at_right && style.border_right != BorderStyle::NoBorder;
    let border_bottom = at_bottom && style.border_bottom != BorderStyle::NoBorder;
    let border_left = at_left && style.border_left != BorderStyle::NoBorder;
    let corner_style = if border_top {
        style.border_top
    } else if border_bottom {
        style.border_bottom
    } else if border_left {
        style.border_left
    } else if border_right {
        style.border_right
    } else {
        BorderStyle::NoBorder
    };
    let glyphs = border_glyphs(corner_style);
    match (border_top, border_right, border_bottom, border_left) {
        (true, true, _, _) => glyphs.top_right,
        (true, _, _, true) => glyphs.top_left,
        (_, true, true, _) => glyphs.bottom_right,
        (_, _, true, true) => glyphs.bottom_left,
        (true, _, _, _) | (_, _, true, _) => glyphs.horizontal,
        (_, true, _, _) | (_, _, _, true) => glyphs.vertical,
        _ => ' ',
    }
}

/// The line weight of a box-drawing glyph.
#[derive(Clone, Copy, Debug, PartialEq, Eq, Structural)]
pub enum LineWeight {
    Light,
    Heavy,
    Double,
    Arc,
    Block,
    Plain,
}

/// The part of a box a glyph draws.
#[derive(Clone, Copy, Debug, PartialEq, Eq, Structural)]
pub enum BoxPart {
    Horizontal,
    Vertical,
    /// Opens right and down.
    TopLeft,
    /// Opens left and down.
    TopRight,
    /// Opens right and up.
    BottomLeft,
    /// Opens left and up.
    BottomRight,
    /// Any corner (`+`).
    AnyCorner,
}

/// What a glyph draws, by its Unicode name: its weight and the part of a
/// box it is.
pub open spec fn glyph_shape(c: char) -> Option<(LineWeight, BoxPart)> {
    if c == '─' { Some((LineWeight::Light, BoxPart::Horizontal)) }
    else if c == '│' { Some((LineWeight::Light, BoxPart::Vertical)) }
    else if c == '┌' { Some((LineWeight::Light, BoxPart::TopLeft)) }
    else if c == '┐' { Some((LineWeight::Light, BoxPart::TopRight)) }
    else if c == '└' { Some((LineWeight::Light, BoxPart::BottomLeft)) }
    else if c == '┘' { Some((LineWeight::Light, BoxPart::BottomRight)) }
    else if c == '═' { Some((LineWeight::Double, BoxPart::Horizontal)) }
    else if c == '║' { Some((LineWeight::Double, BoxPart::Vertical)) }
    else if c == '╔' { Some((LineWeight::Double, BoxPart::TopLeft)) }
    else if c == '╗' { Some((LineWeight::Double, BoxPart::TopRight)) }
    else if c == '╚' { Some((LineWeight::Double, BoxPart::BottomLeft)) }
    else if c == '╝' { Some((LineWeight::Double, BoxPart::BottomRight)) }
    else if c == '━' { Some((LineWeight::Heavy, BoxPart::Horizontal)) }
    else if c == '┃' { Some((LineWeight::Heavy, BoxPart::Vertical)) }
    else if c == '┏' { Some((LineWeight::Heavy, BoxPart::TopLeft)) }
    else if c == '┓' { Some((LineWeight::Heavy, BoxPart::TopRight)) }
    else if c == '┗' { Some((LineWeight::Heavy, BoxPart::BottomLeft)) }
    else if c == '┛' { Some((LineWeight::Heavy, BoxPart::BottomRight)) }
    else if c == '╭' { Some((LineWeight::Arc, BoxPart::TopLeft)) }
    else if c == '╮' { Some((LineWeight::Arc, BoxPart::TopRight)) }
    else if c == '╰' { Some((LineWeight::Arc, BoxPart::BottomLeft)) }
    else if c == '╯' { Some((LineWeight::Arc, BoxPart::BottomRight)) }
    else if c == '█' { Some((LineWeight::Block, BoxPart::Horizontal)) }
    else if c == '\u{1fb41}' { Some((LineWeight::Block, BoxPart::TopLeft)) }
    else if c == '\u{1fb4c}' { Some((LineWeight::Block, BoxPart::TopRight)) }
    else if c == '\u{1fb52}' { Some((LineWeight::Block, BoxPart::BottomLeft)) }
    else if c == '\u{1fb5d}' { Some((LineWeight::Block, BoxPart::BottomRight)) }
    else if c == '-' { Some((LineWeight::Plain, BoxPart::Horizontal)) }
    else if c == '|' { Some((LineWeight::Plain, BoxPart::Vertical)) }
    else if c == '+' { Some((LineWeight::Plain, BoxPart::AnyCorner)) }
    else { None }
}

/// The weight each border style draws its lines with.
pub open spec fn style_weight(style: BorderStyle) -> LineWeight {
    match style {
        BorderStyle::Double => LineWeight::Double,
        BorderStyle::Heavy => LineWeight::Heavy,
        BorderStyle::ChunkyRounded => LineWeight::Block,
        BorderStyle::Ascii => LineWeight::Plain,
        _ => LineWeight::Light,
    }
}

/// Each border style draws a box: every corner glyph of its set is the
/// corner of its place (top-left opens right and down, top-right left and
/// down, bottom-left right and up, bottom-right left and up; ASCII uses `+`
/// for all four), and its glyphs share the style's weight, rounded corners
/// being arcs and chunky borders full blocks.
pub proof fn lemma_border_glyphs_draw_a_box(style: BorderStyle)
    ensures
        ({
            let g = spec_border_glyphs(style);
            let w = style_weight(style);
            let cw = if style == BorderStyle::Rounded {
                LineWeight::Arc
            } else {
                w
            };
            let corner = |part: BoxPart| if style == BorderStyle::Ascii {
                BoxPart::AnyCorner
            } else {
                part
            };
            &&& glyph_shape(g.top_left) == Some((cw, corner(BoxPart::TopLeft)))
            &&& glyph_shape(g.top_right) == Some((cw, corner(BoxPart::TopRight)))
            &&& glyph_shape(g.bottom_left) == Some((cw, corner(BoxPart::BottomLeft)))
            &&& glyph_shape(g.bottom_right) == Some((cw, corner(BoxPart::BottomRight)))
            &&& glyph_shape(g.horizontal) == Some((w, BoxPart::Horizontal))
            &&& style != BorderStyle::ChunkyRounded ==> glyph_shape(g.vertical) == Some(
                (w, BoxPart::Vertical),
            )
            &&& style == BorderStyle::ChunkyRounded ==> g.vertical == g.horizontal
        }),
{
}

/// The corners of a drawn box differ from one another, except ASCII's `+`.
pub proof fn lemma_border_corners_differ(style: BorderStyle)
    requires
        style != BorderStyle::Ascii,
    ensures
        spec_border_glyphs(style).top_left != spec_border_glyphs(style).top_right,
        spec_border_glyphs(style).top_left != spec_border_glyphs(style).bottom_left,
        spec_border_glyphs(style).top_left != spec_border_glyphs(style).bottom_right,
        spec_border_glyphs(style).top_right != spec_border_glyphs(style).bottom_left,
        spec_border_glyphs(style).top_right != spec_border_glyphs(style).bottom_right,
        spec_border_glyphs(style).bottom_left != spec_border_glyphs(style).bottom_right,
{
    lemma_border_glyphs_draw_a_box(style);
}

} // verus!
