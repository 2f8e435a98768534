//! How a cell of a translucent layer combines with the cell beneath it:
//! which colours are blended with which, decided on exact colours. The
//! blending by opacity itself is arithmetic on fractions, done by the caller.

use vstd::prelude::*;
use crate::frame::{Cell, is_whitespace, spec_is_whitespace};
use crate::style::{Background, spec_rgb};

verus! {

/// Whether a glyph covers its whole cell with its foreground colour, so the
/// foreground is what shows through a layer above it.
pub open spec fn spec_glyph_fills_cell(c: char) -> bool {
    c == '\u{2588}' || c == '\u{1fb41}' || c == '\u{1fb4c}' || c == '\u{1fb52}' || c
        == '\u{1fb5d}'
}

/// Whether a glyph covers its whole cell with its foreground colour.
pub fn foreground_glyph_fills_cell(c: char) -> (r: bool)
    ensures
        r == spec_glyph_fills_cell(c),
{
    c == '\u{2588}' || c == '\u{1fb41}' || c == '\u{1fb4c}' || c == '\u{1fb52}' || c
        == '\u{1fb5d}'
}

/// The colour a cell shows behind its glyph: its foreground when reversed.
pub open spec fn spec_visual_background(cell: Cell) -> Background {
    if cell.reversed {
        cell.foreground
    } else {
        cell.background
    }
}

/// The colour a cell shows behind its glyph.
pub fn visual_background(cell: Cell) -> (r: Background)
    ensures
        r == spec_visual_background(cell),
{
    if cell.reversed {
        cell.foreground
    } else {
        cell.background
    }
}

/// The exact colour of `color`: its own RGB value, else that of the
/// terminal's default, else `fallback`.
pub open spec fn spec_resolve_rgb(
    color: Background,
    terminal_default: Background,
    fallback: (u8, u8, u8),
) -> (u8, u8, u8) {
    match spec_rgb(color) {
        Some(rgb) => rgb,
        None => match spec_rgb(terminal_default) {
            Some(rgb) => rgb,
            None => fallback,
        },
    }
}

/// The exact colour of `color`.
pub fn resolve_rgb(color: Background, terminal_default: Background, fallback: (u8, u8, u8)) -> (r:
    (u8, u8, u8))
    ensures
        r == spec_resolve_rgb(color, terminal_default, fallback),
{
    match color.rgb() {
        Some(rgb) => rgb,
        None => match terminal_default.rgb() {
            Some(rgb) => rgb,
            None => fallback,
        },
    }
}

/// The exact (foreground, background) colours a cell shows: white and black
/// stand in for unknown defaults, and reverse video swaps the two.
pub open spec fn spec_visual_colors(
    cell: Cell,
    default_foreground: Background,
    default_background: Background,
) -> ((u8, u8, u8), (u8, u8, u8)) {
    let foreground = spec_resolve_rgb(cell.foreground, default_foreground, (255, 255, 255));
    let background = spec_resolve_rgb(cell.background, default_background, (0, 0, 0));
    if cell.reversed {
        (background, foreground)
    } else {
        (foreground, background)
    }
}

/// The exact (foreground, background) colours a cell shows.
pub fn visual_colors(cell: Cell, default_foreground: Background, default_background: Background) -> (r:
    ((u8, u8, u8), (u8, u8, u8)))
    ensures
        r == spec_visual_colors(cell, default_foreground, default_background),
{
    let foreground = resolve_rgb(cell.foreground, default_foreground, (255, 255, 255));
    let background = resolve_rgb(cell.background, default_background, (0, 0, 0));
    if cell.reversed {
        (background, foreground)
    } else {
        (foreground, background)
    }
}

/// The background of a layer glyph drawn over a cell.
#[derive(Clone, Copy, Debug)]
pub enum InkBackground {
    /// The layer's background blended over this surface colour.
    Blend { source: (u8, u8, u8), backdrop: (u8, u8, u8) },
    /// This exact colour: the backdrop glyph's foreground that fills its cell.
    Solid((u8, u8, u8)),
    /// The backdrop's own background colour, as it is.
    Keep(Background),
}

/// How a layer's cell combines with the cell beneath.
#[derive(Clone, Copy, Debug)]
pub enum CompositePlan {
    /// The cell beneath stays as it is.
    Backdrop,
    /// The layer's glyph is drawn: its foreground blended over the surface
    /// beneath, with the background as given; not reversed.
    Ink { foreground: (u8, u8, u8), surface: (u8, u8, u8), background: InkBackground },
    /// Only the layer's background shows: it tints both colours of the cell
    /// beneath, which keeps its glyph; not reversed.
    Wash { tint: (u8, u8, u8), backdrop_foreground: (u8, u8, u8), backdrop_background: (u8, u8, u8) },
}

/// How a layer's cell (painted in its foreground and/or background)
/// combines with the cell beneath, at a non-zero opacity.
pub open spec fn spec_composite_plan(
    backdrop: Cell,
    source: Cell,
    source_foreground_painted: bool,
    source_background_painted: bool,
    default_foreground: Background,
    default_background: Background,
) -> CompositePlan {
    let (backdrop_fg, backdrop_bg) = spec_visual_colors(
        backdrop,
        default_foreground,
        default_background,
    );
    let (source_fg, source_bg) = spec_visual_colors(source, default_foreground, default_background);
    let has_ink = !spec_is_whitespace(source.character) || source.wide_continuation;
    if has_ink && source_foreground_painted {
        let fills = spec_glyph_fills_cell(backdrop.character);
        let surface = if fills {
            backdrop_fg
        } else {
            backdrop_bg
        };
        CompositePlan::Ink {
            foreground: source_fg,
            surface,
            background: if source_background_painted {
                InkBackground::Blend { source: source_bg, backdrop: surface }
            } else if fills {
                InkBackground::Solid(surface)
            } else {
                InkBackground::Keep(spec_visual_background(backdrop))
            },
        }
    } else if source_background_painted {
        CompositePlan::Wash {
            tint: source_bg,
            backdrop_foreground: backdrop_fg,
            backdrop_background: backdrop_bg,
        }
    } else {
        CompositePlan::Backdrop
    }
}

/// How a layer's cell combines with the cell beneath, at a non-zero opacity.
pub fn composite_plan(
    backdrop: Cell,
    source: Cell,
    source_foreground_painted: bool,
    source_background_painted: bool,
    default_foreground: Background,
    default_background: Background,
) -> (r: CompositePlan)
    ensures
        r == spec_composite_plan(
            backdrop,
            source,
            source_foreground_painted,
            source_background_painted,
            default_foreground,
            default_background,
        ),
{
    let (backdrop_fg, backdrop_bg) = visual_colors(backdrop, default_foreground, default_background);
    let (source_fg, source_bg) = visual_colors(source, default_foreground, default_background);
    let has_ink = !is_whitespace(source.character) || source.wide_continuation;
    if has_ink && source_foreground_painted {
        let fills = foreground_glyph_fills_cell(backdrop.character);
        let surface = if fills {
            backdrop_fg
        } else {
            backdrop_bg
        };
        let background = if source_background_painted {
            InkBackground::Blend { source: source_bg, backdrop: surface }
        } else if fills {
            InkBackground::Solid(surface)
        } else {
            InkBackground::Keep(visual_background(backdrop))
        };
        CompositePlan::Ink { foreground: source_fg, surface, background }
    } else if source_background_painted {
        CompositePlan::Wash {
            tint: source_bg,
            backdrop_foreground: backdrop_fg,
            backdrop_background: backdrop_bg,
        }
    } else {
        CompositePlan::Backdrop
    }
}

} // verus!
