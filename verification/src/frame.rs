//! A frame of terminal cells that boxes, borders and glyphs are painted
//! into, with the selectable text units recorded in paint order.

use vstd::prelude::*;
use crate::border::{
    border_char_at, border_glyphs, has_border, has_chunky_rounded_corner, is_chunky_rounded_corner,
    spec_border_char_at, spec_border_glyphs, spec_has_border, spec_has_chunky_rounded_corner,
    spec_is_chunky_rounded_corner,
};
use crate::clip::{lemma_clip_rect_keeps_admitted_cells, ClipBounds, ClipRect};
use crate::style::{Background, BorderStyle, DivStyle};
use crate::text::string_from_chars;

verus! {

/// One terminal cell.
#[derive(Clone, Copy, Debug, PartialEq, Eq, Structural)]
pub struct Cell {
    pub background: Background,
    pub character: char,
    pub foreground: Background,
    pub selection_background: Option<Background>,
    pub selection_order: Option<usize>,
    pub reversed: bool,
    pub bold: bool,
    pub italic: bool,
    pub underline: bool,
    pub strikethrough: bool,
    pub wide_continuation: bool,
}

/// A blank cell in the terminal's default colours.
pub open spec fn blank_cell() -> Cell {
    Cell {
        background: Background::Default,
        character: ' ',
        foreground: Background::Default,
        selection_background: None,
        selection_order: None,
        reversed: false,
        bold: false,
        italic: false,
        underline: false,
        strikethrough: false,
        wide_continuation: false,
    }
}

impl Default for Cell {
    fn default() -> (r: Self)
        ensures
            r == blank_cell(),
    {
        Cell {
            background: Background::Default,
            character: ' ',
            foreground: Background::Default,
            selection_background: None,
            selection_order: None,
            reversed: false,
            bold: false,
            italic: false,
            underline: false,
            strikethrough: false,
            wide_continuation: false,
        }
    }
}

/// The style a glyph is written with.
#[derive(Clone, Copy, Debug, PartialEq, Eq, Structural)]
pub struct GlyphStyle {
    pub background: Background,
    pub foreground: Background,
    pub selection_background: Option<Background>,
    pub bold: bool,
    pub italic: bool,
    pub underline: bool,
    pub strikethrough: bool,
}

impl Default for GlyphStyle {
    fn default() -> (r: Self)
        ensures
            r.background == Background::Default,
            r.foreground == Background::Default,
            r.selection_background is None,
            !r.bold && !r.italic && !r.underline && !r.strikethrough,
    {
        GlyphStyle {
            background: Background::Default,
            foreground: Background::Default,
            selection_background: None,
            bold: false,
            italic: false,
            underline: false,
            strikethrough: false,
        }
    }
}

/// A position in the paint order of selectable glyphs.
#[derive(Clone, Copy, Debug, PartialEq, Eq, Structural)]
pub struct SelectionPoint {
    pub order: usize,
}

/// A text selection between two points of the paint order.
#[derive(Clone, Copy, Debug, PartialEq, Eq, Structural)]
pub struct Selection {
    pub anchor: SelectionPoint,
    pub focus: SelectionPoint,
}

/// A selectable glyph: its place in paint order, its row and its character.
#[derive(Clone, Copy, Debug, PartialEq, Eq, Structural)]
pub struct SelectionUnit {
    pub order: usize,
    pub row: i32,
    pub character: char,
}

/// A frame of `width * height` cells stored row by row, with the paint
/// flags of each cell and the selection units painted so far.
#[derive(Clone, Debug)]
pub struct Frame {
    width: usize,
    height: usize,
    cells: Vec<Cell>,
    painted: Vec<bool>,
    foreground_painted: Vec<bool>,
    background_painted: Vec<bool>,
    selection_units: Vec<SelectionUnit>,
    next_selection_order: usize,
    capture_hidden_selection_units: bool,
}

/// The abstract content of a frame.
pub struct FrameView {
    pub width: nat,
    pub height: nat,
    pub cells: Seq<Cell>,
    pub painted: Seq<bool>,
    pub foreground_painted: Seq<bool>,
    pub background_painted: Seq<bool>,
    pub selection_units: Seq<SelectionUnit>,
    pub next_selection_order: nat,
    pub capture_hidden_selection_units: bool,
}

impl View for Frame {
    type V = FrameView;

    closed spec fn view(&self) -> FrameView {
        FrameView {
            width: self.width as nat,
            height: self.height as nat,
            cells: self.cells@,
            painted: self.painted@,
            foreground_painted: self.foreground_painted@,
            background_painted: self.background_painted@,
            selection_units: self.selection_units@,
            next_selection_order: self.next_selection_order as nat,
            capture_hidden_selection_units: self.capture_hidden_selection_units,
        }
    }
}

/// The position of cell `(x, y)` in a row-major buffer `width` cells wide.
pub open spec fn index_of(width: int, x: int, y: int) -> int {
    y * width + x
}

/// Every cell of a `width * height` grid has its own position in the buffer.
pub proof fn lemma_index_in_bounds(width: int, height: int, x: int, y: int)
    requires
        0 <= x < width,
        0 <= y < height,
    ensures
        0 <= index_of(width, x, y) < width * height,
        index_of(width, x, y) + 1 <= width * height,
{
    assert(0 <= y * width) by (nonlinear_arith)
        requires
            0 <= y,
            0 <= width,
    ;
    assert(y * width + x < width * height) by (nonlinear_arith)
        requires
            0 <= x < width,
            0 <= y < height,
    ;
}

/// Distinct cells have distinct positions.
pub proof fn lemma_index_injective(width: int, x1: int, y1: int, x2: int, y2: int)
    requires
        0 <= x1 < width,
        0 <= x2 < width,
        index_of(width, x1, y1) == index_of(width, x2, y2),
    ensures
        x1 == x2,
        y1 == y2,
{
    assert(y1 == y2) by (nonlinear_arith)
        requires
            0 <= x1 < width,
            0 <= x2 < width,
            y1 * width + x1 == y2 * width + x2,
    ;
}

/// Every buffer position is the position of some cell.
pub proof fn lemma_index_covers(width: int, height: int, i: int)
    requires
        0 <= i < width * height,
        width > 0,
    ensures
        0 <= i % width < width,
        0 <= i / width < height,
        index_of(width, i % width, i / width) == i,
{
    assert(i == (i / width) * width + i % width && 0 <= i % width < width) by (nonlinear_arith)
        requires
            width > 0,
    ;
    assert(0 <= i / width < height) by (nonlinear_arith)
        requires
            0 <= i < width * height,
            width > 0,
    ;
}

impl FrameView {
    /// The frame's buffers agree with its size and its selection units are
    /// numbered by their place in paint order.
    pub open spec fn wf(self) -> bool {
        &&& self.width <= i32::MAX
        &&& self.height <= i32::MAX
        &&& self.cells.len() == self.width * self.height
        &&& self.painted.len() == self.cells.len()
        &&& self.foreground_painted.len() == self.cells.len()
        &&& self.background_painted.len() == self.cells.len()
        &&& self.selection_units.len() == self.next_selection_order
        &&& forall|i: int|
            0 <= i < self.selection_units.len() ==> (#[trigger] self.selection_units[i]).order == i
    }

    /// Whether `(x, y)` is a cell of the frame.
    pub open spec fn in_frame(self, x: int, y: int) -> bool {
        0 <= x < self.width && 0 <= y < self.height
    }

    /// The buffer position of cell `(x, y)`.
    pub open spec fn at(self, x: int, y: int) -> int {
        index_of(self.width as int, x, y)
    }

    /// The cell at `(x, y)`.
    pub open spec fn cell(self, x: int, y: int) -> Cell {
        self.cells[self.at(x, y)]
    }

    /// The part of `rect` that is visible both in the frame and within
    /// `clip`, or `None` when nothing is.
    pub open spec fn spec_visible_rect(self, rect: ClipRect, clip: ClipBounds) -> Option<ClipRect> {
        match clip.spec_clip_rect(rect) {
            None => None,
            Some(b) => {
                let visible = ClipRect {
                    left: if b.left >= 0 { b.left } else { 0 },
                    top: if b.top >= 0 { b.top } else { 0 },
                    right: if b.right <= self.width as i32 {
                        if b.right >= 0 { b.right } else { 0 }
                    } else {
                        self.width as i32
                    },
                    bottom: if b.bottom <= self.height as i32 {
                        if b.bottom >= 0 { b.bottom } else { 0 }
                    } else {
                        self.height as i32
                    },
                };
                if visible.left < visible.right && visible.top < visible.bottom {
                    Some(visible)
                } else {
                    None
                }
            },
        }
    }

    /// Whether a paint at `(x, y)` through `clip` lands on a cell.
    pub open spec fn paintable(self, x: int, y: int, clip: ClipBounds) -> bool {
        self.in_frame(x, y) && clip.admits(x, y)
    }

    /// `other` has the same size, selection units and capture mode.
    pub open spec fn same_frame_shape(self, other: FrameView) -> bool {
        &&& other.width == self.width
        &&& other.height == self.height
        &&& other.cells.len() == self.cells.len()
        &&& other.painted.len() == self.painted.len()
        &&& other.foreground_painted.len() == self.foreground_painted.len()
        &&& other.background_painted.len() == self.background_painted.len()
        &&& other.capture_hidden_selection_units == self.capture_hidden_selection_units
    }

    /// `other` has the same selection units as `self`.
    pub open spec fn same_units(self, other: FrameView) -> bool {
        &&& other.selection_units == self.selection_units
        &&& other.next_selection_order == self.next_selection_order
    }
}

impl FrameView {
    /// `new` is `self` with every frame cell that `covers` picks replaced by
    /// what `paint` makes of it and marked painted, and additionally marked
    /// foreground- or background-painted as `mark_fg` and `mark_bg` say;
    /// every other cell and flag is unchanged.
    pub open spec fn repainted(
        self,
        new: FrameView,
        covers: spec_fn(int, int) -> bool,
        paint: spec_fn(int, int, Cell) -> Cell,
        mark_fg: bool,
        mark_bg: bool,
    ) -> bool {
        &&& self.same_frame_shape(new)
        &&& forall|x: int, y: int|
            #![trigger new.cells[self.at(x, y)]]
            self.in_frame(x, y) ==> self.repainted_cell(new, covers(x, y), paint(x, y, self.cells[self.at(x, y)]), mark_fg, mark_bg, self.at(x, y))
    }

    /// Buffer position `i` of `new` is what a repaint leaves there.
    pub open spec fn repainted_cell(self, new: FrameView, covered: bool, painted_cell: Cell, mark_fg: bool, mark_bg: bool, i: int) -> bool {
        &&& new.cells[i] == (if covered { painted_cell } else { self.cells[i] })
        &&& new.painted[i] == (covered || self.painted[i])
        &&& new.foreground_painted[i] == ((covered && mark_fg) || self.foreground_painted[i])
        &&& new.background_painted[i] == ((covered && mark_bg) || self.background_painted[i])
    }

    /// `new` is `self` with the one cell at buffer position `i` set to
    /// `cell` and marked painted (and foreground- and background-painted as
    /// the flags say).
    pub open spec fn stored(self, new: FrameView, i: int, cell: Cell, mark_fg: bool, mark_bg: bool) -> bool {
        &&& new.width == self.width
        &&& new.height == self.height
        &&& new.capture_hidden_selection_units == self.capture_hidden_selection_units
        &&& new.cells == self.cells.update(i, cell)
        &&& new.painted == self.painted.update(i, true)
        &&& new.foreground_painted == self.foreground_painted.update(
            i,
            mark_fg || self.foreground_painted[i],
        )
        &&& new.background_painted == self.background_painted.update(
            i,
            mark_bg || self.background_painted[i],
        )
    }
}

/// Nothing repainted leaves the frame as it was.
pub proof fn lemma_repainted_nothing(
    frame: FrameView,
    paint: spec_fn(int, int, Cell) -> Cell,
    mark_fg: bool,
    mark_bg: bool,
)
    requires
        frame.wf(),
    ensures
        frame.repainted(frame, |x: int, y: int| false, paint, mark_fg, mark_bg),
{
}

/// `repainted` depends on `covers` only through the frame's cells.
pub proof fn lemma_repainted_same_covers(
    old: FrameView,
    new: FrameView,
    covers1: spec_fn(int, int) -> bool,
    covers2: spec_fn(int, int) -> bool,
    paint: spec_fn(int, int, Cell) -> Cell,
    mark_fg: bool,
    mark_bg: bool,
)
    requires
        old.repainted(new, covers1, paint, mark_fg, mark_bg),
        forall|x: int, y: int| old.in_frame(x, y) ==> covers1(x, y) == covers2(x, y),
    ensures
        old.repainted(new, covers2, paint, mark_fg, mark_bg),
{
    assert forall|x: int, y: int| #![trigger new.cells[old.at(x, y)]] old.in_frame(x, y) implies old.repainted_cell(new, covers2(x, y), paint(x, y, old.cells[old.at(x, y)]), mark_fg, mark_bg, old.at(x, y)) by {
        assert(covers1(x, y) == covers2(x, y));
    }
}

/// Storing the painted form of one more, not yet covered cell extends a
/// repaint by that cell.
pub proof fn lemma_repainted_step(
    old: FrameView,
    cur: FrameView,
    new: FrameView,
    covers: spec_fn(int, int) -> bool,
    covers_next: spec_fn(int, int) -> bool,
    paint: spec_fn(int, int, Cell) -> Cell,
    mark_fg: bool,
    mark_bg: bool,
    x0: int,
    y0: int,
)
    requires
        old.wf(),
        old.repainted(cur, covers, paint, mark_fg, mark_bg),
        old.in_frame(x0, y0),
        !covers(x0, y0),
        cur.stored(new, old.at(x0, y0), paint(x0, y0, old.cell(x0, y0)), mark_fg, mark_bg),
        forall|x: int, y: int|
            old.in_frame(x, y) ==> covers_next(x, y) == (covers(x, y) || (x == x0 && y == y0)),
    ensures
        old.repainted(new, covers_next, paint, mark_fg, mark_bg),
{
    let i0 = old.at(x0, y0);
    lemma_index_in_bounds(old.width as int, old.height as int, x0, y0);
    assert forall|x: int, y: int| #![trigger new.cells[old.at(x, y)]] old.in_frame(x, y) implies old.repainted_cell(new, covers_next(x, y), paint(x, y, old.cells[old.at(x, y)]), mark_fg, mark_bg, old.at(x, y)) by {
        let i = old.at(x, y);
        assert(covers_next(x, y) == (covers(x, y) || (x == x0 && y == y0)));
        lemma_index_in_bounds(old.width as int, old.height as int, x, y);
        assert(old.repainted_cell(cur, covers(x, y), paint(x, y, old.cells[i]), mark_fg, mark_bg, i));
        if x != x0 || y != y0 {
            if i == i0 {
                lemma_index_injective(old.width as int, x, y, x0, y0);
            }
            assert(i != i0);
            assert(new.cells[i] == cur.cells[i]);
            assert(new.painted[i] == cur.painted[i]);
            assert(new.foreground_painted[i] == cur.foreground_painted[i]);
            assert(new.background_painted[i] == cur.background_painted[i]);
        } else {
            assert(i == i0);
            assert(cur.painted[i] == old.painted[i]);
        }
    }
}

/// The cells of a visible rectangle are exactly the frame's cells in the
/// rectangle that the clip admits.
pub proof fn lemma_visible_rect_cells(frame: FrameView, rect: ClipRect, clip: ClipBounds, x: int, y: int)
    requires
        frame.width <= i32::MAX,
        frame.height <= i32::MAX,
    ensures
        (frame.spec_visible_rect(rect, clip) is Some && frame.spec_visible_rect(
            rect,
            clip,
        ).unwrap().has_point(x, y)) == (frame.in_frame(x, y) && rect.has_point(x, y)
            && clip.admits(x, y)),
{
    lemma_clip_rect_keeps_admitted_cells(clip, rect, x, y);
}

/// The cell a background fill leaves: a blank in `background` that keeps
/// the selection background given.
pub open spec fn filled_cell(background: Background, selection_background: Option<Background>) -> Cell {
    Cell {
        background,
        character: ' ',
        foreground: Background::Default,
        selection_background,
        selection_order: None,
        reversed: false,
        bold: false,
        italic: false,
        underline: false,
        strikethrough: false,
        wide_continuation: false,
    }
}

impl FrameView {
    /// Whether a fill of `rect` paints cell `(x, y)`: a fill with neither a
    /// background nor a selection background paints nothing; otherwise the
    /// cell must be in the frame, in `rect` and admitted by `clip`, and not
    /// a chunky-rounded corner of the box being filled.
    pub open spec fn fill_covers(
        self,
        rect: ClipRect,
        background: Background,
        selection_background: Option<Background>,
        clip: ClipBounds,
        box_style: Option<DivStyle>,
        x: int,
        y: int,
    ) -> bool {
        &&& !(background == Background::Default && selection_background is None)
        &&& self.in_frame(x, y)
        &&& rect.has_point(x, y)
        &&& clip.admits(x, y)
        &&& !(box_style matches Some(style) && spec_has_chunky_rounded_corner(style)
            && spec_is_chunky_rounded_corner(rect, style, x, y))
    }
}

/// `cell` with its reversed-video flag set to `reversed`.
pub open spec fn reversed_cell(cell: Cell, reversed: bool) -> Cell {
    Cell { reversed, ..cell }
}

/// The cell a border glyph leaves: the glyph in `foreground` over the old
/// background, unstyled and not selectable, with the selection background
/// replaced when one is given.
pub open spec fn border_cell(
    cell: Cell,
    character: char,
    foreground: Background,
    selection_background: Option<Background>,
) -> Cell {
    Cell {
        character,
        foreground,
        selection_order: None,
        bold: false,
        italic: false,
        underline: false,
        strikethrough: false,
        wide_continuation: false,
        selection_background: if selection_background is Some {
            selection_background
        } else {
            cell.selection_background
        },
        ..cell
    }
}

/// The cell a glyph written with `style` leaves, with the given character,
/// selection order and continuation flag: the style's colours replace the
/// old ones, except that a default background or an absent selection
/// background keeps what was there.
pub open spec fn styled_cell(
    cell: Cell,
    character: char,
    style: GlyphStyle,
    selection_order: Option<usize>,
    wide_continuation: bool,
) -> Cell {
    Cell {
        character,
        foreground: style.foreground,
        selection_order,
        bold: style.bold,
        italic: style.italic,
        underline: style.underline,
        strikethrough: style.strikethrough,
        wide_continuation,
        background: if style.background != Background::Default {
            style.background
        } else {
            cell.background
        },
        selection_background: if style.selection_background is Some {
            style.selection_background
        } else {
            cell.selection_background
        },
        ..cell
    }
}

/// A repaint of the single cell `(x0, y0)`.
pub proof fn lemma_repainted_single(
    old: FrameView,
    new: FrameView,
    paint: spec_fn(int, int, Cell) -> Cell,
    mark_fg: bool,
    mark_bg: bool,
    x0: int,
    y0: int,
)
    requires
        old.wf(),
        old.in_frame(x0, y0),
        old.stored(new, old.at(x0, y0), paint(x0, y0, old.cell(x0, y0)), mark_fg, mark_bg),
    ensures
        old.repainted(new, |x: int, y: int| x == x0 && y == y0, paint, mark_fg, mark_bg),
{
    lemma_repainted_nothing(old, paint, mark_fg, mark_bg);
    lemma_repainted_step(
        old,
        old,
        new,
        |x: int, y: int| false,
        |x: int, y: int| x == x0 && y == y0,
        paint,
        mark_fg,
        mark_bg,
        x0,
        y0,
    );
}

/// Two repaints in a row, of disjoint sets of cells, make one repaint of
/// both sets, provided the second paints its cells as the first would.
pub proof fn lemma_repainted_compose(
    old: FrameView,
    mid: FrameView,
    new: FrameView,
    covers1: spec_fn(int, int) -> bool,
    covers2: spec_fn(int, int) -> bool,
    covers12: spec_fn(int, int) -> bool,
    paint: spec_fn(int, int, Cell) -> Cell,
    paint2: spec_fn(int, int, Cell) -> Cell,
    mark_fg: bool,
    mark_bg: bool,
)
    requires
        old.repainted(mid, covers1, paint, mark_fg, mark_bg),
        mid.repainted(new, covers2, paint2, mark_fg, mark_bg),
        forall|x: int, y: int|
            old.in_frame(x, y) ==> {
                &&& !(covers1(x, y) && covers2(x, y))
                &&& covers12(x, y) == (covers1(x, y) || covers2(x, y))
                &&& covers2(x, y) ==> paint2(x, y, old.cell(x, y)) == paint(x, y, old.cell(x, y))
            },
    ensures
        old.repainted(new, covers12, paint, mark_fg, mark_bg),
{
    assert forall|x: int, y: int| #![trigger new.cells[old.at(x, y)]] old.in_frame(x, y) implies old.repainted_cell(new, covers12(x, y), paint(x, y, old.cells[old.at(x, y)]), mark_fg, mark_bg, old.at(x, y)) by {
        assert(mid.at(x, y) == old.at(x, y));
        assert(old.repainted_cell(mid, covers1(x, y), paint(x, y, old.cells[old.at(x, y)]), mark_fg, mark_bg, old.at(x, y)));
        assert(mid.repainted_cell(new, covers2(x, y), paint2(x, y, mid.cells[mid.at(x, y)]), mark_fg, mark_bg, mid.at(x, y)));
    }
}

/// Which edge of a box's border cell `(x, y)` belongs to: 1 top row,
/// 2 bottom row, 3 left column, 4 right column, 0 none. Rows take the
/// corners; the columns run between the drawn rows; a one-row box has no
/// separate bottom row and a one-column box no separate right column.
pub open spec fn stroke_part(rect: ClipRect, style: DivStyle, x: int, y: int) -> int {
    let left = rect.left as int;
    let right = rect.right - 1;
    let top = rect.top as int;
    let bottom = rect.bottom - 1;
    let start = if style.border_top == BorderStyle::NoBorder { top } else { top + 1 };
    let end = if style.border_bottom == BorderStyle::NoBorder { bottom } else { bottom - 1 };
    if !spec_has_border(style) || rect.left >= rect.right || rect.top >= rect.bottom {
        0
    } else if style.border_top != BorderStyle::NoBorder && y == top && left <= x <= right {
        1
    } else if style.border_bottom != BorderStyle::NoBorder && bottom != top && y == bottom && left
        <= x <= right {
        2
    } else if style.border_left != BorderStyle::NoBorder && x == left && start <= y <= end {
        3
    } else if style.border_right != BorderStyle::NoBorder && right != left && x == right && start
        <= y <= end {
        4
    } else {
        0
    }
}

/// The glyph a border stroke draws at `(x, y)`.
pub open spec fn stroke_char(rect: ClipRect, style: DivStyle, x: int, y: int) -> char {
    let left = rect.left as int;
    let right = rect.right - 1;
    let part = stroke_part(rect, style, x, y);
    if part == 1 {
        spec_border_char_at(style, x == left, x == right, true, false)
    } else if part == 2 {
        spec_border_char_at(style, x == left, x == right, false, true)
    } else if part == 3 {
        spec_border_glyphs(style.border_left).vertical
    } else {
        spec_border_glyphs(style.border_right).vertical
    }
}

/// The end points of a selection in paint order, earlier first.
pub open spec fn spec_normalized_selection(selection: Selection) -> (SelectionPoint, SelectionPoint) {
    if selection.anchor.order <= selection.focus.order {
        (selection.anchor, selection.focus)
    } else {
        (selection.focus, selection.anchor)
    }
}

/// The end points of a selection in paint order, earlier first.
pub fn normalized_selection(selection: &Selection) -> (r: (SelectionPoint, SelectionPoint))
    ensures
        r == spec_normalized_selection(*selection),
{
    if selection.anchor.order <= selection.focus.order {
        (selection.anchor, selection.focus)
    } else {
        (selection.focus, selection.anchor)
    }
}

/// How a cell looks once the selection `[start, end]` of paint order is
/// shown: a selected glyph takes its selection background when it has one
/// and is shown in reverse video when it has none; other cells are kept.
pub open spec fn selected_cell(cell: Cell, start: usize, end: usize) -> Cell {
    match cell.selection_order {
        Some(order) => if start <= order && order <= end {
            match cell.selection_background {
                Some(background) => Cell { background, reversed: false, ..cell },
                None => Cell { reversed: true, ..cell },
            }
        } else {
            cell
        },
        None => cell,
    }
}

/// Whether `c` has the Unicode `White_Space` property.
pub open spec fn spec_is_whitespace(c: char) -> bool {
    ('\u{9}' <= c && c <= '\u{d}') || c == ' ' || c == '\u{85}' || c == '\u{a0}' || c
        == '\u{1680}' || ('\u{2000}' <= c && c <= '\u{200a}') || c == '\u{2028}' || c
        == '\u{2029}' || c == '\u{202f}' || c == '\u{205f}' || c == '\u{3000}'
}

/// Whether `c` has the Unicode `White_Space` property (what
/// `char::is_whitespace` tests).
pub fn is_whitespace(c: char) -> (r: bool)
    ensures
        r == spec_is_whitespace(c),
{
    ('\u{9}' <= c && c <= '\u{d}') || c == ' ' || c == '\u{85}' || c == '\u{a0}' || c
        == '\u{1680}' || ('\u{2000}' <= c && c <= '\u{200a}') || c == '\u{2028}' || c
        == '\u{2029}' || c == '\u{202f}' || c == '\u{205f}' || c == '\u{3000}'
}

/// `s` without its trailing whitespace.
pub open spec fn trim_end(s: Seq<char>) -> Seq<char>
    decreases s.len(),
{
    if s.len() > 0 && spec_is_whitespace(s.last()) {
        trim_end(s.drop_last())
    } else {
        s
    }
}

/// The characters of a run of selection units.
pub open spec fn unit_chars(units: Seq<SelectionUnit>) -> Seq<char> {
    Seq::new(units.len(), |i: int| units[i].character)
}

/// The units whose order lies in `[start, end]`, in their order.
pub open spec fn units_in_range(units: Seq<SelectionUnit>, start: usize, end: usize) -> Seq<SelectionUnit>
    decreases units.len(),
{
    if units.len() == 0 {
        units
    } else {
        let rest = units_in_range(units.drop_last(), start, end);
        let u = units.last();
        if start <= u.order && u.order <= end {
            rest.push(u)
        } else {
            rest
        }
    }
}

/// Where the last run of units on one row begins.
pub open spec fn last_row_start(units: Seq<SelectionUnit>) -> int
    decreases units.len(),
{
    if units.len() <= 1 {
        0
    } else if units[units.len() - 2].row == units[units.len() - 1].row {
        last_row_start(units.drop_last())
    } else {
        units.len() - 1
    }
}

pub proof fn lemma_last_row_start_bounds(units: Seq<SelectionUnit>)
    ensures
        units.len() == 0 ==> last_row_start(units) == 0,
        units.len() > 0 ==> 0 <= last_row_start(units) < units.len(),
    decreases units.len(),
{
    if units.len() > 1 {
        lemma_last_row_start_bounds(units.drop_last());
    }
}

/// The text of a run of selection units: one line per run of units on the
/// same row, each without trailing whitespace, joined by newlines.
pub open spec fn selection_text(units: Seq<SelectionUnit>) -> Seq<char>
    decreases units.len(),
{
    if units.len() == 0 {
        Seq::empty()
    } else {
        let g = last_row_start(units);
        proof {
            lemma_last_row_start_bounds(units);
        }
        let last_line = trim_end(unit_chars(units.subrange(g, units.len() as int)));
        if g == 0 {
            last_line
        } else {
            selection_text(units.subrange(0, g)) + seq!['\n'] + last_line
        }
    }
}

/// `s` without trailing whitespace.
pub fn trim_end_chars(s: &Vec<char>) -> (r: Vec<char>)
    ensures
        r@ == trim_end(s@),
{
    let mut n = s.len();
    proof {
        assert(s@.subrange(0, n as int) =~= s@);
    }
    while n > 0 && is_whitespace(s[n - 1])
        invariant
            n <= s@.len(),
            trim_end(s@) == trim_end(s@.subrange(0, n as int)),
        decreases n,
    {
        proof {
            assert(s@.subrange(0, n as int).drop_last() =~= s@.subrange(0, n - 1));
        }
        n = n - 1;
    }
    proof {
        assert(trim_end(s@.subrange(0, n as int)) == s@.subrange(0, n as int));
    }
    let mut r: Vec<char> = Vec::new();
    let mut i: usize = 0;
    while i < n
        invariant
            i <= n <= s@.len(),
            r@ == s@.subrange(0, i as int),
        decreases n - i,
    {
        r.push(s[i]);
        proof {
            assert(r@ =~= s@.subrange(0, i + 1));
        }
        i = i + 1;
    }
    r
}

/// The distance between two columns.
pub open spec fn col_distance(a: int, b: int) -> int {
    if a >= b { a - b } else { b - a }
}

impl FrameView {
    /// A pointer row clamped into the frame.
    pub open spec fn clamped_row(self, y: int) -> int {
        if y < self.height { y } else { self.height - 1 }
    }

    /// A pointer column clamped into the frame.
    pub open spec fn clamped_col(self, x: int) -> int {
        if x < self.width { x } else { self.width - 1 }
    }

    /// Whether cell `(c, row)` holds a selectable glyph.
    pub open spec fn selectable(self, c: int, row: int) -> bool {
        0 <= c < self.width && self.cell(c, row).selection_order is Some
    }

    /// Whether column `c` is the selectable column of `row` nearest to
    /// `col`, the leftmost one among equally near columns, considering the
    /// columns before `limit`.
    pub open spec fn nearest_selectable_before(self, row: int, col: int, c: int, limit: int) -> bool {
        &&& 0 <= c < limit
        &&& self.selectable(c, row)
        &&& forall|c2: int|
            0 <= c2 < limit && #[trigger] self.selectable(c2, row) ==> col_distance(c, col)
                <= col_distance(c2, col)
        &&& forall|c2: int|
            0 <= c2 < c && #[trigger] self.selectable(c2, row) ==> col_distance(c, col)
                < col_distance(c2, col)
    }
}

impl FrameView {
    /// Whether every cell of `row` is blank.
    pub open spec fn row_blank(self, row: int) -> bool {
        forall|x: int| 0 <= x < self.width ==> #[trigger] self.cell(x, row) == blank_cell()
    }
}

impl Frame {
    /// A blank frame of the given size.
    pub fn new(width: usize, height: usize, capture_hidden_selection_units: bool) -> (r: Self)
        requires
            width <= i32::MAX,
            height <= i32::MAX,
            width * height <= usize::MAX,
        ensures
            r@.wf(),
            r@.width == width,
            r@.height == height,
            r@.capture_hidden_selection_units == capture_hidden_selection_units,
            r@.next_selection_order == 0,
            forall|i: int| 0 <= i < r@.cells.len() ==> #[trigger] r@.cells[i] == blank_cell(),
            forall|i: int| 0 <= i < r@.painted.len() ==> !#[trigger] r@.painted[i],
            forall|i: int|
                0 <= i < r@.foreground_painted.len() ==> !#[trigger] r@.foreground_painted[i],
            forall|i: int|
                0 <= i < r@.background_painted.len() ==> !#[trigger] r@.background_painted[i],
    {
        let count = width * height;
        let mut cells: Vec<Cell> = Vec::new();
        let mut painted: Vec<bool> = Vec::new();
        let mut foreground_painted: Vec<bool> = Vec::new();
        let mut background_painted: Vec<bool> = Vec::new();
        let mut i: usize = 0;
        while i < count
            invariant
                i <= count,
                cells.len() == i,
                painted.len() == i,
                foreground_painted.len() == i,
                background_painted.len() == i,
                forall|j: int| 0 <= j < i ==> #[trigger] cells@[j] == blank_cell(),
                forall|j: int| 0 <= j < i ==> !#[trigger] painted@[j],
                forall|j: int| 0 <= j < i ==> !#[trigger] foreground_painted@[j],
                forall|j: int| 0 <= j < i ==> !#[trigger] background_painted@[j],
            decreases count - i,
        {
            cells.push(Cell::default());
            painted.push(false);
            foreground_painted.push(false);
            background_painted.push(false);
            i = i + 1;
        }
        Frame {
            width,
            height,
            cells,
            painted,
            foreground_painted,
            background_painted,
            selection_units: Vec::new(),
            next_selection_order: 0,
            capture_hidden_selection_units,
        }
    }

    /// The frame's width in cells.
    pub fn width(&self) -> (r: usize)
        ensures
            r == self@.width,
    {
        self.width
    }

    /// The frame's height in cells.
    pub fn height(&self) -> (r: usize)
        ensures
            r == self@.height,
    {
        self.height
    }

    /// The buffer position of `(x, y)`, or `None` outside the frame.
    pub fn cell_index(&self, x: i32, y: i32) -> (r: Option<usize>)
        requires
            self@.wf(),
        ensures
            r is Some == self@.in_frame(x as int, y as int),
            r matches Some(i) ==> i == self@.at(x as int, y as int) && i < self@.cells.len(),
    {
        if x < 0 || y < 0 || x >= self.width as i32 || y >= self.height as i32 {
            return None;
        }
        proof {
            lemma_index_in_bounds(self.width as int, self.height as int, x as int, y as int);
            assert(self.cells@.len() == self.width * self.height);
            assert(y * self.width <= y * self.width + x);
            assert(self.cells@.len() == self.cells.len());
        }
        Some(y as usize * self.width + x as usize)
    }

    /// The cell at `(x, y)`, or `None` outside the frame.
    pub fn cell(&self, x: usize, y: usize) -> (r: Option<Cell>)
        requires
            self@.wf(),
        ensures
            r == (if self@.in_frame(x as int, y as int) {
                Some(self@.cell(x as int, y as int))
            } else {
                None
            }),
    {
        if x >= self.width || y >= self.height {
            return None;
        }
        proof {
            lemma_index_in_bounds(self.width as int, self.height as int, x as int, y as int);
            assert(self.cells@.len() == self.width * self.height);
            assert(y * self.width <= y * self.width + x);
            assert(self.cells@.len() == self.cells.len());
        }
        Some(self.cells[y * self.width + x])
    }

    /// The part of `rect` inside both the frame and `clip`.
    pub fn visible_rect(&self, rect: ClipRect, clip: ClipBounds) -> (r: Option<ClipRect>)
        requires
            self@.wf(),
        ensures
            r == self@.spec_visible_rect(rect, clip),
    {
        let bounds = match clip.clip_rect(rect) {
            Some(bounds) => bounds,
            None => return None,
        };
        let width = self.width as i32;
        let height = self.height as i32;
        let visible = ClipRect {
            left: if bounds.left >= 0 { bounds.left } else { 0 },
            top: if bounds.top >= 0 { bounds.top } else { 0 },
            right: if bounds.right <= width {
                if bounds.right >= 0 { bounds.right } else { 0 }
            } else {
                width
            },
            bottom: if bounds.bottom <= height {
                if bounds.bottom >= 0 { bounds.bottom } else { 0 }
            } else {
                height
            },
        };
        if visible.left < visible.right && visible.top < visible.bottom {
            Some(visible)
        } else {
            None
        }
    }

    /// Stores `cell` at buffer position `index` and marks it painted.
    fn store(&mut self, index: usize, cell: Cell, mark_fg: bool, mark_bg: bool)
        requires
            old(self)@.wf(),
            index < old(self)@.cells.len(),
        ensures
            final(self)@.wf(),
            old(self)@.stored(final(self)@, index as int, cell, mark_fg, mark_bg),
            old(self)@.same_units(final(self)@),
    {
        self.cells.set(index, cell);
        self.painted.set(index, true);
        if mark_fg {
            self.foreground_painted.set(index, true);
        }
        if mark_bg {
            self.background_painted.set(index, true);
        }
        proof {
            assert(self.foreground_painted@ =~= old(self).foreground_painted@.update(
                index as int,
                mark_fg || old(self).foreground_painted@[index as int],
            ));
            assert(self.background_painted@ =~= old(self).background_painted@.update(
                index as int,
                mark_bg || old(self).background_painted@[index as int],
            ));
        }
    }

    /// Fills `rect` with `background` within `clip`.
    pub fn fill_rect(
        &mut self,
        rect: ClipRect,
        background: Background,
        selection_background: Option<Background>,
        clip: ClipBounds,
    )
        requires
            old(self)@.wf(),
        ensures
            final(self)@.wf(),
            old(self)@.same_units(final(self)@),
            old(self)@.repainted(
                final(self)@,
                |x: int, y: int|
                    old(self)@.fill_covers(rect, background, selection_background, clip, None, x, y),
                |x: int, y: int, c: Cell| filled_cell(background, selection_background),
                false,
                true,
            ),
    {
        self.fill_rect_internal(rect, background, selection_background, clip, None);
    }

    /// Fills the background of a box, leaving its chunky-rounded corner
    /// cells to what lies below.
    pub fn fill_box_background(
        &mut self,
        rect: ClipRect,
        style: &DivStyle,
        background: Background,
        selection_background: Option<Background>,
        clip: ClipBounds,
    )
        requires
            old(self)@.wf(),
        ensures
            final(self)@.wf(),
            old(self)@.same_units(final(self)@),
            old(self)@.repainted(
                final(self)@,
                |x: int, y: int|
                    old(self)@.fill_covers(
                        rect,
                        background,
                        selection_background,
                        clip,
                        Some(*style),
                        x,
                        y,
                    ),
                |x: int, y: int, c: Cell| filled_cell(background, selection_background),
                false,
                true,
            ),
    {
        self.fill_rect_internal(rect, background, selection_background, clip, Some(style));
    }

    /// Fills the visible cells of `rect`, skipping the chunky-rounded corners
    /// of `box_style` when one is given.
    pub fn fill_rect_internal(
        &mut self,
        rect: ClipRect,
        background: Background,
        selection_background: Option<Background>,
        clip: ClipBounds,
        box_style: Option<&DivStyle>,
    )
        requires
            old(self)@.wf(),
        ensures
            final(self)@.wf(),
            old(self)@.same_units(final(self)@),
            old(self)@.repainted(
                final(self)@,
                |x: int, y: int|
                    old(self)@.fill_covers(
                        rect,
                        background,
                        selection_background,
                        clip,
                        match box_style {
                            Some(style) => Some(*style),
                            None => None,
                        },
                        x,
                        y,
                    ),
                |x: int, y: int, c: Cell| filled_cell(background, selection_background),
                false,
                true,
            ),
    {
        let ghost style_view: Option<DivStyle> = match box_style {
            Some(style) => Some(*style),
            None => None,
        };
        let ghost covers = |x: int, y: int|
            old(self)@.fill_covers(
                rect,
                background,
                selection_background,
                clip,
                style_view,
                x,
                y,
            );
        let ghost paint = |x: int, y: int, c: Cell| filled_cell(background, selection_background);
        proof {
            lemma_repainted_nothing(self@, paint, false, true);
        }
        if background == Background::Default && selection_background.is_none() {
            proof {
                lemma_repainted_same_covers(
                    old(self)@,
                    self@,
                    |x: int, y: int| false,
                    covers,
                    paint,
                    false,
                    true,
                );
            }
            return;
        }
        let bounds = match self.visible_rect(rect, clip) {
            Some(bounds) => bounds,
            None => {
                proof {
                    assert forall|x: int, y: int| old(self)@.in_frame(x, y) implies false == covers(
                        x,
                        y,
                    ) by {
                        lemma_visible_rect_cells(old(self)@, rect, clip, x, y);
                    }
                    lemma_repainted_same_covers(
                        old(self)@,
                        self@,
                        |x: int, y: int| false,
                        covers,
                        paint,
                        false,
                        true,
                    );
                }
                return;
            },
        };
        let chunky_style: Option<&DivStyle> = match box_style {
            Some(style) => if has_chunky_rounded_corner(style) {
                Some(style)
            } else {
                None
            },
            None => None,
        };
        let top = bounds.top as usize;
        let bottom = bounds.bottom as usize;
        let left = bounds.left as usize;
        let right = bounds.right as usize;
        let mut row = top;
        proof {
            lemma_repainted_same_covers(
                old(self)@,
                self@,
                |x: int, y: int| false,
                |x: int, y: int| covers(x, y) && y < row,
                paint,
                false,
                true,
            );
        }
        while row < bottom
            invariant
                old(self)@.wf(),
                self@.wf(),
                old(self)@.same_units(self@),
                old(self)@.repainted(
                    self@,
                    |x: int, y: int| covers(x, y) && y < row,
                    paint,
                    false,
                    true,
                ),
                top <= row <= bottom,
                bounds.top == top,
                bounds.bottom == bottom,
                bounds.left == left,
                bounds.right == right,
                left < right <= self@.width,
                bottom <= self@.height,
                old(self)@.spec_visible_rect(rect, clip) == Some(bounds),
                chunky_style matches Some(s) ==> (style_view == Some(*s)
                    && spec_has_chunky_rounded_corner(*s)),
                chunky_style is None ==> !(style_view matches Some(s)
                    && spec_has_chunky_rounded_corner(s)),
                covers == (|x: int, y: int|
                    old(self)@.fill_covers(
                        rect,
                        background,
                        selection_background,
                        clip,
                        style_view,
                        x,
                        y,
                    )),
                paint == (|x: int, y: int, c: Cell| filled_cell(background, selection_background)),
                !(background == Background::Default && selection_background is None),
            decreases bottom - row,
        {
            let mut col = left;
            proof {
                assert forall|x: int, y: int| old(self)@.in_frame(x, y) implies (covers(x, y) && y
                    < row) == (covers(x, y) && (y < row || (y == row && x < col))) by {
                    lemma_visible_rect_cells(old(self)@, rect, clip, x, y);
                }
                lemma_repainted_same_covers(
                    old(self)@,
                    self@,
                    |x: int, y: int| covers(x, y) && y < row,
                    |x: int, y: int| covers(x, y) && (y < row || (y == row && x < col)),
                    paint,
                    false,
                    true,
                );
            }
            while col < right
                invariant
                    old(self)@.wf(),
                    self@.wf(),
                    old(self)@.same_units(self@),
                    old(self)@.repainted(
                        self@,
                        |x: int, y: int| covers(x, y) && (y < row || (y == row && x < col)),
                        paint,
                        false,
                        true,
                    ),
                    top <= row < bottom,
                    left <= col <= right,
                    bounds.top == top,
                    bounds.bottom == bottom,
                    bounds.left == left,
                    bounds.right == right,
                    left < right <= self@.width,
                    bottom <= self@.height,
                    old(self)@.spec_visible_rect(rect, clip) == Some(bounds),
                    chunky_style matches Some(s) ==> (style_view == Some(*s)
                        && spec_has_chunky_rounded_corner(*s)),
                    chunky_style is None ==> !(style_view matches Some(s)
                        && spec_has_chunky_rounded_corner(s)),
                    covers == (|x: int, y: int|
                        old(self)@.fill_covers(
                            rect,
                            background,
                            selection_background,
                            clip,
                            style_view,
                            x,
                            y,
                        )),
                    paint == (|x: int, y: int, c: Cell| filled_cell(background, selection_background)),
                    !(background == Background::Default && selection_background is None),
                decreases right - col,
            {
                let skip = match chunky_style {
                    Some(style) => is_chunky_rounded_corner(rect, style, col as i32, row as i32),
                    None => false,
                };
                proof {
                    lemma_visible_rect_cells(old(self)@, rect, clip, col as int, row as int);
                }
                if !skip {
                    proof {
                        lemma_index_in_bounds(
                            self.width as int,
                            self.height as int,
                            col as int,
                            row as int,
                        );
                        assert(self.cells@.len() == self.cells.len());
                        assert(row * self.width <= row * self.width + col);
                    }
                    let index = row * self.width + col;
                    let ghost before = self@;
                    assert(paint(col as int, row as int, old(self)@.cell(col as int, row as int))
                        == filled_cell(background, selection_background));
                    self.store(
                        index,
                        Cell {
                            background,
                            character: ' ',
                            foreground: Background::Default,
                            selection_background,
                            selection_order: None,
                            reversed: false,
                            bold: false,
                            italic: false,
                            underline: false,
                            strikethrough: false,
                            wide_continuation: false,
                        },
                        false,
                        true,
                    );
                    proof {
                        lemma_repainted_step(
                            old(self)@,
                            before,
                            self@,
                            |x: int, y: int| covers(x, y) && (y < row || (y == row && x < col)),
                            |x: int, y: int|
                                (covers(x, y) && (y < row || (y == row && x < col))) || (x == col
                                    && y == row),
                            paint,
                            false,
                            true,
                            col as int,
                            row as int,
                        );
                    }
                }
                proof {
                    let ghost prev = |x: int, y: int|
                        if !skip {
                            (covers(x, y) && (y < row || (y == row && x < col))) || (x == col && y
                                == row)
                        } else {
                            covers(x, y) && (y < row || (y == row && x < col))
                        };
                    if skip {
                        assert(old(self)@.repainted(self@, prev, paint, false, true));
                    }
                    assert forall|x: int, y: int| old(self)@.in_frame(x, y) implies prev(x, y) == (
                    covers(x, y) && (y < row || (y == row && x < col + 1))) by {
                        lemma_visible_rect_cells(old(self)@, rect, clip, x, y);
                        if x == col && y == row {
                            lemma_visible_rect_cells(old(self)@, rect, clip, col as int, row as int);
                            assert(bounds.has_point(col as int, row as int));
                        }
                    }
                    lemma_repainted_same_covers(
                        old(self)@,
                        self@,
                        prev,
                        |x: int, y: int| covers(x, y) && (y < row || (y == row && x < col + 1)),
                        paint,
                        false,
                        true,
                    );
                }
                col = col + 1;
            }
            proof {
                assert forall|x: int, y: int| old(self)@.in_frame(x, y) implies (covers(x, y) && (y
                    < row || (y == row && x < col))) == (covers(x, y) && y < row + 1) by {
                    lemma_visible_rect_cells(old(self)@, rect, clip, x, y);
                }
                lemma_repainted_same_covers(
                    old(self)@,
                    self@,
                    |x: int, y: int| covers(x, y) && (y < row || (y == row && x < col)),
                    |x: int, y: int| covers(x, y) && y < row + 1,
                    paint,
                    false,
                    true,
                );
            }
            row = row + 1;
        }
        proof {
            assert forall|x: int, y: int| old(self)@.in_frame(x, y) implies (covers(x, y) && y
                < row) == covers(x, y) by {
                lemma_visible_rect_cells(old(self)@, rect, clip, x, y);
            }
            lemma_repainted_same_covers(
                old(self)@,
                self@,
                |x: int, y: int| covers(x, y) && y < row,
                covers,
                paint,
                false,
                true,
            );
        }
    }

    /// Sets the reversed-video flag of cell `(x, y)` if it is visible
    /// within `clip`, marking it fully painted.
    pub fn set_reversed(&mut self, x: i32, y: i32, reversed: bool, clip: ClipBounds)
        requires
            old(self)@.wf(),
        ensures
            final(self)@.wf(),
            old(self)@.same_units(final(self)@),
            old(self)@.repainted(
                final(self)@,
                |a: int, b: int| a == x && b == y && old(self)@.paintable(a, b, clip),
                |a: int, b: int, c: Cell| reversed_cell(c, reversed),
                true,
                true,
            ),
    {
        let ghost paint = |a: int, b: int, c: Cell| reversed_cell(c, reversed);
        proof {
            lemma_repainted_nothing(self@, paint, true, true);
        }
        let index = match self.cell_index(x, y) {
            Some(index) => index,
            None => {
                proof {
                    lemma_repainted_same_covers(old(self)@, self@, |a: int, b: int| false,
                        |a: int, b: int| a == x && b == y && old(self)@.paintable(a, b, clip),
                        paint, true, true);
                }
                return;
            },
        };
        if !clip.contains(x, y) {
            proof {
                lemma_repainted_same_covers(old(self)@, self@, |a: int, b: int| false,
                    |a: int, b: int| a == x && b == y && old(self)@.paintable(a, b, clip),
                    paint, true, true);
            }
            return;
        }
        let mut cell = self.cells[index];
        cell.reversed = reversed;
        proof {
            assert(index == old(self)@.at(x as int, y as int));
            assert(self.cells@[index as int] == old(self)@.cell(x as int, y as int));
            assert(cell == reversed_cell(old(self)@.cell(x as int, y as int), reversed));
        }
        self.store(index, cell, true, true);
        proof {
            assert(cell == paint(x as int, y as int, old(self)@.cell(x as int, y as int)));
            lemma_repainted_single(old(self)@, self@, paint, true, true, x as int, y as int);
            lemma_repainted_same_covers(old(self)@, self@, |a: int, b: int| a == x && b == y,
                |a: int, b: int| a == x && b == y && old(self)@.paintable(a, b, clip),
                paint, true, true);
        }
    }

    /// Writes a non-selectable glyph (an underline or a cursor, say) into
    /// cell `(x, y)` if it is visible within `clip`.
    pub fn write_decoration_glyph(
        &mut self,
        x: i32,
        y: i32,
        character: char,
        style: GlyphStyle,
        clip: ClipBounds,
    )
        requires
            old(self)@.wf(),
        ensures
            final(self)@.wf(),
            old(self)@.same_units(final(self)@),
            old(self)@.repainted(
                final(self)@,
                |a: int, b: int| a == x && b == y && old(self)@.paintable(a, b, clip),
                |a: int, b: int, c: Cell| styled_cell(c, character, style, None, false),
                true,
                style.background != Background::Default,
            ),
    {
        let ghost paint = |a: int, b: int, c: Cell| styled_cell(c, character, style, None, false);
        let mark_bg = style.background != Background::Default;
        proof {
            lemma_repainted_nothing(self@, paint, true, mark_bg);
        }
        let index = match self.cell_index(x, y) {
            Some(index) => index,
            None => {
                proof {
                    lemma_repainted_same_covers(old(self)@, self@, |a: int, b: int| false,
                        |a: int, b: int| a == x && b == y && old(self)@.paintable(a, b, clip),
                        paint, true, mark_bg);
                }
                return;
            },
        };
        if !clip.contains(x, y) {
            proof {
                lemma_repainted_same_covers(old(self)@, self@, |a: int, b: int| false,
                    |a: int, b: int| a == x && b == y && old(self)@.paintable(a, b, clip),
                    paint, true, mark_bg);
            }
            return;
        }
        let cell = self.styled(index, character, style, None, false);
        self.store(index, cell, true, mark_bg);
        proof {
            assert(cell == paint(x as int, y as int, old(self)@.cell(x as int, y as int)));
            lemma_repainted_single(old(self)@, self@, paint, true, mark_bg, x as int, y as int);
            lemma_repainted_same_covers(old(self)@, self@, |a: int, b: int| a == x && b == y,
                |a: int, b: int| a == x && b == y && old(self)@.paintable(a, b, clip),
                paint, true, mark_bg);
        }
    }

    /// The cell at `index` restyled as a glyph of `style`.
    fn styled(
        &self,
        index: usize,
        character: char,
        style: GlyphStyle,
        selection_order: Option<usize>,
        wide_continuation: bool,
    ) -> (r: Cell)
        requires
            index < self@.cells.len(),
        ensures
            r == styled_cell(self@.cells[index as int], character, style, selection_order, wide_continuation),
    {
        let mut cell = self.cells[index];
        cell.character = character;
        cell.foreground = style.foreground;
        cell.selection_order = selection_order;
        cell.bold = style.bold;
        cell.italic = style.italic;
        cell.underline = style.underline;
        cell.strikethrough = style.strikethrough;
        cell.wide_continuation = wide_continuation;
        if style.background != Background::Default {
            cell.background = style.background;
        }
        if style.selection_background.is_some() {
            cell.selection_background = style.selection_background;
        }
        cell
    }

    /// Writes one border glyph into cell `(x, y)` if it is visible within
    /// `clip`.
    pub fn write_border_cell(
        &mut self,
        x: i32,
        y: i32,
        character: char,
        foreground: Background,
        selection_background: Option<Background>,
        clip: ClipBounds,
    )
        requires
            old(self)@.wf(),
        ensures
            final(self)@.wf(),
            old(self)@.same_units(final(self)@),
            old(self)@.repainted(
                final(self)@,
                |a: int, b: int| a == x && b == y && old(self)@.paintable(a, b, clip),
                |a: int, b: int, c: Cell| border_cell(c, character, foreground, selection_background),
                true,
                false,
            ),
    {
        let ghost paint = |a: int, b: int, c: Cell|
            border_cell(c, character, foreground, selection_background);
        proof {
            lemma_repainted_nothing(self@, paint, true, false);
        }
        let index = match self.cell_index(x, y) {
            Some(index) => index,
            None => {
                proof {
                    lemma_repainted_same_covers(old(self)@, self@, |a: int, b: int| false,
                        |a: int, b: int| a == x && b == y && old(self)@.paintable(a, b, clip),
                        paint, true, false);
                }
                return;
            },
        };
        if !clip.contains(x, y) {
            proof {
                lemma_repainted_same_covers(old(self)@, self@, |a: int, b: int| false,
                    |a: int, b: int| a == x && b == y && old(self)@.paintable(a, b, clip),
                    paint, true, false);
            }
            return;
        }
        let mut cell = self.cells[index];
        cell.character = character;
        cell.foreground = foreground;
        cell.selection_order = None;
        cell.bold = false;
        cell.italic = false;
        cell.underline = false;
        cell.strikethrough = false;
        cell.wide_continuation = false;
        if selection_background.is_some() {
            cell.selection_background = selection_background;
        }
        self.store(index, cell, true, false);
        proof {
            assert(cell == paint(x as int, y as int, old(self)@.cell(x as int, y as int)));
            lemma_repainted_single(old(self)@, self@, paint, true, false, x as int, y as int);
            lemma_repainted_same_covers(old(self)@, self@, |a: int, b: int| a == x && b == y,
                |a: int, b: int| a == x && b == y && old(self)@.paintable(a, b, clip),
                paint, true, false);
        }
    }

    /// Records a selectable glyph of `row` as the next unit in paint order
    /// and returns its order.
    pub fn push_selection_unit(&mut self, row: i32, character: char) -> (r: usize)
        requires
            old(self)@.wf(),
            old(self)@.next_selection_order < usize::MAX,
        ensures
            final(self)@.wf(),
            r == old(self)@.next_selection_order,
            final(self)@.selection_units == old(self)@.selection_units.push(
                SelectionUnit { order: r, row, character },
            ),
            final(self)@.next_selection_order == old(self)@.next_selection_order + 1,
            final(self)@.cells == old(self)@.cells,
            final(self)@.painted == old(self)@.painted,
            final(self)@.foreground_painted == old(self)@.foreground_painted,
            final(self)@.background_painted == old(self)@.background_painted,
            old(self)@.same_frame_shape(final(self)@),
    {
        let order = self.next_selection_order;
        self.next_selection_order = self.next_selection_order + 1;
        self.selection_units.push(SelectionUnit { order, row, character });
        order
    }

    /// Writes a selectable glyph `width` cells wide at `(x, y)`: the first
    /// cell gets the character and the glyph's place in paint order, the
    /// cells it also covers become blank continuation cells. The glyph is
    /// recorded as a selection unit when its first cell is visible within
    /// `clip`, or, while hidden glyphs are captured, when it is not; a
    /// zero-width glyph is ignored.
    pub fn write_glyph(
        &mut self,
        x: i32,
        y: i32,
        character: char,
        width: usize,
        style: GlyphStyle,
        clip: ClipBounds,
    )
        requires
            old(self)@.wf(),
            old(self)@.next_selection_order < usize::MAX,
            (width > 0 && old(self)@.paintable(x as int, y as int, clip)) ==> x + width <= i32::MAX
                + 1,
        ensures
            final(self)@.wf(),
            (width > 0 && (old(self)@.paintable(x as int, y as int, clip)
                || old(self)@.capture_hidden_selection_units)) ==> (final(self)@.selection_units
                == old(self)@.selection_units.push(
                SelectionUnit {
                    order: old(self)@.next_selection_order as usize,
                    row: y,
                    character,
                },
            ) && final(self)@.next_selection_order == old(self)@.next_selection_order + 1),
            !(width > 0 && (old(self)@.paintable(x as int, y as int, clip)
                || old(self)@.capture_hidden_selection_units)) ==> old(self)@.same_units(
                final(self)@,
            ),
            old(self)@.repainted(
                final(self)@,
                |a: int, b: int|
                    width > 0 && old(self)@.paintable(x as int, y as int, clip) && b == y && x
                        <= a < x + width && old(self)@.paintable(a, b, clip),
                |a: int, b: int, c: Cell|
                    if a == x {
                        styled_cell(
                            c,
                            character,
                            style,
                            Some(old(self)@.next_selection_order as usize),
                            false,
                        )
                    } else {
                        styled_cell(c, ' ', style, None, true)
                    },
                true,
                style.background != Background::Default,
            ),
    {
        let ghost order_spec = old(self)@.next_selection_order as usize;
        let ghost paint = |a: int, b: int, c: Cell|
            if a == x {
                styled_cell(c, character, style, Some(order_spec), false)
            } else {
                styled_cell(c, ' ', style, None, true)
            };
        let ghost covers = |a: int, b: int|
            width > 0 && old(self)@.paintable(x as int, y as int, clip) && b == y && x <= a < x
                + width && old(self)@.paintable(a, b, clip);
        let mark_bg = style.background != Background::Default;
        proof {
            lemma_repainted_nothing(self@, paint, true, mark_bg);
            lemma_repainted_same_covers(old(self)@, self@, |a: int, b: int| false, |a: int, b: int| false && a == b, paint, true, mark_bg);
        }
        if width == 0 {
            proof {
                lemma_repainted_same_covers(old(self)@, self@, |a: int, b: int| false, covers, paint, true, mark_bg);
            }
            return;
        }
        let head = self.cell_index(x, y);
        let visible = head.is_some() && clip.contains(x, y);
        if !visible && !self.capture_hidden_selection_units {
            proof {
                lemma_repainted_same_covers(old(self)@, self@, |a: int, b: int| false, covers, paint, true, mark_bg);
            }
            return;
        }
        let order = self.push_selection_unit(y, character);
        proof {
            assert(old(self)@.repainted(self@, |a: int, b: int| false, paint, true, mark_bg));
        }
        let index = match head {
            Some(index) => index,
            None => {
                proof {
                    lemma_repainted_same_covers(old(self)@, self@, |a: int, b: int| false, covers, paint, true, mark_bg);
                }
                return;
            },
        };
        if !visible {
            proof {
                lemma_repainted_same_covers(old(self)@, self@, |a: int, b: int| false, covers, paint, true, mark_bg);
            }
            return;
        }
        let ghost pushed = self@;
        let cell = self.styled(index, character, style, Some(order), false);
        proof {
            assert(self@.cells[index as int] == old(self)@.cell(x as int, y as int));
            assert(cell == paint(x as int, y as int, old(self)@.cell(x as int, y as int)));
        }
        self.store(index, cell, true, mark_bg);
        proof {
            lemma_repainted_step(old(self)@, pushed, self@, |a: int, b: int| false,
                |a: int, b: int| covers(a, b) && a < x + 1, paint, true, mark_bg, x as int, y as int);
        }
        let mut offset: usize = 1;
        while offset < width
            invariant
                old(self)@.wf(),
                self@.wf(),
                1 <= offset <= width,
                x + width <= i32::MAX + 1,
                width > 0,
                old(self)@.paintable(x as int, y as int, clip),
                self@.selection_units == pushed.selection_units,
                self@.next_selection_order == pushed.next_selection_order,
                pushed.selection_units == old(self)@.selection_units.push(
                    SelectionUnit { order: order_spec, row: y, character },
                ),
                pushed.next_selection_order == old(self)@.next_selection_order + 1,
                order_spec == old(self)@.next_selection_order,
                paint == (|a: int, b: int, c: Cell|
                    if a == x {
                        styled_cell(c, character, style, Some(order_spec), false)
                    } else {
                        styled_cell(c, ' ', style, None, true)
                    }),
                covers == (|a: int, b: int|
                    width > 0 && old(self)@.paintable(x as int, y as int, clip) && b == y && x
                        <= a < x + width && old(self)@.paintable(a, b, clip)),
                mark_bg == (style.background != Background::Default),
                old(self)@.repainted(
                    self@,
                    |a: int, b: int| covers(a, b) && a < x + offset,
                    paint,
                    true,
                    mark_bg,
                ),
            decreases width - offset,
        {
            let cx = x + offset as i32;
            match self.cell_index(cx, y) {
                Some(ci) => {
                    if clip.contains(cx, y) {
                        let ghost before = self@;
                        proof {
                            assert(before.cells[old(self)@.at(cx as int, y as int)] == before.cells[old(self)@.at(cx as int, y as int)]);
                        }
                        let c = self.styled(ci, ' ', style, None, true);
                        proof {
                            assert(c == paint(cx as int, y as int, old(self)@.cell(cx as int, y as int)));
                        }
                        self.store(ci, c, true, mark_bg);
                        proof {
                            lemma_repainted_step(old(self)@, before, self@,
                                |a: int, b: int| covers(a, b) && a < x + offset,
                                |a: int, b: int| covers(a, b) && a < x + offset + 1,
                                paint, true, mark_bg, cx as int, y as int);
                        }
                    } else {
                        proof {
                            lemma_repainted_same_covers(old(self)@, self@,
                                |a: int, b: int| covers(a, b) && a < x + offset,
                                |a: int, b: int| covers(a, b) && a < x + offset + 1, paint, true, mark_bg);
                        }
                    }
                },
                None => {
                    proof {
                        lemma_repainted_same_covers(old(self)@, self@,
                            |a: int, b: int| covers(a, b) && a < x + offset,
                            |a: int, b: int| covers(a, b) && a < x + offset + 1, paint, true, mark_bg);
                    }
                },
            }
            offset = offset + 1;
        }
        proof {
            lemma_repainted_same_covers(old(self)@, self@,
                |a: int, b: int| covers(a, b) && a < x + offset, covers, paint, true, mark_bg);
        }
    }

    /// Draws the border of `rect` in `border_color`: each drawn edge's row
    /// or column of glyphs, with corner glyphs where two drawn edges meet,
    /// within `clip`.
    pub fn stroke_border(
        &mut self,
        rect: ClipRect,
        style: &DivStyle,
        border_color: Background,
        selection_background: Option<Background>,
        clip: ClipBounds,
    )
        requires
            old(self)@.wf(),
        ensures
            final(self)@.wf(),
            old(self)@.same_units(final(self)@),
            old(self)@.repainted(
                final(self)@,
                |a: int, b: int|
                    old(self)@.paintable(a, b, clip) && stroke_part(rect, *style, a, b) != 0,
                |a: int, b: int, c: Cell|
                    border_cell(c, stroke_char(rect, *style, a, b), border_color, selection_background),
                true,
                false,
            ),
    {
        let ghost st = *style;
        let ghost paint = |a: int, b: int, c: Cell|
            border_cell(c, stroke_char(rect, st, a, b), border_color, selection_background);
        let ghost part = |a: int, b: int| stroke_part(rect, st, a, b);
        let ghost ok = |a: int, b: int| old(self)@.paintable(a, b, clip);
        proof {
            lemma_repainted_nothing(self@, paint, true, false);
        }
        if !has_border(style) || rect.left >= rect.right || rect.top >= rect.bottom {
            proof {
                lemma_repainted_same_covers(old(self)@, self@, |a: int, b: int| false,
                    |a: int, b: int| old(self)@.paintable(a, b, clip) && stroke_part(rect, *style, a, b) != 0,
                    paint, true, false);
            }
            return;
        }
        let left: i64 = rect.left as i64;
        let right: i64 = rect.right as i64 - 1;
        let top: i64 = rect.top as i64;
        let bottom: i64 = rect.bottom as i64 - 1;
        let start: i64 = if style.border_top == BorderStyle::NoBorder { top } else { top + 1 };
        let end: i64 = if style.border_bottom == BorderStyle::NoBorder { bottom } else { bottom - 1 };
        proof {
            lemma_repainted_same_covers(old(self)@, self@, |a: int, b: int| false,
                |a: int, b: int| ok(a, b) && part(a, b) == 1 && a < left, paint, true, false);
        }
        let mut x: i64 = left;
        if style.border_top != BorderStyle::NoBorder {
            while x <= right
                invariant
                    old(self)@.wf(),
                    self@.wf(),
                    old(self)@.same_units(self@),
                    left <= x <= right + 1,
                    left == rect.left,
                    right == rect.right - 1,
                    top == rect.top,
                    bottom == rect.bottom - 1,
                    rect.left < rect.right,
                    rect.top < rect.bottom,
                    st == *style,
                    spec_has_border(st),
                    st.border_top != BorderStyle::NoBorder,
                    paint == (|a: int, b: int, c: Cell|
                        border_cell(c, stroke_char(rect, st, a, b), border_color, selection_background)),
                    part == (|a: int, b: int| stroke_part(rect, st, a, b)),
                    ok == (|a: int, b: int| old(self)@.paintable(a, b, clip)),
                    old(self)@.repainted(self@, |a: int, b: int| ok(a, b) && part(a, b) == 1 && a < x, paint, true, false),
                decreases right + 1 - x,
            {
                let ghost before = self@;
                let character = border_char_at(style, x == left, x == right, true, false);
                self.write_border_cell(x as i32, top as i32, character, border_color, selection_background, clip);
                proof {
                    lemma_repainted_compose(old(self)@, before, self@,
                        |a: int, b: int| ok(a, b) && part(a, b) == 1 && a < x,
                        |a: int, b: int| a == x && b == top && before.paintable(a, b, clip),
                        |a: int, b: int| ok(a, b) && part(a, b) == 1 && a < x + 1,
                        paint,
                        |a: int, b: int, c: Cell| border_cell(c, character, border_color, selection_background),
                        true, false);
                }
                x = x + 1;
            }
        }
        proof {
            lemma_repainted_same_covers(old(self)@, self@,
                |a: int, b: int| ok(a, b) && part(a, b) == 1 && a < x,
                |a: int, b: int| ok(a, b) && (part(a, b) == 1 || (part(a, b) == 2 && a < left)),
                paint, true, false);
        }
        x = left;
        if style.border_bottom != BorderStyle::NoBorder && bottom != top {
            while x <= right
                invariant
                    old(self)@.wf(),
                    self@.wf(),
                    old(self)@.same_units(self@),
                    left <= x <= right + 1,
                    left == rect.left,
                    right == rect.right - 1,
                    top == rect.top,
                    bottom == rect.bottom - 1,
                    bottom != top,
                    rect.left < rect.right,
                    rect.top < rect.bottom,
                    st == *style,
                    spec_has_border(st),
                    st.border_bottom != BorderStyle::NoBorder,
                    paint == (|a: int, b: int, c: Cell|
                        border_cell(c, stroke_char(rect, st, a, b), border_color, selection_background)),
                    part == (|a: int, b: int| stroke_part(rect, st, a, b)),
                    ok == (|a: int, b: int| old(self)@.paintable(a, b, clip)),
                    old(self)@.repainted(self@, |a: int, b: int| ok(a, b) && (part(a, b) == 1 || (part(a, b) == 2 && a < x)), paint, true, false),
                decreases right + 1 - x,
            {
                let ghost before = self@;
                let character = border_char_at(style, x == left, x == right, false, true);
                self.write_border_cell(x as i32, bottom as i32, character, border_color, selection_background, clip);
                proof {
                    lemma_repainted_compose(old(self)@, before, self@,
                        |a: int, b: int| ok(a, b) && (part(a, b) == 1 || (part(a, b) == 2 && a < x)),
                        |a: int, b: int| a == x && b == bottom && before.paintable(a, b, clip),
                        |a: int, b: int| ok(a, b) && (part(a, b) == 1 || (part(a, b) == 2 && a < x + 1)),
                        paint,
                        |a: int, b: int, c: Cell| border_cell(c, character, border_color, selection_background),
                        true, false);
                }
                x = x + 1;
            }
        }
        proof {
            lemma_repainted_same_covers(old(self)@, self@,
                |a: int, b: int| ok(a, b) && (part(a, b) == 1 || (part(a, b) == 2 && a < x)),
                |a: int, b: int| ok(a, b) && (part(a, b) == 1 || part(a, b) == 2 || (part(a, b) == 3 && b < start)),
                paint, true, false);
        }
        let mut y: i64 = start;
        if style.border_left != BorderStyle::NoBorder {
            let character = border_glyphs(style.border_left).vertical;
            while y <= end
                invariant
                    old(self)@.wf(),
                    self@.wf(),
                    old(self)@.same_units(self@),
                    start <= y,
                    y <= end + 1 || y == start,
                    left == rect.left,
                    right == rect.right - 1,
                    top == rect.top,
                    bottom == rect.bottom - 1,
                    start == (if st.border_top == BorderStyle::NoBorder { top as int } else { top + 1 }),
                    end == (if st.border_bottom == BorderStyle::NoBorder { bottom as int } else { bottom - 1 }),
                    rect.left < rect.right,
                    rect.top < rect.bottom,
                    st == *style,
                    spec_has_border(st),
                    st.border_left != BorderStyle::NoBorder,
                    character == spec_border_glyphs(st.border_left).vertical,
                    paint == (|a: int, b: int, c: Cell|
                        border_cell(c, stroke_char(rect, st, a, b), border_color, selection_background)),
                    part == (|a: int, b: int| stroke_part(rect, st, a, b)),
                    ok == (|a: int, b: int| old(self)@.paintable(a, b, clip)),
                    old(self)@.repainted(self@, |a: int, b: int| ok(a, b) && (part(a, b) == 1 || part(a, b) == 2 || (part(a, b) == 3 && b < y)), paint, true, false),
                decreases end + 1 - y,
            {
                let ghost before = self@;
                self.write_border_cell(left as i32, y as i32, character, border_color, selection_background, clip);
                proof {
                    lemma_repainted_compose(old(self)@, before, self@,
                        |a: int, b: int| ok(a, b) && (part(a, b) == 1 || part(a, b) == 2 || (part(a, b) == 3 && b < y)),
                        |a: int, b: int| a == left && b == y && before.paintable(a, b, clip),
                        |a: int, b: int| ok(a, b) && (part(a, b) == 1 || part(a, b) == 2 || (part(a, b) == 3 && b < y + 1)),
                        paint,
                        |a: int, b: int, c: Cell| border_cell(c, character, border_color, selection_background),
                        true, false);
                }
                y = y + 1;
            }
        }
        proof {
            lemma_repainted_same_covers(old(self)@, self@,
                |a: int, b: int| ok(a, b) && (part(a, b) == 1 || part(a, b) == 2 || (part(a, b) == 3 && b < y)),
                |a: int, b: int| ok(a, b) && (part(a, b) == 1 || part(a, b) == 2 || part(a, b) == 3 || (part(a, b) == 4 && b < start)),
                paint, true, false);
        }
        y = start;
        if style.border_right != BorderStyle::NoBorder && right != left {
            let character = border_glyphs(style.border_right).vertical;
            while y <= end
                invariant
                    old(self)@.wf(),
                    self@.wf(),
                    old(self)@.same_units(self@),
                    start <= y,
                    y <= end + 1 || y == start,
                    left == rect.left,
                    right == rect.right - 1,
                    right != left,
                    top == rect.top,
                    bottom == rect.bottom - 1,
                    start == (if st.border_top == BorderStyle::NoBorder { top as int } else { top + 1 }),
                    end == (if st.border_bottom == BorderStyle::NoBorder { bottom as int } else { bottom - 1 }),
                    rect.left < rect.right,
                    rect.top < rect.bottom,
                    st == *style,
                    spec_has_border(st),
                    st.border_right != BorderStyle::NoBorder,
                    character == spec_border_glyphs(st.border_right).vertical,
                    paint == (|a: int, b: int, c: Cell|
                        border_cell(c, stroke_char(rect, st, a, b), border_color, selection_background)),
                    part == (|a: int, b: int| stroke_part(rect, st, a, b)),
                    ok == (|a: int, b: int| old(self)@.paintable(a, b, clip)),
                    old(self)@.repainted(self@, |a: int, b: int| ok(a, b) && (part(a, b) == 1 || part(a, b) == 2 || part(a, b) == 3 || (part(a, b) == 4 && b < y)), paint, true, false),
                decreases end + 1 - y,
            {
                let ghost before = self@;
                self.write_border_cell(right as i32, y as i32, character, border_color, selection_background, clip);
                proof {
                    lemma_repainted_compose(old(self)@, before, self@,
                        |a: int, b: int| ok(a, b) && (part(a, b) == 1 || part(a, b) == 2 || part(a, b) == 3 || (part(a, b) == 4 && b < y)),
                        |a: int, b: int| a == right && b == y && before.paintable(a, b, clip),
                        |a: int, b: int| ok(a, b) && (part(a, b) == 1 || part(a, b) == 2 || part(a, b) == 3 || (part(a, b) == 4 && b < y + 1)),
                        paint,
                        |a: int, b: int, c: Cell| border_cell(c, character, border_color, selection_background),
                        true, false);
                }
                y = y + 1;
            }
        }
        proof {
            lemma_repainted_same_covers(old(self)@, self@,
                |a: int, b: int| ok(a, b) && (part(a, b) == 1 || part(a, b) == 2 || part(a, b) == 3 || (part(a, b) == 4 && b < y)),
                |a: int, b: int| old(self)@.paintable(a, b, clip) && stroke_part(rect, *style, a, b) != 0,
                paint, true, false);
        }
    }

    /// Shows `selection`, if there is one, on the cells of the selected
    /// glyphs.
    pub fn apply_selection(&mut self, selection: Option<&Selection>)
        requires
            old(self)@.wf(),
        ensures
            final(self)@.wf(),
            selection is None ==> final(self)@ == old(self)@,
            selection matches Some(selection) ==> {
                let (start, end) = spec_normalized_selection(*selection);
                &&& final(self)@.cells.len() == old(self)@.cells.len()
                &&& forall|i: int|
                    0 <= i < old(self)@.cells.len() ==> #[trigger] final(self)@.cells[i]
                        == selected_cell(old(self)@.cells[i], start.order, end.order)
                &&& final(self)@.width == old(self)@.width
                &&& final(self)@.height == old(self)@.height
                &&& final(self)@.painted == old(self)@.painted
                &&& final(self)@.foreground_painted == old(self)@.foreground_painted
                &&& final(self)@.background_painted == old(self)@.background_painted
                &&& old(self)@.same_units(final(self)@)
                &&& final(self)@.capture_hidden_selection_units
                    == old(self)@.capture_hidden_selection_units
            },
    {
        let selection = match selection {
            Some(selection) => selection,
            None => return,
        };
        let (start, end) = normalized_selection(selection);
        let mut i: usize = 0;
        while i < self.cells.len()
            invariant
                old(self)@.wf(),
                self.width == old(self).width,
                self.height == old(self).height,
                self.painted == old(self).painted,
                self.foreground_painted == old(self).foreground_painted,
                self.background_painted == old(self).background_painted,
                self.selection_units == old(self).selection_units,
                self.next_selection_order == old(self).next_selection_order,
                self.capture_hidden_selection_units == old(self).capture_hidden_selection_units,
                self.cells@.len() == old(self)@.cells.len(),
                i <= self.cells@.len(),
                forall|j: int|
                    0 <= j < i ==> #[trigger] self.cells@[j] == selected_cell(
                        old(self)@.cells[j],
                        start.order,
                        end.order,
                    ),
                forall|j: int| i <= j < self.cells@.len() ==> #[trigger] self.cells@[j] == old(self)@.cells[j],
            decreases self.cells@.len() - i,
        {
            let mut cell = self.cells[i];
            let selected = match cell.selection_order {
                Some(order) => order >= start.order && order <= end.order,
                None => false,
            };
            if selected {
                match cell.selection_background {
                    Some(background) => {
                        cell.background = background;
                        cell.reversed = false;
                    },
                    None => {
                        cell.reversed = true;
                    },
                }
                self.cells.set(i, cell);
            }
            i = i + 1;
        }
    }

    /// The text of the selected glyphs: one line per row that the selected
    /// glyphs were painted on, in paint order, each without trailing
    /// whitespace, joined by newlines; `None` when that text is empty.
    pub fn selected_text(&self, selection: &Selection) -> (r: Option<String>)
        requires
            self@.wf(),
        ensures
            ({
                let (start, end) = spec_normalized_selection(*selection);
                let text = selection_text(
                    units_in_range(self@.selection_units, start.order, end.order),
                );
                &&& r is None == (text.len() == 0)
                &&& r matches Some(t) ==> t@ == text
            }),
    {
        let (start, end) = normalized_selection(selection);
        let ghost lo = start.order;
        let ghost hi = end.order;
        let mut text: Vec<char> = Vec::new();
        let mut line: Vec<char> = Vec::new();
        let mut current_row: Option<i32> = None;
        let mut i: usize = 0;
        while i < self.selection_units.len()
            invariant
                i <= self.selection_units@.len(),
                lo == start.order,
                hi == end.order,
                ({
                    let p = units_in_range(self.selection_units@.subrange(0, i as int), lo, hi);
                    let g = last_row_start(p);
                    &&& current_row == (if p.len() == 0 { None } else { Some(p.last().row) })
                    &&& p.len() > 0 ==> line@ == unit_chars(p.subrange(g, p.len() as int))
                    &&& p.len() == 0 ==> line@ == Seq::<char>::empty()
                    &&& text@ == (if p.len() == 0 || g == 0 {
                        Seq::empty()
                    } else {
                        selection_text(p.subrange(0, g)) + seq!['\n']
                    })
                }),
            decreases self.selection_units@.len() - i,
        {
            let unit = self.selection_units[i];
            let ghost p = units_in_range(self.selection_units@.subrange(0, i as int), lo, hi);
            proof {
                assert(self.selection_units@.subrange(0, i + 1).drop_last()
                    =~= self.selection_units@.subrange(0, i as int));
                lemma_last_row_start_bounds(p);
            }
            if unit.order >= start.order && unit.order <= end.order {
                let ghost p2 = p.push(unit);
                proof {
                    assert(p2.drop_last() =~= p);
                    assert(units_in_range(self.selection_units@.subrange(0, i + 1), lo, hi) == p2);
                }
                match current_row {
                    Some(row) => {
                        if row == unit.row {
                            line.push(unit.character);
                            proof {
                                let g = last_row_start(p);
                                assert(last_row_start(p2) == g);
                                assert(p2.subrange(g, p2.len() as int) =~= p.subrange(g, p.len() as int).push(unit));
                                assert(unit_chars(p2.subrange(g, p2.len() as int)) =~= unit_chars(p.subrange(g, p.len() as int)).push(unit.character));
                                assert(p2.subrange(0, g) =~= p.subrange(0, g));
                                assert(current_row == Some(p2.last().row));
                                assert(line@ == unit_chars(p2.subrange(last_row_start(p2), p2.len() as int)));
                                assert(text@ == (if p2.len() == 0 || last_row_start(p2) == 0 {
                                    Seq::empty()
                                } else {
                                    selection_text(p2.subrange(0, last_row_start(p2))) + seq!['\n']
                                }));
                            }
                        } else {
                            let trimmed = trim_end_chars(&line);
                            let ghost old_text = text@;
                            let mut k: usize = 0;
                            while k < trimmed.len()
                                invariant
                                    k <= trimmed@.len(),
                                    text@ == old_text + trimmed@.subrange(0, k as int),
                                decreases trimmed@.len() - k,
                            {
                                text.push(trimmed[k]);
                                proof {
                                    assert(text@ =~= old_text + trimmed@.subrange(0, k + 1));
                                }
                                k = k + 1;
                            }
                            text.push('\n');
                            line = Vec::new();
                            line.push(unit.character);
                            current_row = Some(unit.row);
                            proof {
                                let g = last_row_start(p);
                                assert(last_row_start(p2) == p.len());
                                assert(p2.subrange(0, p.len() as int) =~= p);
                                assert(trimmed@.subrange(0, k as int) =~= trimmed@);
                                assert(p2.subrange(p.len() as int, p2.len() as int) =~= seq![unit]);
                                assert(unit_chars(seq![unit]) =~= seq![unit.character]);
                                if g == 0 {
                                    assert(text@ =~= selection_text(p) + seq!['\n']);
                                } else {
                                    assert(text@ =~= selection_text(p) + seq!['\n']);
                                }
                                assert(current_row == Some(p2.last().row));
                                assert(line@ == unit_chars(p2.subrange(last_row_start(p2), p2.len() as int)));
                                assert(text@ == (if p2.len() == 0 || last_row_start(p2) == 0 {
                                    Seq::empty()
                                } else {
                                    selection_text(p2.subrange(0, last_row_start(p2))) + seq!['\n']
                                }));
                            }
                        }
                    },
                    None => {
                        line.push(unit.character);
                        current_row = Some(unit.row);
                        proof {
                            assert(p.len() == 0);
                            assert(p2 =~= seq![unit]);
                            assert(p2.subrange(0, 1) =~= seq![unit]);
                            assert(unit_chars(seq![unit]) =~= seq![unit.character]);
                            assert(current_row == Some(p2.last().row));
                            assert(line@ == unit_chars(p2.subrange(last_row_start(p2), p2.len() as int)));
                        }
                    },
                }
            } else {
                proof {
                    assert(units_in_range(self.selection_units@.subrange(0, i + 1), lo, hi) == p);
                }
            }
            i = i + 1;
        }
        proof {
            assert(self.selection_units@.subrange(0, i as int) =~= self.selection_units@);
        }
        if current_row.is_none() {
            return None;
        }
        let trimmed = trim_end_chars(&line);
        let ghost old_text = text@;
        let mut k: usize = 0;
        while k < trimmed.len()
            invariant
                k <= trimmed@.len(),
                text@ == old_text + trimmed@.subrange(0, k as int),
            decreases trimmed@.len() - k,
        {
            text.push(trimmed[k]);
            proof {
                assert(text@ =~= old_text + trimmed@.subrange(0, k + 1));
            }
            k = k + 1;
        }
        proof {
            let p = units_in_range(self.selection_units@, lo, hi);
            lemma_last_row_start_bounds(p);
            assert(trimmed@.subrange(0, k as int) =~= trimmed@);
            if last_row_start(p) == 0 {
                assert(text@ =~= selection_text(p));
            } else {
                assert(text@ =~= selection_text(p));
            }
        }
        if text.len() == 0 {
            None
        } else {
            Some(string_from_chars(text.as_slice()))
        }
    }

    /// The selection point for a pointer at `(x, y)`: the pointer is clamped
    /// into the frame, and the point is the glyph on its row nearest to its
    /// column (the leftmost of two equally near ones); `None` when the frame
    /// is empty or the row has no selectable glyph.
    pub fn selection_point_for(&self, x: u32, y: u32) -> (r: Option<SelectionPoint>)
        requires
            self@.wf(),
        ensures
            (self@.width == 0 || self@.height == 0) ==> r is None,
            (self@.width > 0 && self@.height > 0) ==> (r is None == (forall|c: int|
                !#[trigger] self@.selectable(c, self@.clamped_row(y as int)))),
            r matches Some(p) ==> (self@.width > 0 && self@.height > 0 && exists|c: int|
                #[trigger] self@.nearest_selectable_before(
                    self@.clamped_row(y as int),
                    self@.clamped_col(x as int),
                    c,
                    self@.width as int,
                ) && self@.cell(c, self@.clamped_row(y as int)).selection_order == Some(p.order)),
    {
        if self.width == 0 || self.height == 0 {
            return None;
        }
        let row: usize = if (y as usize) < self.height { y as usize } else { self.height - 1 };
        let col: usize = if (x as usize) < self.width { x as usize } else { self.width - 1 };
        proof {
            lemma_index_in_bounds(self.width as int, self.height as int, col as int, row as int);
            assert(self.cells@.len() == self.cells.len());
            assert(row * self.width <= row * self.width + col);
            assert(row * self.width + self.width <= self.width * self.height) by (nonlinear_arith)
                requires row < self.height;
        }
        let row_start = row * self.width;
        assert(row as int == self@.clamped_row(y as int));
        assert(col as int == self@.clamped_col(x as int));
        if let Some(order) = self.cells[row_start + col].selection_order {
            proof {
                assert(self@.at(col as int, row as int) == row_start + col);
                assert(self@.selectable(col as int, row as int));
                assert(self@.nearest_selectable_before(row as int, col as int, col as int, self.width as int));
            }
            return Some(SelectionPoint { order });
        }
        let mut best: Option<(usize, usize)> = None;
        let mut c: usize = 0;
        proof {
            assert(self.cells@.len() == self.cells.len());
        }
        while c < self.width
            invariant
                self@.wf(),
                c <= self.width,
                row < self.height,
                col < self.width,
                row_start == row * self.width,
                row_start + self.width <= self.cells@.len(),
                self.cells@.len() <= usize::MAX,
                best is None ==> forall|c2: int| 0 <= c2 < c ==> !#[trigger] self@.selectable(c2, row as int),
                best matches Some(b) ==> (self@.nearest_selectable_before(row as int, col as int, b.0 as int, c as int)
                    && self@.cell(b.0 as int, row as int).selection_order == Some(b.1)),
            decreases self.width - c,
        {
            proof {
                assert(self@.at(c as int, row as int) == row_start + c);
            }
            if let Some(order) = self.cells[row_start + c].selection_order {
                let distance = if c >= col { c - col } else { col - c };
                let better = match best {
                    None => true,
                    Some((b, _)) => {
                        let best_distance = if b >= col { b - col } else { col - b };
                        distance < best_distance
                    },
                };
                if better {
                    best = Some((c, order));
                }
            }
            c = c + 1;
        }
        match best {
            Some((b, order)) => {
                proof {
                    assert(self@.selectable(b as int, row as int));
                    assert(self@.nearest_selectable_before(row as int, col as int, b as int, self.width as int));
                }
                Some(SelectionPoint { order })
            },
            None => {
                proof {
                    assert forall|c2: int| !#[trigger] self@.selectable(c2, row as int) by {
                        if 0 <= c2 < c {
                        }
                    }
                }
                None
            },
        }
    }

    /// Whether every cell of `row` is blank.
    fn row_is_blank(&self, row: usize) -> (r: bool)
        requires
            self@.wf(),
            row < self@.height,
        ensures
            r == self@.row_blank(row as int),
    {
        proof {
            assert(self.cells@.len() == self.cells.len());
            assert(row * self.width + self.width <= self.width * self.height) by (nonlinear_arith)
                requires row < self.height;
        }
        let start = row * self.width;
        let mut x: usize = 0;
        while x < self.width
            invariant
                self@.wf(),
                row < self@.height,
                start == row * self.width,
                start + self.width <= self.cells@.len(),
                self.cells@.len() <= usize::MAX,
                x <= self.width,
                forall|x2: int| 0 <= x2 < x ==> #[trigger] self@.cell(x2, row as int) == blank_cell(),
            decreases self.width - x,
        {
            proof {
                assert(self@.at(x as int, row as int) == start + x);
            }
            let blank = Cell::default();
            if self.cells[start + x] != blank {
                proof {
                    assert(self@.cell(x as int, row as int) != blank_cell());
                }
                return false;
            }
            x = x + 1;
        }
        true
    }

    /// The first row from which on every row is blank.
    pub fn trailing_empty_rows_start(&self) -> (r: usize)
        requires
            self@.wf(),
        ensures
            r <= self@.height,
            self@.width == 0 ==> r == 0,
            forall|row: int| r <= row < self@.height ==> #[trigger] self@.row_blank(row),
            r > 0 ==> !self@.row_blank(r - 1),
    {
        if self.width == 0 {
            return 0;
        }
        let mut r = self.height;
        while r > 0 && self.row_is_blank(r - 1)
            invariant
                self@.wf(),
                r <= self@.height,
                forall|row: int| r <= row < self@.height ==> #[trigger] self@.row_blank(row),
            decreases r,
        {
            r = r - 1;
        }
        r
    }

    /// The number of cells.
    pub fn cell_count(&self) -> (r: usize)
        requires
            self@.wf(),
        ensures
            r == self@.cells.len(),
    {
        self.cells.len()
    }

    /// The cell at buffer position `index`, with whether it was painted, in
    /// its foreground and in its background.
    pub fn cell_at(&self, index: usize) -> (r: Option<(Cell, bool, bool, bool)>)
        requires
            self@.wf(),
        ensures
            index < self@.cells.len() ==> r == Some(
                (
                    self@.cells[index as int],
                    self@.painted[index as int],
                    self@.foreground_painted[index as int],
                    self@.background_painted[index as int],
                ),
            ),
            index >= self@.cells.len() ==> r is None,
    {
        if index < self.cells.len() {
            Some(
                (
                    self.cells[index],
                    self.painted[index],
                    self.foreground_painted[index],
                    self.background_painted[index],
                ),
            )
        } else {
            None
        }
    }

    /// Puts the result of compositing a layer's cell at buffer position
    /// `index`: the cell is replaced, and each painted mark is added to.
    pub fn merge_composited(
        &mut self,
        index: usize,
        cell: Cell,
        foreground_painted: bool,
        background_painted: bool,
    )
        requires
            old(self)@.wf(),
            index < old(self)@.cells.len(),
        ensures
            final(self)@.wf(),
            final(self)@.width == old(self)@.width,
            final(self)@.height == old(self)@.height,
            final(self)@.selection_units == old(self)@.selection_units,
            final(self)@.next_selection_order == old(self)@.next_selection_order,
            final(self)@.capture_hidden_selection_units == old(self)@.capture_hidden_selection_units,
            final(self)@.cells == old(self)@.cells.update(index as int, cell),
            final(self)@.foreground_painted == old(self)@.foreground_painted.update(
                index as int,
                old(self)@.foreground_painted[index as int] || foreground_painted,
            ),
            final(self)@.background_painted == old(self)@.background_painted.update(
                index as int,
                old(self)@.background_painted[index as int] || background_painted,
            ),
            final(self)@.painted == old(self)@.painted.update(
                index as int,
                old(self)@.painted[index as int] || foreground_painted || background_painted,
            ),
    {
        self.cells.set(index, cell);
        let fg = self.foreground_painted[index] || foreground_painted;
        self.foreground_painted.set(index, fg);
        let bg = self.background_painted[index] || background_painted;
        self.background_painted.set(index, bg);
        let painted = self.painted[index] || foreground_painted || background_painted;
        self.painted.set(index, painted);
    }

    /// A copy of the frame to paint a translucent group into: the same cells
    /// and selection units, with no cell marked painted.
    pub fn layer(&self) -> (r: Self)
        requires
            self@.wf(),
        ensures
            r@.wf(),
            r@.width == self@.width,
            r@.height == self@.height,
            r@.cells == self@.cells,
            self@.same_units(r@),
            r@.capture_hidden_selection_units == self@.capture_hidden_selection_units,
            forall|i: int| 0 <= i < r@.painted.len() ==> !#[trigger] r@.painted[i],
            forall|i: int|
                0 <= i < r@.foreground_painted.len() ==> !#[trigger] r@.foreground_painted[i],
            forall|i: int|
                0 <= i < r@.background_painted.len() ==> !#[trigger] r@.background_painted[i],
    {
        let n = self.cells.len();
        let mut cells: Vec<Cell> = Vec::new();
        let mut painted: Vec<bool> = Vec::new();
        let mut foreground_painted: Vec<bool> = Vec::new();
        let mut background_painted: Vec<bool> = Vec::new();
        let mut i: usize = 0;
        while i < n
            invariant
                n == self.cells@.len(),
                i <= n,
                cells@ == self.cells@.subrange(0, i as int),
                painted.len() == i,
                foreground_painted.len() == i,
                background_painted.len() == i,
                forall|j: int| 0 <= j < i ==> !#[trigger] painted@[j],
                forall|j: int| 0 <= j < i ==> !#[trigger] foreground_painted@[j],
                forall|j: int| 0 <= j < i ==> !#[trigger] background_painted@[j],
            decreases n - i,
        {
            cells.push(self.cells[i]);
            painted.push(false);
            foreground_painted.push(false);
            background_painted.push(false);
            proof {
                assert(cells@ =~= self.cells@.subrange(0, i + 1));
            }
            i = i + 1;
        }
        proof {
            assert(cells@ =~= self.cells@);
        }
        let m = self.selection_units.len();
        let mut units: Vec<SelectionUnit> = Vec::new();
        let mut k: usize = 0;
        while k < m
            invariant
                m == self.selection_units@.len(),
                k <= m,
                units@ == self.selection_units@.subrange(0, k as int),
            decreases m - k,
        {
            units.push(self.selection_units[k]);
            proof {
                assert(units@ =~= self.selection_units@.subrange(0, k + 1));
            }
            k = k + 1;
        }
        proof {
            assert(units@ =~= self.selection_units@);
        }
        Frame {
            width: self.width,
            height: self.height,
            cells,
            painted,
            foreground_painted,
            background_painted,
            selection_units: units,
            next_selection_order: self.next_selection_order,
            capture_hidden_selection_units: self.capture_hidden_selection_units,
        }
    }
}

/// In a well-formed frame each selection unit has its own order, and the
/// orders increase in the order the units were recorded.
pub proof fn lemma_selection_orders_increase(frame: FrameView)
    requires
        frame.wf(),
    ensures
        forall|i: int, j: int|
            0 <= i < j < frame.selection_units.len() ==> (#[trigger] frame.selection_units[i]).order
                < (#[trigger] frame.selection_units[j]).order,
        forall|i: int|
            0 <= i < frame.selection_units.len() ==> (#[trigger] frame.selection_units[i]).order
                < frame.next_selection_order,
{
}

} // verus!
