//! Rectangles in absolute cell coordinates, pointer clamping, the scroll
//! position that keeps a text area's cursor in view, and the white-space and
//! word rules that inline text layout follows.

use vstd::prelude::*;
use crate::frame::{is_whitespace, spec_is_whitespace};
use crate::style::{CssWhiteSpace, LayoutOverflow};

verus! {

/// A rectangle of cells, from its left and top edges (inclusive) to its
/// right and bottom edges (exclusive).
#[derive(Clone, Copy, Debug, PartialEq, Eq, Structural)]
pub struct AbsoluteRect {
    pub left: i32,
    pub top: i32,
    pub right: i32,
    pub bottom: i32,
}

pub open spec fn min_i(a: int, b: int) -> int {
    if a <= b { a } else { b }
}

pub open spec fn max_i(a: int, b: int) -> int {
    if a >= b { a } else { b }
}

impl AbsoluteRect {
    /// The rectangle between two edges on each axis, in whichever order
    /// they are given.
    pub fn from_edges(left: i32, top: i32, right: i32, bottom: i32) -> (r: Self)
        ensures
            r.left == min_i(left as int, right as int),
            r.right == max_i(left as int, right as int),
            r.top == min_i(top as int, bottom as int),
            r.bottom == max_i(top as int, bottom as int),
    {
        AbsoluteRect {
            left: if left <= right { left } else { right },
            top: if top <= bottom { top } else { bottom },
            right: if right >= left { right } else { left },
            bottom: if bottom >= top { bottom } else { top },
        }
    }

    /// Whether the cell at (`x`, `y`) lies inside.
    pub fn contains(self, x: i32, y: i32) -> (r: bool)
        ensures
            r == (self.left <= x < self.right && self.top <= y < self.bottom),
    {
        x >= self.left && x < self.right && y >= self.top && y < self.bottom
    }

    /// The number of columns, none when the edges are crossed.
    pub fn width(self) -> (r: u32)
        requires
            self.right - self.left <= i32::MAX,
        ensures
            r == max_i(self.right - self.left, 0),
    {
        if self.right > self.left {
            (self.right - self.left) as u32
        } else {
            0
        }
    }

    /// The number of rows, none when the edges are crossed.
    pub fn height(self) -> (r: u32)
        requires
            self.bottom - self.top <= i32::MAX,
        ensures
            r == max_i(self.bottom - self.top, 0),
    {
        if self.bottom > self.top {
            (self.bottom - self.top) as u32
        } else {
            0
        }
    }
}

/// A pointer coordinate clamped into the span `[start, end)` of a
/// rectangle, and to zero: the span's start where the span is empty.
pub open spec fn spec_clamp_pointer(value: int, start: int, end: int) -> int {
    if end <= start {
        max_i(start, 0)
    } else {
        max_i(min_i(max_i(value, start), end - 1), 0)
    }
}

/// A pointer coordinate clamped into the span `[start, end)` of a
/// rectangle, and to zero.
pub fn clamp_pointer_to_rect_axis(value: i32, start: i32, end: i32) -> (r: u32)
    ensures
        r == spec_clamp_pointer(value as int, start as int, end as int),
{
    if end <= start {
        return if start > 0 { start as u32 } else { 0 };
    }
    let low = if value < start { start } else { value };
    let clamped = if low > end - 1 { end - 1 } else { low };
    if clamped > 0 { clamped as u32 } else { 0 }
}

/// The top row that shows cursor row `cursor_row` as the last row of a
/// viewport `viewport_height` rows high (zero when it fits from the top),
/// with the row below the cursor saturated at the largest `usize`.
pub open spec fn spec_textarea_scroll_top(cursor_row: int, viewport_height: int) -> int {
    if viewport_height == 0 {
        0
    } else {
        max_i(min_i(cursor_row + 1, usize::MAX as int) - viewport_height, 0)
    }
}

/// The top row that shows the cursor row as the viewport's last row.
pub fn textarea_scroll_top(cursor_row: usize, viewport_height: usize) -> (r: usize)
    ensures
        r == spec_textarea_scroll_top(cursor_row as int, viewport_height as int),
{
    if viewport_height == 0 {
        return 0;
    }
    let below = if cursor_row < usize::MAX { cursor_row + 1 } else { usize::MAX };
    if below > viewport_height {
        below - viewport_height
    } else {
        0
    }
}

/// The top row of a text area after its cursor moved to `cursor_row`: kept
/// while the cursor stays in view, else scrolled just enough to show it, and
/// never past `max_top`.
pub open spec fn spec_scroll_top_for_cursor(
    current: int,
    cursor_row: int,
    viewport_height: int,
    max_top: int,
) -> int {
    if viewport_height == 0 {
        0
    } else if cursor_row < current {
        min_i(cursor_row, max_top)
    } else if cursor_row >= min_i(current + viewport_height, usize::MAX as int) {
        min_i(spec_textarea_scroll_top(cursor_row, viewport_height), max_top)
    } else {
        min_i(current, max_top)
    }
}

/// The top row of a text area after its cursor moved to `cursor_row`.
pub fn textarea_scroll_top_for_cursor(
    current: usize,
    cursor_row: usize,
    viewport_height: usize,
    max_top: usize,
) -> (r: usize)
    ensures
        r == spec_scroll_top_for_cursor(
            current as int,
            cursor_row as int,
            viewport_height as int,
            max_top as int,
        ),
{
    if viewport_height == 0 {
        return 0;
    }
    if cursor_row < current {
        return if cursor_row < max_top { cursor_row } else { max_top };
    }
    let bottom = if current <= usize::MAX - viewport_height {
        current + viewport_height
    } else {
        usize::MAX
    };
    if cursor_row >= bottom {
        let top = textarea_scroll_top(cursor_row, viewport_height);
        return if top < max_top { top } else { max_top };
    }
    if current < max_top { current } else { max_top }
}

/// A text area whose cursor is moved to a row keeps that row in view.
pub proof fn lemma_scroll_top_keeps_cursor_visible(
    current: int,
    cursor_row: int,
    viewport_height: int,
    max_top: int,
)
    requires
        current >= 0,
        cursor_row >= 0,
        viewport_height > 0,
        cursor_row <= max_top + viewport_height - 1,
        current + viewport_height <= usize::MAX,
        cursor_row < usize::MAX,
    ensures
        ({
            let top = spec_scroll_top_for_cursor(current, cursor_row, viewport_height, max_top);
            top <= cursor_row < top + viewport_height
        }),
{
}

/// How far an axis can scroll: its overflow extent where it scrolls, none
/// otherwise.
pub fn axis_max_scroll(overflow: LayoutOverflow, max_scroll: u32) -> (r: u32)
    ensures
        r == (if overflow == LayoutOverflow::Scroll { max_scroll } else { 0 }),
{
    if overflow == LayoutOverflow::Scroll {
        max_scroll
    } else {
        0
    }
}

/// Whether text may wrap under a `white-space` value.
pub open spec fn spec_allows_wrapping(white_space: CssWhiteSpace) -> bool {
    white_space == CssWhiteSpace::Normal || white_space == CssWhiteSpace::PreWrap || white_space
        == CssWhiteSpace::PreLine
}

/// Whether text may wrap under a `white-space` value.
pub fn white_space_allows_wrapping(white_space: CssWhiteSpace) -> (r: bool)
    ensures
        r == spec_allows_wrapping(white_space),
{
    match white_space {
        CssWhiteSpace::Normal | CssWhiteSpace::PreWrap | CssWhiteSpace::PreLine => true,
        _ => false,
    }
}

/// Whether newlines break lines under a `white-space` value.
pub open spec fn spec_preserves_newlines(white_space: CssWhiteSpace) -> bool {
    white_space == CssWhiteSpace::Pre || white_space == CssWhiteSpace::PreWrap || white_space
        == CssWhiteSpace::PreLine
}

/// Whether newlines break lines under a `white-space` value.
pub fn white_space_preserves_newlines(white_space: CssWhiteSpace) -> (r: bool)
    ensures
        r == spec_preserves_newlines(white_space),
{
    match white_space {
        CssWhiteSpace::Pre | CssWhiteSpace::PreWrap | CssWhiteSpace::PreLine => true,
        _ => false,
    }
}

/// The `white-space` of an element: its own, unless that is `normal`, in
/// which case the inherited one.
pub fn effective_white_space(inherited: CssWhiteSpace, own: CssWhiteSpace) -> (r: CssWhiteSpace)
    ensures
        r == (if own == CssWhiteSpace::Normal { inherited } else { own }),
{
    if own == CssWhiteSpace::Normal {
        inherited
    } else {
        own
    }
}

/// The end of the word at `start`: the first whitespace at or after it, or
/// the end of the text.
pub fn next_word_end(chars: &[char], start: usize) -> (r: usize)
    ensures
        r >= start,
        r == start || r <= chars@.len(),
        r < chars@.len() ==> spec_is_whitespace(chars@[r as int]),
        forall|i: int| start <= i < r ==> !spec_is_whitespace(#[trigger] chars@[i]),
{
    let mut index = start;
    while index < chars.len() && !is_whitespace(chars[index])
        invariant
            start <= index,
            index == start || index <= chars@.len(),
            forall|i: int| start <= i < index ==> !spec_is_whitespace(#[trigger] chars@[i]),
        decreases chars@.len() - index,
    {
        index = index + 1;
    }
    index
}

/// Whether a word starts at `index`: a non-whitespace character at the
/// start of the text or after whitespace.
pub fn is_word_start(chars: &[char], index: usize) -> (r: bool)
    requires
        index < chars@.len(),
    ensures
        r == (!spec_is_whitespace(chars@[index as int]) && (index == 0 || spec_is_whitespace(
            chars@[index - 1],
        ))),
{
    !is_whitespace(chars[index]) && (index == 0 || is_whitespace(chars[index - 1]))
}

/// `value` moved by `delta`, saturated to the range of `u32`.
pub open spec fn saturating_shift(value: int, delta: int) -> int {
    if value + delta < 0 {
        0
    } else if value + delta > u32::MAX {
        u32::MAX as int
    } else {
        value + delta
    }
}

/// How far a scroll offset moves on one axis while a selection drag is
/// at `pointer`, outside the scrollport `[start, end)`: back by the distance
/// before the start, forward by the distance past the end (counting the
/// end cell), not at all inside.
pub open spec fn autoscroll_delta(pointer: int, start: int, end: int) -> int {
    if pointer < start {
        pointer - start
    } else if pointer >= end {
        pointer - end + 1
    } else {
        0
    }
}

fn autoscroll_axis(offset: u32, pointer: u32, start: i32, end: i32) -> (r: u32)
    requires
        start < end,
    ensures
        r == saturating_shift(
            offset as int,
            autoscroll_delta(min_i(pointer as int, i32::MAX as int), start as int, end as int),
        ),
{
    let p: i32 = if pointer > i32::MAX as u32 { i32::MAX } else { pointer as i32 };
    if p < start {
        let back = (start as i64 - p as i64) as u64;
        if (offset as u64) < back { 0 } else { (offset as u64 - back) as u32 }
    } else if p >= end {
        let forward = (p as i64 - end as i64 + 1) as u64;
        let moved = offset as u64 + forward;
        if moved > u32::MAX as u64 { u32::MAX } else { moved as u32 }
    } else {
        offset
    }
}

/// The scroll offsets that a selection drag at (`x`, `y`) asks of a scroll
/// container whose scrollport is `rect`: each axis moves by how far the
/// pointer lies outside the scrollport on it; an empty scrollport does not
/// scroll.
pub fn autoscroll_offsets(rect: AbsoluteRect, x: u32, y: u32, scroll_left: u32, scroll_top: u32) -> (r:
    Option<(u32, u32)>)
    ensures
        (rect.left >= rect.right || rect.top >= rect.bottom) ==> r is None,
        (rect.left < rect.right && rect.top < rect.bottom) ==> r == Some(
            (
                saturating_shift(
                    scroll_left as int,
                    autoscroll_delta(
                        min_i(x as int, i32::MAX as int),
                        rect.left as int,
                        rect.right as int,
                    ),
                ) as u32,
                saturating_shift(
                    scroll_top as int,
                    autoscroll_delta(
                        min_i(y as int, i32::MAX as int),
                        rect.top as int,
                        rect.bottom as int,
                    ),
                ) as u32,
            ),
        ),
{
    if rect.left >= rect.right || rect.top >= rect.bottom {
        return None;
    }
    Some(
        (
            autoscroll_axis(scroll_left, x, rect.left, rect.right),
            autoscroll_axis(scroll_top, y, rect.top, rect.bottom),
        ),
    )
}

} // verus!
