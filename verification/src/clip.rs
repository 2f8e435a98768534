//! Rectangles in cell coordinates and the clip bounds that scroll and
//! overflow containers impose on painting.

use vstd::prelude::*;

verus! {

/// A half-open rectangle `[left, right) x [top, bottom)` in cell
/// coordinates.
#[derive(Clone, Copy, Debug, PartialEq, Eq, Structural)]
pub struct ClipRect {
    pub left: i32,
    pub top: i32,
    pub right: i32,
    pub bottom: i32,
}

/// Per-edge clip limits; an absent edge does not clip.
#[derive(Clone, Copy, Debug, PartialEq, Eq, Structural)]
pub struct ClipBounds {
    pub left: Option<i32>,
    pub top: Option<i32>,
    pub right: Option<i32>,
    pub bottom: Option<i32>,
}

pub open spec fn spec_max(a: int, b: int) -> int {
    if a >= b { a } else { b }
}

pub open spec fn spec_min(a: int, b: int) -> int {
    if a <= b { a } else { b }
}

/// `value` saturated into the range of `i32`.
pub open spec fn saturate_i32(value: int) -> int {
    if value > i32::MAX { i32::MAX as int } else if value < i32::MIN { i32::MIN as int } else { value }
}

/// The tighter of two optional lower limits.
pub open spec fn spec_max_option(a: Option<i32>, b: Option<i32>) -> Option<i32> {
    match (a, b) {
        (Some(a), Some(b)) => Some(if a >= b { a } else { b }),
        (Some(a), None) => Some(a),
        (None, Some(b)) => Some(b),
        (None, None) => None,
    }
}

/// The tighter of two optional upper limits.
pub open spec fn spec_min_option(a: Option<i32>, b: Option<i32>) -> Option<i32> {
    match (a, b) {
        (Some(a), Some(b)) => Some(if a <= b { a } else { b }),
        (Some(a), None) => Some(a),
        (None, Some(b)) => Some(b),
        (None, None) => None,
    }
}

/// The larger of two optional values, where an absent value imposes nothing.
pub fn max_option(a: Option<i32>, b: Option<i32>) -> (r: Option<i32>)
    ensures
        r == spec_max_option(a, b),
{
    match (a, b) {
        (Some(a), Some(b)) => Some(if a >= b { a } else { b }),
        (Some(a), None) => Some(a),
        (None, Some(b)) => Some(b),
        (None, None) => None,
    }
}

/// The smaller of two optional values, where an absent value imposes nothing.
pub fn min_option(a: Option<i32>, b: Option<i32>) -> (r: Option<i32>)
    ensures
        r == spec_min_option(a, b),
{
    match (a, b) {
        (Some(a), Some(b)) => Some(if a <= b { a } else { b }),
        (Some(a), None) => Some(a),
        (None, Some(b)) => Some(b),
        (None, None) => None,
    }
}

impl ClipRect {
    /// Whether the cell `(x, y)` lies in the rectangle.
    pub open spec fn has_point(self, x: int, y: int) -> bool {
        self.left <= x < self.right && self.top <= y < self.bottom
    }

    /// The rectangle at `(x, y)` with the given size; a negative size
    /// counts as zero.
    pub fn new(x: i32, y: i32, width: i32, height: i32) -> (r: Self)
        requires
            x + spec_max(width as int, 0) <= i32::MAX,
            y + spec_max(height as int, 0) <= i32::MAX,
        ensures
            r.left == x,
            r.top == y,
            r.right == x + spec_max(width as int, 0),
            r.bottom == y + spec_max(height as int, 0),
    {
        ClipRect {
            left: x,
            top: y,
            right: x + if width >= 0 { width } else { 0 },
            bottom: y + if height >= 0 { height } else { 0 },
        }
    }

    /// `right - left`, saturated into `i32`.
    pub fn width(self) -> (r: i32)
        ensures
            r == saturate_i32(self.right - self.left),
    {
        let difference: i64 = self.right as i64 - self.left as i64;
        if difference > i32::MAX as i64 {
            i32::MAX
        } else if difference < i32::MIN as i64 {
            i32::MIN
        } else {
            difference as i32
        }
    }

    /// `bottom - top`, saturated into `i32`.
    pub fn height(self) -> (r: i32)
        ensures
            r == saturate_i32(self.bottom - self.top),
    {
        let difference: i64 = self.bottom as i64 - self.top as i64;
        if difference > i32::MAX as i64 {
            i32::MAX
        } else if difference < i32::MIN as i64 {
            i32::MIN
        } else {
            difference as i32
        }
    }
}

impl ClipBounds {
    /// Whether `(x, y)` passes every present edge.
    pub open spec fn admits(self, x: int, y: int) -> bool {
        &&& (self.left matches Some(left) ==> x >= left)
        &&& (self.right matches Some(right) ==> x < right)
        &&& (self.top matches Some(top) ==> y >= top)
        &&& (self.bottom matches Some(bottom) ==> y < bottom)
    }

    /// The rectangle that clipping `rect` leaves, before the emptiness test.
    pub open spec fn clipped(self, rect: ClipRect) -> ClipRect {
        ClipRect {
            left: match self.left {
                Some(left) => if rect.left >= left { rect.left } else { left },
                None => rect.left,
            },
            top: match self.top {
                Some(top) => if rect.top >= top { rect.top } else { top },
                None => rect.top,
            },
            right: match self.right {
                Some(right) => if rect.right <= right { rect.right } else { right },
                None => rect.right,
            },
            bottom: match self.bottom {
                Some(bottom) => if rect.bottom <= bottom { rect.bottom } else { bottom },
                None => rect.bottom,
            },
        }
    }

    /// What `clip_rect` returns.
    pub open spec fn spec_clip_rect(self, rect: ClipRect) -> Option<ClipRect> {
        let clipped = self.clipped(rect);
        if clipped.left < clipped.right && clipped.top < clipped.bottom {
            Some(clipped)
        } else {
            None
        }
    }

    /// Bounds that clip nothing.
    pub fn unbounded() -> (r: Self)
        ensures
            r.left is None,
            r.top is None,
            r.right is None,
            r.bottom is None,
    {
        ClipBounds { left: None, top: None, right: None, bottom: None }
    }

    /// The edges of `rect` on the axes that are enabled.
    pub fn from_rect_axes(rect: ClipRect, clip_x: bool, clip_y: bool) -> (r: Self)
        ensures
            r.left == (if clip_x { Some(rect.left) } else { None }),
            r.right == (if clip_x { Some(rect.right) } else { None }),
            r.top == (if clip_y { Some(rect.top) } else { None }),
            r.bottom == (if clip_y { Some(rect.bottom) } else { None }),
    {
        ClipBounds {
            left: if clip_x { Some(rect.left) } else { None },
            top: if clip_y { Some(rect.top) } else { None },
            right: if clip_x { Some(rect.right) } else { None },
            bottom: if clip_y { Some(rect.bottom) } else { None },
        }
    }

    /// The bounds that admit exactly what both admit.
    pub fn intersect(self, other: Self) -> (r: Self)
        ensures
            r == spec_intersect(self, other),
    {
        ClipBounds {
            left: max_option(self.left, other.left),
            top: max_option(self.top, other.top),
            right: min_option(self.right, other.right),
            bottom: min_option(self.bottom, other.bottom),
        }
    }

    /// The part of `rect` inside the bounds, or `None` when it is empty.
    pub fn clip_rect(self, rect: ClipRect) -> (r: Option<ClipRect>)
        ensures
            r == self.spec_clip_rect(rect),
    {
        let clipped = ClipRect {
            left: match self.left {
                Some(left) => if rect.left >= left { rect.left } else { left },
                None => rect.left,
            },
            top: match self.top {
                Some(top) => if rect.top >= top { rect.top } else { top },
                None => rect.top,
            },
            right: match self.right {
                Some(right) => if rect.right <= right { rect.right } else { right },
                None => rect.right,
            },
            bottom: match self.bottom {
                Some(bottom) => if rect.bottom <= bottom { rect.bottom } else { bottom },
                None => rect.bottom,
            },
        };
        if clipped.left < clipped.right && clipped.top < clipped.bottom {
            Some(clipped)
        } else {
            None
        }
    }

    /// Whether the cell `(x, y)` is inside the bounds.
    pub fn contains(self, x: i32, y: i32) -> (r: bool)
        ensures
            r == self.admits(x as int, y as int),
    {
        (match self.left { Some(left) => x >= left, None => true })
            && (match self.right { Some(right) => x < right, None => true })
            && (match self.top { Some(top) => y >= top, None => true })
            && (match self.bottom { Some(bottom) => y < bottom, None => true })
    }

    /// The vertical limits, when both are present.
    pub fn vertical_range(self) -> (r: Option<(i32, i32)>)
        ensures
            r == (match (self.top, self.bottom) {
                (Some(top), Some(bottom)) => Some((top, bottom)),
                _ => None,
            }),
    {
        match (self.top, self.bottom) {
            (Some(top), Some(bottom)) => Some((top, bottom)),
            _ => None,
        }
    }
}

/// The bounds that `intersect` builds from `a` and `b`.
pub open spec fn spec_intersect(a: ClipBounds, b: ClipBounds) -> ClipBounds {
    ClipBounds {
        left: spec_max_option(a.left, b.left),
        top: spec_max_option(a.top, b.top),
        right: spec_min_option(a.right, b.right),
        bottom: spec_min_option(a.bottom, b.bottom),
    }
}

/// The bounds that `from_rect_axes` builds with both axes enabled.
pub open spec fn rect_bounds(rect: ClipRect) -> ClipBounds {
    ClipBounds {
        left: Some(rect.left),
        top: Some(rect.top),
        right: Some(rect.right),
        bottom: Some(rect.bottom),
    }
}

/// A point passes the intersection of two bounds exactly when it passes
/// both of them.
pub proof fn lemma_intersect_admits(a: ClipBounds, b: ClipBounds, x: int, y: int)
    ensures
        spec_intersect(a, b).admits(x, y) == (a.admits(x, y) && b.admits(x, y)),
{
}

/// Intersection of bounds does not depend on the order of its operands.
pub proof fn lemma_intersect_commutes(a: ClipBounds, b: ClipBounds)
    ensures
        spec_intersect(a, b) == spec_intersect(b, a),
{
}

/// Intersection of bounds is associative.
pub proof fn lemma_intersect_associates(a: ClipBounds, b: ClipBounds, c: ClipBounds)
    ensures
        spec_intersect(spec_intersect(a, b), c) == spec_intersect(a, spec_intersect(b, c)),
{
}

/// Clipping a rectangle keeps exactly its cells that the bounds admit, and
/// reports `None` exactly when there are none.
pub proof fn lemma_clip_rect_keeps_admitted_cells(bounds: ClipBounds, rect: ClipRect, x: int, y: int)
    ensures
        (rect.has_point(x, y) && bounds.admits(x, y)) ==> (bounds.spec_clip_rect(rect) is Some
            && bounds.spec_clip_rect(rect).unwrap().has_point(x, y)),
        (bounds.spec_clip_rect(rect) is Some && bounds.spec_clip_rect(rect).unwrap().has_point(x, y))
            ==> (rect.has_point(x, y) && bounds.admits(x, y)),
{
}

/// Bounds made from a rectangle on both axes admit exactly its cells.
pub proof fn lemma_rect_bounds_admit_rect(rect: ClipRect, x: int, y: int)
    ensures
        rect_bounds(rect).admits(x, y) == rect.has_point(x, y),
{
}

} // verus!
