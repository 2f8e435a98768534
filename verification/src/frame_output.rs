//! What writing a frame to the terminal consists of: which spans of cells
//! changed since the previous frame, and the cursor moves, text attributes,
//! colours and glyphs that draw a span.

use vstd::prelude::*;
use crate::frame::{Cell, Frame, FrameView, blank_cell};
use crate::style::Background;

verus! {

/// The cells `[start, end)` of a row.
#[derive(Clone, Copy, Debug, PartialEq, Eq, Structural)]
pub struct Span {
    pub row: usize,
    pub start: usize,
    pub end: usize,
}

/// Whether the cell at (`col`, `row`) differs between two frames.
pub open spec fn cell_changed(previous: FrameView, next: FrameView, col: int, row: int) -> bool {
    previous.cell(col, row) != next.cell(col, row)
}

/// Where the run of changed cells that starts at `col` ends: the first
/// unchanged column at or after it, or the row's end.
pub open spec fn run_end(previous: FrameView, next: FrameView, row: int, col: int) -> int
    decreases next.width - col,
{
    if col >= next.width || !cell_changed(previous, next, col, row) {
        col
    } else {
        run_end(previous, next, row, col + 1)
    }
}

/// The maximal runs of changed cells of a row from column `col` on, in order.
pub open spec fn changed_runs(previous: FrameView, next: FrameView, row: int, col: int) -> Seq<Span>
    decreases next.width - col,
{
    if col >= next.width {
        seq![]
    } else if !cell_changed(previous, next, col, row) {
        changed_runs(previous, next, row, col + 1)
    } else {
        proof {
            lemma_run_end_bounds(previous, next, row, col + 1);
        }
        let end = run_end(previous, next, row, col + 1);
        seq![Span { row: row as usize, start: col as usize, end: end as usize }] + changed_runs(
            previous,
            next,
            row,
            end,
        )
    }
}

/// The maximal runs of changed cells of the first `rows` rows, row by row.
pub open spec fn changed_spans_spec(previous: FrameView, next: FrameView, rows: int) -> Seq<Span>
    decreases rows,
{
    if rows <= 0 {
        seq![]
    } else {
        changed_spans_spec(previous, next, rows - 1) + changed_runs(previous, next, rows - 1, 0)
    }
}

/// A run that starts at `col` ends no earlier than `col` and no later than
/// the row's end.
pub proof fn lemma_run_end_bounds(previous: FrameView, next: FrameView, row: int, col: int)
    requires
        col <= next.width,
    ensures
        col <= run_end(previous, next, row, col) <= next.width,
    decreases next.width - col,
{
    if col < next.width && cell_changed(previous, next, col, row) {
        lemma_run_end_bounds(previous, next, row, col + 1);
    }
}

/// What to write to bring the terminal from one frame to the next.
#[derive(Clone, Debug)]
pub enum FramePlan {
    /// Repaint every row up to the last non-blank one, after clearing the
    /// screen when asked.
    Full { clear_first: bool },
    /// Repaint these spans only.
    Spans(Vec<Span>),
}

impl Frame {
    /// The maximal runs of cells that differ from `previous`, row by row;
    /// `None` when the frames differ in size.
    pub fn changed_spans(&self, previous: &Frame) -> (r: Option<Vec<Span>>)
        requires
            self@.wf(),
            previous@.wf(),
        ensures
            (previous@.width != self@.width || previous@.height != self@.height) ==> r is None,
            (previous@.width == self@.width && previous@.height == self@.height) ==> (r matches Some(
                spans,
            ) && spans@ == changed_spans_spec(previous@, self@, self@.height as int)),
    {
        let width = self.width();
        let height = self.height();
        if previous.width() != width || previous.height() != height {
            return None;
        }
        let mut spans: Vec<Span> = Vec::new();
        let mut row: usize = 0;
        while row < height
            invariant
                self@.wf(),
                previous@.wf(),
                width == self@.width,
                height == self@.height,
                previous@.width == width,
                previous@.height == height,
                row <= height,
                spans@ == changed_spans_spec(previous@, self@, row as int),
            decreases height - row,
        {
            let ghost before = spans@;
            let mut col: usize = 0;
            while col < width
                invariant
                    self@.wf(),
                    previous@.wf(),
                    width == self@.width,
                    height == self@.height,
                    previous@.width == width,
                    previous@.height == height,
                    row < height,
                    col <= width,
                    spans@ + changed_runs(previous@, self@, row as int, col as int) == before
                        + changed_runs(previous@, self@, row as int, 0),
                decreases width - col,
            {
                let same = match (self.cell(col, row), previous.cell(col, row)) {
                    (Some(a), Some(b)) => a == b,
                    _ => true,
                };
                if same {
                    col = col + 1;
                } else {
                    let start = col;
                    col = col + 1;
                    while col < width
                        invariant
                            self@.wf(),
                            previous@.wf(),
                            width == self@.width,
                            previous@.width == width,
                            previous@.height == self@.height,
                            row < self@.height,
                            start < col <= width,
                            run_end(previous@, self@, row as int, start as int + 1) == run_end(
                                previous@,
                                self@,
                                row as int,
                                col as int,
                            ),
                        ensures
                            start < col <= width,
                            run_end(previous@, self@, row as int, start as int + 1) == run_end(
                                previous@,
                                self@,
                                row as int,
                                col as int,
                            ),
                            col == width || !cell_changed(previous@, self@, col as int, row as int),
                        decreases width - col,
                    {
                        let same = match (self.cell(col, row), previous.cell(col, row)) {
                            (Some(a), Some(b)) => a == b,
                            _ => true,
                        };
                        if same {
                            break;
                        }
                        col = col + 1;
                    }
                    proof {
                        lemma_run_end_bounds(previous@, self@, row as int, col as int);
                        assert(run_end(previous@, self@, row as int, col as int) == col);
                    }
                    let ghost old_spans = spans@;
                    spans.push(Span { row, start, end: col });
                    proof {
                        assert(spans@ + changed_runs(previous@, self@, row as int, col as int)
                            =~= old_spans + changed_runs(previous@, self@, row as int, start as int));
                    }
                }
            }
            proof {
                assert(spans@ =~= before + changed_runs(previous@, self@, row as int, 0));
            }
            row = row + 1;
        }
        Some(spans)
    }

    /// What to write to bring the terminal from `previous` to this frame:
    /// everything when there is no previous frame, everything on a cleared
    /// screen when the size changed, else the changed spans.
    pub fn diff_plan(&self, previous: Option<&Frame>) -> (r: FramePlan)
        requires
            self@.wf(),
            previous matches Some(p) ==> p@.wf(),
        ensures
            previous is None ==> (r matches FramePlan::Full { clear_first } && !clear_first),
            previous matches Some(p) ==> ((p@.width != self@.width || p@.height != self@.height)
                ==> (r matches FramePlan::Full { clear_first } && clear_first)),
            previous matches Some(p) ==> ((p@.width == self@.width && p@.height == self@.height)
                ==> (r matches FramePlan::Spans(spans) && spans@ == changed_spans_spec(
                p@,
                self@,
                self@.height as int,
            ))),
    {
        match previous {
            None => FramePlan::Full { clear_first: false },
            Some(previous) => match self.changed_spans(previous) {
                Some(spans) => FramePlan::Spans(spans),
                None => FramePlan::Full { clear_first: true },
            },
        }
    }

    /// The rows a full repaint writes: each whole row up to the last
    /// non-blank one.
    pub fn full_frame_spans(&self) -> (r: Vec<Span>)
        requires
            self@.wf(),
        ensures
            forall|i: int|
                0 <= i < r@.len() ==> #[trigger] r@[i] == (Span {
                    row: i as usize,
                    start: 0,
                    end: self@.width as usize,
                }),
            r@.len() <= self@.height,
            forall|row: int| r@.len() <= row < self@.height ==> #[trigger] self@.row_blank(row),
            r@.len() > 0 ==> !self@.row_blank(r@.len() - 1),
    {
        let rows = self.trailing_empty_rows_start();
        let width = self.width();
        let mut spans: Vec<Span> = Vec::new();
        let mut row: usize = 0;
        while row < rows
            invariant
                row <= rows,
                width == self@.width,
                spans@.len() == row,
                forall|i: int|
                    0 <= i < row ==> #[trigger] spans@[i] == (Span {
                        row: i as usize,
                        start: 0,
                        end: width,
                    }),
            decreases rows - row,
        {
            spans.push(Span { row, start: 0, end: width });
            row = row + 1;
        }
        spans
    }
}

/// One piece of the output that draws a span.
#[derive(Clone, Copy, Debug, PartialEq, Eq, Structural)]
pub enum SpanPiece {
    /// Move the cursor to a cell (zero-based).
    MoveTo { row: usize, col: usize },
    /// Select graphic rendition with this code.
    Sgr(u8),
    /// Set the background colour.
    Background(Background),
    /// Set the foreground colour.
    Foreground(Background),
    /// Draw a glyph.
    Glyph(char),
    /// Reset reverse video, weight, italics, underline, strikethrough and
    /// both colours.
    ResetAll,
}

/// The text attributes and colours in force while a span is drawn.
#[derive(Clone, Copy, Debug, PartialEq, Eq, Structural)]
pub struct SgrState {
    pub reversed: bool,
    pub bold: bool,
    pub italic: bool,
    pub underline: bool,
    pub strikethrough: bool,
    pub background: Background,
    pub foreground: Background,
}

/// The state at the start of a span: no attribute, default colours.
pub open spec fn initial_sgr() -> SgrState {
    SgrState {
        reversed: false,
        bold: false,
        italic: false,
        underline: false,
        strikethrough: false,
        background: Background::Default,
        foreground: Background::Default,
    }
}

/// The rendition that switches an attribute from `was` to `on`, if it
/// changes.
pub open spec fn flag_pieces(on: bool, was: bool, set_code: u8, clear_code: u8) -> Seq<SpanPiece> {
    if on != was {
        seq![
            SpanPiece::Sgr(
                if on {
                    set_code
                } else {
                    clear_code
                },
            ),
        ]
    } else {
        seq![]
    }
}

/// What draws cell `c` after state `s`: the attributes and colours that
/// change, then the glyph; nothing for the second column of a wide glyph.
pub open spec fn cell_pieces(c: Cell, s: SgrState) -> Seq<SpanPiece> {
    if c.wide_continuation {
        seq![]
    } else {
        attribute_pieces(c, s) + colour_pieces(c, s) + seq![SpanPiece::Glyph(c.character)]
    }
}

/// The renditions that switch the text attributes from `s` to those of `c`,
/// in the order reverse video, weight, italics, underline, strikethrough.
pub open spec fn attribute_pieces(c: Cell, s: SgrState) -> Seq<SpanPiece> {
    flag_pieces(c.reversed, s.reversed, 7, 27) + flag_pieces(c.bold, s.bold, 1, 22) + flag_pieces(
        c.italic,
        s.italic,
        3,
        23,
    ) + flag_pieces(c.underline, s.underline, 4, 24) + flag_pieces(
        c.strikethrough,
        s.strikethrough,
        9,
        29,
    )
}

/// The colour changes from `s` to `c`: background, then foreground.
pub open spec fn colour_pieces(c: Cell, s: SgrState) -> Seq<SpanPiece> {
    (if c.background != s.background {
        seq![SpanPiece::Background(c.background)]
    } else {
        seq![]
    }) + (if c.foreground != s.foreground {
        seq![SpanPiece::Foreground(c.foreground)]
    } else {
        seq![]
    })
}

/// The state after drawing cell `c`.
pub open spec fn after_cell(c: Cell, s: SgrState) -> SgrState {
    if c.wide_continuation {
        s
    } else {
        SgrState {
            reversed: c.reversed,
            bold: c.bold,
            italic: c.italic,
            underline: c.underline,
            strikethrough: c.strikethrough,
            background: c.background,
            foreground: c.foreground,
        }
    }
}

/// What draws a sequence of cells from the initial state, with the state
/// it leaves.
pub open spec fn cells_pieces(cells: Seq<Cell>) -> (Seq<SpanPiece>, SgrState)
    decreases cells.len(),
{
    if cells.len() == 0 {
        (seq![], initial_sgr())
    } else {
        let (pieces, state) = cells_pieces(cells.drop_last());
        (pieces + cell_pieces(cells.last(), state), after_cell(cells.last(), state))
    }
}

/// The cells `[start, end)` of a row of a frame.
pub open spec fn row_cells(frame: FrameView, row: int, start: int, end: int) -> Seq<Cell> {
    Seq::new((end - start) as nat, |i: int| frame.cell(start + i, row))
}

/// What draws the span `[start, end)` of a row: a cursor move to its start,
/// its cells, and a reset of every attribute; nothing for an empty span.
pub open spec fn span_pieces_spec(frame: FrameView, row: int, start: int, end: int) -> Seq<SpanPiece> {
    if start >= end {
        seq![]
    } else {
        seq![SpanPiece::MoveTo { row: row as usize, col: start as usize }] + cells_pieces(
            row_cells(frame, row, start, end),
        ).0 + seq![SpanPiece::ResetAll]
    }
}

fn push_flag(pieces: &mut Vec<SpanPiece>, on: bool, was: bool, set_code: u8, clear_code: u8)
    ensures
        final(pieces)@ == old(pieces)@ + flag_pieces(on, was, set_code, clear_code),
{
    if on != was {
        pieces.push(SpanPiece::Sgr(if on { set_code } else { clear_code }));
    }
    proof {
        assert(final(pieces)@ =~= old(pieces)@ + flag_pieces(on, was, set_code, clear_code));
    }
}

#[verifier::rlimit(80)]
fn push_attributes(pieces: &mut Vec<SpanPiece>, c: Cell, s: SgrState)
    ensures
        final(pieces)@ == old(pieces)@ + attribute_pieces(c, s),
{
    let ghost p0 = pieces@;
    push_flag(pieces, c.reversed, s.reversed, 7, 27);
    let ghost p1 = pieces@;
    push_flag(pieces, c.bold, s.bold, 1, 22);
    let ghost p2 = pieces@;
    push_flag(pieces, c.italic, s.italic, 3, 23);
    let ghost p3 = pieces@;
    push_flag(pieces, c.underline, s.underline, 4, 24);
    let ghost p4 = pieces@;
    push_flag(pieces, c.strikethrough, s.strikethrough, 9, 29);
    proof {
        let f1 = flag_pieces(c.reversed, s.reversed, 7, 27);
        let f2 = flag_pieces(c.bold, s.bold, 1, 22);
        let f3 = flag_pieces(c.italic, s.italic, 3, 23);
        let f4 = flag_pieces(c.underline, s.underline, 4, 24);
        let f5 = flag_pieces(c.strikethrough, s.strikethrough, 9, 29);
        assert(p2 =~= p0 + (f1 + f2));
        assert(p3 =~= p0 + (f1 + f2 + f3));
        assert(p4 =~= p0 + (f1 + f2 + f3 + f4));
        assert(pieces@ =~= p0 + (f1 + f2 + f3 + f4 + f5));
    }
}

fn push_colours(pieces: &mut Vec<SpanPiece>, c: Cell, s: SgrState)
    ensures
        final(pieces)@ == old(pieces)@ + colour_pieces(c, s),
{
    if c.background != s.background {
        pieces.push(SpanPiece::Background(c.background));
    }
    if c.foreground != s.foreground {
        pieces.push(SpanPiece::Foreground(c.foreground));
    }
    proof {
        assert(final(pieces)@ =~= old(pieces)@ + colour_pieces(c, s));
    }
}

fn push_cell(pieces: &mut Vec<SpanPiece>, c: Cell, s: SgrState) -> (r: SgrState)
    ensures
        final(pieces)@ == old(pieces)@ + cell_pieces(c, s),
        r == after_cell(c, s),
{
    if c.wide_continuation {
        proof {
            assert(final(pieces)@ =~= old(pieces)@ + cell_pieces(c, s));
        }
        return s;
    }
    push_attributes(pieces, c, s);
    push_colours(pieces, c, s);
    pieces.push(SpanPiece::Glyph(c.character));
    proof {
        assert(final(pieces)@ =~= old(pieces)@ + cell_pieces(c, s));
    }
    SgrState {
        reversed: c.reversed,
        bold: c.bold,
        italic: c.italic,
        underline: c.underline,
        strikethrough: c.strikethrough,
        background: c.background,
        foreground: c.foreground,
    }
}

impl Frame {
    /// What draws the span `[start, end)` of row `row`.
    pub fn span_pieces(&self, row: usize, start: usize, end: usize) -> (r: Vec<SpanPiece>)
        requires
            self@.wf(),
            row < self@.height,
            end <= self@.width,
        ensures
            r@ == span_pieces_spec(self@, row as int, start as int, end as int),
    {
        let mut pieces: Vec<SpanPiece> = Vec::new();
        if start >= end {
            return pieces;
        }
        pieces.push(SpanPiece::MoveTo { row, col: start });
        let mut state = SgrState {
            reversed: false,
            bold: false,
            italic: false,
            underline: false,
            strikethrough: false,
            background: Background::Default,
            foreground: Background::Default,
        };
        let mut col = start;
        proof {
            assert(row_cells(self@, row as int, start as int, start as int) =~= Seq::<Cell>::empty());
            assert(pieces@ =~= seq![SpanPiece::MoveTo { row, col: start }] + cells_pieces(
                row_cells(self@, row as int, start as int, start as int),
            ).0);
        }
        while col < end
            invariant
                self@.wf(),
                row < self@.height,
                end <= self@.width,
                start <= col <= end,
                pieces@ == seq![SpanPiece::MoveTo { row, col: start }] + cells_pieces(
                    row_cells(self@, row as int, start as int, col as int),
                ).0,
                state == cells_pieces(row_cells(self@, row as int, start as int, col as int)).1,
            decreases end - col,
        {
            let cell = match self.cell(col, row) {
                Some(cell) => cell,
                None => return pieces,
            };
            proof {
                assert(row_cells(self@, row as int, start as int, col as int + 1).drop_last()
                    =~= row_cells(self@, row as int, start as int, col as int));
                assert(row_cells(self@, row as int, start as int, col as int + 1).last() == cell);
            }
            let ghost before = pieces@;
            state = push_cell(&mut pieces, cell, state);
            proof {
                assert(pieces@ =~= seq![SpanPiece::MoveTo { row, col: start }] + cells_pieces(
                    row_cells(self@, row as int, start as int, col as int + 1),
                ).0);
            }
            col = col + 1;
        }
        pieces.push(SpanPiece::ResetAll);
        pieces
    }
}

proof fn lemma_unchanged_row_has_no_runs(frame: FrameView, row: int, col: int)
    ensures
        changed_runs(frame, frame, row, col) == Seq::<Span>::empty(),
    decreases frame.width - col,
{
    if col < frame.width {
        lemma_unchanged_row_has_no_runs(frame, row, col + 1);
    }
}

/// A frame compared with itself has no changed span, so redrawing an
/// unchanged frame writes no cell.
pub proof fn lemma_unchanged_frame_has_no_changed_spans(frame: FrameView, rows: int)
    ensures
        changed_spans_spec(frame, frame, rows) == Seq::<Span>::empty(),
    decreases rows,
{
    if rows > 0 {
        lemma_unchanged_frame_has_no_changed_spans(frame, rows - 1);
        lemma_unchanged_row_has_no_runs(frame, rows - 1, 0);
        assert(changed_spans_spec(frame, frame, rows) =~= Seq::<Span>::empty());
    }
}

} // verus!
