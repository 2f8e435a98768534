//! The text that draws frames on a terminal: cursor moves, graphic
//! rendition codes, glyphs, clearing, and synchronized updates. Colours are
//! left as colours, for the terminal's colour profile to encode.

use vstd::prelude::*;
use crate::frame::{Frame, FrameView};
use crate::frame_output::{span_pieces_spec, Span, SpanPiece};
use crate::style::Background;
use crate::text::{decimal, digit_char, push_decimal, string_from, string_push};
use termprofile::anstyle::RgbColor;
use termprofile::{ansi256_to_ansi16, rgb_to_ansi256};

verus! {

/// Which colour a colour chunk sets.
#[derive(Clone, Copy, Debug, PartialEq, Eq, Structural)]
pub enum ColourLayer {
    Foreground,
    Background,
}

/// A piece of terminal output.
#[derive(Clone, Debug)]
pub enum OutputChunk {
    Text(String),
    Colour(Background, ColourLayer),
}

/// A piece of terminal output as a value.
pub enum ChunkView {
    Text(Seq<char>),
    Colour(Background, ColourLayer),
}

impl View for OutputChunk {
    type V = ChunkView;

    open spec fn view(&self) -> ChunkView {
        match self {
            OutputChunk::Text(s) => ChunkView::Text(s@),
            OutputChunk::Colour(c, l) => ChunkView::Colour(*c, *l),
        }
    }
}

/// The escape character.
pub open spec fn esc() -> char {
    '\u{1b}'
}

/// The text that resets reverse video, weight, italics, underline,
/// strikethrough and both colours.
pub open spec fn reset_all_text() -> Seq<char> {
    "\u{1b}[27m\u{1b}[22m\u{1b}[23m\u{1b}[24m\u{1b}[29m\u{1b}[39m\u{1b}[49m"@
}

/// What one span piece writes: `ESC [ row ; col H` (one-based) for a move,
/// `ESC [ code m` for a rendition code, the glyph itself, the reset text, or
/// the colour.
pub open spec fn piece_chunk(p: SpanPiece) -> ChunkView {
    match p {
        SpanPiece::MoveTo { row, col } => ChunkView::Text(
            seq![esc(), '['] + decimal((row + 1) as nat) + seq![';'] + decimal((col + 1) as nat)
                + seq!['H'],
        ),
        SpanPiece::Sgr(code) => ChunkView::Text(seq![esc(), '['] + decimal(code as nat) + seq!['m']),
        SpanPiece::Background(c) => ChunkView::Colour(c, ColourLayer::Background),
        SpanPiece::Foreground(c) => ChunkView::Colour(c, ColourLayer::Foreground),
        SpanPiece::Glyph(c) => ChunkView::Text(seq![c]),
        SpanPiece::ResetAll => ChunkView::Text(reset_all_text()),
    }
}

/// Appends the decimal representation of `n + 1` to `s`.
fn push_decimal_after(s: &mut String, n: u64)
    ensures
        final(s)@ == old(s)@ + decimal((n + 1) as nat),
{
    let r = n % 10;
    let q: u64 = if r == 9 {
        n / 10 + 1
    } else {
        n / 10
    };
    let d: u64 = if r == 9 {
        0
    } else {
        r + 1
    };
    proof {
        assert(n == 10 * (n / 10) + r && r < 10) by (nonlinear_arith)
            requires
                r == n % 10,
        ;
        assert(n + 1 == 10 * q + d && d < 10);
        assert((n + 1) / 10 == q && (n + 1) % 10 == d) by (nonlinear_arith)
            requires
                n + 1 == 10 * q + d,
                0 <= d < 10,
                q >= 0,
        ;
    }
    if q > 0 {
        push_decimal(s, q);
    }
    let c = if d == 0 { '0' } else if d == 1 { '1' } else if d == 2 { '2' } else if d == 3 { '3' }
        else if d == 4 { '4' } else if d == 5 { '5' } else if d == 6 { '6' } else if d == 7 { '7' }
        else if d == 8 { '8' } else { '9' };
    assert(c == digit_char(d as int));
    string_push(s, c);
    proof {
        if q > 0 {
            assert(decimal((n + 1) as nat) == decimal(q as nat).push(digit_char(d as int)));
        } else {
            assert(decimal((n + 1) as nat) == seq![digit_char(d as int)]);
        }
        assert(final(s)@ =~= old(s)@ + decimal((n + 1) as nat));
    }
}

/// What one span piece writes.
pub fn piece_output(p: SpanPiece) -> (r: OutputChunk)
    ensures
        r@ == piece_chunk(p),
{
    match p {
        SpanPiece::MoveTo { row, col } => {
            let mut s = String::new();
            string_push(&mut s, '\u{1b}');
            string_push(&mut s, '[');
            push_decimal_after(&mut s, row as u64);
            string_push(&mut s, ';');
            push_decimal_after(&mut s, col as u64);
            string_push(&mut s, 'H');
            proof {
                assert(s@ =~= seq![esc(), '['] + decimal((row + 1) as nat) + seq![';'] + decimal(
                    (col + 1) as nat,
                ) + seq!['H']);
            }
            OutputChunk::Text(s)
        },
        SpanPiece::Sgr(code) => {
            let mut s = String::new();
            string_push(&mut s, '\u{1b}');
            string_push(&mut s, '[');
            push_decimal(&mut s, code as u64);
            string_push(&mut s, 'm');
            proof {
                assert(s@ =~= seq![esc(), '['] + decimal(code as nat) + seq!['m']);
            }
            OutputChunk::Text(s)
        },
        SpanPiece::Background(c) => OutputChunk::Colour(c, ColourLayer::Background),
        SpanPiece::Foreground(c) => OutputChunk::Colour(c, ColourLayer::Foreground),
        SpanPiece::Glyph(c) => {
            let mut s = String::new();
            string_push(&mut s, c);
            proof {
                assert(s@ =~= seq![c]);
            }
            OutputChunk::Text(s)
        },
        SpanPiece::ResetAll => OutputChunk::Text(
            string_from("\u{1b}[27m\u{1b}[22m\u{1b}[23m\u{1b}[24m\u{1b}[29m\u{1b}[39m\u{1b}[49m"),
        ),
    }
}

/// What drawing a span writes: the output of each of its pieces, in order.
pub open spec fn span_output_spec(frame: FrameView, span: Span) -> Seq<ChunkView> {
    span_pieces_spec(frame, span.row as int, span.start as int, span.end as int).map_values(
        |p: SpanPiece| piece_chunk(p),
    )
}

/// The views of `v`'s chunks.
pub open spec fn chunk_views(v: Seq<OutputChunk>) -> Seq<ChunkView> {
    v.map_values(|c: OutputChunk| c@)
}

impl Frame {
    /// Appends to `out` what drawing `span` writes.
    pub fn write_span_output(&self, span: Span, out: &mut Vec<OutputChunk>)
        requires
            self@.wf(),
            span.row < self@.height,
            span.end <= self@.width,
        ensures
            chunk_views(final(out)@) == chunk_views(old(out)@) + span_output_spec(self@, span),
    {
        let pieces = self.span_pieces(span.row, span.start, span.end);
        let ghost before = out@;
        let mut i: usize = 0;
        while i < pieces.len()
            invariant
                i <= pieces.len(),
                pieces@ == span_pieces_spec(self@, span.row as int, span.start as int, span.end as int),
                chunk_views(out@) == chunk_views(before) + pieces@.take(i as int).map_values(
                    |p: SpanPiece| piece_chunk(p),
                ),
            decreases pieces.len() - i,
        {
            let c = piece_output(pieces[i]);
            let ghost prev = out@;
            out.push(c);
            proof {
                assert(chunk_views(out@) =~= chunk_views(prev).push(c@));
                let t = pieces@.take(i as int + 1);
                assert(t =~= pieces@.take(i as int).push(pieces@[i as int]));
                assert(t.map_values(|p: SpanPiece| piece_chunk(p)) =~= pieces@.take(i as int).map_values(
                    |p: SpanPiece| piece_chunk(p),
                ).push(piece_chunk(pieces@[i as int])));
                assert(chunk_views(out@) =~= chunk_views(before) + t.map_values(
                    |p: SpanPiece| piece_chunk(p),
                ));
            }
            i = i + 1;
        }
        proof {
            assert(pieces@.take(i as int) =~= pieces@);
        }
    }
}

/// What starts a frame: with `synchronized`, begin a synchronized update
/// and turn autowrap off; then hide the cursor.
pub open spec fn frame_start_text(synchronized: bool) -> Seq<char> {
    if synchronized {
        "\u{1b}[?2026h\u{1b}[?7l\u{1b}[?25l"@
    } else {
        "\u{1b}[?25l"@
    }
}

/// What ends a frame: with `synchronized`, turn autowrap back on and end
/// the synchronized update; else nothing.
pub open spec fn frame_end_text(synchronized: bool) -> Seq<char> {
    if synchronized {
        "\u{1b}[?7h\u{1b}[?2026l"@
    } else {
        Seq::empty()
    }
}

/// What starts a whole-frame repaint: clear the screen where asked, then
/// move the cursor home.
pub open spec fn full_frame_start_text(clear_first: bool) -> Seq<char> {
    if clear_first {
        "\u{1b}[2J\u{1b}[H"@
    } else {
        "\u{1b}[H"@
    }
}

/// What starts a frame.
pub fn frame_start(synchronized: bool) -> (r: String)
    ensures
        r@ == frame_start_text(synchronized),
{
    if synchronized {
        string_from("\u{1b}[?2026h\u{1b}[?7l\u{1b}[?25l")
    } else {
        string_from("\u{1b}[?25l")
    }
}

/// What ends a frame.
pub fn frame_end(synchronized: bool) -> (r: String)
    ensures
        r@ == frame_end_text(synchronized),
{
    if synchronized {
        string_from("\u{1b}[?7h\u{1b}[?2026l")
    } else {
        String::new()
    }
}

/// What starts a whole-frame repaint.
pub fn full_frame_start(clear_first: bool) -> (r: String)
    ensures
        r@ == full_frame_start_text(clear_first),
{
    if clear_first {
        string_from("\u{1b}[2J\u{1b}[H")
    } else {
        string_from("\u{1b}[H")
    }
}


/// The index of the 256-colour palette entry nearest to the RGB colour
/// (`r`, `g`, `b`), as `termprofile::rgb_to_ansi256` computes it.
pub uninterp spec fn ansi256_of_rgb(r: u8, g: u8, b: u8) -> u8;

/// The number (0 to 15) of the 16-colour entry nearest to the 256-colour
/// entry `index`, as `termprofile::ansi256_to_ansi16` computes it.
pub uninterp spec fn ansi16_of_ansi256(index: u8) -> u8;

/// Calls `termprofile::rgb_to_ansi256` on an `anstyle::RgbColor`. Claimed:
/// the result is a function of the three components alone.
#[verifier::external_body]
fn rgb_to_palette(r: u8, g: u8, b: u8) -> (i: u8)
    ensures
        i == ansi256_of_rgb(r, g, b),
{
    rgb_to_ansi256(RgbColor(r, g, b))
}

/// Calls `termprofile::ansi256_to_ansi16` and gives the number of the
/// `anstyle::AnsiColor` it returns, which is declared `repr(u8)` in the order
/// black (0) to bright white (15). Claimed: the result is a function of
/// `index` alone and below 16.
#[verifier::external_body]
fn palette_to_sixteen(index: u8) -> (i: u8)
    ensures
        i == ansi16_of_ansi256(index),
        i < 16,
{
    ansi256_to_ansi16(index) as u8
}

/// What colours the terminal shows: none, 16, 256, or any RGB colour.
#[derive(Clone, Copy, Debug, PartialEq, Eq, Structural)]
pub enum ColourProfile {
    NoColour,
    Ansi16,
    Ansi256,
    TrueColour,
}

/// The palette number (0 to 7) of a named colour.
pub open spec fn named_number(c: Background) -> int {
    match c {
        Background::Black => 0,
        Background::Red => 1,
        Background::Green => 2,
        Background::Yellow => 3,
        Background::Blue => 4,
        Background::Magenta => 5,
        Background::Cyan => 6,
        _ => 7,
    }
}

/// The base of the rendition codes of a layer: 30 for foregrounds, 40 for
/// backgrounds.
pub open spec fn layer_base(layer: ColourLayer) -> int {
    if layer == ColourLayer::Foreground {
        30
    } else {
        40
    }
}

/// The rendition parameters that set `c` on `layer` under `profile`: none
/// without colour; the default colour as 39 or 49; a named colour as 30 to
/// 37 or 40 to 47; an RGB colour as `38;2;r;g;b` (or `48;...`) in true
/// colour, as `38;5;n` with its nearest 256-colour entry, or as the nearest
/// of the 16 colours (30 to 37 and 90 to 97, or 40 to 47 and 100 to 107).
pub open spec fn colour_parameters(c: Background, layer: ColourLayer, profile: ColourProfile) -> Seq<char> {
    let base = layer_base(layer);
    if profile == ColourProfile::NoColour {
        Seq::empty()
    } else {
        match c {
            Background::Default => decimal((base + 9) as nat),
            Background::Rgb(r, g, b) => if profile == ColourProfile::TrueColour {
                decimal((base + 8) as nat) + seq![';', '2', ';'] + decimal(r as nat) + seq![';']
                    + decimal(g as nat) + seq![';'] + decimal(b as nat)
            } else if profile == ColourProfile::Ansi256 {
                decimal((base + 8) as nat) + seq![';', '5', ';'] + decimal(
                    ansi256_of_rgb(r, g, b) as nat,
                )
            } else {
                let n = ansi16_of_ansi256(ansi256_of_rgb(r, g, b)) as int;
                if n < 8 {
                    decimal((base + n) as nat)
                } else {
                    decimal((base + 60 + n - 8) as nat)
                }
            },
            _ => decimal((base + named_number(c)) as nat),
        }
    }
}

/// The text that sets `c` on `layer` under `profile`: `ESC [ params m`, or
/// nothing without colour.
pub open spec fn colour_text(c: Background, layer: ColourLayer, profile: ColourProfile) -> Seq<char> {
    if profile == ColourProfile::NoColour {
        Seq::empty()
    } else {
        seq![esc(), '['] + colour_parameters(c, layer, profile) + seq!['m']
    }
}

/// The text that sets `c` on `layer` under `profile`.
pub fn encode_colour(c: Background, layer: ColourLayer, profile: ColourProfile) -> (r: String)
    ensures
        r@ == colour_text(c, layer, profile),
{
    let mut s = String::new();
    if profile == ColourProfile::NoColour {
        return s;
    }
    let base: u64 = if layer == ColourLayer::Foreground {
        30
    } else {
        40
    };
    string_push(&mut s, '\u{1b}');
    string_push(&mut s, '[');
    let ghost start = s@;
    match c {
        Background::Default => {
            push_decimal(&mut s, base + 9);
        },
        Background::Rgb(r, g, b) => {
            if profile == ColourProfile::TrueColour {
                push_decimal(&mut s, base + 8);
                string_push(&mut s, ';');
                string_push(&mut s, '2');
                string_push(&mut s, ';');
                push_decimal(&mut s, r as u64);
                string_push(&mut s, ';');
                push_decimal(&mut s, g as u64);
                string_push(&mut s, ';');
                push_decimal(&mut s, b as u64);
            } else if profile == ColourProfile::Ansi256 {
                push_decimal(&mut s, base + 8);
                string_push(&mut s, ';');
                string_push(&mut s, '5');
                string_push(&mut s, ';');
                let i = rgb_to_palette(r, g, b);
                push_decimal(&mut s, i as u64);
            } else {
                let n = palette_to_sixteen(rgb_to_palette(r, g, b)) as u64;
                if n < 8 {
                    push_decimal(&mut s, base + n);
                } else {
                    push_decimal(&mut s, base + 60 + n - 8);
                }
            }
        },
        _ => {
            let n: u64 = match c {
                Background::Black => 0,
                Background::Red => 1,
                Background::Green => 2,
                Background::Yellow => 3,
                Background::Blue => 4,
                Background::Magenta => 5,
                Background::Cyan => 6,
                _ => 7,
            };
            push_decimal(&mut s, base + n);
        },
    }
    proof {
        assert(s@ =~= seq![esc(), '['] + colour_parameters(c, layer, profile));
    }
    string_push(&mut s, 'm');
    proof {
        assert(s@ =~= colour_text(c, layer, profile));
    }
    s
}

} // verus!
