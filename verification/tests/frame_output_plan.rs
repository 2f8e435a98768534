use paintcannon::terminal_output::{
    encode_colour, frame_end, frame_start, full_frame_start, ColourLayer, ColourProfile, OutputChunk,
};
use paintcannon::clip::ClipBounds;
use paintcannon::frame::{Frame, GlyphStyle};
use paintcannon::frame_output::{FramePlan, Span, SpanPiece};
use paintcannon::geometry::{autoscroll_offsets, AbsoluteRect};
use paintcannon::input::{scrollbar_suppresses_selection, SelectionMouseEventType};
use paintcannon::style::Background;

#[test]
fn only_changed_cells_form_spans() {
    let previous = Frame::new(4, 2, false);
    let mut next = Frame::new(4, 2, false);
    next.write_glyph(2, 1, 'x', 1, GlyphStyle::default(), ClipBounds::unbounded());
    next.write_glyph(0, 0, 'a', 1, GlyphStyle::default(), ClipBounds::unbounded());
    next.write_glyph(1, 0, 'b', 1, GlyphStyle::default(), ClipBounds::unbounded());

    assert_eq!(
        next.changed_spans(&previous),
        Some(vec![
            Span { row: 0, start: 0, end: 2 },
            Span { row: 1, start: 2, end: 3 }
        ])
    );
    assert_eq!(previous.changed_spans(&previous), Some(Vec::new()));
}

#[test]
fn a_resized_frame_is_repainted_on_a_cleared_screen() {
    let previous = Frame::new(4, 2, false);
    let next = Frame::new(5, 2, false);
    assert!(next.changed_spans(&previous).is_none());
    assert!(matches!(next.diff_plan(Some(&previous)), FramePlan::Full { clear_first: true }));
    assert!(matches!(next.diff_plan(None), FramePlan::Full { clear_first: false }));
    assert!(matches!(next.diff_plan(Some(&next)), FramePlan::Spans(spans) if spans.is_empty()));
}

#[test]
fn full_repaint_skips_trailing_blank_rows() {
    let mut frame = Frame::new(4, 4, false);
    frame.write_glyph(0, 1, 'x', 1, GlyphStyle::default(), ClipBounds::unbounded());
    assert_eq!(
        frame.full_frame_spans(),
        vec![Span { row: 0, start: 0, end: 4 }, Span { row: 1, start: 0, end: 4 }]
    );
}

#[test]
fn span_pieces_switch_attributes_only_when_they_change() {
    let mut frame = Frame::new(2, 1, false);
    frame.write_glyph(
        0,
        0,
        'a',
        1,
        GlyphStyle {
            bold: true,
            italic: true,
            underline: true,
            strikethrough: true,
            ..GlyphStyle::default()
        },
        ClipBounds::unbounded(),
    );
    frame.write_glyph(1, 0, 'b', 1, GlyphStyle::default(), ClipBounds::unbounded());

    assert_eq!(
        frame.span_pieces(0, 0, 2),
        vec![
            SpanPiece::MoveTo { row: 0, col: 0 },
            SpanPiece::Sgr(1),
            SpanPiece::Sgr(3),
            SpanPiece::Sgr(4),
            SpanPiece::Sgr(9),
            SpanPiece::Glyph('a'),
            SpanPiece::Sgr(22),
            SpanPiece::Sgr(23),
            SpanPiece::Sgr(24),
            SpanPiece::Sgr(29),
            SpanPiece::Glyph('b'),
            SpanPiece::ResetAll
        ]
    );
    assert!(frame.span_pieces(0, 1, 1).is_empty());
}

#[test]
fn span_pieces_set_colours_when_they_differ_from_the_defaults() {
    let mut frame = Frame::new(1, 1, false);
    frame.write_glyph(
        0,
        0,
        'c',
        1,
        GlyphStyle {
            background: Background::Blue,
            foreground: Background::Rgb(1, 2, 3),
            ..GlyphStyle::default()
        },
        ClipBounds::unbounded(),
    );
    assert_eq!(
        frame.span_pieces(0, 0, 1),
        vec![
            SpanPiece::MoveTo { row: 0, col: 0 },
            SpanPiece::Background(Background::Blue),
            SpanPiece::Foreground(Background::Rgb(1, 2, 3)),
            SpanPiece::Glyph('c'),
            SpanPiece::ResetAll
        ]
    );
}

#[test]
fn selection_drags_outside_a_scrollport_scroll_it() {
    let rect = AbsoluteRect { left: 2, top: 2, right: 10, bottom: 6 };
    assert_eq!(autoscroll_offsets(rect, 0, 3, 5, 5), Some((3, 5)));
    assert_eq!(autoscroll_offsets(rect, 12, 8, 5, 5), Some((8, 8)));
    assert_eq!(autoscroll_offsets(rect, 0, 0, 1, 0), Some((0, 0)));
    assert_eq!(autoscroll_offsets(rect, 4, 4, 5, 5), Some((5, 5)));
    let empty = AbsoluteRect { left: 2, top: 2, right: 2, bottom: 6 };
    assert_eq!(autoscroll_offsets(empty, 0, 0, 5, 5), None);
}

#[test]
fn a_press_on_a_scrollbar_swallows_the_selection_gesture() {
    let mut suppressed = false;
    assert!(!scrollbar_suppresses_selection(&mut suppressed, SelectionMouseEventType::Down, false));
    assert!(!scrollbar_suppresses_selection(&mut suppressed, SelectionMouseEventType::Drag, false));
    assert!(scrollbar_suppresses_selection(&mut suppressed, SelectionMouseEventType::Down, true));
    assert!(scrollbar_suppresses_selection(&mut suppressed, SelectionMouseEventType::Drag, false));
    assert!(scrollbar_suppresses_selection(&mut suppressed, SelectionMouseEventType::Scroll, false));
    assert!(scrollbar_suppresses_selection(&mut suppressed, SelectionMouseEventType::Up, false));
    assert!(!suppressed);
    assert!(!scrollbar_suppresses_selection(&mut suppressed, SelectionMouseEventType::Up, false));
}

#[test]
fn span_output_writes_escape_text_and_leaves_colours_to_the_profile() {
    let frame = Frame::new(3, 2, false);
    let mut out = Vec::new();
    frame.write_span_output(Span { row: 1, start: 0, end: 2 }, &mut out);
    match &out[0] {
        OutputChunk::Text(t) => assert_eq!(t, "\x1b[2;1H"),
        _ => panic!("expected a cursor move"),
    }
    assert!(out.iter().any(|c| matches!(c, OutputChunk::Text(t) if t == " ")));
    assert_eq!(frame_start(true), "\x1b[?2026h\x1b[?7l\x1b[?25l");
    assert_eq!(frame_end(true), "\x1b[?7h\x1b[?2026l");
    assert_eq!(frame_end(false), "");
    assert_eq!(full_frame_start(true), "\x1b[2J\x1b[H");
}

#[test]
fn colours_are_encoded_for_each_profile() {
    let red = Background::Rgb(255, 0, 0);
    assert_eq!(encode_colour(red, ColourLayer::Foreground, ColourProfile::TrueColour), "\x1b[38;2;255;0;0m");
    assert_eq!(encode_colour(red, ColourLayer::Background, ColourProfile::Ansi256), "\x1b[48;5;196m");
    assert_eq!(encode_colour(red, ColourLayer::Foreground, ColourProfile::Ansi16), "\x1b[91m");
    assert_eq!(encode_colour(red, ColourLayer::Background, ColourProfile::Ansi16), "\x1b[101m");
    assert_eq!(encode_colour(Background::Blue, ColourLayer::Background, ColourProfile::Ansi256), "\x1b[44m");
    assert_eq!(encode_colour(Background::Default, ColourLayer::Foreground, ColourProfile::TrueColour), "\x1b[39m");
    assert_eq!(encode_colour(red, ColourLayer::Foreground, ColourProfile::NoColour), "");
}

fn output_text(chunks: Vec<OutputChunk>) -> String {
    let mut out = String::new();
    for chunk in chunks {
        match chunk {
            OutputChunk::Text(t) => out.push_str(&t),
            OutputChunk::Colour(c, l) => out.push_str(&encode_colour(c, l, ColourProfile::NoColour)),
        }
    }
    out
}

fn spans_text(frame: &Frame, spans: Vec<Span>) -> String {
    let mut chunks = Vec::new();
    for span in spans {
        frame.write_span_output(span, &mut chunks);
    }
    output_text(chunks)
}

fn full_text(frame: &Frame, clear_first: bool) -> String {
    full_frame_start(clear_first) + &spans_text(frame, frame.full_frame_spans())
}

fn diff_text(frame: &Frame, previous: Option<&Frame>, synchronized: bool) -> String {
    let body = match frame.diff_plan(previous) {
        FramePlan::Full { clear_first } => full_text(frame, clear_first),
        FramePlan::Spans(spans) => spans_text(frame, spans),
    };
    frame_start(synchronized) + &body + &frame_end(synchronized)
}

#[test]
fn diff_writes_only_changed_spans() {
    let previous = Frame::new(4, 2, false);
    let mut next = Frame::new(4, 2, false);
    next.write_glyph(2, 1, 'x', 1, GlyphStyle::default(), ClipBounds::unbounded());

    let output = diff_text(&next, Some(&previous), false);

    assert!(output.contains("\x1b[2;3Hx"));
    assert!(!output.contains("\x1b[H"));
    assert!(!output.contains("\x1b[2J"));
}

#[test]
fn full_frame_write_emits_text_attribute_sgr() {
    let mut frame = Frame::new(2, 1, false);
    frame.write_glyph(
        0,
        0,
        'a',
        1,
        GlyphStyle { bold: true, italic: true, underline: true, strikethrough: true, ..Default::default() },
        ClipBounds::unbounded(),
    );
    frame.write_glyph(1, 0, 'b', 1, GlyphStyle::default(), ClipBounds::unbounded());

    let output = full_text(&frame, false);

    assert!(output.contains("\x1b[1m\x1b[3m\x1b[4m\x1b[9ma"));
    assert!(output.contains("a\x1b[22m\x1b[23m\x1b[24m\x1b[29mb"));
    assert!(output.ends_with("\x1b[27m\x1b[22m\x1b[23m\x1b[24m\x1b[29m\x1b[39m\x1b[49m"));
}

#[test]
fn diff_writes_cells_when_only_text_attributes_change() {
    let mut previous = Frame::new(1, 1, false);
    previous.write_glyph(0, 0, 'x', 1, GlyphStyle::default(), ClipBounds::unbounded());
    let mut next = Frame::new(1, 1, false);
    next.write_glyph(
        0,
        0,
        'x',
        1,
        GlyphStyle { strikethrough: true, ..Default::default() },
        ClipBounds::unbounded(),
    );

    let output = diff_text(&next, Some(&previous), false);

    assert!(output.contains("\x1b[1;1H\x1b[9mx"));
}

#[test]
fn terminal_frame_writes_disable_autowrap_while_flushing() {
    let mut next = Frame::new(4, 1, false);
    next.write_glyph(3, 0, 'x', 1, GlyphStyle::default(), ClipBounds::unbounded());

    let output = diff_text(&next, None, true);

    assert!(output.contains("\x1b[?7l"));
    assert!(output.contains("\x1b[?7h"));
    assert!(output.find("\x1b[?7l") < output.find("x"));
    assert!(output.find("x") < output.find("\x1b[?7h"));
}

#[test]
fn full_frame_write_skips_trailing_empty_rows() {
    let mut frame = Frame::new(4, 4, false);
    frame.write_glyph(0, 1, 'x', 1, GlyphStyle::default(), ClipBounds::unbounded());

    let output = full_text(&frame, false);

    assert!(output.contains("\x1b[1;1H"));
    assert!(output.contains("\x1b[2;1H"));
    assert!(!output.contains("\x1b[3;1H"));
    assert!(!output.contains("\x1b[4;1H"));
}

#[test]
fn diff_clears_and_full_repaints_after_resize() {
    let previous = Frame::new(4, 2, false);
    let next = Frame::new(5, 2, false);

    let output = diff_text(&next, Some(&previous), false);

    assert!(output.contains("\x1b[2J"));
    assert!(output.contains("\x1b[H"));
}
