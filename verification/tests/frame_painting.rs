use paintcannon::border::border_char_at;
use paintcannon::clip::{ClipBounds, ClipRect};
use paintcannon::composite::{
    composite_plan, foreground_glyph_fills_cell, resolve_rgb, visual_background, visual_colors,
    CompositePlan, InkBackground,
};
use paintcannon::frame::{Cell, Frame, GlyphStyle, Selection, SelectionPoint};
use paintcannon::style::{Background, BorderStyle, DivStyle};

fn solid_border_style() -> DivStyle {
    DivStyle {
        border_top: BorderStyle::Solid,
        border_right: BorderStyle::Solid,
        border_bottom: BorderStyle::Solid,
        border_left: BorderStyle::Solid,
    }
}

#[test]
fn fill_rect_respects_clip_bounds() {
    let mut frame = Frame::new(5, 3, false);
    assert_eq!(frame.width(), 5);
    assert_eq!(frame.height(), 3);
    frame.fill_rect(
        ClipRect::new(0, 0, 5, 3),
        Background::Blue,
        None,
        ClipBounds::from_rect_axes(ClipRect::new(1, 1, 2, 1), true, true),
    );

    assert_eq!(frame.cell(0, 1).unwrap().background, Background::Default);
    assert_eq!(frame.cell(1, 1).unwrap().background, Background::Blue);
    assert_eq!(frame.cell(2, 1).unwrap().background, Background::Blue);
    assert_eq!(frame.cell(3, 1).unwrap().background, Background::Default);
}

#[test]
fn clip_bounds_intersect_on_enabled_axes() {
    let rect = ClipRect::new(0, 0, 10, 4);
    assert_eq!(rect.width(), 10);
    assert_eq!(rect.height(), 4);

    let clip = ClipBounds::from_rect_axes(rect, true, false)
        .intersect(ClipBounds::from_rect_axes(ClipRect::new(3, 1, 4, 1), true, true));

    assert_eq!(
        clip.clip_rect(ClipRect::new(0, 0, 10, 4)),
        Some(ClipRect {
            left: 3,
            top: 1,
            right: 7,
            bottom: 2,
        })
    );
}

#[test]
fn border_uses_requested_glyphs() {
    let mut frame = Frame::new(4, 3, false);
    let style = solid_border_style();

    frame.stroke_border(
        ClipRect::new(0, 0, 4, 3),
        &style,
        Background::White,
        None,
        ClipBounds::unbounded(),
    );

    assert_eq!(frame.cell(0, 0).unwrap().character, '┌');
    assert_eq!(frame.cell(3, 0).unwrap().character, '┐');
    assert_eq!(frame.cell(0, 2).unwrap().character, '└');
    assert_eq!(frame.cell(3, 2).unwrap().character, '┘');
    assert_eq!(frame.cell(1, 0).unwrap().character, '─');
    assert_eq!(frame.cell(0, 1).unwrap().character, '│');
}

#[test]
fn full_width_border_paints_right_edge_inside_frame() {
    let mut frame = Frame::new(80, 4, false);
    let style = solid_border_style();

    frame.stroke_border(
        ClipRect::new(0, 0, 80, 4),
        &style,
        Background::White,
        None,
        ClipBounds::unbounded(),
    );

    assert_eq!(frame.cell(79, 0).unwrap().character, '┐');
    assert_eq!(frame.cell(79, 1).unwrap().character, '│');
    assert_eq!(frame.cell(79, 3).unwrap().character, '┘');
    assert!(frame.cell(80, 0).is_none());
}

#[test]
fn chunky_rounded_box_background_preserves_underlying_corner_cells() {
    let mut frame = Frame::new(4, 3, false);
    let style = DivStyle {
        border_top: BorderStyle::ChunkyRounded,
        border_right: BorderStyle::ChunkyRounded,
        border_bottom: BorderStyle::ChunkyRounded,
        border_left: BorderStyle::ChunkyRounded,
    };

    frame.fill_rect(
        ClipRect::new(0, 0, 4, 3),
        Background::Blue,
        None,
        ClipBounds::unbounded(),
    );
    frame.fill_box_background(
        ClipRect::new(0, 0, 4, 3),
        &style,
        Background::Red,
        None,
        ClipBounds::unbounded(),
    );
    frame.stroke_border(
        ClipRect::new(0, 0, 4, 3),
        &style,
        Background::Blue,
        None,
        ClipBounds::unbounded(),
    );

    assert_eq!(frame.cell(0, 0).unwrap().character, '🭁');
    assert_eq!(frame.cell(3, 0).unwrap().character, '🭌');
    assert_eq!(frame.cell(0, 2).unwrap().character, '🭒');
    assert_eq!(frame.cell(3, 2).unwrap().character, '🭝');
    assert_eq!(frame.cell(0, 0).unwrap().background, Background::Blue);
    assert_eq!(frame.cell(1, 0).unwrap().background, Background::Red);
    assert_eq!(frame.cell(1, 1).unwrap().background, Background::Red);
}

#[test]
fn selection_text_tracks_rows_and_trimmed_line_endings() {
    let mut frame = Frame::new(6, 2, false);
    let glyph_style = GlyphStyle::default();
    for (index, character) in "abc".chars().enumerate() {
        frame.write_glyph(
            index as i32,
            0,
            character,
            1,
            glyph_style,
            ClipBounds::unbounded(),
        );
    }
    for (index, character) in "de ".chars().enumerate() {
        frame.write_glyph(
            index as i32,
            1,
            character,
            1,
            glyph_style,
            ClipBounds::unbounded(),
        );
    }

    let selection = Selection {
        anchor: SelectionPoint { order: 1 },
        focus: SelectionPoint { order: 5 },
    };

    assert_eq!(frame.selected_text(&selection).as_deref(), Some("bc\nde"));
}

#[test]
fn selection_point_uses_nearest_selectable_cell_on_row() {
    let mut frame = Frame::new(8, 1, false);
    frame.write_glyph(2, 0, 'a', 1, GlyphStyle::default(), ClipBounds::unbounded());
    frame.write_glyph(5, 0, 'b', 1, GlyphStyle::default(), ClipBounds::unbounded());

    assert_eq!(
        frame.selection_point_for(0, 0),
        Some(SelectionPoint { order: 0 })
    );
    assert_eq!(
        frame.selection_point_for(7, 0),
        Some(SelectionPoint { order: 1 })
    );
}

#[test]
fn apply_selection_reverses_selected_cells() {
    let mut frame = Frame::new(3, 1, false);
    for (index, character) in "abc".chars().enumerate() {
        frame.write_glyph(
            index as i32,
            0,
            character,
            1,
            GlyphStyle::default(),
            ClipBounds::unbounded(),
        );
    }

    frame.apply_selection(Some(&Selection {
        anchor: SelectionPoint { order: 1 },
        focus: SelectionPoint { order: 2 },
    }));

    assert!(!frame.cell(0, 0).unwrap().reversed);
    assert!(frame.cell(1, 0).unwrap().reversed);
    assert!(frame.cell(2, 0).unwrap().reversed);
}

#[test]
fn selection_point_between_glyphs_picks_the_nearer_one_and_ties_go_left() {
    let mut frame = Frame::new(9, 1, false);
    frame.write_glyph(2, 0, 'a', 1, GlyphStyle::default(), ClipBounds::unbounded());
    frame.write_glyph(6, 0, 'b', 1, GlyphStyle::default(), ClipBounds::unbounded());

    assert_eq!(frame.selection_point_for(3, 0), Some(SelectionPoint { order: 0 }));
    assert_eq!(frame.selection_point_for(4, 0), Some(SelectionPoint { order: 0 }));
    assert_eq!(frame.selection_point_for(5, 0), Some(SelectionPoint { order: 1 }));
    assert_eq!(frame.selection_point_for(8, 5), Some(SelectionPoint { order: 1 }));
}

#[test]
fn selection_point_is_none_on_a_row_without_glyphs_and_on_an_empty_frame() {
    let frame = Frame::new(4, 2, false);
    assert_eq!(frame.selection_point_for(1, 1), None);
    let empty = Frame::new(0, 0, false);
    assert_eq!(empty.selection_point_for(0, 0), None);
}

#[test]
fn selection_of_only_blank_cells_has_no_text() {
    let mut frame = Frame::new(3, 1, false);
    for index in 0..3 {
        frame.write_glyph(index, 0, ' ', 1, GlyphStyle::default(), ClipBounds::unbounded());
    }
    let selection = Selection {
        anchor: SelectionPoint { order: 2 },
        focus: SelectionPoint { order: 0 },
    };
    assert_eq!(frame.selected_text(&selection), None);
}

#[test]
fn glyphs_outside_the_frame_or_clip_are_not_painted() {
    let mut frame = Frame::new(3, 2, false);
    frame.write_glyph(-1, 0, 'x', 1, GlyphStyle::default(), ClipBounds::unbounded());
    frame.write_glyph(3, 0, 'x', 1, GlyphStyle::default(), ClipBounds::unbounded());
    frame.write_glyph(
        1,
        1,
        'y',
        1,
        GlyphStyle::default(),
        ClipBounds::from_rect_axes(ClipRect::new(0, 0, 3, 1), true, true),
    );
    for y in 0..2 {
        for x in 0..3 {
            assert_eq!(frame.cell(x, y).unwrap().character, ' ');
        }
    }
    assert_eq!(frame.cell(3, 0), None);
}

#[test]
fn trailing_empty_rows_start_after_the_last_painted_row() {
    let mut frame = Frame::new(4, 4, false);
    assert_eq!(frame.trailing_empty_rows_start(), 0);
    frame.write_glyph(0, 1, 'x', 1, GlyphStyle::default(), ClipBounds::unbounded());
    assert_eq!(frame.trailing_empty_rows_start(), 2);
}

#[test]
fn layer_keeps_cells_but_nothing_painted() {
    let mut frame = Frame::new(2, 1, false);
    frame.write_glyph(0, 0, 'q', 1, GlyphStyle::default(), ClipBounds::unbounded());
    let layer = frame.layer();
    assert_eq!(layer.cell(0, 0).unwrap().character, 'q');
    assert_eq!(layer.width(), 2);
    assert_eq!(layer.height(), 1);
}

#[test]
fn cell_index_maps_rows_after_columns() {
    let frame = Frame::new(5, 3, false);
    assert_eq!(frame.cell_index(2, 1), Some(7));
    assert_eq!(frame.cell_index(5, 0), None);
    assert_eq!(frame.cell_index(0, -1), None);
}

#[test]
fn visible_rect_is_clipped_to_frame_and_bounds() {
    let frame = Frame::new(5, 3, false);
    assert_eq!(
        frame.visible_rect(ClipRect::new(-2, -1, 10, 10), ClipBounds::unbounded()),
        Some(ClipRect { left: 0, top: 0, right: 5, bottom: 3 })
    );
    assert_eq!(
        frame.visible_rect(ClipRect::new(6, 0, 2, 2), ClipBounds::unbounded()),
        None
    );
}

#[test]
fn clip_bounds_contain_only_points_inside_enabled_axes() {
    let clip = ClipBounds::from_rect_axes(ClipRect::new(2, 2, 3, 3), true, false);
    assert!(clip.contains(2, 100));
    assert!(clip.contains(4, -100));
    assert!(!clip.contains(5, 3));
    assert!(!clip.contains(1, 3));
    assert!(ClipBounds::unbounded().contains(i32::MIN, i32::MAX));
}

#[test]
fn border_char_at_picks_corners_and_edges() {
    let style = solid_border_style();
    assert_eq!(border_char_at(&style, true, false, true, false), '┌');
    assert_eq!(border_char_at(&style, false, true, false, true), '┘');
    assert_eq!(border_char_at(&style, false, false, false, true), '─');
    assert_eq!(border_char_at(&style, true, false, false, false), '│');
}

#[test]
fn resolve_rgb_prefers_own_then_terminal_default_then_fallback() {
    assert_eq!(resolve_rgb(Background::Rgb(1, 2, 3), Background::Rgb(9, 9, 9), (0, 0, 0)), (1, 2, 3));
    assert_eq!(resolve_rgb(Background::Red, Background::Rgb(9, 9, 9), (0, 0, 0)), (9, 9, 9));
    assert_eq!(resolve_rgb(Background::Default, Background::White, (7, 7, 7)), (7, 7, 7));
}

#[test]
fn reversed_cells_show_their_colours_swapped() {
    let cell = Cell {
        background: Background::Rgb(0, 0, 200),
        foreground: Background::Rgb(200, 0, 0),
        reversed: true,
        ..Cell::default()
    };
    assert_eq!(visual_background(cell), Background::Rgb(200, 0, 0));
    assert_eq!(
        visual_colors(cell, Background::Default, Background::Default),
        ((0, 0, 200), (200, 0, 0))
    );
    assert_eq!(
        visual_colors(Cell::default(), Background::Default, Background::Default),
        ((255, 255, 255), (0, 0, 0))
    );
}

#[test]
fn full_block_glyphs_fill_their_cell() {
    assert!(foreground_glyph_fills_cell('█'));
    assert!(foreground_glyph_fills_cell('🭁'));
    assert!(!foreground_glyph_fills_cell('a'));
}

#[test]
fn composite_plan_draws_ink_over_the_glyph_that_fills_the_cell() {
    let backdrop = Cell {
        character: '█',
        foreground: Background::Rgb(10, 20, 30),
        background: Background::Rgb(1, 1, 1),
        ..Cell::default()
    };
    let source = Cell {
        character: 'x',
        foreground: Background::Rgb(200, 0, 0),
        ..Cell::default()
    };
    match composite_plan(backdrop, source, true, false, Background::Default, Background::Default) {
        CompositePlan::Ink { foreground, surface, background } => {
            assert_eq!(foreground, (200, 0, 0));
            assert_eq!(surface, (10, 20, 30));
            assert!(matches!(background, InkBackground::Solid((10, 20, 30))));
        }
        _ => panic!("expected ink"),
    }
}

#[test]
fn composite_plan_washes_both_colours_under_a_background_only_layer() {
    let backdrop = Cell {
        character: 'a',
        foreground: Background::Rgb(255, 255, 255),
        background: Background::Rgb(0, 0, 0),
        ..Cell::default()
    };
    let source = Cell {
        background: Background::Rgb(0, 0, 255),
        ..Cell::default()
    };
    match composite_plan(backdrop, source, false, true, Background::Default, Background::Default) {
        CompositePlan::Wash { tint, backdrop_foreground, backdrop_background } => {
            assert_eq!(tint, (0, 0, 255));
            assert_eq!(backdrop_foreground, (255, 255, 255));
            assert_eq!(backdrop_background, (0, 0, 0));
        }
        _ => panic!("expected wash"),
    }
    assert!(matches!(
        composite_plan(backdrop, source, false, false, Background::Default, Background::Default),
        CompositePlan::Backdrop
    ));
}
