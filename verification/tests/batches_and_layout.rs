use paintcannon::api::{
    allocate_dom_id, click_event_to_napi, command_kind, is_blank, rewrite_batch,
    scroll_metrics_to_napi, scrollbar_hit_to_napi, style_command, style_reset, ArenaScrollMetrics,
    BatchCommand, BatchCommandKind, BatchError, BatchField, BatchIdMapping, EngineClickEvent,
    EngineScrollbarHit, RenderCommand, ScrollbarAxis, StyleCommand, StyleError, StyleMutation,
};
use paintcannon::geometry::{
    axis_max_scroll, clamp_pointer_to_rect_axis, effective_white_space, is_word_start,
    next_word_end, textarea_scroll_top, textarea_scroll_top_for_cursor,
    white_space_allows_wrapping, white_space_preserves_newlines, AbsoluteRect,
};
use paintcannon::native_event::DomId;
use paintcannon::style::{CssWhiteSpace, LayoutOverflow, TransitionProperty};
use paintcannon::transition_value::TransitionSpec;
use paintcannon::style_property::{style_property, StyleProperty};
use paintcannon::style_value::{CssDimension, CssNumber, StyleValue};

fn command(command_type: &str) -> BatchCommand {
    BatchCommand {
        command_type: command_type.to_string(),
        id: None,
        parent: None,
        child: None,
        before: None,
        text: None,
        src: None,
        cursor: None,
        focused: None,
        placeholder: None,
        property: None,
        value: None,
    }
}

fn create(command_type: &str, id: i32) -> BatchCommand {
    BatchCommand {
        id: Some(id),
        ..command(command_type)
    }
}

fn style(id: i32, property: &str, value: &str) -> BatchCommand {
    BatchCommand {
        id: Some(id),
        property: Some(property.to_string()),
        value: Some(value.to_string()),
        ..command("setStyleProperty")
    }
}

#[test]
fn empty_style_value_resets_property() {
    let command = style_command(1, "background-color", "".to_string()).unwrap();
    match command {
        StyleCommand::MutateStyle {
            mutation: StyleMutation::Reset(StyleProperty::Background),
            ..
        } => {}
        _ => panic!("expected background reset style mutation"),
    }
}

#[test]
fn style_properties_are_known_by_css_and_camel_case_names() {
    assert_eq!(style_property("max-height"), Some(StyleProperty::MaxHeight));
    assert_eq!(style_property("maxHeight"), Some(StyleProperty::MaxHeight));
    assert_eq!(style_property("zIndex"), Some(StyleProperty::ZIndex));
    assert_eq!(style_property("text-decoration-line"), Some(StyleProperty::TextDecorationLine));
    assert_eq!(style_property("background-color"), Some(StyleProperty::Background));
    assert_eq!(style_property("transition"), None);
    assert_eq!(style_property("colour"), None);
    assert!(matches!(style_reset("top"), Ok(StyleProperty::Top)));
    assert!(matches!(style_reset("nope"), Err(StyleError::UnsupportedProperty(name)) if name == "nope"));
}

#[test]
fn style_commands_set_reset_or_refuse() {
    match style_command(3, "opacity", "75%".to_string()).unwrap() {
        StyleCommand::MutateStyle {
            node,
            mutation: StyleMutation::Assign(StyleProperty::Opacity, StyleValue::Number(value)),
        } => {
            assert_eq!(node, DomId(3));
            assert_eq!(value, CssNumber { negative: false, mantissa: 75, scale: 2 });
        }
        _ => panic!("expected opacity"),
    }
    assert!(matches!(
        style_command(1, "top", "  ".to_string()).unwrap(),
        StyleCommand::MutateStyle {
            mutation: StyleMutation::Reset(StyleProperty::Top),
            ..
        }
    ));
    match style_command(2, "transition", "opacity 1s".to_string()).unwrap() {
        StyleCommand::SetTransition { node, transitions } => {
            assert_eq!(node, DomId(2));
            assert_eq!(
                transitions,
                vec![TransitionSpec { property: TransitionProperty::Opacity, duration_ms: 1000 }]
            );
        }
        _ => panic!("expected transition"),
    }
    assert!(style_command(1, "transition", "".to_string()).is_err());
    assert!(matches!(
        style_command(1, "bogus", "1".to_string()),
        Err(StyleError::UnsupportedProperty(name)) if name == "bogus"
    ));
    assert!(is_blank(" \t\n"));
    assert!(!is_blank(" x "));
}

#[test]
fn batch_gives_created_elements_consecutive_ids_and_folds_their_styles() {
    let mut next = 10;
    let commands = vec![
        create("createDiv", -1),
        create("createSpan", -2),
        style(-1, "width", "5"),
        BatchCommand {
            parent: Some(-1),
            child: Some(-2),
            ..command("appendChild")
        },
        style(4, "color", "red"),
        BatchCommand {
            id: Some(-2),
            text: Some("hi".to_string()),
            ..command("setText")
        },
    ];
    let batch = rewrite_batch(&mut next, &commands).unwrap();
    assert_eq!(next, 12);
    assert_eq!(
        batch.mappings,
        vec![
            BatchIdMapping { temporary_id: -1, id: 10 },
            BatchIdMapping { temporary_id: -2, id: 11 }
        ]
    );
    assert_eq!(batch.commands.len(), 5);
    match &batch.commands[0] {
        RenderCommand::CreateElementWithId { id, inline, styles } => {
            assert_eq!(*id, DomId(10));
            assert!(!inline);
            assert_eq!(styles.len(), 1);
            assert!(matches!(
                &styles[0],
                StyleMutation::Assign(
                    StyleProperty::Width,
                    StyleValue::Dimension(CssDimension::Length(CssNumber { negative: false, mantissa: 5, scale: 0 }))
                )
            ));
        }
        _ => panic!("expected the div"),
    }
    assert!(matches!(
        &batch.commands[1],
        RenderCommand::CreateElementWithId { id: DomId(11), inline: true, .. }
    ));
    assert!(matches!(
        &batch.commands[2],
        RenderCommand::AppendChild { parent: DomId(10), child: DomId(11) }
    ));
    assert!(matches!(
        &batch.commands[3],
        RenderCommand::MutateStyle { node: DomId(4), mutation: StyleMutation::Assign(StyleProperty::Color, _) }
    ));
    assert!(matches!(
        &batch.commands[4],
        RenderCommand::SetText { node: DomId(11), text } if text == "hi"
    ));
}

#[test]
fn batch_refusals_name_the_command_and_field() {
    let mut next = 1;
    let missing = vec![command("createDiv")];
    assert!(matches!(
        rewrite_batch(&mut next, &missing),
        Err(BatchError::MissingField { command: BatchCommandKind::CreateDiv, field: BatchField::Id })
    ));
    let unknown = vec![BatchCommand { id: Some(-5), ..command("destroyNode") }];
    assert!(matches!(
        rewrite_batch(&mut next, &unknown),
        Err(BatchError::UnknownId { command: BatchCommandKind::DestroyNode, field: BatchField::Id, id: -5 })
    ));
    let unsupported = vec![create("createDiv", -1), command("explode")];
    assert!(matches!(
        rewrite_batch(&mut next, &unsupported),
        Err(BatchError::UnsupportedCommand(name)) if name == "explode"
    ));
    assert_eq!(next, 2, "the id handed out before the refusal stays used");
    let bad_style = vec![style(3, "colour", "red")];
    assert!(matches!(
        rewrite_batch(&mut next, &bad_style),
        Err(BatchError::UnsupportedStyleProperty(name)) if name == "colour"
    ));
}

#[test]
fn batch_refuses_when_element_ids_run_out() {
    let mut next = u32::MAX;
    assert!(matches!(
        rewrite_batch(&mut next, &vec![create("createText", -1)]),
        Err(BatchError::MissingField { field: BatchField::Text, .. })
    ));
    let text = BatchCommand { text: Some("t".to_string()), ..create("createText", -1) };
    assert!(matches!(rewrite_batch(&mut next, &vec![text]), Err(BatchError::DomIdOverflow)));
    assert_eq!(next, u32::MAX);
    assert!(allocate_dom_id(&mut next).is_err());
    let mut low = 7;
    assert!(matches!(allocate_dom_id(&mut low), Ok(DomId(7))));
    assert_eq!(low, 8);
}

#[test]
fn empty_batch_rewrites_to_nothing() {
    let mut next = 3;
    let batch = rewrite_batch(&mut next, &Vec::new()).unwrap();
    assert!(batch.mappings.is_empty());
    assert!(batch.commands.is_empty());
    assert_eq!(next, 3);
}

#[test]
fn command_kinds_are_named_as_javascript_names_them() {
    assert_eq!(command_kind("insertChildBefore"), Some(BatchCommandKind::InsertChildBefore));
    assert_eq!(command_kind("setTextAreaPlaceholder"), Some(BatchCommandKind::SetTextAreaPlaceholder));
    assert_eq!(command_kind("createdDiv"), None);
}

#[test]
fn engine_results_keep_their_numbers_for_javascript() {
    let metrics = scroll_metrics_to_napi(ArenaScrollMetrics {
        scroll_left: 1,
        scroll_top: 2,
        scroll_width: 3,
        scroll_height: 4,
        client_width: 5,
        client_height: 6,
    });
    assert_eq!((metrics.scroll_left, metrics.client_height), (1, 6));
    let hit = scrollbar_hit_to_napi(EngineScrollbarHit {
        target_id: DomId(9),
        axis: ScrollbarAxis::Horizontal,
        rail_start: 1,
        rail_length: 2,
        thumb_start: 3,
        thumb_length: 4,
        scroll_offset: 5,
        max_scroll: 6,
        client_length: 7,
        scroll_length: 8,
    });
    assert_eq!(hit.axis, "x");
    assert_eq!(hit.target_id, 9);
    assert_eq!(hit.scroll_length, 8);
    let click = click_event_to_napi(EngineClickEvent {
        target_id: DomId(4),
        client_x: 1,
        client_y: 2,
        button: 0,
        ctrl_key: true,
        alt_key: false,
        meta_key: false,
        shift_key: true,
    });
    assert_eq!(click.event_type, "click");
    assert_eq!(click.target_id, 4);
    assert!(click.ctrl_key && click.shift_key);
}

#[test]
fn absolute_rects_normalise_their_edges() {
    let rect = AbsoluteRect::from_edges(5, 4, 1, 2);
    assert_eq!(rect, AbsoluteRect { left: 1, top: 2, right: 5, bottom: 4 });
    assert_eq!(rect.width(), 4);
    assert_eq!(rect.height(), 2);
    assert!(rect.contains(1, 2));
    assert!(!rect.contains(5, 2));
    let crossed = AbsoluteRect { left: 3, top: 3, right: 1, bottom: 1 };
    assert_eq!(crossed.width(), 0);
    assert_eq!(crossed.height(), 0);
}

#[test]
fn pointer_clamps_into_the_rect_and_to_zero() {
    assert_eq!(clamp_pointer_to_rect_axis(10, 2, 6), 5);
    assert_eq!(clamp_pointer_to_rect_axis(-3, 2, 6), 2);
    assert_eq!(clamp_pointer_to_rect_axis(-3, -5, 6), 0);
    assert_eq!(clamp_pointer_to_rect_axis(4, 7, 7), 7);
    assert_eq!(clamp_pointer_to_rect_axis(4, -7, -9), 0);
}

#[test]
fn textarea_scrolls_just_enough_to_show_its_cursor() {
    assert_eq!(textarea_scroll_top(9, 4), 6);
    assert_eq!(textarea_scroll_top(2, 4), 0);
    assert_eq!(textarea_scroll_top(9, 0), 0);
    assert_eq!(textarea_scroll_top_for_cursor(5, 2, 4, 100), 2);
    assert_eq!(textarea_scroll_top_for_cursor(5, 7, 4, 100), 5);
    assert_eq!(textarea_scroll_top_for_cursor(5, 12, 4, 100), 9);
    assert_eq!(textarea_scroll_top_for_cursor(5, 12, 4, 7), 7);
    assert_eq!(textarea_scroll_top_for_cursor(5, 12, 0, 7), 0);
}

#[test]
fn white_space_modes_decide_wrapping_and_newlines() {
    assert!(white_space_allows_wrapping(CssWhiteSpace::PreLine));
    assert!(!white_space_allows_wrapping(CssWhiteSpace::Pre));
    assert!(white_space_preserves_newlines(CssWhiteSpace::Pre));
    assert!(!white_space_preserves_newlines(CssWhiteSpace::Normal));
    assert_eq!(effective_white_space(CssWhiteSpace::Pre, CssWhiteSpace::Normal), CssWhiteSpace::Pre);
    assert_eq!(effective_white_space(CssWhiteSpace::Pre, CssWhiteSpace::Nowrap), CssWhiteSpace::Nowrap);
    assert_eq!(axis_max_scroll(LayoutOverflow::Scroll, 9), 9);
    assert_eq!(axis_max_scroll(LayoutOverflow::Hidden, 9), 0);
}

#[test]
fn words_start_after_whitespace_and_end_before_it() {
    let chars: Vec<char> = "ab  cd".chars().collect();
    assert!(is_word_start(&chars, 0));
    assert!(!is_word_start(&chars, 1));
    assert!(is_word_start(&chars, 4));
    assert_eq!(next_word_end(&chars, 0), 2);
    assert_eq!(next_word_end(&chars, 4), 6);
    assert_eq!(next_word_end(&chars, 2), 2);
}

#[test]
fn can_fold_style_mutation_into_create_command() {
    let mut next = 1;
    let commands = vec![create("createDiv", -1), style(-1, "width", "100%")];
    let batch = rewrite_batch(&mut next, &commands).unwrap();
    assert_eq!(batch.commands.len(), 1);
    match &batch.commands[0] {
        RenderCommand::CreateElementWithId { styles, .. } => {
            assert!(matches!(
                &styles[0],
                StyleMutation::Assign(
                    StyleProperty::Width,
                    StyleValue::Dimension(CssDimension::Percent(CssNumber { negative: false, mantissa: 100, scale: 2 }))
                )
            ));
        }
        _ => panic!("expected create element command"),
    }
}

#[test]
fn text_create_command_has_no_foldable_style() {
    let mut next = 1;
    let commands = vec![
        BatchCommand { text: Some("hello".to_string()), ..create("createText", -1) },
        style(-1, "width", "5"),
    ];
    let batch = rewrite_batch(&mut next, &commands).unwrap();
    assert_eq!(batch.commands.len(), 2);
    assert!(matches!(&batch.commands[0], RenderCommand::CreateTextWithId { text, .. } if text == "hello"));
    assert!(matches!(&batch.commands[1], RenderCommand::MutateStyle { node: DomId(1), .. }));
}
