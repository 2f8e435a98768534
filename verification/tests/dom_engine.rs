use paintcannon::style_record::{reset_style_property, StyleField};
use paintcannon::api::{allocate_dom_id, style_command, RenderCommand, StyleCommand, StyleMutation};
use paintcannon::style::BorderStyle;
use paintcannon::engine::{apply_command, Dirtiness, DomEngine, EngineCommand, EngineLoopState, SelectionAction};
use paintcannon::native_event::DomId;
use paintcannon::style_property::StyleProperty;
use paintcannon::style_value::StyleValue;

fn element(engine: &mut DomEngine, id: u32) {
    engine.apply_dom(RenderCommand::CreateElementWithId { id: DomId(id), inline: false, styles: Vec::new() });
}

#[test]
fn render_size_changes_dirty_layout_without_rendering_immediately() {
    let mut engine = DomEngine::new();
    let mut state = EngineLoopState { width: 80, height: 24 };
    assert_eq!(engine.dirtiness(), Dirtiness::Clean);

    assert!(apply_command(
        &mut engine,
        &mut state,
        EngineCommand::SetRenderSize { width: 100, height: 40 },
    ));

    assert_eq!((state.width, state.height), (100, 40));
    assert_eq!(engine.dirtiness(), Dirtiness::Layout);
    assert!(!engine.frame_invalidated());
}

#[test]
fn unchanged_render_size_leaves_the_frame_clean() {
    let mut engine = DomEngine::new();
    let mut state = EngineLoopState { width: 80, height: 24 };
    assert!(apply_command(&mut engine, &mut state, EngineCommand::SetRenderSize { width: 80, height: 24 }));
    assert_eq!(engine.dirtiness(), Dirtiness::Clean);
}

#[test]
fn batched_sibling_destruction_preserves_survivors_and_reuses_slots() {
    let mut engine = DomEngine::new();
    element(&mut engine, 1);
    element(&mut engine, 2);
    assert!(engine.append_child(1, 2));
    let mut removed = Vec::new();
    for id in 3..1003u32 {
        element(&mut engine, id);
        assert!(engine.append_child(1, id));
        removed.push(id);
    }
    let mut state = EngineLoopState { width: 80, height: 24 };

    assert!(apply_command(
        &mut engine,
        &mut state,
        EngineCommand::Batch {
            commands: removed.iter().map(|node| RenderCommand::DestroyNode { node: DomId(*node) }).collect(),
        },
    ));

    assert_eq!(engine.children(1), Some(vec![2]));
    for node in removed {
        assert!(!engine.contains(node));
    }
}

#[test]
fn destroying_a_subtree_removes_descendants_and_unsets_the_root() {
    let mut engine = DomEngine::new();
    for id in 1..=4 {
        element(&mut engine, id);
    }
    assert!(engine.append_child(1, 2));
    assert!(engine.append_child(2, 3));
    assert!(engine.append_child(1, 4));
    assert!(engine.set_root(2));
    assert!(engine.destroy_node(2));
    assert!(!engine.contains(2));
    assert!(!engine.contains(3));
    assert_eq!(engine.children(1), Some(vec![4]));
    assert_eq!(engine.root(), None);
    assert!(!engine.destroy_node(2));
}

#[test]
fn appending_moves_a_child_and_inserting_orders_it() {
    let mut engine = DomEngine::new();
    for id in 1..=4 {
        element(&mut engine, id);
    }
    assert!(engine.append_child(1, 3));
    assert!(engine.append_child(1, 4));
    assert!(engine.insert_child_before(1, 2, 4));
    assert_eq!(engine.children(1), Some(vec![3, 2, 4]));
    assert!(engine.append_child(2, 3));
    assert_eq!(engine.children(1), Some(vec![2, 4]));
    assert_eq!(engine.children(2), Some(vec![3]));
    assert_eq!(engine.parent(3), Some(Some(2)));
    assert!(!engine.append_child(1, 99));
}

#[test]
fn detaching_child_detaches_without_destroying_it() {
    let mut engine = DomEngine::new();
    element(&mut engine, 1);
    element(&mut engine, 2);
    assert!(engine.append_child(1, 2));
    assert!(engine.set_root(1));
    assert!(engine.detach_node(2));
    assert!(engine.contains(2));
    assert_eq!(engine.children(1), Some(vec![]));
    assert_eq!(engine.parent(2), Some(None));
    assert!(!engine.detach_node(2));
    assert!(engine.append_child(1, 2));
    assert_eq!(engine.children(1), Some(vec![2]));
}

#[test]
fn destroys_in_a_batch_wait_for_the_next_other_command() {
    let mut engine = DomEngine::new();
    element(&mut engine, 1);
    element(&mut engine, 2);
    assert!(engine.append_child(1, 2));
    let mut state = EngineLoopState { width: 10, height: 5 };
    assert!(apply_command(
        &mut engine,
        &mut state,
        EngineCommand::Batch {
            commands: vec![
                RenderCommand::DestroyNode { node: DomId(2) },
                RenderCommand::CreateElementWithId { id: DomId(2), inline: true, styles: Vec::new() },
                RenderCommand::AppendChild { parent: DomId(1), child: DomId(2) },
            ],
        },
    ));
    assert_eq!(engine.children(1), Some(vec![2]));
}

#[test]
fn shutdown_stops_and_selection_redraw_repaints() {
    let mut engine = DomEngine::new();
    let mut state = EngineLoopState { width: 10, height: 5 };
    assert!(apply_command(
        &mut engine,
        &mut state,
        EngineCommand::SelectionHandled { action: SelectionAction::Redraw },
    ));
    assert_eq!(engine.dirtiness(), Dirtiness::Paint);
    assert!(!apply_command(&mut engine, &mut state, EngineCommand::Shutdown));
}

#[test]
fn paint_only_style_changes_do_not_redo_layout() {
    let mut engine = DomEngine::new();
    element(&mut engine, 1);
    assert_eq!(engine.dirtiness(), Dirtiness::Layout);
    engine.frame_written();
    assert!(!engine.prepare_frame_tick(false));
    assert!(engine.mutate_style(1, StyleMutation::Assign(StyleProperty::Color, StyleValue::Colour(paintcannon::style::Background::Red))));
    assert_eq!(engine.dirtiness(), Dirtiness::Paint);
    assert!(engine.prepare_frame_tick(false));
    let mut state = EngineLoopState { width: 10, height: 5 };
    assert!(apply_command(&mut engine, &mut state, EngineCommand::SetViewport { viewport: DomId(1) }));
    assert_eq!(engine.viewport(), Some(1));
    assert_eq!(engine.dirtiness(), Dirtiness::Layout);
    assert!(!engine.mutate_style(9, StyleMutation::Reset(StyleProperty::Color)));
}

#[test]
fn border_style_changes_reach_the_box_style() {
    let mut engine = DomEngine::new();
    element(&mut engine, 1);
    for (property, value) in [("border", "rounded"), ("border-left", "double"), ("borderTop", "")] {
        match style_command(1, property, value.to_string()).unwrap() {
            StyleCommand::MutateStyle { node, mutation } => assert!(engine.mutate_style(node.0, mutation)),
            _ => panic!("expected a style change"),
        }
    }
    let style = engine.div_style(1).unwrap();
    assert_eq!(style.border_top, BorderStyle::NoBorder);
    assert_eq!(style.border_right, BorderStyle::Rounded);
    assert_eq!(style.border_bottom, BorderStyle::Rounded);
    assert_eq!(style.border_left, BorderStyle::Double);
    assert_eq!(engine.div_style(2), None);
}

#[test]
fn dom_ids_are_stable_and_not_reused_after_destroy() {
    let mut engine = DomEngine::new();
    let mut next = 1u32;
    let first = allocate_dom_id(&mut next).unwrap();
    element(&mut engine, first.0);
    assert!(engine.destroy_node(first.0));

    let second = allocate_dom_id(&mut next).unwrap();
    element(&mut engine, second.0);

    assert_ne!(first, second);
    assert!(!engine.destroy_node(first.0));
    assert!(engine.set_root(second.0));
}

#[test]
fn invalid_dom_ids_do_not_mutate_or_panic() {
    let mut engine = DomEngine::new();
    element(&mut engine, 1);
    engine.apply_dom(RenderCommand::CreateTextWithId { id: DomId(2), text: "ok".to_string() });
    let missing = 99_999;
    assert!(engine.append_child(1, 2));
    assert!(engine.set_root(1));

    assert!(!engine.append_child(1, missing));
    assert!(!engine.set_root(missing));
    assert!(!engine.set_text(missing, "nope".to_string()));
    assert!(!engine.mutate_style(missing, StyleMutation::Reset(StyleProperty::Width)));

    assert_eq!(engine.children(1), Some(vec![2]));
    assert_eq!(engine.root(), Some(1));
    assert_eq!(engine.children(missing), None);
}

#[test]
fn reset_style_property_returns_the_fields_it_covers_to_their_defaults() {
    let mut engine = DomEngine::new();
    element(&mut engine, 1);
    for (property, value) in [("padding", "1 2"), ("color", "red"), ("paddingTop", "")] {
        match style_command(1, property, value.to_string()).unwrap() {
            StyleCommand::MutateStyle { node, mutation } => assert!(engine.mutate_style(node.0, mutation)),
            _ => panic!("expected a style change"),
        }
    }
    let mut record = engine.style_record(1).unwrap();
    let top = StyleField::PaddingTop as usize;
    let right = StyleField::PaddingRight as usize;
    let color = StyleField::Color as usize;
    assert_eq!(record.set_by(top), None);
    assert_eq!(record.set_by(right), Some(0));
    assert_eq!(record.set_by(color), Some(1));
    reset_style_property(&mut record, StyleProperty::Padding);
    assert_eq!(record.set_by(right), None);
    assert_eq!(record.set_by(color), Some(1));
    assert!(engine.style_record(7).is_none());
}
