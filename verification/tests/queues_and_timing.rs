use paintcannon::api::transition_event_to_napi;
use paintcannon::native_event::{
    transition_property_name, DomId, EngineTransitionEvent, KeyboardEvent, NativeEvent,
    NativeEventQueue, TerminalFocusEvent, TerminalResizeEvent, TransitionEventType,
};
use paintcannon::notification::NotificationGate;
use paintcannon::schedule::{next_frame_deadline, next_poll_deadline};
use paintcannon::style::TransitionProperty;

const MS: u64 = 1_000_000;

#[test]
fn queue_preserves_mixed_event_order_without_coalescing_resizes() {
    let mut queue = NativeEventQueue::default();
    queue.push(NativeEvent::keyboard(KeyboardEvent {
        event_type: "keydown".to_string(),
        key: "a".to_string(),
        code: "KeyA".to_string(),
        ctrl_key: false,
        alt_key: false,
        meta_key: false,
        shift_key: false,
        repeat: false,
    }));
    queue.push(NativeEvent::resize(TerminalResizeEvent { cols: 80, rows: 24 }));
    queue.push(NativeEvent::focus(TerminalFocusEvent {
        event_type: "blur".to_string(),
    }));
    queue.push(NativeEvent::resize(TerminalResizeEvent {
        cols: 100,
        rows: 40,
    }));

    let events = queue.drain();
    assert_eq!(
        events
            .iter()
            .map(|event| event.kind.as_str())
            .collect::<Vec<_>>(),
        vec!["keyboard", "resize", "focus", "resize"]
    );
    assert_eq!(events[1].resize.as_ref().map(|event| event.cols), Some(80));
    assert_eq!(events[3].resize.as_ref().map(|event| event.cols), Some(100));
    assert!(queue.drain().is_empty());
}

#[test]
fn native_event_opacity_transition_events_use_the_css_property_name() {
    assert_eq!(transition_property_name(TransitionProperty::Opacity), "opacity");
}

#[test]
fn api_opacity_transition_events_use_the_css_property_name() {
    assert_eq!(transition_property_name(TransitionProperty::Opacity), "opacity");
}

#[test]
fn transition_events_name_the_phase_and_property() {
    let engine_event = EngineTransitionEvent {
        event_type: TransitionEventType::End,
        target: DomId(7),
        property: TransitionProperty::BackgroundColor,
    };
    let event = transition_event_to_napi(engine_event);
    assert_eq!(event.event_type, "transitionend");
    assert_eq!(event.target_id, 7);
    assert_eq!(event.property_name, "background-color");

    let native = NativeEvent::transition(EngineTransitionEvent {
        event_type: TransitionEventType::Start,
        ..engine_event
    });
    assert_eq!(native.kind, "transition");
    let transition = native.transition.unwrap();
    assert_eq!(transition.event_type, "transitionstart");
    assert_eq!(transition.property_name, "background-color");
    assert!(native.keyboard.is_none());
}

#[test]
fn copy_and_paste_events_carry_their_payload() {
    let copy = NativeEvent::copy("text".to_string(), true);
    assert_eq!(copy.kind, "copy");
    let payload = copy.copy.unwrap();
    assert_eq!(payload.text, "text");
    assert!(payload.success);
    let paste = NativeEvent::paste("p".to_string());
    assert_eq!(paste.kind, "paste");
    assert_eq!(paste.paste.as_deref(), Some("p"));
    let empty = NativeEvent::with_kind("custom");
    assert_eq!(empty.kind, "custom");
    assert!(empty.mouse.is_none());
}

#[test]
fn queue_length_counts_waiting_events() {
    let mut queue = NativeEventQueue::new();
    assert_eq!(queue.len(), 0);
    queue.push(NativeEvent::paste("x".to_string()));
    queue.push(NativeEvent::paste("y".to_string()));
    assert_eq!(queue.len(), 2);
    assert_eq!(queue.drain().len(), 2);
    assert_eq!(queue.len(), 0);
}

#[test]
fn notification_gate_coalesces_until_acknowledged() {
    let mut gate = NotificationGate::default();

    assert!(gate.schedule());
    assert!(!gate.schedule());

    gate.acknowledge();
    assert!(gate.schedule());
}

#[test]
fn frame_deadlines_keep_the_original_cadence_and_skip_missed_ticks() {
    let start = 1_000 * MS;
    let interval = 10 * MS;

    assert_eq!(
        next_frame_deadline(start + interval, interval, start + 12 * MS),
        start + 20 * MS
    );
    assert_eq!(
        next_frame_deadline(start + interval, interval, start + 45 * MS),
        start + 50 * MS
    );
}

#[test]
fn frame_deadline_still_ahead_is_kept() {
    assert_eq!(next_frame_deadline(500, 100, 450), 500);
    assert_eq!(next_frame_deadline(500, 100, 500), 600);
}

#[test]
fn frame_deadline_near_the_end_of_the_clock_stays_on_its_grid() {
    assert_eq!(next_frame_deadline(u64::MAX - 20, 10, u64::MAX - 12), u64::MAX - 10);
}

#[test]
fn terminal_size_poll_deadline_keeps_its_cadence() {
    let start = 1_000 * MS;
    let interval = 100 * MS;
    let first_deadline = start + interval;

    assert_eq!(
        next_poll_deadline(first_deadline, interval, first_deadline),
        start + 200 * MS
    );
    assert_eq!(
        next_poll_deadline(first_deadline, interval, start + 350 * MS),
        start + 400 * MS
    );
}

#[test]
fn poll_deadline_ahead_of_now_moves_one_interval() {
    assert_eq!(next_poll_deadline(1_000, 100, 10), 1_100);
}
