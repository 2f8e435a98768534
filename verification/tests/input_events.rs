use paintcannon::input::{
    code_value, character_code, control_character_key, handle_terminal_focus_event,
    handle_terminal_key_event, handle_terminal_mouse_event, is_ctrl_c_event, key_value,
    keyboard_event_from_pressed_key, mouse_button_value, observe_terminal_size,
    pressed_key_from_terminal, push_keyboard_event, push_paste_event, recover_missing_tmux_blur,
    release_all_keys, release_terminal_state, synthesize_expired_keyups, synthetic_keyup_deadline,
    terminal_cell_size, terminal_focus_event, InputLoop, KeyCode, KeyDecision, KeyEventKind,
    KeyModifiers, MouseButton, MouseEventKind, PressedKeys, RendererOutbox, RendererRequest,
    SelectionMouseEventType, TerminalKeyEvent, TerminalModes, TerminalMouseInput, TerminalSize,
    begin_capture, keyboard_enhancement_for, KeyboardEnhancement,
};
use paintcannon::native_event::{KeyboardEvent, NativeEventQueue};

const DEFAULT_SYNTHETIC_KEYUP_MS: u32 = 180;

fn no_modifiers() -> KeyModifiers {
    KeyModifiers {
        shift: false,
        control: false,
        alt: false,
        super_key: false,
        hyper: false,
        meta: false,
    }
}

fn shift() -> KeyModifiers {
    KeyModifiers {
        shift: true,
        ..no_modifiers()
    }
}

fn key_event(code: KeyCode, modifiers: KeyModifiers, kind: KeyEventKind) -> TerminalKeyEvent {
    TerminalKeyEvent {
        code,
        modifiers,
        kind,
    }
}

fn keyboard_event(key: &str) -> KeyboardEvent {
    KeyboardEvent {
        event_type: "keydown".to_string(),
        key: key.to_string(),
        code: "Unidentified".to_string(),
        ctrl_key: false,
        alt_key: false,
        meta_key: false,
        shift_key: false,
        repeat: false,
    }
}

#[test]
fn keyboard_and_paste_events_share_one_ordered_queue() {
    let mut events = NativeEventQueue::default();

    push_keyboard_event(&mut events, Some(keyboard_event("a")));
    push_paste_event(&mut events, "pasted".to_string());
    push_keyboard_event(&mut events, Some(keyboard_event("b")));

    let events = events.drain();
    assert_eq!(
        events[0].keyboard.as_ref().map(|event| event.key.as_str()),
        Some("a")
    );
    assert_eq!(events[1].paste.as_deref(), Some("pasted"));
    assert_eq!(
        events[2].keyboard.as_ref().map(|event| event.key.as_str()),
        Some("b")
    );
}

#[test]
fn terminal_focus_events_use_browser_event_names() {
    assert_eq!(terminal_focus_event(true).event_type, "focus");
    assert_eq!(terminal_focus_event(false).event_type, "blur");
}

#[test]
fn terminal_resize_updates_renderer_size_without_waiting_for_javascript() {
    let mut events = NativeEventQueue::default();
    let mut renderer = RendererOutbox::new(true);
    let mut observed = Some((80, 24));

    assert!(observe_terminal_size(
        &mut observed,
        &mut events,
        (100, 40),
        &mut renderer,
    ));

    assert_eq!(
        renderer.take(),
        vec![RendererRequest::SetRenderSize {
            width: 100,
            height: 40,
        }]
    );
    let events = events.drain();
    assert_eq!(
        events[0]
            .resize
            .as_ref()
            .map(|event| (event.cols, event.rows)),
        Some((100, 40))
    );
}

#[test]
fn polled_size_then_matching_sigwinch_emits_resize_once() {
    let mut events = NativeEventQueue::default();
    let mut renderer = RendererOutbox::new(true);
    let mut observed = Some((80, 24));

    assert!(observe_terminal_size(
        &mut observed,
        &mut events,
        (100, 40),
        &mut renderer,
    ));
    assert!(!observe_terminal_size(
        &mut observed,
        &mut events,
        (100, 40),
        &mut renderer,
    ));

    assert_eq!(events.drain().len(), 1);
    assert_eq!(renderer.take().len(), 1);
}

#[test]
fn handle_terminal_focus_event_updates_focus_state_and_queues_event() {
    let mut events = NativeEventQueue::default();
    let mut focused = true;
    let mut renderer = RendererOutbox::new(true);

    handle_terminal_focus_event(false, &mut events, &mut focused, &mut renderer, true);

    assert!(!focused);
    assert_eq!(
        renderer.take(),
        vec![RendererRequest::SetTerminalFocused { focused: false }]
    );
    let events = events.drain();
    assert_eq!(
        events[0].focus.as_ref().map(|event| event.event_type.as_str()),
        Some("blur")
    );
}

#[test]
fn initial_focus_confirmation_does_not_queue_a_public_event() {
    let mut events = NativeEventQueue::default();
    let mut focused = true;
    let mut renderer = RendererOutbox::new(false);

    handle_terminal_focus_event(true, &mut events, &mut focused, &mut renderer, true);

    assert!(focused);
    assert!(events.drain().is_empty());
}

#[test]
fn tmux_resize_recovery_queues_missing_blur_after_resize() {
    let mut events = NativeEventQueue::default();
    let mut focused = true;
    let mut renderer = RendererOutbox::new(true);
    let mut observed = Some((120, 40));

    assert!(observe_terminal_size(
        &mut observed,
        &mut events,
        (80, 20),
        &mut renderer,
    ));
    assert!(recover_missing_tmux_blur(
        Some(false),
        &mut events,
        &mut focused,
        &mut renderer,
    ));

    assert!(!focused);
    let requests = renderer.take();
    assert_eq!(
        requests[0],
        RendererRequest::SetRenderSize {
            width: 80,
            height: 20,
        }
    );
    assert_eq!(
        requests[1],
        RendererRequest::SetTerminalFocused { focused: false }
    );
    let events = events.drain();
    assert!(events[0].resize.is_some());
    assert_eq!(
        events[1].focus.as_ref().map(|event| event.event_type.as_str()),
        Some("blur")
    );
}

#[test]
fn tmux_resize_recovery_does_not_duplicate_or_invent_blur() {
    let mut events = NativeEventQueue::default();
    let mut focused = true;
    let mut renderer = RendererOutbox::new(false);

    assert!(!recover_missing_tmux_blur(
        Some(true),
        &mut events,
        &mut focused,
        &mut renderer,
    ));
    assert!(focused);

    focused = false;
    assert!(!recover_missing_tmux_blur(
        Some(false),
        &mut events,
        &mut focused,
        &mut renderer,
    ));
    assert!(events.drain().is_empty());
}

#[test]
fn pressed_key_from_terminal_passes_through_shifted_byte() {
    let event = key_event(KeyCode::Char('A'), shift(), KeyEventKind::Press);
    let pressed_key = pressed_key_from_terminal(&event).expect("pressed key should be produced");
    assert_eq!(pressed_key.key, "A");
    assert_eq!(pressed_key.code, "KeyA");
    assert!(pressed_key.shift_key);
    assert!(!pressed_key.ctrl_key);
    assert!(!pressed_key.alt_key);
    assert!(!pressed_key.meta_key);
}

#[test]
fn pressed_key_from_terminal_passes_through_shifted_symbol() {
    let event = key_event(KeyCode::Char('!'), shift(), KeyEventKind::Press);
    let pressed_key = pressed_key_from_terminal(&event).expect("pressed key should be produced");
    assert_eq!(pressed_key.key, "!");
    assert_eq!(pressed_key.code, "Digit1");
    assert!(pressed_key.shift_key);
}

#[test]
fn pressed_key_from_terminal_plain_letter_without_shift_stays_lowercase() {
    let event = key_event(KeyCode::Char('a'), no_modifiers(), KeyEventKind::Press);
    let pressed_key = pressed_key_from_terminal(&event).expect("pressed key should be produced");
    assert_eq!(pressed_key.key, "a");
    assert!(!pressed_key.shift_key);
}

#[test]
fn pressed_key_from_terminal_shift_tab_keeps_named_key_and_shift_flag() {
    let event = key_event(KeyCode::BackTab, shift(), KeyEventKind::Press);
    let pressed_key = pressed_key_from_terminal(&event).expect("pressed key should be produced");
    assert_eq!(pressed_key.key, "Tab");
    assert_eq!(pressed_key.code, "Tab");
    assert!(pressed_key.shift_key);
}

fn press(pressed_keys: &mut PressedKeys, code: KeyCode, delay: u32, kitty: bool) -> NativeEventQueue {
    let mut events = NativeEventQueue::default();
    handle_terminal_key_event(
        &key_event(code, no_modifiers(), KeyEventKind::Press),
        pressed_keys,
        &mut events,
        delay,
        kitty,
        1_000,
    );
    events
}

#[test]
fn printable_char_schedules_synthetic_keyup_under_kitty_without_all_keys_flag() {
    let mut pressed_keys = PressedKeys::new();
    press(&mut pressed_keys, KeyCode::Char('a'), DEFAULT_SYNTHETIC_KEYUP_MS, true);

    let pressed_key = pressed_keys
        .get(&"KeyA".to_string())
        .expect("printable press should be tracked");
    assert!(
        pressed_key.synthetic_keyup_at.is_some(),
        "printable chars need a synthetic keyup when REPORT_ALL_KEYS_AS_ESCAPE_CODES is off"
    );
}

#[test]
fn disambiguated_key_does_not_schedule_synthetic_keyup_under_kitty() {
    let mut pressed_keys = PressedKeys::new();
    let mut events = press(&mut pressed_keys, KeyCode::Tab, DEFAULT_SYNTHETIC_KEYUP_MS, true);

    let pressed_key = pressed_keys
        .get(&"Tab".to_string())
        .expect("tab press should be tracked");
    assert!(
        pressed_key.synthetic_keyup_at.is_none(),
        "disambiguated keys report real release events under kitty and must not schedule a synthetic keyup"
    );

    events.drain();
}

#[test]
fn arrow_key_does_not_schedule_synthetic_keyup_under_kitty() {
    let mut pressed_keys = PressedKeys::new();
    let mut events = press(&mut pressed_keys, KeyCode::Left, DEFAULT_SYNTHETIC_KEYUP_MS, true);

    let pressed_key = pressed_keys
        .get(&"ArrowLeft".to_string())
        .expect("arrow press should be tracked");
    assert!(pressed_key.synthetic_keyup_at.is_none());
    events.drain();
}

#[test]
fn every_key_schedules_synthetic_keyup_in_legacy_mode() {
    let mut pressed_keys = PressedKeys::new();
    let mut events = press(&mut pressed_keys, KeyCode::Tab, DEFAULT_SYNTHETIC_KEYUP_MS, false);

    let pressed_key = pressed_keys
        .get(&"Tab".to_string())
        .expect("tab press should be tracked");
    assert!(
        pressed_key.synthetic_keyup_at.is_some(),
        "legacy mode never reports real releases, so every key needs a synthetic keyup"
    );
    events.drain();
}

#[test]
fn zero_synthetic_keyup_delay_disables_synthetic_release() {
    let mut pressed_keys = PressedKeys::new();
    let mut events = press(&mut pressed_keys, KeyCode::Char('a'), 0, true);

    let pressed_key = pressed_keys
        .get(&"KeyA".to_string())
        .expect("printable press should be tracked");
    assert!(
        pressed_key.synthetic_keyup_at.is_none(),
        "a zero synthetic keyup delay must disable synthetic releases"
    );
    events.drain();
}

#[test]
fn second_press_is_a_repeat_and_release_forgets_the_key() {
    let mut pressed_keys = PressedKeys::new();
    let mut events = NativeEventQueue::new();
    let event = key_event(KeyCode::Char('z'), no_modifiers(), KeyEventKind::Press);
    assert!(handle_terminal_key_event(&event, &mut pressed_keys, &mut events, 100, false, 5));
    assert!(handle_terminal_key_event(&event, &mut pressed_keys, &mut events, 100, false, 6));
    assert_eq!(pressed_keys.len(), 1);
    let release = key_event(KeyCode::Char('z'), no_modifiers(), KeyEventKind::Release);
    assert!(handle_terminal_key_event(&release, &mut pressed_keys, &mut events, 100, false, 7));
    assert_eq!(pressed_keys.len(), 0);

    let events = events.drain();
    let keys: Vec<(String, bool)> = events
        .iter()
        .map(|event| {
            let keyboard = event.keyboard.as_ref().unwrap();
            (keyboard.event_type.clone(), keyboard.repeat)
        })
        .collect();
    assert_eq!(
        keys,
        vec![
            ("keydown".to_string(), false),
            ("keydown".to_string(), true),
            ("keyup".to_string(), false)
        ]
    );
}

#[test]
fn expired_keys_are_released_in_press_order() {
    let mut pressed_keys = PressedKeys::new();
    let mut events = NativeEventQueue::new();
    for (c, now) in [('a', 0u64), ('b', 50), ('c', 500)] {
        handle_terminal_key_event(
            &key_event(KeyCode::Char(c), no_modifiers(), KeyEventKind::Press),
            &mut pressed_keys,
            &mut events,
            100,
            false,
            now,
        );
    }
    events.drain();
    assert!(!synthesize_expired_keyups(&mut pressed_keys, &mut events, 99));
    assert!(synthesize_expired_keyups(&mut pressed_keys, &mut events, 150));
    let released: Vec<String> = events
        .drain()
        .iter()
        .map(|event| event.keyboard.as_ref().unwrap().code.clone())
        .collect();
    assert_eq!(released, vec!["KeyA".to_string(), "KeyB".to_string()]);
    assert_eq!(pressed_keys.len(), 1);

    release_all_keys(&mut pressed_keys, &mut events);
    assert_eq!(pressed_keys.len(), 0);
    assert_eq!(events.drain()[0].keyboard.as_ref().unwrap().event_type, "keyup");
}

#[test]
fn synthetic_keyup_deadline_is_the_delay_after_the_press() {
    assert_eq!(synthetic_keyup_deadline(180, 1_000), Some(1_180));
    assert_eq!(synthetic_keyup_deadline(0, 1_000), None);
}

#[test]
fn control_characters_stand_for_ctrl_and_a_letter() {
    let pressed = control_character_key('\u{1}', shift()).unwrap();
    assert_eq!(pressed.key, "a");
    assert_eq!(pressed.code, "KeyA");
    assert!(pressed.ctrl_key);
    assert!(pressed.shift_key);
    assert!(control_character_key('\u{1b}', no_modifiers()).is_none());
    assert!(control_character_key('a', no_modifiers()).is_none());
}

#[test]
fn key_and_code_values_name_keys_as_browsers_do() {
    assert_eq!(key_value(&KeyCode::F(12)).as_deref(), Some("F12"));
    assert_eq!(code_value(&KeyCode::F(5)), "F5");
    assert_eq!(key_value(&KeyCode::Esc).as_deref(), Some("Escape"));
    assert_eq!(key_value(&KeyCode::KeypadBegin).as_deref(), Some("Clear"));
    assert_eq!(code_value(&KeyCode::KeypadBegin), "NumpadClear");
    assert_eq!(code_value(&KeyCode::Char(' ')), "Space");
    assert_eq!(code_value(&KeyCode::Char('7')), "Digit7");
    assert_eq!(code_value(&KeyCode::Char('q')), "KeyQ");
    assert_eq!(code_value(&KeyCode::Char('?')), "Slash");
    assert_eq!(character_code('é'), "Unidentified");
    assert_eq!(
        key_value(&KeyCode::Media("Play/Pause".to_string())).as_deref(),
        Some("Play/Pause")
    );
    assert_eq!(code_value(&KeyCode::Media("Next Track".to_string())), "NextTrack");
    assert_eq!(code_value(&KeyCode::Modifier("Left Shift".to_string())), "LeftShift");
}

#[test]
fn ctrl_c_is_recognised_on_press_only() {
    let control = KeyModifiers {
        control: true,
        ..no_modifiers()
    };
    assert!(is_ctrl_c_event(&key_event(KeyCode::Char('c'), control, KeyEventKind::Press)));
    assert!(is_ctrl_c_event(&key_event(KeyCode::Char('\u{3}'), no_modifiers(), KeyEventKind::Repeat)));
    assert!(!is_ctrl_c_event(&key_event(KeyCode::Char('c'), control, KeyEventKind::Release)));
    assert!(!is_ctrl_c_event(&key_event(KeyCode::Char('c'), no_modifiers(), KeyEventKind::Press)));
}

#[test]
fn keyboard_event_copies_the_pressed_key() {
    let pressed = pressed_key_from_terminal(&key_event(
        KeyCode::Enter,
        no_modifiers(),
        KeyEventKind::Press,
    ))
    .unwrap();
    let event = keyboard_event_from_pressed_key("keyup", true, &pressed).unwrap();
    assert_eq!(event.event_type, "keyup");
    assert_eq!(event.key, "Enter");
    assert_eq!(event.code, "Enter");
    assert!(event.repeat);
}

fn mouse(kind: MouseEventKind) -> TerminalMouseInput {
    TerminalMouseInput {
        kind,
        column: 4,
        row: 2,
        modifiers: no_modifiers(),
    }
}

#[test]
fn mouse_up_clicks_the_button_that_went_down() {
    let mut events = NativeEventQueue::new();
    let mut renderer = RendererOutbox::new(true);
    let mut down = None;
    handle_terminal_mouse_event(
        &mouse(MouseEventKind::Down(MouseButton::Right)),
        &mut down,
        &mut events,
        &mut renderer,
    );
    assert_eq!(down, Some(MouseButton::Right));
    handle_terminal_mouse_event(
        &mouse(MouseEventKind::Up(MouseButton::Left)),
        &mut down,
        &mut events,
        &mut renderer,
    );
    assert_eq!(down, None);
    let events = events.drain();
    let kinds: Vec<(String, u32)> = events
        .iter()
        .map(|event| {
            let mouse = event.mouse.as_ref().unwrap();
            (mouse.event_type.clone(), mouse.button)
        })
        .collect();
    assert_eq!(
        kinds,
        vec![
            ("mousedown".to_string(), 2),
            ("mouseup".to_string(), 2),
            ("click".to_string(), 2)
        ]
    );
    assert_eq!(
        renderer.take(),
        vec![
            RendererRequest::PointerMove { x: 4, y: 2 },
            RendererRequest::PointerMove { x: 4, y: 2 }
        ]
    );
}

#[test]
fn left_button_and_wheel_reports_drive_selection() {
    let mut events = NativeEventQueue::new();
    let mut renderer = RendererOutbox::new(true);
    let mut down = None;
    handle_terminal_mouse_event(
        &mouse(MouseEventKind::Drag(MouseButton::Left)),
        &mut down,
        &mut events,
        &mut renderer,
    );
    handle_terminal_mouse_event(
        &mouse(MouseEventKind::ScrollUp),
        &mut down,
        &mut events,
        &mut renderer,
    );
    assert_eq!(
        renderer.take(),
        vec![
            RendererRequest::PointerMove { x: 4, y: 2 },
            RendererRequest::Selection {
                event_type: SelectionMouseEventType::Drag,
                x: 4,
                y: 2,
                button: 0
            },
            RendererRequest::PointerMove { x: 4, y: 2 },
            RendererRequest::Selection {
                event_type: SelectionMouseEventType::Scroll,
                x: 4,
                y: 2,
                button: 0
            }
        ]
    );
    let events = events.drain();
    let wheel = events[1].mouse.as_ref().unwrap();
    assert_eq!(wheel.event_type, "wheel");
    assert_eq!((wheel.delta_x, wheel.delta_y), (0, -1));
    assert_eq!(mouse_button_value(MouseButton::Middle), 1);
}

#[test]
fn disconnected_renderer_drops_requests() {
    let mut events = NativeEventQueue::new();
    let mut renderer = RendererOutbox::new(false);
    let mut down = None;
    handle_terminal_mouse_event(&mouse(MouseEventKind::Moved), &mut down, &mut events, &mut renderer);
    assert!(renderer.take().is_empty());
    assert_eq!(events.drain()[0].mouse.as_ref().unwrap().event_type, "mousemove");
}

#[test]
fn releasing_the_terminal_twice_takes_no_second_step() {
    let mut modes = TerminalModes {
        terminal_captured: true,
        mouse_capture_enabled: true,
        focus_change_enabled: false,
        bracketed_paste_enabled: true,
        keyboard_enhancement_pushed: true,
        alternate_screen_entered: false,
    };
    let first = release_terminal_state(&mut modes);
    assert!(first.disable_mouse_capture);
    assert!(!first.disable_focus_change);
    assert!(first.disable_bracketed_paste);
    assert!(first.pop_keyboard_enhancement);
    assert!(!first.leave_alternate_screen);
    assert!(first.disable_raw_mode);
    let second = release_terminal_state(&mut modes);
    assert!(!second.disable_raw_mode);
    assert!(!second.disable_mouse_capture);
    assert!(begin_capture(&mut modes));
    assert!(!begin_capture(&mut modes));
}

#[test]
fn keyboard_enhancement_follows_kitty_support_and_compat_mode() {
    assert_eq!(keyboard_enhancement_for(true, false), KeyboardEnhancement::ReportEventTypes);
    assert_eq!(keyboard_enhancement_for(false, false), KeyboardEnhancement::Disambiguate);
    assert_eq!(keyboard_enhancement_for(false, true), KeyboardEnhancement::Off);
}

#[test]
fn input_loop_reports_first_focus_only_when_it_is_a_blur() {
    let mut state = InputLoop::new((80, 24), 0, 100);
    let mut events = NativeEventQueue::new();
    let mut renderer = RendererOutbox::new(false);
    let mut focused = true;
    assert!(!state.on_focus(true, &mut events, &mut focused, &mut renderer));
    assert!(state.on_focus(true, &mut events, &mut focused, &mut renderer));
    assert_eq!(events.drain().len(), 1);
}

#[test]
fn input_loop_checks_tmux_focus_once_after_a_resize() {
    let mut state = InputLoop::new((80, 24), 0, 100);
    let mut events = NativeEventQueue::new();
    let mut renderer = RendererOutbox::new(true);
    let mut focused = true;
    assert!(!state.poll_due(99));
    assert!(state.poll_due(100));
    assert!(state.on_size_polled(Some(TerminalSize { cols: 90, rows: 30 }), &mut events, &mut renderer));
    assert!(state.take_tmux_focus_check());
    assert!(!state.take_tmux_focus_check());
    assert!(state.on_tmux_pane_active(Some(false), &mut events, &mut focused, &mut renderer));
    assert!(!focused);
    state.finish_poll(100, 250);
    assert_eq!(state.next_terminal_size_poll, 300);
    assert_eq!(terminal_cell_size(TerminalSize { cols: 3, rows: 4 }), (3, 4));
}

#[test]
fn input_loop_interrupts_on_ctrl_c_unless_captured() {
    let mut state = InputLoop::new((80, 24), 0, 100);
    let mut events = NativeEventQueue::new();
    let control = KeyModifiers {
        control: true,
        ..no_modifiers()
    };
    let ctrl_c = key_event(KeyCode::Char('c'), control, KeyEventKind::Press);
    assert_eq!(
        state.on_key(&ctrl_c, &mut events, 180, false, false, 0),
        KeyDecision::Interrupt
    );
    assert!(events.drain().is_empty());
    assert_eq!(
        state.on_key(&ctrl_c, &mut events, 180, false, true, 0),
        KeyDecision::Handled(true)
    );
    assert_eq!(events.drain().len(), 1);
}
