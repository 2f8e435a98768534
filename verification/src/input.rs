//! Decisions on terminal input: which DOM-style keyboard, mouse, focus and
//! resize events a terminal report becomes, which keys are held down, and
//! when a key whose release the terminal never reports is released for it.
//!
//! Times here are milliseconds on a monotonic clock.

use vstd::prelude::*;
use crate::native_event::{
    appended, empty_event_of, is_keyboard_event, is_mouse_event, KeyboardEvent, NativeEvent,
    NativeEventQueue, TerminalFocusEvent, TerminalMouseEvent, TerminalResizeEvent,
};
use crate::text::{decimal, push_decimal, string_from, string_push};

verus! {

/// A key as the terminal reports it. `Media` and `Modifier` carry the key's
/// display name.
#[derive(Clone, Debug)]
pub enum KeyCode {
    Backspace,
    Enter,
    Left,
    Right,
    Up,
    Down,
    Home,
    End,
    PageUp,
    PageDown,
    Tab,
    BackTab,
    Delete,
    Insert,
    F(u8),
    Char(char),
    Null,
    Esc,
    CapsLock,
    ScrollLock,
    NumLock,
    PrintScreen,
    Pause,
    Menu,
    KeypadBegin,
    Media(String),
    Modifier(String),
}

/// The modifier keys held during a key or mouse report.
#[derive(Clone, Copy, Debug, PartialEq, Eq, Structural)]
pub struct KeyModifiers {
    pub shift: bool,
    pub control: bool,
    pub alt: bool,
    pub super_key: bool,
    pub hyper: bool,
    pub meta: bool,
}

/// Whether a key report is a press, an auto-repeat or a release.
#[derive(Clone, Copy, Debug, PartialEq, Eq, Structural)]
pub enum KeyEventKind {
    Press,
    Repeat,
    Release,
}

/// A key report of the terminal.
#[derive(Clone, Debug)]
pub struct TerminalKeyEvent {
    pub code: KeyCode,
    pub modifiers: KeyModifiers,
    pub kind: KeyEventKind,
}

/// The DOM `metaKey` of a set of modifiers: meta, super and hyper all count.
pub open spec fn spec_meta(modifiers: KeyModifiers) -> bool {
    modifiers.meta || modifiers.super_key || modifiers.hyper
}

/// Whether a key report interrupts the process as Ctrl+C does: a press or
/// repeat of `c` or `C` with Control held, or of the ETX control character.
pub open spec fn spec_is_ctrl_c_event(event: TerminalKeyEvent) -> bool {
    &&& event.kind != KeyEventKind::Release
    &&& match event.code {
        KeyCode::Char(c) => ((c == 'c' || c == 'C') && event.modifiers.control) || c == '\u{3}',
        _ => false,
    }
}

/// Whether a key report interrupts the process as Ctrl+C does.
pub fn is_ctrl_c_event(event: &TerminalKeyEvent) -> (r: bool)
    ensures
        r == spec_is_ctrl_c_event(*event),
{
    if event.kind == KeyEventKind::Release {
        return false;
    }
    match event.code {
        KeyCode::Char(c) => ((c == 'c' || c == 'C') && event.modifiers.control) || c == '\u{3}',
        _ => false,
    }
}

/// Whether `c` is an ASCII letter.
pub open spec fn spec_is_ascii_letter(c: char) -> bool {
    ('a' <= c && c <= 'z') || ('A' <= c && c <= 'Z')
}

/// `c` with an ASCII lowercase letter made uppercase.
pub open spec fn spec_ascii_upper(c: char) -> char {
    if 'a' <= c && c <= 'z' {
        ((c as u32) - 32) as char
    } else {
        c
    }
}

fn ascii_upper(c: char) -> (r: char)
    ensures
        r == spec_ascii_upper(c),
{
    if 'a' <= c && c <= 'z' {
        let upper: u8 = (c as u32 - 32) as u8;
        upper as char
    } else {
        c
    }
}

/// The DOM `code` of a punctuation character, by the US layout key that
/// types it with or without Shift.
pub open spec fn spec_character_code(c: char) -> Seq<char> {
    if c == '`' || c == '~' {
        "Backquote"@
    } else if c == '-' || c == '_' {
        "Minus"@
    } else if c == '=' || c == '+' {
        "Equal"@
    } else if c == '[' || c == '{' {
        "BracketLeft"@
    } else if c == ']' || c == '}' {
        "BracketRight"@
    } else if c == '\\' || c == '|' {
        "Backslash"@
    } else if c == ';' || c == ':' {
        "Semicolon"@
    } else if c == '\'' || c == '"' {
        "Quote"@
    } else if c == ',' || c == '<' {
        "Comma"@
    } else if c == '.' || c == '>' {
        "Period"@
    } else if c == '/' || c == '?' {
        "Slash"@
    } else if c == '!' {
        "Digit1"@
    } else if c == '@' {
        "Digit2"@
    } else if c == '#' {
        "Digit3"@
    } else if c == '$' {
        "Digit4"@
    } else if c == '%' {
        "Digit5"@
    } else if c == '^' {
        "Digit6"@
    } else if c == '&' {
        "Digit7"@
    } else if c == '*' {
        "Digit8"@
    } else if c == '(' {
        "Digit9"@
    } else if c == ')' {
        "Digit0"@
    } else {
        "Unidentified"@
    }
}

/// The DOM `code` of a punctuation character, by the US layout key that
/// types it with or without Shift.
pub fn character_code(c: char) -> (r: &'static str)
    ensures
        r@ == spec_character_code(c),
{
    if c == '`' || c == '~' {
        "Backquote"
    } else if c == '-' || c == '_' {
        "Minus"
    } else if c == '=' || c == '+' {
        "Equal"
    } else if c == '[' || c == '{' {
        "BracketLeft"
    } else if c == ']' || c == '}' {
        "BracketRight"
    } else if c == '\\' || c == '|' {
        "Backslash"
    } else if c == ';' || c == ':' {
        "Semicolon"
    } else if c == '\'' || c == '"' {
        "Quote"
    } else if c == ',' || c == '<' {
        "Comma"
    } else if c == '.' || c == '>' {
        "Period"
    } else if c == '/' || c == '?' {
        "Slash"
    } else if c == '!' {
        "Digit1"
    } else if c == '@' {
        "Digit2"
    } else if c == '#' {
        "Digit3"
    } else if c == '$' {
        "Digit4"
    } else if c == '%' {
        "Digit5"
    } else if c == '^' {
        "Digit6"
    } else if c == '&' {
        "Digit7"
    } else if c == '*' {
        "Digit8"
    } else if c == '(' {
        "Digit9"
    } else if c == ')' {
        "Digit0"
    } else {
        "Unidentified"
    }
}

/// The name of a key that both its DOM `key` and its DOM `code` use, for the
/// keys that are neither characters, function keys nor media or modifier
/// keys.
pub open spec fn spec_named_key(code: KeyCode) -> Seq<char> {
    match code {
        KeyCode::Backspace => "Backspace"@,
        KeyCode::Enter => "Enter"@,
        KeyCode::Left => "ArrowLeft"@,
        KeyCode::Right => "ArrowRight"@,
        KeyCode::Up => "ArrowUp"@,
        KeyCode::Down => "ArrowDown"@,
        KeyCode::Home => "Home"@,
        KeyCode::End => "End"@,
        KeyCode::PageUp => "PageUp"@,
        KeyCode::PageDown => "PageDown"@,
        KeyCode::Tab => "Tab"@,
        KeyCode::BackTab => "Tab"@,
        KeyCode::Delete => "Delete"@,
        KeyCode::Insert => "Insert"@,
        KeyCode::Null => "Unidentified"@,
        KeyCode::Esc => "Escape"@,
        KeyCode::CapsLock => "CapsLock"@,
        KeyCode::ScrollLock => "ScrollLock"@,
        KeyCode::NumLock => "NumLock"@,
        KeyCode::PrintScreen => "PrintScreen"@,
        KeyCode::Pause => "Pause"@,
        KeyCode::Menu => "ContextMenu"@,
        _ => ""@,
    }
}

fn named_key(code: &KeyCode) -> (r: &'static str)
    ensures
        r@ == spec_named_key(*code),
{
    match code {
        KeyCode::Backspace => "Backspace",
        KeyCode::Enter => "Enter",
        KeyCode::Left => "ArrowLeft",
        KeyCode::Right => "ArrowRight",
        KeyCode::Up => "ArrowUp",
        KeyCode::Down => "ArrowDown",
        KeyCode::Home => "Home",
        KeyCode::End => "End",
        KeyCode::PageUp => "PageUp",
        KeyCode::PageDown => "PageDown",
        KeyCode::Tab => "Tab",
        KeyCode::BackTab => "Tab",
        KeyCode::Delete => "Delete",
        KeyCode::Insert => "Insert",
        KeyCode::Null => "Unidentified",
        KeyCode::Esc => "Escape",
        KeyCode::CapsLock => "CapsLock",
        KeyCode::ScrollLock => "ScrollLock",
        KeyCode::NumLock => "NumLock",
        KeyCode::PrintScreen => "PrintScreen",
        KeyCode::Pause => "Pause",
        KeyCode::Menu => "ContextMenu",
        _ => "",
    }
}

/// The DOM `key` of a key report.
pub open spec fn spec_key_value(code: KeyCode) -> Seq<char> {
    match code {
        KeyCode::F(number) => "F"@ + decimal(number as nat),
        KeyCode::Char(c) => seq![c],
        KeyCode::KeypadBegin => "Clear"@,
        KeyCode::Media(name) => name@,
        KeyCode::Modifier(name) => name@,
        _ => spec_named_key(code),
    }
}

/// The DOM `key` of a key report; every report has one.
pub fn key_value(code: &KeyCode) -> (r: Option<String>)
    ensures
        r matches Some(key) && key@ == spec_key_value(*code),
{
    let key = match code {
        KeyCode::F(number) => {
            let mut key = string_from("F");
            push_decimal(&mut key, *number as u64);
            key
        },
        KeyCode::Char(c) => {
            let mut key = String::new();
            string_push(&mut key, *c);
            proof {
                assert(key@ =~= seq![*c]);
            }
            key
        },
        KeyCode::KeypadBegin => string_from("Clear"),
        KeyCode::Media(name) => name.clone(),
        KeyCode::Modifier(name) => name.clone(),
        _ => string_from(named_key(code)),
    };
    Some(key)
}

/// `s` without its spaces.
pub open spec fn without_spaces(s: Seq<char>) -> Seq<char>
    decreases s.len(),
{
    if s.len() == 0 {
        s
    } else if s.last() == ' ' {
        without_spaces(s.drop_last())
    } else {
        without_spaces(s.drop_last()).push(s.last())
    }
}

fn string_without_spaces(s: &String) -> (r: String)
    ensures
        r@ == without_spaces(s@),
{
    let text = s.as_str();
    let n = text.unicode_len();
    let mut out = String::new();
    let mut i: usize = 0;
    while i < n
        invariant
            n == text@.len(),
            text@ == s@,
            i <= n,
            out@ == without_spaces(s@.take(i as int)),
        decreases n - i,
    {
        let c = text.get_char(i);
        proof {
            assert(s@.take(i as int + 1).drop_last() =~= s@.take(i as int));
        }
        if c != ' ' {
            string_push(&mut out, c);
        }
        i = i + 1;
    }
    proof {
        assert(s@.take(n as int) =~= s@);
    }
    out
}

/// The DOM `code` of a key report: the physical key, named by the US layout.
pub open spec fn spec_code_value(code: KeyCode) -> Seq<char> {
    match code {
        KeyCode::Char(c) => {
            if spec_is_ascii_letter(c) {
                "Key"@.push(spec_ascii_upper(c))
            } else if '0' <= c && c <= '9' {
                "Digit"@.push(c)
            } else if c == ' ' {
                "Space"@
            } else {
                spec_character_code(c)
            }
        },
        KeyCode::F(number) => "F"@ + decimal(number as nat),
        KeyCode::KeypadBegin => "NumpadClear"@,
        KeyCode::Media(name) => without_spaces(name@),
        KeyCode::Modifier(name) => without_spaces(name@),
        _ => spec_named_key(code),
    }
}

/// The DOM `code` of a key report: the physical key, named by the US layout.
pub fn code_value(code: &KeyCode) -> (r: String)
    ensures
        r@ == spec_code_value(*code),
{
    match code {
        KeyCode::Char(c) => {
            let c = *c;
            if ('a' <= c && c <= 'z') || ('A' <= c && c <= 'Z') {
                let mut code = string_from("Key");
                string_push(&mut code, ascii_upper(c));
                code
            } else if '0' <= c && c <= '9' {
                let mut code = string_from("Digit");
                string_push(&mut code, c);
                code
            } else if c == ' ' {
                string_from("Space")
            } else {
                string_from(character_code(c))
            }
        },
        KeyCode::F(number) => {
            let mut code = string_from("F");
            push_decimal(&mut code, *number as u64);
            code
        },
        KeyCode::KeypadBegin => string_from("NumpadClear"),
        KeyCode::Media(name) => string_without_spaces(name),
        KeyCode::Modifier(name) => string_without_spaces(name),
        _ => string_from(named_key(code)),
    }
}

/// Whether a key is not a character key. Such keys report their own
/// release under the kitty keyboard protocol.
pub open spec fn spec_is_non_printable_key(code: KeyCode) -> bool {
    !(code is Char)
}

/// Whether a key is not a character key.
pub fn is_non_printable_key(code: &KeyCode) -> (r: bool)
    ensures
        r == spec_is_non_printable_key(*code),
{
    match code {
        KeyCode::Char(_) => false,
        _ => true,
    }
}

/// A key that is held down, as the DOM names it, with the time at which it
/// is released for the terminal if the terminal never reports its release.
#[derive(Clone, Debug)]
pub struct PressedKey {
    pub key: String,
    pub code: String,
    pub ctrl_key: bool,
    pub alt_key: bool,
    pub meta_key: bool,
    pub shift_key: bool,
    pub synthetic_keyup_at: Option<u64>,
}

/// `pressed` names key `key` and code `code`, with Control as `ctrl` and the
/// other modifiers as `modifiers` has them, and no release scheduled.
pub open spec fn pressed_key_is(
    pressed: PressedKey,
    key: Seq<char>,
    code: Seq<char>,
    ctrl: bool,
    modifiers: KeyModifiers,
) -> bool {
    &&& pressed.key@ == key
    &&& pressed.code@ == code
    &&& pressed.ctrl_key == ctrl
    &&& pressed.alt_key == modifiers.alt
    &&& pressed.meta_key == spec_meta(modifiers)
    &&& pressed.shift_key == modifiers.shift
    &&& pressed.synthetic_keyup_at is None
}

/// The letter that a C0 control character (`\u{1}` to `\u{1a}`) stands for
/// as Ctrl plus that letter.
pub open spec fn control_letter(c: char) -> Option<char> {
    if 1 <= (c as u32) && (c as u32) <= 26 {
        Some(((c as u32) + 96) as char)
    } else {
        None
    }
}

impl PressedKey {
    /// A copy of this key, field for field.
    fn duplicate(&self) -> (r: PressedKey)
        ensures
            r == *self,
    {
        PressedKey {
            key: self.key.clone(),
            code: self.code.clone(),
            ctrl_key: self.ctrl_key,
            alt_key: self.alt_key,
            meta_key: self.meta_key,
            shift_key: self.shift_key,
            synthetic_keyup_at: self.synthetic_keyup_at,
        }
    }
}

/// The key that a control character stands for: Ctrl plus a lowercase
/// letter, with the other modifiers as reported.
pub fn control_character_key(character: char, modifiers: KeyModifiers) -> (r: Option<PressedKey>)
    ensures
        control_letter(character) is None ==> r is None,
        control_letter(character) matches Some(letter) ==> r matches Some(p) && pressed_key_is(
            p,
            seq![letter],
            "Key"@.push(spec_ascii_upper(letter)),
            true,
            modifiers,
        ),
{
    let value = character as u32;
    if value < 1 || value > 26 {
        return None;
    }
    let letter_value: u8 = (value + 96) as u8;
    let letter = letter_value as char;
    let mut key = String::new();
    string_push(&mut key, letter);
    let mut code = string_from("Key");
    string_push(&mut code, ascii_upper(letter));
    proof {
        assert(key@ =~= seq![letter]);
    }
    Some(
        PressedKey {
            key,
            code,
            ctrl_key: true,
            alt_key: modifiers.alt,
            meta_key: modifiers.meta || modifiers.super_key || modifiers.hyper,
            shift_key: modifiers.shift,
            synthetic_keyup_at: None,
        },
    )
}

/// The held key a key report stands for: a control character as Ctrl plus
/// its letter, any other key by its DOM `key` and `code`.
pub open spec fn spec_pressed_key(pressed: PressedKey, event: TerminalKeyEvent) -> bool {
    match event.code {
        KeyCode::Char(c) => match control_letter(c) {
            Some(letter) => pressed_key_is(
                pressed,
                seq![letter],
                "Key"@.push(spec_ascii_upper(letter)),
                true,
                event.modifiers,
            ),
            None => pressed_key_is(
                pressed,
                spec_key_value(event.code),
                spec_code_value(event.code),
                event.modifiers.control,
                event.modifiers,
            ),
        },
        _ => pressed_key_is(
            pressed,
            spec_key_value(event.code),
            spec_code_value(event.code),
            event.modifiers.control,
            event.modifiers,
        ),
    }
}

/// The held key a key report stands for; every report stands for one.
pub fn pressed_key_from_terminal(event: &TerminalKeyEvent) -> (r: Option<PressedKey>)
    ensures
        r matches Some(p) && spec_pressed_key(p, *event),
{
    if let KeyCode::Char(character) = event.code {
        let control = control_character_key(character, event.modifiers);
        if control.is_some() {
            return control;
        }
    }
    let key = match key_value(&event.code) {
        Some(key) => key,
        None => return None,
    };
    let code = code_value(&event.code);
    let modifiers = event.modifiers;
    Some(
        PressedKey {
            key,
            code,
            ctrl_key: modifiers.control,
            alt_key: modifiers.alt,
            meta_key: modifiers.meta || modifiers.super_key || modifiers.hyper,
            shift_key: modifiers.shift,
            synthetic_keyup_at: None,
        },
    )
}

/// `event` is a keyboard event of type `event_type` for the held key `pressed`.
pub open spec fn keyboard_event_is(
    event: KeyboardEvent,
    event_type: Seq<char>,
    repeat: bool,
    pressed: PressedKey,
) -> bool {
    &&& event.event_type@ == event_type
    &&& event.key@ == pressed.key@
    &&& event.code@ == pressed.code@
    &&& event.ctrl_key == pressed.ctrl_key
    &&& event.alt_key == pressed.alt_key
    &&& event.meta_key == pressed.meta_key
    &&& event.shift_key == pressed.shift_key
    &&& event.repeat == repeat
}

/// `event` is a `"keyboard"` event of type `event_type` for `pressed`.
pub open spec fn native_keyboard_is(
    event: NativeEvent,
    event_type: Seq<char>,
    repeat: bool,
    pressed: PressedKey,
) -> bool {
    &&& empty_event_of(NativeEvent { keyboard: None, ..event }, "keyboard"@)
    &&& event.keyboard matches Some(k) && keyboard_event_is(k, event_type, repeat, pressed)
}

/// The keyboard event of type `event_type` for a held key; there always is one.
pub fn keyboard_event_from_pressed_key(
    event_type: &str,
    repeat: bool,
    pressed_key: &PressedKey,
) -> (r: Option<KeyboardEvent>)
    ensures
        r matches Some(event) && keyboard_event_is(event, event_type@, repeat, *pressed_key),
{
    Some(
        KeyboardEvent {
            event_type: string_from(event_type),
            key: pressed_key.key.clone(),
            code: pressed_key.code.clone(),
            ctrl_key: pressed_key.ctrl_key,
            alt_key: pressed_key.alt_key,
            meta_key: pressed_key.meta_key,
            shift_key: pressed_key.shift_key,
            repeat,
        },
    )
}

/// Queues a keyboard event, if there is one.
pub fn push_keyboard_event(events: &mut NativeEventQueue, event: Option<KeyboardEvent>)
    ensures
        event is None ==> final(events)@ == old(events)@,
        event matches Some(e) ==> appended(old(events)@, final(events)@, 1)
            && is_keyboard_event(final(events)@.last(), e),
{
    match event {
        Some(event) => {
            let native = NativeEvent::keyboard(event);
            events.push(native);
            proof {
                assert(final(events)@.take(old(events)@.len() as int) =~= old(events)@);
            }
        },
        None => {},
    }
}

/// Queues a `"paste"` event with the pasted text.
pub fn push_paste_event(events: &mut NativeEventQueue, data: String)
    ensures
        appended(old(events)@, final(events)@, 1),
        empty_event_of(NativeEvent { paste: None, ..final(events)@.last() }, "paste"@),
        final(events)@.last().paste == Some(data),
{
    let native = NativeEvent::paste(data);
    events.push(native);
    proof {
        assert(final(events)@.take(old(events)@.len() as int) =~= old(events)@);
    }
}

/// No two held keys share a DOM `code`.
pub open spec fn codes_distinct(keys: Seq<PressedKey>) -> bool {
    forall|i: int, j: int| 0 <= i < j < keys.len() ==> keys[i].code@ != keys[j].code@
}

/// Whether a key with DOM `code` `code` is held.
pub open spec fn has_code(keys: Seq<PressedKey>, code: Seq<char>) -> bool {
    exists|i: int| 0 <= i < keys.len() && keys[i].code@ == code
}

/// `new` is `keys` with `pressed` held: it replaces the held key of the same
/// code where there is one, and joins the others last where there is none.
pub open spec fn after_insert(keys: Seq<PressedKey>, pressed: PressedKey, new: Seq<PressedKey>) -> bool {
    if has_code(keys, pressed.code@) {
        exists|i: int|
            0 <= i < keys.len() && keys[i].code@ == pressed.code@ && new == keys.update(i, pressed)
    } else {
        new == keys.push(pressed)
    }
}

/// Whether a held key is due to be released for the terminal by `now`.
pub open spec fn is_expired(pressed: PressedKey, now: u64) -> bool {
    pressed.synthetic_keyup_at matches Some(deadline) && deadline <= now
}

/// The held keys that are not due for release by `now`, in order.
pub open spec fn kept_keys(keys: Seq<PressedKey>, now: u64) -> Seq<PressedKey>
    decreases keys.len(),
{
    if keys.len() == 0 {
        keys
    } else if is_expired(keys.last(), now) {
        kept_keys(keys.drop_last(), now)
    } else {
        kept_keys(keys.drop_last(), now).push(keys.last())
    }
}

/// The held keys that are due for release by `now`, in order.
pub open spec fn expired_keys(keys: Seq<PressedKey>, now: u64) -> Seq<PressedKey>
    decreases keys.len(),
{
    if keys.len() == 0 {
        keys
    } else if is_expired(keys.last(), now) {
        expired_keys(keys.drop_last(), now).push(keys.last())
    } else {
        expired_keys(keys.drop_last(), now)
    }
}

proof fn lemma_kept_keys_distinct(keys: Seq<PressedKey>, now: u64)
    requires
        codes_distinct(keys),
    ensures
        codes_distinct(kept_keys(keys, now)),
        forall|code: Seq<char>| has_code(kept_keys(keys, now), code) ==> has_code(keys, code),
    decreases keys.len(),
{
    if keys.len() > 0 {
        let rest = keys.drop_last();
        assert(codes_distinct(rest));
        lemma_kept_keys_distinct(rest, now);
        let kept = kept_keys(rest, now);
        assert forall|code: Seq<char>| has_code(rest, code) implies has_code(keys, code) by {
            let j = choose|j: int| 0 <= j < rest.len() && rest[j].code@ == code;
            assert(keys[j] == rest[j]);
        }
        if !is_expired(keys.last(), now) {
            assert forall|code: Seq<char>| has_code(kept.push(keys.last()), code) implies has_code(
                keys,
                code,
            ) by {
                let i = choose|i: int|
                    0 <= i < kept.push(keys.last()).len() && kept.push(keys.last())[i].code@ == code;
                if i < kept.len() {
                    assert(kept[i].code@ == code);
                    assert(has_code(kept, code));
                    assert(has_code(rest, code));
                    let j = choose|j: int| 0 <= j < rest.len() && rest[j].code@ == code;
                    assert(keys[j] == rest[j]);
                } else {
                    assert(keys[keys.len() - 1].code@ == code);
                }
            }
            assert forall|i: int, j: int|
                0 <= i < j < kept.push(keys.last()).len() implies kept.push(keys.last())[i].code@
                != kept.push(keys.last())[j].code@ by {
                if j == kept.len() {
                    if kept[i].code@ == keys.last().code@ {
                        assert(has_code(kept, keys.last().code@));
                        assert(has_code(rest, keys.last().code@));
                        let k = choose|k: int|
                            0 <= k < rest.len() && rest[k].code@ == keys.last().code@;
                        assert(keys[k] == rest[k]);
                    }
                }
            }
        }
    }
}

/// The keys held down, at most one per DOM `code`, in the order they were
/// first pressed.
pub struct PressedKeys {
    keys: Vec<PressedKey>,
}

impl View for PressedKeys {
    type V = Seq<PressedKey>;

    closed spec fn view(&self) -> Seq<PressedKey> {
        self.keys@
    }
}

impl PressedKeys {
    /// No key held.
    pub fn new() -> (r: Self)
        ensures
            r@ == Seq::<PressedKey>::empty(),
    {
        PressedKeys { keys: Vec::new() }
    }

    /// The number of held keys.
    pub fn len(&self) -> (r: usize)
        ensures
            r == self@.len(),
    {
        self.keys.len()
    }

    /// The position of the held key with DOM `code` `code`, if one is held.
    pub fn find(&self, code: &String) -> (r: Option<usize>)
        ensures
            r is None <==> !has_code(self@, code@),
            r matches Some(i) ==> i < self@.len() && self@[i as int].code@ == code@,
    {
        let mut i: usize = 0;
        while i < self.keys.len()
            invariant
                i <= self.keys@.len(),
                forall|j: int| 0 <= j < i ==> self.keys@[j].code@ != code@,
            decreases self.keys.len() - i,
        {
            if self.keys[i].code == *code {
                return Some(i);
            }
            i = i + 1;
        }
        None
    }

    /// The held key with DOM `code` `code`, if one is held.
    pub fn get(&self, code: &String) -> (r: Option<&PressedKey>)
        ensures
            r is None <==> !has_code(self@, code@),
            r matches Some(p) ==> exists|i: int|
                0 <= i < self@.len() && self@[i].code@ == code@ && *p == self@[i],
    {
        match self.find(code) {
            Some(i) => Some(&self.keys[i]),
            None => None,
        }
    }

    /// Holds `pressed`, replacing the held key of the same code.
    pub fn insert(&mut self, pressed: PressedKey)
        requires
            codes_distinct(old(self)@),
        ensures
            codes_distinct(final(self)@),
            after_insert(old(self)@, pressed, final(self)@),
    {
        let ghost p = pressed;
        match self.find(&pressed.code) {
            Some(i) => {
                self.keys.set(i, pressed);
                proof {
                    assert(self.keys@ == old(self)@.update(i as int, p));
                }
            },
            None => {
                self.keys.push(pressed);
            },
        }
    }

    /// Releases the held key with DOM `code` `code` and returns it, if one is
    /// held.
    pub fn remove(&mut self, code: &String) -> (r: Option<PressedKey>)
        requires
            codes_distinct(old(self)@),
        ensures
            codes_distinct(final(self)@),
            !has_code(old(self)@, code@) ==> r is None && final(self)@ == old(self)@,
            has_code(old(self)@, code@) ==> exists|i: int|
                0 <= i < old(self)@.len() && old(self)@[i].code@ == code@ && r == Some(
                    old(self)@[i],
                ) && final(self)@ == old(self)@.remove(i),
    {
        match self.find(code) {
            Some(i) => {
                let removed = self.keys.remove(i);
                proof {
                    let old_keys = old(self)@;
                    let new_keys = self.keys@;
                    assert forall|a: int, b: int|
                        0 <= a < b < new_keys.len() implies new_keys[a].code@
                        != new_keys[b].code@ by {
                        let oa = if a < i { a } else { a + 1 };
                        let ob = if b < i { b } else { b + 1 };
                        assert(new_keys[a] == old_keys[oa]);
                        assert(new_keys[b] == old_keys[ob]);
                    }
                }
                Some(removed)
            },
            None => None,
        }
    }

    /// Releases the keys due for release by `now` and returns them, in order.
    pub fn release_expired(&mut self, now: u64) -> (r: Vec<PressedKey>)
        requires
            codes_distinct(old(self)@),
        ensures
            codes_distinct(final(self)@),
            final(self)@ == kept_keys(old(self)@, now),
            r@ == expired_keys(old(self)@, now),
    {
        let mut kept: Vec<PressedKey> = Vec::new();
        let mut expired: Vec<PressedKey> = Vec::new();
        let mut i: usize = 0;
        while i < self.keys.len()
            invariant
                i <= self.keys@.len(),
                kept@ == kept_keys(self.keys@.take(i as int), now),
                expired@ == expired_keys(self.keys@.take(i as int), now),
            decreases self.keys.len() - i,
        {
            let pressed = self.keys[i].duplicate();
            proof {
                assert(self.keys@.take(i as int + 1).drop_last() =~= self.keys@.take(i as int));
            }
            let due = match pressed.synthetic_keyup_at {
                Some(deadline) => deadline <= now,
                None => false,
            };
            if due {
                expired.push(pressed);
            } else {
                kept.push(pressed);
            }
            i = i + 1;
        }
        proof {
            assert(self.keys@.take(self.keys@.len() as int) =~= self.keys@);
            lemma_kept_keys_distinct(old(self)@, now);
        }
        self.keys = kept;
        expired
    }

    /// Releases every held key and returns them, in order.
    pub fn release_all(&mut self) -> (r: Vec<PressedKey>)
        ensures
            r@ == old(self)@,
            final(self)@ == Seq::<PressedKey>::empty(),
    {
        let mut keys = Vec::new();
        std::mem::swap(&mut keys, &mut self.keys);
        keys
    }
}

impl Default for PressedKeys {
    fn default() -> (r: Self)
        ensures
            r@ == Seq::<PressedKey>::empty(),
    {
        PressedKeys::new()
    }
}

/// When a key pressed at `now` is released for the terminal: `delay_ms`
/// later, or never when the delay is zero.
pub open spec fn spec_synthetic_keyup_deadline(delay_ms: u32, now: u64) -> Option<u64> {
    if delay_ms == 0 {
        None
    } else {
        Some((now + delay_ms) as u64)
    }
}

/// When a key pressed at `now` is released for the terminal: `delay_ms`
/// later, or never when the delay is zero.
pub fn synthetic_keyup_deadline(delay_ms: u32, now: u64) -> (r: Option<u64>)
    requires
        delay_ms == 0 || now + delay_ms <= u64::MAX,
    ensures
        r == spec_synthetic_keyup_deadline(delay_ms, now),
{
    if delay_ms == 0 {
        None
    } else {
        Some(now + delay_ms as u64)
    }
}

/// The release deadline of a key pressed at `now`: none for a key that is
/// not a character when the kitty protocol reports releases, else the
/// synthetic keyup deadline.
pub open spec fn press_deadline(
    code: KeyCode,
    delay_ms: u32,
    kitty_keyboard_enabled: bool,
    now: u64,
) -> Option<u64> {
    if kitty_keyboard_enabled && spec_is_non_printable_key(code) {
        None
    } else {
        spec_synthetic_keyup_deadline(delay_ms, now)
    }
}

/// Whether the release deadline of a key report, if it needs one, lies
/// within the clock's range.
pub open spec fn keyup_deadline_fits(
    event: TerminalKeyEvent,
    delay_ms: u32,
    kitty_keyboard_enabled: bool,
    now: u64,
) -> bool {
    event.kind == KeyEventKind::Release || (kitty_keyboard_enabled && spec_is_non_printable_key(
        event.code,
    )) || delay_ms == 0 || now + delay_ms <= u64::MAX
}

/// What a key report does to the held keys and the event queue, given the
/// held key `pressed` that it stands for.
pub open spec fn key_report_applied(
    event: TerminalKeyEvent,
    pressed: PressedKey,
    delay_ms: u32,
    kitty_keyboard_enabled: bool,
    now: u64,
    old_keys: Seq<PressedKey>,
    new_keys: Seq<PressedKey>,
    old_events: Seq<NativeEvent>,
    new_events: Seq<NativeEvent>,
) -> bool {
    &&& appended(old_events, new_events, 1)
    &&& if event.kind == KeyEventKind::Release {
        if has_code(old_keys, pressed.code@) {
            exists|i: int|
                0 <= i < old_keys.len() && old_keys[i].code@ == pressed.code@ && new_keys
                    == old_keys.remove(i) && native_keyboard_is(
                    new_events.last(),
                    "keyup"@,
                    false,
                    old_keys[i],
                )
        } else {
            new_keys == old_keys && native_keyboard_is(new_events.last(), "keyup"@, false, pressed)
        }
    } else {
        let held = PressedKey {
            synthetic_keyup_at: press_deadline(event.code, delay_ms, kitty_keyboard_enabled, now),
            ..pressed
        };
        let repeat = event.kind == KeyEventKind::Repeat || has_code(old_keys, pressed.code@);
        &&& after_insert(old_keys, held, new_keys)
        &&& native_keyboard_is(new_events.last(), "keydown"@, repeat, held)
    }
}

/// Applies a key report: a press or repeat holds the key (scheduling its
/// synthetic release) and queues a `keydown`, repeated when the key was
/// already held; a release lets the key go and queues a `keyup` for it.
/// Returns whether an event was queued, which is always.
pub fn handle_terminal_key_event(
    event: &TerminalKeyEvent,
    pressed_keys: &mut PressedKeys,
    events: &mut NativeEventQueue,
    synthetic_keyup_delay_ms: u32,
    kitty_keyboard_enabled: bool,
    now: u64,
) -> (r: bool)
    requires
        codes_distinct(old(pressed_keys)@),
        keyup_deadline_fits(*event, synthetic_keyup_delay_ms, kitty_keyboard_enabled, now),
    ensures
        r,
        codes_distinct(final(pressed_keys)@),
        exists|pressed: PressedKey|
            spec_pressed_key(pressed, *event) && key_report_applied(
                *event,
                pressed,
                synthetic_keyup_delay_ms,
                kitty_keyboard_enabled,
                now,
                old(pressed_keys)@,
                final(pressed_keys)@,
                old(events)@,
                final(events)@,
            ),
{
    let pressed_key = match pressed_key_from_terminal(event) {
        Some(pressed_key) => pressed_key,
        None => return false,
    };
    let ghost reported = pressed_key;
    let code = pressed_key.code.clone();
    if event.kind == KeyEventKind::Release {
        let released = match pressed_keys.remove(&code) {
            Some(released) => released,
            None => pressed_key,
        };
        push_keyboard_event(events, keyboard_event_from_pressed_key("keyup", false, &released));
    } else {
        let repeat = event.kind == KeyEventKind::Repeat || pressed_keys.find(&code).is_some();
        let mut held = pressed_key;
        held.synthetic_keyup_at =
            if kitty_keyboard_enabled && is_non_printable_key(&event.code) {
                None
            } else {
                synthetic_keyup_deadline(synthetic_keyup_delay_ms, now)
            };
        let keydown = keyboard_event_from_pressed_key("keydown", repeat, &held);
        proof {
            assert(held == PressedKey {
                synthetic_keyup_at: press_deadline(
                    event.code,
                    synthetic_keyup_delay_ms,
                    kitty_keyboard_enabled,
                    now,
                ),
                ..reported
            });
        }
        pressed_keys.insert(held);
        push_keyboard_event(events, keydown);
    }
    proof {
        assert(spec_pressed_key(reported, *event));
    }
    true
}

/// Releases, for the terminal, every held key due by `now`, queueing a
/// `keyup` for each in order. Returns whether any was released.
pub fn synthesize_expired_keyups(
    pressed_keys: &mut PressedKeys,
    events: &mut NativeEventQueue,
    now: u64,
) -> (r: bool)
    requires
        codes_distinct(old(pressed_keys)@),
    ensures
        codes_distinct(final(pressed_keys)@),
        final(pressed_keys)@ == kept_keys(old(pressed_keys)@, now),
        appended(old(events)@, final(events)@, expired_keys(old(pressed_keys)@, now).len()),
        forall|j: int|
            0 <= j < expired_keys(old(pressed_keys)@, now).len() ==> native_keyboard_is(
                #[trigger] final(events)@[old(events)@.len() + j],
                "keyup"@,
                false,
                expired_keys(old(pressed_keys)@, now)[j],
            ),
        r == (expired_keys(old(pressed_keys)@, now).len() > 0),
{
    let released = pressed_keys.release_expired(now);
    push_keyups(&released, events);
    released.len() > 0
}

/// Queues a `keyup` for each of `keys`, in order.
fn push_keyups(keys: &Vec<PressedKey>, events: &mut NativeEventQueue)
    ensures
        appended(old(events)@, final(events)@, keys@.len()),
        forall|j: int|
            0 <= j < keys@.len() ==> native_keyboard_is(
                #[trigger] final(events)@[old(events)@.len() + j],
                "keyup"@,
                false,
                keys@[j],
            ),
{
    let mut i: usize = 0;
    proof {
        assert(events@.take(events@.len() as int) =~= events@);
    }
    while i < keys.len()
        invariant
            i <= keys@.len(),
            appended(old(events)@, events@, i as nat),
            forall|j: int|
                0 <= j < i ==> native_keyboard_is(
                    #[trigger] events@[old(events)@.len() + j],
                    "keyup"@,
                    false,
                    keys@[j],
                ),
        decreases keys.len() - i,
    {
        let keyup = keyboard_event_from_pressed_key("keyup", false, &keys[i]);
        let ghost before = events@;
        push_keyboard_event(events, keyup);
        proof {
            assert(events@.take(old(events)@.len() as int) =~= before.take(
                old(events)@.len() as int,
            ));
            assert forall|j: int| 0 <= j < i + 1 implies native_keyboard_is(
                #[trigger] events@[old(events)@.len() + j],
                "keyup"@,
                false,
                keys@[j],
            ) by {
                if j < i {
                    assert(events@[old(events)@.len() + j] == before[old(events)@.len() + j]);
                }
            }
        }
        i = i + 1;
    }
}

/// Releases every held key, queueing a `keyup` for each in order, as when
/// input stops.
pub fn release_all_keys(pressed_keys: &mut PressedKeys, events: &mut NativeEventQueue)
    ensures
        final(pressed_keys)@ == Seq::<PressedKey>::empty(),
        appended(old(events)@, final(events)@, old(pressed_keys)@.len()),
        forall|j: int|
            0 <= j < old(pressed_keys)@.len() ==> native_keyboard_is(
                #[trigger] final(events)@[old(events)@.len() + j],
                "keyup"@,
                false,
                old(pressed_keys)@[j],
            ),
{
    let released = pressed_keys.release_all();
    push_keyups(&released, events);
}

/// A mouse button.
#[derive(Clone, Copy, Debug, PartialEq, Eq, Structural)]
pub enum MouseButton {
    Left,
    Right,
    Middle,
}

/// What a mouse report is about.
#[derive(Clone, Copy, Debug, PartialEq, Eq, Structural)]
pub enum MouseEventKind {
    Down(MouseButton),
    Up(MouseButton),
    Drag(MouseButton),
    Moved,
    ScrollDown,
    ScrollUp,
    ScrollLeft,
    ScrollRight,
}

/// A mouse report of the terminal, at a cell.
#[derive(Clone, Copy, Debug, PartialEq, Eq, Structural)]
pub struct TerminalMouseInput {
    pub kind: MouseEventKind,
    pub column: u16,
    pub row: u16,
    pub modifiers: KeyModifiers,
}

/// The DOM number of a mouse button.
pub open spec fn spec_mouse_button_value(button: MouseButton) -> u32 {
    match button {
        MouseButton::Left => 0,
        MouseButton::Middle => 1,
        MouseButton::Right => 2,
    }
}

/// The DOM number of a mouse button.
pub fn mouse_button_value(button: MouseButton) -> (r: u32)
    ensures
        r == spec_mouse_button_value(button),
{
    match button {
        MouseButton::Left => 0,
        MouseButton::Middle => 1,
        MouseButton::Right => 2,
    }
}

/// `event` is a mouse event of type `event_type` at the report's cell, with
/// the report's modifiers and the given button and wheel deltas.
pub open spec fn mouse_event_is(
    event: TerminalMouseEvent,
    event_type: Seq<char>,
    input: TerminalMouseInput,
    button: u32,
    delta_x: i32,
    delta_y: i32,
) -> bool {
    &&& event.event_type@ == event_type
    &&& event.x == input.column as u32
    &&& event.y == input.row as u32
    &&& event.button == button
    &&& event.delta_x == delta_x
    &&& event.delta_y == delta_y
    &&& event.ctrl_key == input.modifiers.control
    &&& event.alt_key == input.modifiers.alt
    &&& event.meta_key == spec_meta(input.modifiers)
    &&& event.shift_key == input.modifiers.shift
}

/// The mouse event of type `event_type` for a report, for `button`.
pub fn mouse_event_from_terminal(
    event_type: &str,
    event: &TerminalMouseInput,
    button: MouseButton,
) -> (r: TerminalMouseEvent)
    ensures
        mouse_event_is(r, event_type@, *event, spec_mouse_button_value(button), 0, 0),
{
    let modifiers = event.modifiers;
    TerminalMouseEvent {
        event_type: string_from(event_type),
        x: event.column as u32,
        y: event.row as u32,
        button: mouse_button_value(button),
        delta_x: 0,
        delta_y: 0,
        ctrl_key: modifiers.control,
        alt_key: modifiers.alt,
        meta_key: modifiers.meta || modifiers.super_key || modifiers.hyper,
        shift_key: modifiers.shift,
    }
}

/// The `"wheel"` event for a scroll report, with its deltas in cells.
pub fn wheel_event_from_terminal(event: &TerminalMouseInput, delta_x: i32, delta_y: i32) -> (r:
    TerminalMouseEvent)
    ensures
        mouse_event_is(r, "wheel"@, *event, 0, delta_x, delta_y),
{
    let modifiers = event.modifiers;
    TerminalMouseEvent {
        event_type: string_from("wheel"),
        x: event.column as u32,
        y: event.row as u32,
        button: 0,
        delta_x,
        delta_y,
        ctrl_key: modifiers.control,
        alt_key: modifiers.alt,
        meta_key: modifiers.meta || modifiers.super_key || modifiers.hyper,
        shift_key: modifiers.shift,
    }
}

/// Queues a `"mouse"` event.
pub fn push_mouse_event(events: &mut NativeEventQueue, event: TerminalMouseEvent)
    ensures
        appended(old(events)@, final(events)@, 1),
        is_mouse_event(final(events)@.last(), event),
{
    let native = NativeEvent::mouse(event);
    events.push(native);
    proof {
        assert(final(events)@.take(old(events)@.len() as int) =~= old(events)@);
    }
}

/// What a mouse report means to text selection.
#[derive(Clone, Copy, Debug, PartialEq, Eq, Structural)]
pub enum SelectionMouseEventType {
    Down,
    Up,
    Drag,
    Scroll,
}

/// Whether a selection report is swallowed because the press that began it
/// landed on a scrollbar: a press on a scrollbar starts swallowing, drags
/// and wheel reports are swallowed while it lasts, and the release that
/// ends it is swallowed too. `on_scrollbar` is whether the report's point is
/// on a scrollbar; only a press asks.
pub fn scrollbar_suppresses_selection(
    suppressed: &mut bool,
    event_type: SelectionMouseEventType,
    on_scrollbar: bool,
) -> (r: bool)
    ensures
        event_type == SelectionMouseEventType::Down ==> (r == on_scrollbar && *final(suppressed)
            == (on_scrollbar || *old(suppressed))),
        (event_type == SelectionMouseEventType::Drag || event_type
            == SelectionMouseEventType::Scroll) ==> (r == *old(suppressed) && *final(suppressed)
            == *old(suppressed)),
        event_type == SelectionMouseEventType::Up ==> (r == *old(suppressed) && !*final(
            suppressed)),
{
    match event_type {
        SelectionMouseEventType::Down => {
            if on_scrollbar {
                *suppressed = true;
                true
            } else {
                false
            }
        },
        SelectionMouseEventType::Drag | SelectionMouseEventType::Scroll => *suppressed,
        SelectionMouseEventType::Up => {
            if *suppressed {
                *suppressed = false;
                true
            } else {
                false
            }
        },
    }
}

/// What the input side tells the renderer.
#[derive(Clone, Copy, Debug, PartialEq, Eq, Structural)]
pub enum RendererRequest {
    /// The terminal's new size in cells.
    SetRenderSize { width: usize, height: usize },
    /// Whether the terminal has focus.
    SetTerminalFocused { focused: bool },
    /// Where the mouse pointer is.
    PointerMove { x: u32, y: u32 },
    /// What a mouse report means to text selection.
    Selection { event_type: SelectionMouseEventType, x: u32, y: u32, button: u32 },
}

/// The requests for the renderer, in the order they are made; when no
/// renderer is connected, requests are dropped.
pub struct RendererOutbox {
    pub connected: bool,
    pub requests: Vec<RendererRequest>,
}

/// `new` is `old` after sending `sent`: the requests join the outbox when a
/// renderer is connected, and are dropped otherwise.
pub open spec fn sent_to_renderer(
    old: RendererOutbox,
    new: RendererOutbox,
    sent: Seq<RendererRequest>,
) -> bool {
    &&& new.connected == old.connected
    &&& new.requests@ == old.requests@ + (if old.connected {
        sent
    } else {
        seq![]
    })
}

impl RendererOutbox {
    /// An empty outbox, connected to a renderer or not.
    pub fn new(connected: bool) -> (r: Self)
        ensures
            r.connected == connected,
            r.requests@ == Seq::<RendererRequest>::empty(),
    {
        RendererOutbox { connected, requests: Vec::new() }
    }

    /// Sends a request: queued when a renderer is connected.
    pub fn send(&mut self, request: RendererRequest)
        ensures
            sent_to_renderer(*old(self), *final(self), seq![request]),
    {
        if self.connected {
            self.requests.push(request);
        }
        proof {
            if old(self).connected {
                assert(self.requests@ =~= old(self).requests@ + seq![request]);
            } else {
                assert(self.requests@ =~= old(self).requests@ + Seq::<RendererRequest>::empty());
            }
        }
    }

    /// Takes the queued requests, oldest first.
    pub fn take(&mut self) -> (r: Vec<RendererRequest>)
        ensures
            r@ == old(self).requests@,
            final(self).requests@ == Seq::<RendererRequest>::empty(),
            final(self).connected == old(self).connected,
    {
        let mut requests = Vec::new();
        std::mem::swap(&mut requests, &mut self.requests);
        requests
    }
}

/// The selection request for a button event: only the left button selects.
pub open spec fn selection_requests(
    event_type: SelectionMouseEventType,
    input: TerminalMouseInput,
    button: MouseButton,
) -> Seq<RendererRequest> {
    if button == MouseButton::Left {
        seq![
            RendererRequest::Selection {
                event_type,
                x: input.column as u32,
                y: input.row as u32,
                button: 0,
            },
        ]
    } else {
        seq![]
    }
}

/// The button an up report is about: the one that went down, if known.
pub open spec fn released_button(down: Option<MouseButton>, reported: MouseButton) -> MouseButton {
    match down {
        Some(button) => button,
        None => reported,
    }
}

/// What the renderer is told of a mouse report, when there is a renderer to
/// tell: the pointer position, then the selection request.
pub open spec fn spec_pointer_requests(input: TerminalMouseInput, down: Option<MouseButton>) -> Seq<
    RendererRequest,
> {
    let moved = seq![RendererRequest::PointerMove { x: input.column as u32, y: input.row as u32 }];
    match input.kind {
        MouseEventKind::Down(button) => moved + selection_requests(
            SelectionMouseEventType::Down,
            input,
            button,
        ),
        MouseEventKind::Up(button) => moved + selection_requests(
            SelectionMouseEventType::Up,
            input,
            released_button(down, button),
        ),
        MouseEventKind::Drag(button) => moved + selection_requests(
            SelectionMouseEventType::Drag,
            input,
            button,
        ),
        MouseEventKind::Moved => moved,
        _ => moved.push(
            RendererRequest::Selection {
                event_type: SelectionMouseEventType::Scroll,
                x: input.column as u32,
                y: input.row as u32,
                button: 0,
            },
        ),
    }
}

/// The DOM mouse events of a report, as (type, button, wheel x, wheel y).
pub open spec fn spec_mouse_events(input: TerminalMouseInput, down: Option<MouseButton>) -> Seq<
    (Seq<char>, u32, i32, i32),
> {
    match input.kind {
        MouseEventKind::Down(button) => seq![("mousedown"@, spec_mouse_button_value(button), 0, 0)],
        MouseEventKind::Up(button) => {
            let value = spec_mouse_button_value(released_button(down, button));
            seq![("mouseup"@, value, 0, 0), ("click"@, value, 0, 0)]
        },
        MouseEventKind::Drag(button) => seq![("mousedrag"@, spec_mouse_button_value(button), 0, 0)],
        MouseEventKind::Moved => seq![("mousemove"@, 0, 0, 0)],
        MouseEventKind::ScrollUp => seq![("wheel"@, 0, 0, -1i32)],
        MouseEventKind::ScrollDown => seq![("wheel"@, 0, 0, 1)],
        MouseEventKind::ScrollLeft => seq![("wheel"@, 0, -1i32, 0)],
        MouseEventKind::ScrollRight => seq![("wheel"@, 0, 1, 0)],
    }
}

/// The button that is down after a report.
pub open spec fn spec_mouse_down_after(input: TerminalMouseInput, down: Option<MouseButton>) -> Option<
    MouseButton,
> {
    match input.kind {
        MouseEventKind::Down(button) => Some(button),
        MouseEventKind::Up(_) => None,
        _ => down,
    }
}

/// Applies a mouse report: remembers which button is down, queues its DOM
/// mouse events in order, and tells the renderer where the pointer is and
/// what the report means to text selection.
pub fn handle_terminal_mouse_event(
    event: &TerminalMouseInput,
    mouse_down: &mut Option<MouseButton>,
    events: &mut NativeEventQueue,
    renderer: &mut RendererOutbox,
)
    ensures
        sent_to_renderer(*old(renderer), *final(renderer), spec_pointer_requests(*event, *old(mouse_down))),
        *final(mouse_down) == spec_mouse_down_after(*event, *old(mouse_down)),
        appended(old(events)@, final(events)@, spec_mouse_events(*event, *old(mouse_down)).len()),
        forall|j: int|
            0 <= j < spec_mouse_events(*event, *old(mouse_down)).len() ==> {
                let (event_type, button, delta_x, delta_y) = #[trigger] spec_mouse_events(
                    *event,
                    *old(mouse_down),
                )[j];
                final(events)@[old(events)@.len() + j].mouse matches Some(m) && is_mouse_event(
                    final(events)@[old(events)@.len() + j],
                    m,
                ) && mouse_event_is(m, event_type, *event, button, delta_x, delta_y)
            },
{
    let x = event.column as u32;
    let y = event.row as u32;
    let mut requests: Vec<RendererRequest> = Vec::new();
    let ghost old_events = events@;
    let ghost down = *mouse_down;
    requests.push(RendererRequest::PointerMove { x, y });
    match event.kind {
        MouseEventKind::Down(button) => {
            *mouse_down = Some(button);
            if button == MouseButton::Left {
                requests.push(
                    RendererRequest::Selection {
                        event_type: SelectionMouseEventType::Down,
                        x,
                        y,
                        button: 0,
                    },
                );
            }
            push_mouse_event(events, mouse_event_from_terminal("mousedown", event, button));
        },
        MouseEventKind::Up(reported) => {
            let button = match *mouse_down {
                Some(down) => down,
                None => reported,
            };
            *mouse_down = None;
            if button == MouseButton::Left {
                requests.push(
                    RendererRequest::Selection {
                        event_type: SelectionMouseEventType::Up,
                        x,
                        y,
                        button: 0,
                    },
                );
            }
            push_mouse_event(events, mouse_event_from_terminal("mouseup", event, button));
            let ghost middle = events@;
            push_mouse_event(events, mouse_event_from_terminal("click", event, button));
            proof {
                assert(events@[old_events.len() as int] == middle[old_events.len() as int]);
                assert(events@.take(old_events.len() as int) =~= middle.take(
                    old_events.len() as int,
                ));
            }
        },
        MouseEventKind::Drag(button) => {
            if button == MouseButton::Left {
                requests.push(
                    RendererRequest::Selection {
                        event_type: SelectionMouseEventType::Drag,
                        x,
                        y,
                        button: 0,
                    },
                );
            }
            push_mouse_event(events, mouse_event_from_terminal("mousedrag", event, button));
        },
        MouseEventKind::Moved => {
            push_mouse_event(
                events,
                mouse_event_from_terminal("mousemove", event, MouseButton::Left),
            );
        },
        _ => {
            requests.push(
                RendererRequest::Selection {
                    event_type: SelectionMouseEventType::Scroll,
                    x,
                    y,
                    button: 0,
                },
            );
            let (delta_x, delta_y): (i32, i32) = match event.kind {
                MouseEventKind::ScrollUp => (0, -1),
                MouseEventKind::ScrollDown => (0, 1),
                MouseEventKind::ScrollLeft => (-1, 0),
                _ => (1, 0),
            };
            push_mouse_event(events, wheel_event_from_terminal(event, delta_x, delta_y));
        },
    }
    proof {
        assert(requests@ =~= spec_pointer_requests(*event, down));
    }
    send_all(renderer, &requests);
}

/// Sends each of `requests` to the renderer, in order.
fn send_all(renderer: &mut RendererOutbox, requests: &Vec<RendererRequest>)
    ensures
        sent_to_renderer(*old(renderer), *final(renderer), requests@),
{
    let mut i: usize = 0;
    proof {
        assert(requests@.take(0) =~= Seq::<RendererRequest>::empty());
        assert(renderer.requests@ =~= old(renderer).requests@ + Seq::<RendererRequest>::empty());
    }
    while i < requests.len()
        invariant
            i <= requests@.len(),
            sent_to_renderer(*old(renderer), *renderer, requests@.take(i as int)),
        decreases requests.len() - i,
    {
        renderer.send(requests[i]);
        proof {
            assert(requests@.take(i as int + 1) =~= requests@.take(i as int).push(requests@[i as int]));
            if old(renderer).connected {
                assert(renderer.requests@ =~= old(renderer).requests@ + requests@.take(i as int + 1));
            } else {
                assert(renderer.requests@ =~= old(renderer).requests@ + Seq::<RendererRequest>::empty());
            }
        }
        i = i + 1;
    }
    proof {
        assert(requests@.take(requests@.len() as int) =~= requests@);
    }
}

/// The DOM name of a focus change.
pub open spec fn focus_event_name(focused: bool) -> Seq<char> {
    if focused {
        "focus"@
    } else {
        "blur"@
    }
}

/// The DOM event of the terminal gaining (`"focus"`) or losing (`"blur"`)
/// focus.
pub fn terminal_focus_event(focused: bool) -> (r: TerminalFocusEvent)
    ensures
        r.event_type@ == focus_event_name(focused),
{
    TerminalFocusEvent { event_type: string_from(if focused { "focus" } else { "blur" }) }
}

/// `event` is a `"focus"` event of the terminal gaining or losing focus.
pub open spec fn native_focus_is(event: NativeEvent, focused: bool) -> bool {
    &&& empty_event_of(NativeEvent { focus: None, ..event }, "focus"@)
    &&& event.focus matches Some(f) && f.event_type@ == focus_event_name(focused)
}

/// Queues a `"focus"` event.
pub fn push_focus_event(events: &mut NativeEventQueue, event: TerminalFocusEvent)
    ensures
        appended(old(events)@, final(events)@, 1),
        empty_event_of(NativeEvent { focus: None, ..final(events)@.last() }, "focus"@),
        final(events)@.last().focus == Some(event),
{
    let native = NativeEvent::focus(event);
    events.push(native);
    proof {
        assert(final(events)@.take(old(events)@.len() as int) =~= old(events)@);
    }
}

/// Applies a focus report: records the terminal's focus and tells the
/// renderer, and queues a DOM focus event unless the report only confirms
/// the focus the terminal started with. Returns whether an event was queued.
pub fn handle_terminal_focus_event(
    focused: bool,
    events: &mut NativeEventQueue,
    current_focus: &mut bool,
    renderer: &mut RendererOutbox,
    initial_report: bool,
) -> (r: bool)
    ensures
        *final(current_focus) == focused,
        sent_to_renderer(
            *old(renderer),
            *final(renderer),
            seq![RendererRequest::SetTerminalFocused { focused }],
        ),
        r == (!initial_report || !focused),
        r ==> appended(old(events)@, final(events)@, 1) && native_focus_is(
            final(events)@.last(),
            focused,
        ),
        !r ==> final(events)@ == old(events)@,
{
    *current_focus = focused;
    renderer.send(RendererRequest::SetTerminalFocused { focused });
    if !initial_report || !focused {
        push_focus_event(events, terminal_focus_event(focused));
        true
    } else {
        false
    }
}

/// Queues the blur that tmux failed to report: when tmux says the pane is
/// not active while the terminal is still taken to be focused. Returns
/// whether it did.
pub fn recover_missing_tmux_blur(
    tmux_pane_active: Option<bool>,
    events: &mut NativeEventQueue,
    current_focus: &mut bool,
    renderer: &mut RendererOutbox,
) -> (r: bool)
    ensures
        r == (tmux_pane_active == Some(false) && *old(current_focus)),
        r ==> !*final(current_focus) && appended(old(events)@, final(events)@, 1)
            && native_focus_is(final(events)@.last(), false) && sent_to_renderer(
            *old(renderer),
            *final(renderer),
            seq![RendererRequest::SetTerminalFocused { focused: false }],
        ),
        !r ==> *final(current_focus) == *old(current_focus) && final(events)@ == old(events)@
            && *final(renderer) == *old(renderer),
{
    let inactive = match tmux_pane_active {
        Some(active) => !active,
        None => false,
    };
    if !inactive || !*current_focus {
        return false;
    }
    handle_terminal_focus_event(false, events, current_focus, renderer, false)
}

/// The size of the terminal in cells.
#[derive(Clone, Copy, Debug, PartialEq, Eq, Structural)]
pub struct TerminalSize {
    pub cols: u32,
    pub rows: u32,
}

/// The terminal's size as (columns, rows).
pub fn terminal_cell_size(size: TerminalSize) -> (r: (u32, u32))
    ensures
        r == (size.cols, size.rows),
{
    (size.cols, size.rows)
}

/// Takes note of the terminal's size as reported or polled: a new non-empty
/// size is recorded, sent to the renderer at once, and queues a `"resize"`
/// event; an empty or unchanged one does nothing. Returns whether the size
/// changed.
pub fn observe_terminal_size(
    observed: &mut Option<(u32, u32)>,
    events: &mut NativeEventQueue,
    size: (u32, u32),
    renderer: &mut RendererOutbox,
) -> (r: bool)
    ensures
        r == (size.0 != 0 && size.1 != 0 && *old(observed) != Some(size)),
        r ==> *final(observed) == Some(size) && appended(old(events)@, final(events)@, 1)
            && empty_event_of(NativeEvent { resize: None, ..final(events)@.last() }, "resize"@)
            && final(events)@.last().resize == Some(
            TerminalResizeEvent { cols: size.0, rows: size.1 },
        ) && sent_to_renderer(
            *old(renderer),
            *final(renderer),
            seq![RendererRequest::SetRenderSize { width: size.0 as usize, height: size.1 as usize }],
        ),
        !r ==> *final(observed) == *old(observed) && final(events)@ == old(events)@ && *final(
            renderer) == *old(renderer),
{
    if size.0 == 0 || size.1 == 0 {
        return false;
    }
    let unchanged = match *observed {
        Some(current) => current.0 == size.0 && current.1 == size.1,
        None => false,
    };
    if unchanged {
        return false;
    }
    *observed = Some(size);
    renderer.send(RendererRequest::SetRenderSize { width: size.0 as usize, height: size.1 as usize });
    let native = NativeEvent::resize(TerminalResizeEvent { cols: size.0, rows: size.1 });
    events.push(native);
    proof {
        assert(final(events)@.take(old(events)@.len() as int) =~= old(events)@);
    }
    true
}

/// Sets a terminal mode flag.
pub fn set_bool(value: &mut bool, next: bool)
    ensures
        *final(value) == next,
{
    *value = next;
}

/// Sets a terminal mode flag and returns what it was.
pub fn swap_bool(value: &mut bool, next: bool) -> (r: bool)
    ensures
        r == *old(value),
        *final(value) == next,
{
    let previous = *value;
    *value = next;
    previous
}

/// Reads a terminal mode flag.
pub fn get_bool(value: &bool) -> (r: bool)
    ensures
        r == *value,
{
    *value
}

/// Which terminal modes are in force.
#[derive(Clone, Copy, Debug, PartialEq, Eq, Structural)]
pub struct TerminalModes {
    pub terminal_captured: bool,
    pub mouse_capture_enabled: bool,
    pub focus_change_enabled: bool,
    pub bracketed_paste_enabled: bool,
    pub keyboard_enhancement_pushed: bool,
    pub alternate_screen_entered: bool,
}

/// The steps that give the terminal back, each to be taken when set, in
/// field order.
#[derive(Clone, Copy, Debug, PartialEq, Eq, Structural)]
pub struct ReleaseSteps {
    pub disable_mouse_capture: bool,
    pub disable_focus_change: bool,
    pub disable_bracketed_paste: bool,
    pub pop_keyboard_enhancement: bool,
    pub leave_alternate_screen: bool,
    pub disable_raw_mode: bool,
}

/// No step at all.
pub open spec fn no_release_steps() -> ReleaseSteps {
    ReleaseSteps {
        disable_mouse_capture: false,
        disable_focus_change: false,
        disable_bracketed_paste: false,
        pop_keyboard_enhancement: false,
        leave_alternate_screen: false,
        disable_raw_mode: false,
    }
}

/// The steps that give a captured terminal back: undo each mode in force,
/// then leave raw mode; nothing for a terminal that is not captured.
pub open spec fn spec_release_steps(modes: TerminalModes) -> ReleaseSteps {
    if modes.terminal_captured {
        ReleaseSteps {
            disable_mouse_capture: modes.mouse_capture_enabled,
            disable_focus_change: modes.focus_change_enabled,
            disable_bracketed_paste: modes.bracketed_paste_enabled,
            pop_keyboard_enhancement: modes.keyboard_enhancement_pushed,
            leave_alternate_screen: modes.alternate_screen_entered,
            disable_raw_mode: true,
        }
    } else {
        no_release_steps()
    }
}

/// No mode in force.
pub open spec fn released_modes() -> TerminalModes {
    TerminalModes {
        terminal_captured: false,
        mouse_capture_enabled: false,
        focus_change_enabled: false,
        bracketed_paste_enabled: false,
        keyboard_enhancement_pushed: false,
        alternate_screen_entered: false,
    }
}

/// The modes after giving the terminal back.
pub open spec fn spec_modes_after_release(modes: TerminalModes) -> TerminalModes {
    if modes.terminal_captured {
        released_modes()
    } else {
        modes
    }
}

/// Gives a captured terminal back: clears every mode in force and returns
/// the steps that undo them; does nothing to a terminal not captured.
pub fn release_terminal_state(modes: &mut TerminalModes) -> (r: ReleaseSteps)
    ensures
        r == spec_release_steps(*old(modes)),
        *final(modes) == spec_modes_after_release(*old(modes)),
{
    if !swap_bool(&mut modes.terminal_captured, false) {
        return ReleaseSteps {
            disable_mouse_capture: false,
            disable_focus_change: false,
            disable_bracketed_paste: false,
            pop_keyboard_enhancement: false,
            leave_alternate_screen: false,
            disable_raw_mode: false,
        };
    }
    let disable_mouse_capture = swap_bool(&mut modes.mouse_capture_enabled, false);
    let disable_focus_change = swap_bool(&mut modes.focus_change_enabled, false);
    let disable_bracketed_paste = swap_bool(&mut modes.bracketed_paste_enabled, false);
    let pop_keyboard_enhancement = swap_bool(&mut modes.keyboard_enhancement_pushed, false);
    let leave_alternate_screen = swap_bool(&mut modes.alternate_screen_entered, false);
    ReleaseSteps {
        disable_mouse_capture,
        disable_focus_change,
        disable_bracketed_paste,
        pop_keyboard_enhancement,
        leave_alternate_screen,
        disable_raw_mode: true,
    }
}

/// Giving the terminal back twice is giving it back once: the second time
/// takes no step and changes nothing.
pub proof fn lemma_release_is_idempotent(modes: TerminalModes)
    ensures
        spec_release_steps(spec_modes_after_release(modes)) == no_release_steps(),
        spec_modes_after_release(spec_modes_after_release(modes)) == spec_modes_after_release(
            modes,
        ),
        !spec_modes_after_release(modes).terminal_captured,
{
}

/// Marks the terminal captured; returns whether it was not already, that
/// is whether the capture steps are to be taken.
pub fn begin_capture(modes: &mut TerminalModes) -> (r: bool)
    ensures
        r == !old(modes).terminal_captured,
        *final(modes) == (TerminalModes { terminal_captured: true, ..*old(modes) }),
{
    !swap_bool(&mut modes.terminal_captured, true)
}

/// Which keyboard enhancement to ask the terminal for.
#[derive(Clone, Copy, Debug, PartialEq, Eq, Structural)]
pub enum KeyboardEnhancement {
    /// Disambiguated escape codes and key release reports.
    ReportEventTypes,
    /// Disambiguated escape codes only.
    Disambiguate,
    /// No enhancement.
    Off,
}

/// Whether the kitty keyboard protocol is used: when the terminal supports
/// it and compatibility mode is not forced.
pub fn kitty_keyboard_enabled_for(force_compat_mode: bool, supports_enhancement: bool) -> (r: bool)
    ensures
        r == (!force_compat_mode && supports_enhancement),
{
    !force_compat_mode && supports_enhancement
}

/// The keyboard enhancement to ask for: release reports under the kitty
/// protocol, else disambiguation unless compatibility mode is forced.
pub fn keyboard_enhancement_for(kitty_keyboard_enabled: bool, force_compat_mode: bool) -> (r:
    KeyboardEnhancement)
    ensures
        r == (if kitty_keyboard_enabled {
            KeyboardEnhancement::ReportEventTypes
        } else if !force_compat_mode {
            KeyboardEnhancement::Disambiguate
        } else {
            KeyboardEnhancement::Off
        }),
{
    if kitty_keyboard_enabled {
        KeyboardEnhancement::ReportEventTypes
    } else if !force_compat_mode {
        KeyboardEnhancement::Disambiguate
    } else {
        KeyboardEnhancement::Off
    }
}

/// What to do about a key report.
#[derive(Clone, Copy, Debug, PartialEq, Eq, Structural)]
pub enum KeyDecision {
    /// Ctrl+C while the process does not take it: stop and interrupt.
    Interrupt,
    /// The report was applied; whether to notify JavaScript.
    Handled(bool),
}

/// The state of the input loop between terminal reports.
pub struct InputLoop {
    pub pressed_keys: PressedKeys,
    pub mouse_down: Option<MouseButton>,
    pub awaiting_initial_focus_report: bool,
    pub observed_terminal_size: Option<(u32, u32)>,
    pub next_terminal_size_poll: u64,
    pub tmux_focus_check_pending: bool,
}

impl InputLoop {
    /// The held keys have distinct codes.
    pub open spec fn wf(&self) -> bool {
        codes_distinct(self.pressed_keys@)
    }

    /// The state at the start: no key or button down, the first focus report
    /// still to come, the size known, and the first size poll one interval
    /// from `now`.
    pub fn new(initial_terminal_size: (u32, u32), now: u64, poll_interval: u64) -> (r: Self)
        requires
            now + poll_interval <= u64::MAX,
        ensures
            r.wf(),
            r.pressed_keys@ == Seq::<PressedKey>::empty(),
            r.mouse_down is None,
            r.awaiting_initial_focus_report,
            r.observed_terminal_size == Some(initial_terminal_size),
            r.next_terminal_size_poll == now + poll_interval,
            !r.tmux_focus_check_pending,
    {
        InputLoop {
            pressed_keys: PressedKeys::new(),
            mouse_down: None,
            awaiting_initial_focus_report: true,
            observed_terminal_size: Some(initial_terminal_size),
            next_terminal_size_poll: now + poll_interval,
            tmux_focus_check_pending: false,
        }
    }

    /// A key report: Ctrl+C interrupts unless the process takes it itself;
    /// any other report is applied and JavaScript notified.
    pub fn on_key(
        &mut self,
        event: &TerminalKeyEvent,
        events: &mut NativeEventQueue,
        synthetic_keyup_delay_ms: u32,
        kitty_keyboard_enabled: bool,
        capture_ctrl_c: bool,
        now: u64,
    ) -> (r: KeyDecision)
        requires
            old(self).wf(),
            keyup_deadline_fits(*event, synthetic_keyup_delay_ms, kitty_keyboard_enabled, now),
        ensures
            final(self).wf(),
            (!capture_ctrl_c && spec_is_ctrl_c_event(*event)) ==> r == KeyDecision::Interrupt
                && final(self).pressed_keys@ == old(self).pressed_keys@ && final(events)@ == old(events)@,
            !(!capture_ctrl_c && spec_is_ctrl_c_event(*event)) ==> r == KeyDecision::Handled(true)
                && exists|pressed: PressedKey|
                spec_pressed_key(pressed, *event) && key_report_applied(
                    *event,
                    pressed,
                    synthetic_keyup_delay_ms,
                    kitty_keyboard_enabled,
                    now,
                    old(self).pressed_keys@,
                    final(self).pressed_keys@,
                    old(events)@,
                    final(events)@,
                ),
            final(self).mouse_down == old(self).mouse_down,
            final(self).awaiting_initial_focus_report == old(self).awaiting_initial_focus_report,
            final(self).observed_terminal_size == old(self).observed_terminal_size,
            final(self).next_terminal_size_poll == old(self).next_terminal_size_poll,
            final(self).tmux_focus_check_pending == old(self).tmux_focus_check_pending,
    {
        if !capture_ctrl_c && is_ctrl_c_event(event) {
            return KeyDecision::Interrupt;
        }
        let notify = handle_terminal_key_event(
            event,
            &mut self.pressed_keys,
            events,
            synthetic_keyup_delay_ms,
            kitty_keyboard_enabled,
            now,
        );
        KeyDecision::Handled(notify)
    }

    /// A resize report: takes note of the size; a change calls for a check
    /// of tmux's focus at the next poll. Returns whether the size changed.
    pub fn on_resize(
        &mut self,
        size: (u32, u32),
        events: &mut NativeEventQueue,
        renderer: &mut RendererOutbox,
    ) -> (r: bool)
        ensures
            r ==> sent_to_renderer(
                *old(renderer),
                *final(renderer),
                seq![RendererRequest::SetRenderSize { width: size.0 as usize, height: size.1 as usize }],
            ),
            !r ==> *final(renderer) == *old(renderer),
            r == (size.0 != 0 && size.1 != 0 && old(self).observed_terminal_size != Some(size)),
            r ==> final(self).observed_terminal_size == Some(size) && final(self).tmux_focus_check_pending && appended(old(events)@, final(events)@, 1)
                && final(events)@.last().resize == Some(
                TerminalResizeEvent { cols: size.0, rows: size.1 },
            ),
            !r ==> final(self).observed_terminal_size == old(self).observed_terminal_size
                && final(self).tmux_focus_check_pending == old(self).tmux_focus_check_pending
                && final(events)@ == old(events)@,
            final(self).pressed_keys == old(self).pressed_keys,
            final(self).mouse_down == old(self).mouse_down,
            final(self).awaiting_initial_focus_report == old(self).awaiting_initial_focus_report,
            final(self).next_terminal_size_poll == old(self).next_terminal_size_poll,
    {
        let changed = observe_terminal_size(&mut self.observed_terminal_size, events, size, renderer);
        if changed {
            self.tmux_focus_check_pending = true;
        }
        changed
    }

    /// A focus report: the first one only confirms the terminal's focus
    /// unless it is a blur. Returns whether an event was queued.
    pub fn on_focus(
        &mut self,
        focused: bool,
        events: &mut NativeEventQueue,
        current_focus: &mut bool,
        renderer: &mut RendererOutbox,
    ) -> (r: bool)
        ensures
            sent_to_renderer(
                *old(renderer),
                *final(renderer),
                seq![RendererRequest::SetTerminalFocused { focused }],
            ),
            !final(self).awaiting_initial_focus_report,
            *final(current_focus) == focused,
            r == (!old(self).awaiting_initial_focus_report || !focused),
            r ==> appended(old(events)@, final(events)@, 1) && native_focus_is(
                final(events)@.last(),
                focused,
            ),
            !r ==> final(events)@ == old(events)@,
            final(self).pressed_keys == old(self).pressed_keys,
            final(self).mouse_down == old(self).mouse_down,
            final(self).observed_terminal_size == old(self).observed_terminal_size,
            final(self).next_terminal_size_poll == old(self).next_terminal_size_poll,
            final(self).tmux_focus_check_pending == old(self).tmux_focus_check_pending,
    {
        let initial_report = self.awaiting_initial_focus_report;
        self.awaiting_initial_focus_report = false;
        handle_terminal_focus_event(focused, events, current_focus, renderer, initial_report)
    }

    /// Whether the terminal size is due to be polled at `now`.
    pub fn poll_due(&self, now: u64) -> (r: bool)
        ensures
            r == (now >= self.next_terminal_size_poll),
    {
        now >= self.next_terminal_size_poll
    }

    /// The outcome of polling the terminal size: a change is taken note of
    /// as a resize report is. Returns whether the size changed.
    pub fn on_size_polled(
        &mut self,
        size: Option<TerminalSize>,
        events: &mut NativeEventQueue,
        renderer: &mut RendererOutbox,
    ) -> (r: bool)
        ensures
            r ==> (size matches Some(s) && sent_to_renderer(
                *old(renderer),
                *final(renderer),
                seq![RendererRequest::SetRenderSize { width: s.cols as usize, height: s.rows as usize }],
            )),
            !r ==> *final(renderer) == *old(renderer),
            size is None ==> !r && final(events)@ == old(events)@ && final(self).observed_terminal_size == old(self).observed_terminal_size && final(self).tmux_focus_check_pending == old(self).tmux_focus_check_pending,
            size matches Some(s) ==> r == (s.cols != 0 && s.rows != 0 && old(self).observed_terminal_size != Some((s.cols, s.rows))),
            r ==> (size matches Some(s) && final(self).observed_terminal_size == Some(
                (s.cols, s.rows),
            ) && final(self).tmux_focus_check_pending && appended(old(events)@, final(events)@, 1)
                && final(events)@.last().resize == Some(
                TerminalResizeEvent { cols: s.cols, rows: s.rows },
            )),
            !r ==> final(self).observed_terminal_size == old(self).observed_terminal_size
                && final(self).tmux_focus_check_pending == old(self).tmux_focus_check_pending
                && final(events)@ == old(events)@,
            final(self).pressed_keys == old(self).pressed_keys,
            final(self).mouse_down == old(self).mouse_down,
            final(self).awaiting_initial_focus_report == old(self).awaiting_initial_focus_report,
            final(self).next_terminal_size_poll == old(self).next_terminal_size_poll,
    {
        match size {
            Some(size) => self.on_resize(terminal_cell_size(size), events, renderer),
            None => false,
        }
    }

    /// Whether tmux's focus is to be checked now; the check is then no
    /// longer pending.
    pub fn take_tmux_focus_check(&mut self) -> (r: bool)
        ensures
            r == old(self).tmux_focus_check_pending,
            !final(self).tmux_focus_check_pending,
            final(self).pressed_keys == old(self).pressed_keys,
            final(self).awaiting_initial_focus_report == old(self).awaiting_initial_focus_report,
            final(self).observed_terminal_size == old(self).observed_terminal_size,
            final(self).next_terminal_size_poll == old(self).next_terminal_size_poll,
    {
        swap_bool(&mut self.tmux_focus_check_pending, false)
    }

    /// The outcome of asking tmux whether this pane is active: a blur that
    /// tmux failed to report is queued, and counts as the first focus
    /// report. Returns whether it was.
    pub fn on_tmux_pane_active(
        &mut self,
        tmux_pane_active: Option<bool>,
        events: &mut NativeEventQueue,
        current_focus: &mut bool,
        renderer: &mut RendererOutbox,
    ) -> (r: bool)
        ensures
            r ==> sent_to_renderer(
                *old(renderer),
                *final(renderer),
                seq![RendererRequest::SetTerminalFocused { focused: false }],
            ),
            !r ==> *final(renderer) == *old(renderer),
            r == (tmux_pane_active == Some(false) && *old(current_focus)),
            r ==> !*final(current_focus) && !final(self).awaiting_initial_focus_report && appended(
                old(events)@,
                final(events)@,
                1,
            ) && native_focus_is(final(events)@.last(), false),
            !r ==> *final(current_focus) == *old(current_focus) && final(events)@ == old(events)@
                && final(self).awaiting_initial_focus_report == old(self).awaiting_initial_focus_report,
            final(self).pressed_keys == old(self).pressed_keys,
            final(self).observed_terminal_size == old(self).observed_terminal_size,
            final(self).next_terminal_size_poll == old(self).next_terminal_size_poll,
            final(self).tmux_focus_check_pending == old(self).tmux_focus_check_pending,
    {
        let recovered = recover_missing_tmux_blur(tmux_pane_active, events, current_focus, renderer);
        if recovered {
            self.awaiting_initial_focus_report = false;
        }
        recovered
    }

    /// Moves the next size poll to the first tick of its grid after `now`.
    pub fn finish_poll(&mut self, poll_interval: u64, now: u64)
        requires
            poll_interval > 0,
            old(self).next_terminal_size_poll + poll_interval <= u64::MAX,
            now + poll_interval <= u64::MAX,
        ensures
            final(self).next_terminal_size_poll == crate::schedule::grid_deadline(
                old(self).next_terminal_size_poll as int,
                poll_interval as int,
                now as int,
            ),
            final(self).pressed_keys == old(self).pressed_keys,
            final(self).mouse_down == old(self).mouse_down,
            final(self).awaiting_initial_focus_report == old(self).awaiting_initial_focus_report,
            final(self).observed_terminal_size == old(self).observed_terminal_size,
            final(self).tmux_focus_check_pending == old(self).tmux_focus_check_pending,
    {
        proof {
            crate::schedule::lemma_grid_deadline_is_next_tick(
                self.next_terminal_size_poll as int,
                poll_interval as int,
                now as int,
            );
        }
        self.next_terminal_size_poll = crate::schedule::next_poll_deadline(
            self.next_terminal_size_poll,
            poll_interval,
            now,
        );
    }
}

/// Pressing a key that is not held and then releasing it leaves the held
/// keys as they were: the press adds it last, and the release of its code
/// can only remove that entry.
pub proof fn lemma_press_then_release_restores_held_keys(
    keys: Seq<PressedKey>,
    held: PressedKey,
    after_press: Seq<PressedKey>,
    released: int,
    after_release: Seq<PressedKey>,
)
    requires
        codes_distinct(keys),
        !has_code(keys, held.code@),
        after_insert(keys, held, after_press),
        0 <= released < after_press.len(),
        after_press[released].code@ == held.code@,
        after_release == after_press.remove(released),
    ensures
        after_release == keys,
{
    assert(after_press == keys.push(held));
    if released < keys.len() {
        assert(keys[released].code@ == held.code@);
        assert(has_code(keys, held.code@));
    }
    assert(after_release =~= keys);
}

/// A key pressed while no key is held becomes the one held key, queued as
/// a first `keydown`; it gets a synthetic release exactly when the delay is
/// not zero and the key is a character or the kitty protocol is off, and
/// that release falls the delay after the press.
pub proof fn lemma_first_press_schedules_synthetic_keyup(
    event: TerminalKeyEvent,
    pressed: PressedKey,
    delay_ms: u32,
    kitty_keyboard_enabled: bool,
    now: u64,
    new_keys: Seq<PressedKey>,
    old_events: Seq<NativeEvent>,
    new_events: Seq<NativeEvent>,
)
    requires
        event.kind == KeyEventKind::Press,
        key_report_applied(
            event,
            pressed,
            delay_ms,
            kitty_keyboard_enabled,
            now,
            Seq::empty(),
            new_keys,
            old_events,
            new_events,
        ),
    ensures
        new_keys.len() == 1,
        new_keys[0].code@ == pressed.code@,
        new_keys[0].synthetic_keyup_at is Some <==> (delay_ms != 0 && !(kitty_keyboard_enabled
            && !(event.code is Char))),
        new_keys[0].synthetic_keyup_at is Some ==> new_keys[0].synthetic_keyup_at == Some(
            (now + delay_ms) as u64,
        ),
        new_events.len() == old_events.len() + 1,
        native_keyboard_is(new_events.last(), "keydown"@, false, new_keys[0]),
{
    assert(!has_code(Seq::<PressedKey>::empty(), pressed.code@));
}

/// Whether a key report is one of the named keys: neither a character, a
/// function key, the keypad's middle key nor a media or modifier key.
pub open spec fn is_named_key(code: KeyCode) -> bool {
    !(code is Char || code is F || code is KeypadBegin || code is Media || code is Modifier)
}

/// Whether a key is Tab, forwards or backwards.
pub open spec fn is_tab_key(code: KeyCode) -> bool {
    code is Tab || code is BackTab
}

proof fn lemma_spelling_of_backspace()
    ensures
        "Backspace"@.len() == 9,
        "Backspace"@[0] == 'B',
{
    reveal_strlit("Backspace");
}

proof fn lemma_spelling_of_enter()
    ensures
        "Enter"@.len() == 5,
        "Enter"@[0] == 'E',
{
    reveal_strlit("Enter");
}

proof fn lemma_spelling_of_arrow_left()
    ensures
        "ArrowLeft"@.len() == 9,
        "ArrowLeft"@[0] == 'A',
        "ArrowLeft"@[5] == 'L',
{
    reveal_strlit("ArrowLeft");
}

proof fn lemma_spelling_of_arrow_right()
    ensures
        "ArrowRight"@.len() == 10,
        "ArrowRight"@[0] == 'A',
        "ArrowRight"@[5] == 'R',
{
    reveal_strlit("ArrowRight");
}

proof fn lemma_spelling_of_arrow_up()
    ensures
        "ArrowUp"@.len() == 7,
        "ArrowUp"@[0] == 'A',
        "ArrowUp"@[5] == 'U',
{
    reveal_strlit("ArrowUp");
}

proof fn lemma_spelling_of_arrow_down()
    ensures
        "ArrowDown"@.len() == 9,
        "ArrowDown"@[0] == 'A',
        "ArrowDown"@[5] == 'D',
{
    reveal_strlit("ArrowDown");
}

proof fn lemma_spelling_of_home()
    ensures
        "Home"@.len() == 4,
        "Home"@[0] == 'H',
{
    reveal_strlit("Home");
}

proof fn lemma_spelling_of_end()
    ensures
        "End"@.len() == 3,
        "End"@[0] == 'E',
{
    reveal_strlit("End");
}

proof fn lemma_spelling_of_page_up()
    ensures
        "PageUp"@.len() == 6,
        "PageUp"@[0] == 'P',
{
    reveal_strlit("PageUp");
}

proof fn lemma_spelling_of_page_down()
    ensures
        "PageDown"@.len() == 8,
        "PageDown"@[0] == 'P',
{
    reveal_strlit("PageDown");
}

proof fn lemma_spelling_of_tab()
    ensures
        "Tab"@.len() == 3,
        "Tab"@[0] == 'T',
{
    reveal_strlit("Tab");
}

proof fn lemma_spelling_of_delete()
    ensures
        "Delete"@.len() == 6,
        "Delete"@[0] == 'D',
{
    reveal_strlit("Delete");
}

proof fn lemma_spelling_of_insert()
    ensures
        "Insert"@.len() == 6,
        "Insert"@[0] == 'I',
{
    reveal_strlit("Insert");
}

proof fn lemma_spelling_of_unidentified()
    ensures
        "Unidentified"@.len() == 12,
        "Unidentified"@[0] == 'U',
{
    reveal_strlit("Unidentified");
}

proof fn lemma_spelling_of_escape()
    ensures
        "Escape"@.len() == 6,
        "Escape"@[0] == 'E',
{
    reveal_strlit("Escape");
}

proof fn lemma_spelling_of_caps_lock()
    ensures
        "CapsLock"@.len() == 8,
        "CapsLock"@[0] == 'C',
{
    reveal_strlit("CapsLock");
}

proof fn lemma_spelling_of_scroll_lock()
    ensures
        "ScrollLock"@.len() == 10,
        "ScrollLock"@[0] == 'S',
{
    reveal_strlit("ScrollLock");
}

proof fn lemma_spelling_of_num_lock()
    ensures
        "NumLock"@.len() == 7,
        "NumLock"@[0] == 'N',
{
    reveal_strlit("NumLock");
}

proof fn lemma_spelling_of_print_screen()
    ensures
        "PrintScreen"@.len() == 11,
        "PrintScreen"@[0] == 'P',
{
    reveal_strlit("PrintScreen");
}

proof fn lemma_spelling_of_pause()
    ensures
        "Pause"@.len() == 5,
        "Pause"@[0] == 'P',
{
    reveal_strlit("Pause");
}

proof fn lemma_spelling_of_context_menu()
    ensures
        "ContextMenu"@.len() == 11,
        "ContextMenu"@[0] == 'C',
{
    reveal_strlit("ContextMenu");
}

/// A named key reaches the page under one name, the same for its DOM `key`
/// and its DOM `code`, and no two named keys share a name, except Tab and
/// Shift+Tab, which are both the Tab key.
pub proof fn lemma_named_keys_have_distinct_names(a: KeyCode, b: KeyCode)
    requires
        is_named_key(a),
        is_named_key(b),
    ensures
        spec_key_value(a) == spec_code_value(a),
        spec_key_value(a) == spec_key_value(b) ==> a == b || (is_tab_key(a) && is_tab_key(b)),
        spec_code_value(a) == spec_code_value(b) ==> a == b || (is_tab_key(a) && is_tab_key(b)),
{
    lemma_spelling_of_backspace();
    lemma_spelling_of_enter();
    lemma_spelling_of_arrow_left();
    lemma_spelling_of_arrow_right();
    lemma_spelling_of_arrow_up();
    lemma_spelling_of_arrow_down();
    lemma_spelling_of_home();
    lemma_spelling_of_end();
    lemma_spelling_of_page_up();
    lemma_spelling_of_page_down();
    lemma_spelling_of_tab();
    lemma_spelling_of_delete();
    lemma_spelling_of_insert();
    lemma_spelling_of_unidentified();
    lemma_spelling_of_escape();
    lemma_spelling_of_caps_lock();
    lemma_spelling_of_scroll_lock();
    lemma_spelling_of_num_lock();
    lemma_spelling_of_print_screen();
    lemma_spelling_of_pause();
    lemma_spelling_of_context_menu();
}

} // verus!
