//! The events that the terminal and the engine hand to JavaScript, and the
//! queue that keeps them in arrival order.

use vstd::prelude::*;
use crate::style::TransitionProperty;
use crate::text::string_from;

verus! {

/// A key press or release, named as a browser names it.
#[derive(Clone, Debug)]
pub struct KeyboardEvent {
    pub event_type: String,
    pub key: String,
    pub code: String,
    pub ctrl_key: bool,
    pub alt_key: bool,
    pub meta_key: bool,
    pub shift_key: bool,
    pub repeat: bool,
}

/// A mouse event in terminal cells.
#[derive(Clone, Debug)]
pub struct TerminalMouseEvent {
    pub event_type: String,
    pub x: u32,
    pub y: u32,
    pub button: u32,
    pub delta_x: i32,
    pub delta_y: i32,
    pub ctrl_key: bool,
    pub alt_key: bool,
    pub meta_key: bool,
    pub shift_key: bool,
}

/// A new terminal size in cells.
#[derive(Clone, Copy, Debug, PartialEq, Eq, Structural)]
pub struct TerminalResizeEvent {
    pub cols: u32,
    pub rows: u32,
}

/// The terminal gaining (`"focus"`) or losing (`"blur"`) focus.
#[derive(Clone, Debug)]
pub struct TerminalFocusEvent {
    pub event_type: String,
}

/// The start or end of a style transition.
#[derive(Clone, Debug)]
pub struct TransitionEvent {
    pub event_type: String,
    pub target_id: u32,
    pub property_name: String,
}

/// The outcome of copying selected text to the clipboard.
#[derive(Clone, Debug)]
pub struct CopyEventPayload {
    pub text: String,
    pub success: bool,
}

/// One event of any kind: `kind` names the kind, and the field of that kind
/// holds the payload.
#[derive(Clone, Debug)]
pub struct NativeEvent {
    pub kind: String,
    pub keyboard: Option<KeyboardEvent>,
    pub paste: Option<String>,
    pub copy: Option<CopyEventPayload>,
    pub mouse: Option<TerminalMouseEvent>,
    pub resize: Option<TerminalResizeEvent>,
    pub focus: Option<TerminalFocusEvent>,
    pub transition: Option<TransitionEvent>,
}

/// A transition starting or ending.
#[derive(Clone, Copy, Debug, PartialEq, Eq, Structural)]
pub enum TransitionEventType {
    Start,
    End,
}

/// An element as JavaScript names it.
#[derive(Clone, Copy, Debug, PartialEq, Eq, Structural)]
pub struct DomId(pub u32);

/// A transition event of the engine, about a DOM element.
#[derive(Clone, Copy, Debug, PartialEq, Eq, Structural)]
pub struct EngineTransitionEvent {
    pub event_type: TransitionEventType,
    pub target: DomId,
    pub property: TransitionProperty,
}

/// The CSS name of a transitionable property.
pub open spec fn spec_transition_property_name(property: TransitionProperty) -> Seq<char> {
    match property {
        TransitionProperty::Color => "color"@,
        TransitionProperty::BackgroundColor => "background-color"@,
        TransitionProperty::BorderColor => "border-color"@,
        TransitionProperty::Opacity => "opacity"@,
    }
}

/// The CSS name of a transitionable property.
pub fn transition_property_name(property: TransitionProperty) -> (r: &'static str)
    ensures
        r@ == spec_transition_property_name(property),
{
    match property {
        TransitionProperty::Color => "color",
        TransitionProperty::BackgroundColor => "background-color",
        TransitionProperty::BorderColor => "border-color",
        TransitionProperty::Opacity => "opacity",
    }
}

/// The DOM event name of a transition's start or end.
pub open spec fn spec_transition_event_name(event_type: TransitionEventType) -> Seq<char> {
    match event_type {
        TransitionEventType::Start => "transitionstart"@,
        TransitionEventType::End => "transitionend"@,
    }
}

/// An event of kind `kind` with no payload.
pub open spec fn empty_event_of(event: NativeEvent, kind: Seq<char>) -> bool {
    &&& event.kind@ == kind
    &&& event.keyboard is None
    &&& event.paste is None
    &&& event.copy is None
    &&& event.mouse is None
    &&& event.resize is None
    &&& event.focus is None
    &&& event.transition is None
}

impl NativeEvent {
    /// An event of kind `kind` with no payload yet.
    pub fn with_kind(kind: &str) -> (r: Self)
        ensures
            empty_event_of(r, kind@),
    {
        NativeEvent {
            kind: string_from(kind),
            keyboard: None,
            paste: None,
            copy: None,
            mouse: None,
            resize: None,
            focus: None,
            transition: None,
        }
    }

    /// A `"keyboard"` event.
    pub fn keyboard(event: KeyboardEvent) -> (r: Self)
        ensures
            empty_event_of(NativeEvent { keyboard: None, ..r }, "keyboard"@),
            r.keyboard == Some(event),
    {
        let mut native = Self::with_kind("keyboard");
        native.keyboard = Some(event);
        native
    }

    /// A `"paste"` event.
    pub fn paste(data: String) -> (r: Self)
        ensures
            empty_event_of(NativeEvent { paste: None, ..r }, "paste"@),
            r.paste == Some(data),
    {
        let mut native = Self::with_kind("paste");
        native.paste = Some(data);
        native
    }

    /// A `"copy"` event.
    pub fn copy(text: String, success: bool) -> (r: Self)
        ensures
            empty_event_of(NativeEvent { copy: None, ..r }, "copy"@),
            r.copy == Some(CopyEventPayload { text, success }),
    {
        let mut native = Self::with_kind("copy");
        native.copy = Some(CopyEventPayload { text, success });
        native
    }

    /// A `"mouse"` event.
    pub fn mouse(event: TerminalMouseEvent) -> (r: Self)
        ensures
            empty_event_of(NativeEvent { mouse: None, ..r }, "mouse"@),
            r.mouse == Some(event),
    {
        let mut native = Self::with_kind("mouse");
        native.mouse = Some(event);
        native
    }

    /// A `"resize"` event.
    pub fn resize(event: TerminalResizeEvent) -> (r: Self)
        ensures
            empty_event_of(NativeEvent { resize: None, ..r }, "resize"@),
            r.resize == Some(event),
    {
        let mut native = Self::with_kind("resize");
        native.resize = Some(event);
        native
    }

    /// A `"focus"` event.
    pub fn focus(event: TerminalFocusEvent) -> (r: Self)
        ensures
            empty_event_of(NativeEvent { focus: None, ..r }, "focus"@),
            r.focus == Some(event),
    {
        let mut native = Self::with_kind("focus");
        native.focus = Some(event);
        native
    }

    /// A `"transition"` event for an engine transition event.
    pub fn transition(event: EngineTransitionEvent) -> (r: Self)
        ensures
            empty_event_of(NativeEvent { transition: None, ..r }, "transition"@),
            r.transition matches Some(t) && t.event_type@ == spec_transition_event_name(
                event.event_type,
            ) && t.target_id == event.target.0 && t.property_name@
                == spec_transition_property_name(event.property),
    {
        let event_type = match event.event_type {
            TransitionEventType::Start => "transitionstart",
            TransitionEventType::End => "transitionend",
        };
        let transition = TransitionEvent {
            event_type: string_from(event_type),
            target_id: event.target.0,
            property_name: string_from(transition_property_name(event.property)),
        };
        let mut native = Self::with_kind("transition");
        native.transition = Some(transition);
        native
    }
}

/// Events waiting to be handed to JavaScript, oldest first.
pub struct NativeEventQueue {
    events: Vec<NativeEvent>,
}

impl View for NativeEventQueue {
    type V = Seq<NativeEvent>;

    closed spec fn view(&self) -> Seq<NativeEvent> {
        self.events@
    }
}

impl NativeEventQueue {
    /// An empty queue.
    pub fn new() -> (r: Self)
        ensures
            r@ == Seq::<NativeEvent>::empty(),
    {
        NativeEventQueue { events: Vec::new() }
    }

    /// Appends an event after all queued ones.
    pub fn push(&mut self, event: NativeEvent)
        ensures
            final(self)@ == old(self)@.push(event),
    {
        self.events.push(event);
    }

    /// Takes all queued events, oldest first, leaving the queue empty.
    pub fn drain(&mut self) -> (r: Vec<NativeEvent>)
        ensures
            r@ == old(self)@,
            final(self)@ == Seq::<NativeEvent>::empty(),
    {
        let mut events = Vec::new();
        std::mem::swap(&mut events, &mut self.events);
        events
    }

    /// The number of queued events.
    pub fn len(&self) -> (r: usize)
        ensures
            r == self@.len(),
    {
        self.events.len()
    }
}

impl Default for NativeEventQueue {
    fn default() -> (r: Self)
        ensures
            r@ == Seq::<NativeEvent>::empty(),
    {
        NativeEventQueue::new()
    }
}

/// `new` is `old` with `count` more events after it.
pub open spec fn appended(old: Seq<NativeEvent>, new: Seq<NativeEvent>, count: nat) -> bool {
    &&& new.len() == old.len() + count
    &&& new.take(old.len() as int) == old
}

/// `event` is a `"keyboard"` event carrying `keyboard`.
pub open spec fn is_keyboard_event(event: NativeEvent, keyboard: KeyboardEvent) -> bool {
    &&& empty_event_of(NativeEvent { keyboard: None, ..event }, "keyboard"@)
    &&& event.keyboard == Some(keyboard)
}

/// `event` is a `"mouse"` event carrying `mouse`.
pub open spec fn is_mouse_event(event: NativeEvent, mouse: TerminalMouseEvent) -> bool {
    &&& empty_event_of(NativeEvent { mouse: None, ..event }, "mouse"@)
    &&& event.mouse == Some(mouse)
}

/// The queue a sequence of pushes leaves behind, starting from `queue`.
pub open spec fn after_pushes(queue: Seq<NativeEvent>, events: Seq<NativeEvent>) -> Seq<NativeEvent>
    decreases events.len(),
{
    if events.len() == 0 {
        queue
    } else {
        after_pushes(queue, events.drop_last()).push(events.last())
    }
}

/// The queue neither drops, reorders nor merges events: after pushes onto
/// an empty queue, a drain returns exactly the pushed events in push order
/// (two resizes in a row stay two events).
pub proof fn lemma_drain_returns_pushes_in_order(events: Seq<NativeEvent>)
    ensures
        after_pushes(Seq::empty(), events) == events,
    decreases events.len(),
{
    if events.len() > 0 {
        lemma_drain_returns_pushes_in_order(events.drop_last());
        assert(events.drop_last().push(events.last()) =~= events);
    }
}

} // verus!
