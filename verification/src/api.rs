//! What JavaScript hands the renderer and gets back: batches of DOM
//! commands, rewritten to engine commands with real element ids; style
//! commands; and the engine's click, scroll and transition results in the
//! shape JavaScript reads.

use vstd::prelude::*;
use std::collections::HashMap;
use crate::native_event::{DomId, EngineTransitionEvent, TransitionEventType, spec_transition_event_name, spec_transition_property_name, transition_property_name};
use crate::frame::{is_whitespace, spec_is_whitespace};
use crate::style_property::{style_property, style_property_named, StyleProperty};
use crate::text::{str_equals, string_from};
use crate::style_value::{parse_style_value, style_value_spec, StyleValue};
use crate::transition_value::{parse_transition, transitions_spec, TransitionSpec};

verus! {

broadcast use vstd::std_specs::hash::group_hash_axioms;

/// A click on an element, as JavaScript reads it.
#[derive(Clone, Debug)]
pub struct ClickEvent {
    pub event_type: String,
    pub target_id: u32,
    pub client_x: u32,
    pub client_y: u32,
    pub button: u32,
    pub ctrl_key: bool,
    pub alt_key: bool,
    pub meta_key: bool,
    pub shift_key: bool,
}

/// The scroll position and extents of an element, as JavaScript reads them.
#[derive(Clone, Copy, Debug, PartialEq, Eq, Structural)]
pub struct ScrollMetrics {
    pub scroll_left: u32,
    pub scroll_top: u32,
    pub scroll_width: u32,
    pub scroll_height: u32,
    pub client_width: u32,
    pub client_height: u32,
}

/// Where a text area's cursor is shown: its visual row and column.
#[derive(Clone, Copy, Debug, PartialEq, Eq, Structural)]
pub struct CursorVisualPosition {
    pub row: u32,
    pub column: u32,
}

/// The character range of a visual line of a text area.
#[derive(Clone, Copy, Debug, PartialEq, Eq, Structural)]
pub struct VisualLineRange {
    pub start: u32,
    pub end: u32,
}

/// A point on a scrollbar, as JavaScript reads it; `axis` is `"x"` or `"y"`.
#[derive(Clone, Debug)]
pub struct ScrollbarHit {
    pub target_id: u32,
    pub axis: String,
    pub rail_start: u32,
    pub rail_length: u32,
    pub thumb_start: u32,
    pub thumb_length: u32,
    pub scroll_offset: u32,
    pub max_scroll: u32,
    pub client_length: u32,
    pub scroll_length: u32,
}

/// The start or end of a transition, as JavaScript reads it.
#[derive(Clone, Debug)]
pub struct TransitionEvent {
    pub event_type: String,
    pub target_id: u32,
    pub property_name: String,
}

/// The scroll position and extents of a layout node.
#[derive(Clone, Copy, Debug, PartialEq, Eq, Structural)]
pub struct ArenaScrollMetrics {
    pub scroll_left: u32,
    pub scroll_top: u32,
    pub scroll_width: u32,
    pub scroll_height: u32,
    pub client_width: u32,
    pub client_height: u32,
}

/// The axis of a scrollbar.
#[derive(Clone, Copy, Debug, PartialEq, Eq, Structural)]
pub enum ScrollbarAxis {
    Horizontal,
    Vertical,
}

/// A point on an element's scrollbar, as the engine finds it.
#[derive(Clone, Copy, Debug, PartialEq, Eq, Structural)]
pub struct EngineScrollbarHit {
    pub target_id: DomId,
    pub axis: ScrollbarAxis,
    pub rail_start: u32,
    pub rail_length: u32,
    pub thumb_start: u32,
    pub thumb_length: u32,
    pub scroll_offset: u32,
    pub max_scroll: u32,
    pub client_length: u32,
    pub scroll_length: u32,
}

/// A click on an element, as the engine finds it.
#[derive(Clone, Copy, Debug, PartialEq, Eq, Structural)]
pub struct EngineClickEvent {
    pub target_id: DomId,
    pub client_x: u32,
    pub client_y: u32,
    pub button: u32,
    pub ctrl_key: bool,
    pub alt_key: bool,
    pub meta_key: bool,
    pub shift_key: bool,
}

/// A layout node's scroll metrics as JavaScript reads them: the same numbers.
pub fn scroll_metrics_to_napi(metrics: ArenaScrollMetrics) -> (r: ScrollMetrics)
    ensures
        r == (ScrollMetrics {
            scroll_left: metrics.scroll_left,
            scroll_top: metrics.scroll_top,
            scroll_width: metrics.scroll_width,
            scroll_height: metrics.scroll_height,
            client_width: metrics.client_width,
            client_height: metrics.client_height,
        }),
{
    ScrollMetrics {
        scroll_left: metrics.scroll_left,
        scroll_top: metrics.scroll_top,
        scroll_width: metrics.scroll_width,
        scroll_height: metrics.scroll_height,
        client_width: metrics.client_width,
        client_height: metrics.client_height,
    }
}

/// The name JavaScript gives a scrollbar axis.
pub open spec fn axis_name(axis: ScrollbarAxis) -> Seq<char> {
    match axis {
        ScrollbarAxis::Horizontal => "x"@,
        ScrollbarAxis::Vertical => "y"@,
    }
}

/// A scrollbar hit as JavaScript reads it: the element's id, the axis as
/// `"x"` or `"y"`, and the same extents.
pub fn scrollbar_hit_to_napi(hit: EngineScrollbarHit) -> (r: ScrollbarHit)
    ensures
        r.target_id == hit.target_id.0,
        r.axis@ == axis_name(hit.axis),
        r.rail_start == hit.rail_start,
        r.rail_length == hit.rail_length,
        r.thumb_start == hit.thumb_start,
        r.thumb_length == hit.thumb_length,
        r.scroll_offset == hit.scroll_offset,
        r.max_scroll == hit.max_scroll,
        r.client_length == hit.client_length,
        r.scroll_length == hit.scroll_length,
{
    ScrollbarHit {
        target_id: hit.target_id.0,
        axis: string_from(
            match hit.axis {
                ScrollbarAxis::Horizontal => "x",
                ScrollbarAxis::Vertical => "y",
            },
        ),
        rail_start: hit.rail_start,
        rail_length: hit.rail_length,
        thumb_start: hit.thumb_start,
        thumb_length: hit.thumb_length,
        scroll_offset: hit.scroll_offset,
        max_scroll: hit.max_scroll,
        client_length: hit.client_length,
        scroll_length: hit.scroll_length,
    }
}

/// A click as JavaScript reads it: a `"click"` event on the element's id.
pub fn click_event_to_napi(event: EngineClickEvent) -> (r: ClickEvent)
    ensures
        r.event_type@ == "click"@,
        r.target_id == event.target_id.0,
        r.client_x == event.client_x,
        r.client_y == event.client_y,
        r.button == event.button,
        r.ctrl_key == event.ctrl_key,
        r.alt_key == event.alt_key,
        r.meta_key == event.meta_key,
        r.shift_key == event.shift_key,
{
    ClickEvent {
        event_type: string_from("click"),
        target_id: event.target_id.0,
        client_x: event.client_x,
        client_y: event.client_y,
        button: event.button,
        ctrl_key: event.ctrl_key,
        alt_key: event.alt_key,
        meta_key: event.meta_key,
        shift_key: event.shift_key,
    }
}

/// A transition event as JavaScript reads it: `transitionstart` or
/// `transitionend` on the element's id, with the CSS name of the property.
pub fn transition_event_to_napi(event: EngineTransitionEvent) -> (r: TransitionEvent)
    ensures
        r.event_type@ == spec_transition_event_name(event.event_type),
        r.target_id == event.target.0,
        r.property_name@ == spec_transition_property_name(event.property),
{
    TransitionEvent {
        event_type: string_from(
            match event.event_type {
                TransitionEventType::Start => "transitionstart",
                TransitionEventType::End => "transitionend",
            },
        ),
        target_id: event.target.0,
        property_name: string_from(transition_property_name(event.property)),
    }
}

/// A change to one property of an element's style: set to a value, or
/// reset to the default.
#[derive(Clone, Debug)]
pub enum StyleMutation {
    Assign(StyleProperty, StyleValue),
    Reset(StyleProperty),
}

/// What setting a style property asks of the engine.
#[derive(Clone, Debug)]
pub enum StyleCommand {
    MutateStyle { node: DomId, mutation: StyleMutation },
    SetTransition { node: DomId, transitions: Vec<TransitionSpec> },
}

/// A style command as a value.
pub enum StyleCommandView {
    MutateStyle { node: DomId, mutation: StyleMutation },
    SetTransition { node: DomId, transitions: Seq<TransitionSpec> },
}

impl View for StyleCommand {
    type V = StyleCommandView;

    open spec fn view(&self) -> StyleCommandView {
        match self {
            StyleCommand::MutateStyle { node, mutation } => StyleCommandView::MutateStyle {
                node: *node,
                mutation: *mutation,
            },
            StyleCommand::SetTransition { node, transitions } => StyleCommandView::SetTransition {
                node: *node,
                transitions: transitions@,
            },
        }
    }
}

/// Why a style property cannot be set.
#[derive(Clone, Debug)]
pub enum StyleError {
    UnsupportedProperty(String),
    /// The value does not fit the property's grammar.
    InvalidValue { property: String, value: String },
}

/// Why a style command is refused.
#[derive(Clone, Copy, Debug, PartialEq, Eq, Structural)]
pub enum StyleFault {
    UnknownProperty,
    InvalidValue,
}

/// Whether `s` is empty or all whitespace (what `str::trim` removes).
pub open spec fn is_blank_spec(s: Seq<char>) -> bool {
    forall|i: int| 0 <= i < s.len() ==> spec_is_whitespace(#[trigger] s[i])
}

/// Whether `s` is empty or all whitespace.
pub fn is_blank(s: &str) -> (r: bool)
    ensures
        r == is_blank_spec(s@),
{
    let n = s.unicode_len();
    let mut i: usize = 0;
    while i < n
        invariant
            n == s@.len(),
            i <= n,
            forall|j: int| 0 <= j < i ==> spec_is_whitespace(#[trigger] s@[j]),
        decreases n - i,
    {
        if !is_whitespace(s.get_char(i)) {
            return false;
        }
        i = i + 1;
    }
    true
}

/// The property that resetting `property` resets.
pub fn style_reset(property: &str) -> (r: Result<StyleProperty, StyleError>)
    ensures
        style_property_named(property@) matches Some(p) ==> r == Ok::<StyleProperty, StyleError>(p),
        style_property_named(property@) is None ==> (r matches Err(
            StyleError::UnsupportedProperty(name),
        ) && name@ == property@),
{
    match style_property(property) {
        Some(p) => Ok(p),
        None => Err(StyleError::UnsupportedProperty(string_from(property))),
    }
}

/// What setting `property` of element `node` to `value` asks of the engine:
/// a blank value resets the property; `transition` sets the element's
/// transitions; any other known property is set to the value read by its
/// grammar. An unknown property, or a value that does not fit the
/// property's grammar, is refused.
pub open spec fn spec_style_command(node: DomId, property: Seq<char>, value: String) -> Result<
    StyleCommandView,
    StyleFault,
> {
    if is_blank_spec(value@) {
        match style_property_named(property) {
            Some(p) => Ok(StyleCommandView::MutateStyle { node, mutation: StyleMutation::Reset(p) }),
            None => Err(StyleFault::UnknownProperty),
        }
    } else if property == "transition"@ {
        Ok(StyleCommandView::SetTransition { node, transitions: transitions_spec(value@) })
    } else {
        match style_property_named(property) {
            Some(p) => match style_value_spec(p, value) {
                Some(v) => Ok(
                    StyleCommandView::MutateStyle { node, mutation: StyleMutation::Assign(p, v) },
                ),
                None => Err(StyleFault::InvalidValue),
            },
            None => Err(StyleFault::UnknownProperty),
        }
    }
}

/// What setting `property` of element `id` to `value` asks of the engine.
pub fn style_command(id: u32, property: &str, value: String) -> (r: Result<StyleCommand, StyleError>)
    ensures
        spec_style_command(DomId(id), property@, value) matches Ok(c) ==> (r matches Ok(rc)
            && rc@ == c),
        spec_style_command(DomId(id), property@, value) == Err::<StyleCommandView, StyleFault>(
            StyleFault::UnknownProperty,
        ) ==> (r matches Err(StyleError::UnsupportedProperty(name)) && name@ == property@),
        spec_style_command(DomId(id), property@, value) == Err::<StyleCommandView, StyleFault>(
            StyleFault::InvalidValue,
        ) ==> (r matches Err(StyleError::InvalidValue { property: name, value: v }) && name@
            == property@ && v == value),
{
    let node = DomId(id);
    if is_blank(value.as_str()) {
        return match style_reset(property) {
            Ok(p) => Ok(StyleCommand::MutateStyle { node, mutation: StyleMutation::Reset(p) }),
            Err(e) => Err(e),
        };
    }
    if str_equals(property, "transition") {
        return Ok(StyleCommand::SetTransition { node, transitions: parse_transition(value.as_str()) });
    }
    match style_property(property) {
        Some(p) => match parse_style_value(p, value) {
            Ok(v) => Ok(StyleCommand::MutateStyle { node, mutation: StyleMutation::Assign(p, v) }),
            Err(raw) => Err(StyleError::InvalidValue { property: string_from(property), value: raw }),
        },
        None => Err(StyleError::UnsupportedProperty(string_from(property))),
    }
}

/// A DOM command of a batch, as JavaScript sends it. Ids below zero are
/// temporary ids that a create command of the batch gave out.
#[derive(Clone, Debug)]
pub struct BatchCommand {
    pub command_type: String,
    pub id: Option<i32>,
    pub parent: Option<i32>,
    pub child: Option<i32>,
    pub before: Option<i32>,
    pub text: Option<String>,
    pub src: Option<String>,
    pub cursor: Option<u32>,
    pub focused: Option<bool>,
    pub placeholder: Option<String>,
    pub property: Option<String>,
    pub value: Option<String>,
}

/// The real id that a create command gave a temporary id.
#[derive(Clone, Copy, Debug, PartialEq, Eq, Structural)]
pub struct BatchIdMapping {
    pub temporary_id: i32,
    pub id: u32,
}

/// A command of the renderer. Created elements carry the style changes
/// that the batch made to them before the renderer saw them, in order.
#[derive(Clone, Debug)]
pub enum RenderCommand {
    CreateElementWithId { id: DomId, inline: bool, styles: Vec<StyleMutation> },
    CreateTextWithId { id: DomId, text: String },
    CreateImageWithId { id: DomId, styles: Vec<StyleMutation> },
    CreateInputWithId { id: DomId, styles: Vec<StyleMutation> },
    CreateTextAreaWithId { id: DomId, styles: Vec<StyleMutation> },
    SetText { node: DomId, text: String },
    SetImageSource { node: DomId, src: String },
    SetInputValue { node: DomId, value: String, cursor: u32 },
    SetInputFocused { node: DomId, focused: bool },
    SetInputPlaceholder { node: DomId, placeholder: String },
    SetTextAreaValue { node: DomId, value: String, cursor: u32 },
    SetTextAreaFocused { node: DomId, focused: bool },
    SetTextAreaPlaceholder { node: DomId, placeholder: String },
    SetRoot { root: DomId },
    AppendChild { parent: DomId, child: DomId },
    InsertChildBefore { parent: DomId, child: DomId, before: DomId },
    DetachNode { node: DomId },
    DestroyNode { node: DomId },
    MutateStyle { node: DomId, mutation: StyleMutation },
    SetTransition { node: DomId, transitions: Vec<TransitionSpec> },
}

/// A renderer command with its style changes as a sequence.
pub enum RenderCommandView {
    CreateElementWithId { id: DomId, inline: bool, styles: Seq<StyleMutation> },
    CreateTextWithId { id: DomId, text: String },
    CreateImageWithId { id: DomId, styles: Seq<StyleMutation> },
    CreateInputWithId { id: DomId, styles: Seq<StyleMutation> },
    CreateTextAreaWithId { id: DomId, styles: Seq<StyleMutation> },
    SetText { node: DomId, text: String },
    SetImageSource { node: DomId, src: String },
    SetInputValue { node: DomId, value: String, cursor: u32 },
    SetInputFocused { node: DomId, focused: bool },
    SetInputPlaceholder { node: DomId, placeholder: String },
    SetTextAreaValue { node: DomId, value: String, cursor: u32 },
    SetTextAreaFocused { node: DomId, focused: bool },
    SetTextAreaPlaceholder { node: DomId, placeholder: String },
    SetRoot { root: DomId },
    AppendChild { parent: DomId, child: DomId },
    InsertChildBefore { parent: DomId, child: DomId, before: DomId },
    DetachNode { node: DomId },
    DestroyNode { node: DomId },
    MutateStyle { node: DomId, mutation: StyleMutation },
    SetTransition { node: DomId, transitions: Seq<TransitionSpec> },
}

impl View for RenderCommand {
    type V = RenderCommandView;

    open spec fn view(&self) -> RenderCommandView {
        match self {
            RenderCommand::CreateElementWithId { id, inline, styles } => {
                RenderCommandView::CreateElementWithId { id: *id, inline: *inline, styles: styles@ }
            },
            RenderCommand::CreateTextWithId { id, text } => RenderCommandView::CreateTextWithId {
                id: *id,
                text: *text,
            },
            RenderCommand::CreateImageWithId { id, styles } => {
                RenderCommandView::CreateImageWithId { id: *id, styles: styles@ }
            },
            RenderCommand::CreateInputWithId { id, styles } => {
                RenderCommandView::CreateInputWithId { id: *id, styles: styles@ }
            },
            RenderCommand::CreateTextAreaWithId { id, styles } => {
                RenderCommandView::CreateTextAreaWithId { id: *id, styles: styles@ }
            },
            RenderCommand::SetText { node, text } => RenderCommandView::SetText {
                node: *node,
                text: *text,
            },
            RenderCommand::SetImageSource { node, src } => RenderCommandView::SetImageSource {
                node: *node,
                src: *src,
            },
            RenderCommand::SetInputValue { node, value, cursor } => {
                RenderCommandView::SetInputValue { node: *node, value: *value, cursor: *cursor }
            },
            RenderCommand::SetInputFocused { node, focused } => {
                RenderCommandView::SetInputFocused { node: *node, focused: *focused }
            },
            RenderCommand::SetInputPlaceholder { node, placeholder } => {
                RenderCommandView::SetInputPlaceholder { node: *node, placeholder: *placeholder }
            },
            RenderCommand::SetTextAreaValue { node, value, cursor } => {
                RenderCommandView::SetTextAreaValue { node: *node, value: *value, cursor: *cursor }
            },
            RenderCommand::SetTextAreaFocused { node, focused } => {
                RenderCommandView::SetTextAreaFocused { node: *node, focused: *focused }
            },
            RenderCommand::SetTextAreaPlaceholder { node, placeholder } => {
                RenderCommandView::SetTextAreaPlaceholder { node: *node, placeholder: *placeholder }
            },
            RenderCommand::SetRoot { root } => RenderCommandView::SetRoot { root: *root },
            RenderCommand::AppendChild { parent, child } => RenderCommandView::AppendChild {
                parent: *parent,
                child: *child,
            },
            RenderCommand::InsertChildBefore { parent, child, before } => {
                RenderCommandView::InsertChildBefore {
                    parent: *parent,
                    child: *child,
                    before: *before,
                }
            },
            RenderCommand::DetachNode { node } => RenderCommandView::DetachNode { node: *node },
            RenderCommand::DestroyNode { node } => RenderCommandView::DestroyNode { node: *node },
            RenderCommand::MutateStyle { node, mutation } => RenderCommandView::MutateStyle {
                node: *node,
                mutation: *mutation,
            },
            RenderCommand::SetTransition { node, transitions } => {
                RenderCommandView::SetTransition { node: *node, transitions: transitions@ }
            },
        }
    }
}

/// The commands a batch may hold.
#[derive(Clone, Copy, Debug, PartialEq, Eq, Structural)]
pub enum BatchCommandKind {
    CreateDiv,
    CreateSpan,
    CreateText,
    CreateImage,
    CreateInput,
    CreateTextArea,
    SetText,
    SetImageSource,
    SetInputValue,
    SetInputFocused,
    SetInputPlaceholder,
    SetTextAreaValue,
    SetTextAreaFocused,
    SetTextAreaPlaceholder,
    SetRoot,
    AppendChild,
    InsertChildBefore,
    DetachNode,
    DestroyNode,
    SetStyleProperty,
}

/// The command a batch command's type names, if any.
pub open spec fn batch_command_kind(name: Seq<char>) -> Option<BatchCommandKind> {
    if name == "createDiv"@ {
        Some(BatchCommandKind::CreateDiv)
    } else if name == "createSpan"@ {
        Some(BatchCommandKind::CreateSpan)
    } else if name == "createText"@ {
        Some(BatchCommandKind::CreateText)
    } else if name == "createImage"@ {
        Some(BatchCommandKind::CreateImage)
    } else if name == "createInput"@ {
        Some(BatchCommandKind::CreateInput)
    } else if name == "createTextArea"@ {
        Some(BatchCommandKind::CreateTextArea)
    } else if name == "setText"@ {
        Some(BatchCommandKind::SetText)
    } else if name == "setImageSource"@ {
        Some(BatchCommandKind::SetImageSource)
    } else if name == "setInputValue"@ {
        Some(BatchCommandKind::SetInputValue)
    } else if name == "setInputFocused"@ {
        Some(BatchCommandKind::SetInputFocused)
    } else if name == "setInputPlaceholder"@ {
        Some(BatchCommandKind::SetInputPlaceholder)
    } else if name == "setTextAreaValue"@ {
        Some(BatchCommandKind::SetTextAreaValue)
    } else if name == "setTextAreaFocused"@ {
        Some(BatchCommandKind::SetTextAreaFocused)
    } else if name == "setTextAreaPlaceholder"@ {
        Some(BatchCommandKind::SetTextAreaPlaceholder)
    } else if name == "setRoot"@ {
        Some(BatchCommandKind::SetRoot)
    } else if name == "appendChild"@ {
        Some(BatchCommandKind::AppendChild)
    } else if name == "insertChildBefore"@ {
        Some(BatchCommandKind::InsertChildBefore)
    } else if name == "detachNode"@ {
        Some(BatchCommandKind::DetachNode)
    } else if name == "destroyNode"@ {
        Some(BatchCommandKind::DestroyNode)
    } else if name == "setStyleProperty"@ {
        Some(BatchCommandKind::SetStyleProperty)
    } else {
        None
    }
}

/// The command a batch command's type names, if any.
pub fn command_kind(name: &str) -> (r: Option<BatchCommandKind>)
    ensures
        r == batch_command_kind(name@),
{
    if str_equals(name, "createDiv") {
        Some(BatchCommandKind::CreateDiv)
    } else if str_equals(name, "createSpan") {
        Some(BatchCommandKind::CreateSpan)
    } else if str_equals(name, "createText") {
        Some(BatchCommandKind::CreateText)
    } else if str_equals(name, "createImage") {
        Some(BatchCommandKind::CreateImage)
    } else if str_equals(name, "createInput") {
        Some(BatchCommandKind::CreateInput)
    } else if str_equals(name, "createTextArea") {
        Some(BatchCommandKind::CreateTextArea)
    } else if str_equals(name, "setText") {
        Some(BatchCommandKind::SetText)
    } else if str_equals(name, "setImageSource") {
        Some(BatchCommandKind::SetImageSource)
    } else if str_equals(name, "setInputValue") {
        Some(BatchCommandKind::SetInputValue)
    } else if str_equals(name, "setInputFocused") {
        Some(BatchCommandKind::SetInputFocused)
    } else if str_equals(name, "setInputPlaceholder") {
        Some(BatchCommandKind::SetInputPlaceholder)
    } else if str_equals(name, "setTextAreaValue") {
        Some(BatchCommandKind::SetTextAreaValue)
    } else if str_equals(name, "setTextAreaFocused") {
        Some(BatchCommandKind::SetTextAreaFocused)
    } else if str_equals(name, "setTextAreaPlaceholder") {
        Some(BatchCommandKind::SetTextAreaPlaceholder)
    } else if str_equals(name, "setRoot") {
        Some(BatchCommandKind::SetRoot)
    } else if str_equals(name, "appendChild") {
        Some(BatchCommandKind::AppendChild)
    } else if str_equals(name, "insertChildBefore") {
        Some(BatchCommandKind::InsertChildBefore)
    } else if str_equals(name, "detachNode") {
        Some(BatchCommandKind::DetachNode)
    } else if str_equals(name, "destroyNode") {
        Some(BatchCommandKind::DestroyNode)
    } else if str_equals(name, "setStyleProperty") {
        Some(BatchCommandKind::SetStyleProperty)
    } else {
        None
    }
}

/// A field of a batch command.
#[derive(Clone, Copy, Debug, PartialEq, Eq, Structural)]
pub enum BatchField {
    Id,
    Parent,
    Child,
    Before,
    Text,
    Src,
    Placeholder,
    Property,
    Value,
}

/// Why a batch is refused.
#[derive(Clone, Debug)]
pub enum BatchError {
    /// A command lacks a field it needs.
    MissingField { command: BatchCommandKind, field: BatchField },
    /// A command refers to a temporary id that no earlier command created.
    UnknownId { command: BatchCommandKind, field: BatchField, id: i32 },
    /// The element ids are used up.
    DomIdOverflow,
    /// A command's type names no command.
    UnsupportedCommand(String),
    /// A style command names no style property.
    UnsupportedStyleProperty(String),
    /// A style command's value does not fit its property's grammar.
    InvalidStyleValue { property: String, value: String },
}

/// The state of a batch rewrite after some of its commands: the real id of
/// each temporary id (the latest create wins), the position of the create
/// command of each temporary id whose element has a style, the next real
/// id, the id mappings and the renderer commands so far.
pub struct BatchRewriteState {
    pub id_map: Map<i32, u32>,
    pub create_index: Map<i32, usize>,
    pub next_dom_id: u32,
    pub mappings: Seq<BatchIdMapping>,
    pub commands: Seq<RenderCommandView>,
}

/// The state before the first command, with `next_dom_id` the next real id.
pub open spec fn batch_start(next_dom_id: u32) -> BatchRewriteState {
    BatchRewriteState {
        id_map: Map::empty(),
        create_index: Map::empty(),
        next_dom_id,
        mappings: seq![],
        commands: seq![],
    }
}

/// A field that a command needs.
pub open spec fn required<T>(value: Option<T>, command: BatchCommandKind, field: BatchField) -> Result<
    T,
    BatchError,
> {
    match value {
        Some(v) => Ok(v),
        None => Err(BatchError::MissingField { command, field }),
    }
}

/// The real id that an id field names: a non-negative id is itself, a
/// negative one is the temporary id of an earlier create.
pub open spec fn resolve_spec(
    id_map: Map<i32, u32>,
    value: Option<i32>,
    command: BatchCommandKind,
    field: BatchField,
) -> Result<u32, BatchError> {
    match value {
        None => Err(BatchError::MissingField { command, field }),
        Some(v) => if v >= 0 {
            Ok(v as u32)
        } else if id_map.contains_key(v) {
            Ok(id_map[v])
        } else {
            Err(BatchError::UnknownId { command, field, id: v })
        },
    }
}

/// The renderer command that creates element `id` for a create command.
pub open spec fn created(kind: BatchCommandKind, id: DomId, text: String) -> RenderCommandView {
    match kind {
        BatchCommandKind::CreateSpan => RenderCommandView::CreateElementWithId {
            id,
            inline: true,
            styles: seq![],
        },
        BatchCommandKind::CreateText => RenderCommandView::CreateTextWithId { id, text },
        BatchCommandKind::CreateImage => RenderCommandView::CreateImageWithId { id, styles: seq![] },
        BatchCommandKind::CreateInput => RenderCommandView::CreateInputWithId { id, styles: seq![] },
        BatchCommandKind::CreateTextArea => RenderCommandView::CreateTextAreaWithId {
            id,
            styles: seq![],
        },
        _ => RenderCommandView::CreateElementWithId { id, inline: false, styles: seq![] },
    }
}

/// A create command that gives temporary id `temporary_id` the next real id.
pub open spec fn create_spec(
    s: BatchRewriteState,
    kind: BatchCommandKind,
    temporary_id: i32,
    text: String,
) -> Result<BatchRewriteState, BatchError> {
    if s.next_dom_id == u32::MAX {
        Err(BatchError::DomIdOverflow)
    } else {
        let id = s.next_dom_id;
        Ok(
            BatchRewriteState {
                id_map: s.id_map.insert(temporary_id, id),
                create_index: if kind == BatchCommandKind::CreateText {
                    s.create_index
                } else {
                    s.create_index.insert(temporary_id, s.commands.len() as usize)
                },
                next_dom_id: (id + 1) as u32,
                mappings: s.mappings.push(BatchIdMapping { temporary_id, id }),
                commands: s.commands.push(created(kind, DomId(id), text)),
            },
        )
    }
}

/// `s` with one more renderer command.
pub open spec fn with_command(s: BatchRewriteState, command: RenderCommandView) -> BatchRewriteState {
    BatchRewriteState { commands: s.commands.push(command), ..s }
}

/// A create command's renderer command with one more style change; `None`
/// for a command that creates no styled element.
pub open spec fn with_style(command: RenderCommandView, mutation: StyleMutation) -> Option<
    RenderCommandView,
> {
    match command {
        RenderCommandView::CreateElementWithId { id, inline, styles } => Some(
            RenderCommandView::CreateElementWithId { id, inline, styles: styles.push(mutation) },
        ),
        RenderCommandView::CreateImageWithId { id, styles } => Some(
            RenderCommandView::CreateImageWithId { id, styles: styles.push(mutation) },
        ),
        RenderCommandView::CreateInputWithId { id, styles } => Some(
            RenderCommandView::CreateInputWithId { id, styles: styles.push(mutation) },
        ),
        RenderCommandView::CreateTextAreaWithId { id, styles } => Some(
            RenderCommandView::CreateTextAreaWithId { id, styles: styles.push(mutation) },
        ),
        _ => None,
    }
}

/// A style change to element `node`: folded into the element's create
/// command when the command named it by a temporary id of this batch, else
/// a renderer command of its own.
pub open spec fn style_change_spec(
    s: BatchRewriteState,
    temporary_id: Option<i32>,
    node: DomId,
    mutation: StyleMutation,
) -> BatchRewriteState {
    match temporary_id {
        Some(t) => if s.create_index.contains_key(t) && s.create_index[t] < s.commands.len() {
            match with_style(s.commands[s.create_index[t] as int], mutation) {
                Some(folded) => BatchRewriteState {
                    commands: s.commands.update(s.create_index[t] as int, folded),
                    ..s
                },
                None => with_command(s, RenderCommandView::MutateStyle { node, mutation }),
            }
        } else {
            with_command(s, RenderCommandView::MutateStyle { node, mutation })
        },
        None => with_command(s, RenderCommandView::MutateStyle { node, mutation }),
    }
}

/// The `setStyleProperty` command `c`.
pub open spec fn set_style_spec(s: BatchRewriteState, c: BatchCommand) -> Result<
    BatchRewriteState,
    BatchError,
> {
    let kind = BatchCommandKind::SetStyleProperty;
    match resolve_spec(s.id_map, c.id, kind, BatchField::Id) {
        Err(e) => Err(e),
        Ok(id) => match required(c.property, kind, BatchField::Property) {
            Err(e) => Err(e),
            Ok(property) => match required(c.value, kind, BatchField::Value) {
                Err(e) => Err(e),
                Ok(value) => match spec_style_command(DomId(id), property@, value) {
                    Err(StyleFault::UnknownProperty) => Err(
                        BatchError::UnsupportedStyleProperty(property),
                    ),
                    Err(StyleFault::InvalidValue) => Err(
                        BatchError::InvalidStyleValue { property, value },
                    ),
                    Ok(StyleCommandView::SetTransition { node, transitions }) => Ok(
                        with_command(s, RenderCommandView::SetTransition { node, transitions }),
                    ),
                    Ok(StyleCommandView::MutateStyle { node, mutation }) => Ok(
                        style_change_spec(
                            s,
                            match c.id {
                                Some(t) => if t < 0 {
                                    Some(t)
                                } else {
                                    None
                                },
                                None => None,
                            },
                            node,
                            mutation,
                        ),
                    ),
                },
            },
        },
    }
}

/// A command that names one element by its `id` field.
pub open spec fn node_command_spec(s: BatchRewriteState, c: BatchCommand, kind: BatchCommandKind) -> Result<
    BatchRewriteState,
    BatchError,
> {
    match resolve_spec(s.id_map, c.id, kind, BatchField::Id) {
        Err(e) => Err(e),
        Ok(id) => {
            let node = DomId(id);
            match kind {
                BatchCommandKind::SetText => match required(c.text, kind, BatchField::Text) {
                    Err(e) => Err(e),
                    Ok(text) => Ok(with_command(s, RenderCommandView::SetText { node, text })),
                },
                BatchCommandKind::SetImageSource => match required(c.src, kind, BatchField::Src) {
                    Err(e) => Err(e),
                    Ok(src) => Ok(with_command(s, RenderCommandView::SetImageSource { node, src })),
                },
                BatchCommandKind::SetInputValue => match required(c.value, kind, BatchField::Value) {
                    Err(e) => Err(e),
                    Ok(value) => Ok(
                        with_command(
                            s,
                            RenderCommandView::SetInputValue {
                                node,
                                value,
                                cursor: match c.cursor {
                                    Some(cursor) => cursor,
                                    None => 0,
                                },
                            },
                        ),
                    ),
                },
                BatchCommandKind::SetTextAreaValue => match required(
                    c.value,
                    kind,
                    BatchField::Value,
                ) {
                    Err(e) => Err(e),
                    Ok(value) => Ok(
                        with_command(
                            s,
                            RenderCommandView::SetTextAreaValue {
                                node,
                                value,
                                cursor: match c.cursor {
                                    Some(cursor) => cursor,
                                    None => 0,
                                },
                            },
                        ),
                    ),
                },
                BatchCommandKind::SetInputFocused => Ok(
                    with_command(
                        s,
                        RenderCommandView::SetInputFocused {
                            node,
                            focused: match c.focused {
                                Some(focused) => focused,
                                None => false,
                            },
                        },
                    ),
                ),
                BatchCommandKind::SetTextAreaFocused => Ok(
                    with_command(
                        s,
                        RenderCommandView::SetTextAreaFocused {
                            node,
                            focused: match c.focused {
                                Some(focused) => focused,
                                None => false,
                            },
                        },
                    ),
                ),
                BatchCommandKind::SetInputPlaceholder => match required(
                    c.placeholder,
                    kind,
                    BatchField::Placeholder,
                ) {
                    Err(e) => Err(e),
                    Ok(placeholder) => Ok(
                        with_command(s, RenderCommandView::SetInputPlaceholder { node, placeholder }),
                    ),
                },
                BatchCommandKind::SetTextAreaPlaceholder => match required(
                    c.placeholder,
                    kind,
                    BatchField::Placeholder,
                ) {
                    Err(e) => Err(e),
                    Ok(placeholder) => Ok(
                        with_command(
                            s,
                            RenderCommandView::SetTextAreaPlaceholder { node, placeholder },
                        ),
                    ),
                },
                BatchCommandKind::SetRoot => Ok(
                    with_command(s, RenderCommandView::SetRoot { root: node }),
                ),
                BatchCommandKind::DetachNode => Ok(
                    with_command(s, RenderCommandView::DetachNode { node }),
                ),
                _ => Ok(with_command(s, RenderCommandView::DestroyNode { node })),
            }
        },
    }
}

/// What one batch command does to the rewrite, or why it is refused.
pub open spec fn batch_step(s: BatchRewriteState, c: BatchCommand) -> Result<
    BatchRewriteState,
    BatchError,
> {
    match batch_command_kind(c.command_type@) {
        None => Err(BatchError::UnsupportedCommand(c.command_type)),
        Some(kind) => match kind {
            BatchCommandKind::CreateDiv | BatchCommandKind::CreateSpan
            | BatchCommandKind::CreateImage | BatchCommandKind::CreateInput
            | BatchCommandKind::CreateTextArea => match required(c.id, kind, BatchField::Id) {
                Err(e) => Err(e),
                Ok(temporary_id) => create_spec(s, kind, temporary_id, c.command_type),
            },
            BatchCommandKind::CreateText => match required(c.id, kind, BatchField::Id) {
                Err(e) => Err(e),
                Ok(temporary_id) => match required(c.text, kind, BatchField::Text) {
                    Err(e) => Err(e),
                    Ok(text) => create_spec(s, kind, temporary_id, text),
                },
            },
            BatchCommandKind::AppendChild => match resolve_spec(
                s.id_map,
                c.parent,
                kind,
                BatchField::Parent,
            ) {
                Err(e) => Err(e),
                Ok(parent) => match resolve_spec(s.id_map, c.child, kind, BatchField::Child) {
                    Err(e) => Err(e),
                    Ok(child) => Ok(
                        with_command(
                            s,
                            RenderCommandView::AppendChild {
                                parent: DomId(parent),
                                child: DomId(child),
                            },
                        ),
                    ),
                },
            },
            BatchCommandKind::InsertChildBefore => match resolve_spec(
                s.id_map,
                c.parent,
                kind,
                BatchField::Parent,
            ) {
                Err(e) => Err(e),
                Ok(parent) => match resolve_spec(s.id_map, c.child, kind, BatchField::Child) {
                    Err(e) => Err(e),
                    Ok(child) => match resolve_spec(s.id_map, c.before, kind, BatchField::Before) {
                        Err(e) => Err(e),
                        Ok(before) => Ok(
                            with_command(
                                s,
                                RenderCommandView::InsertChildBefore {
                                    parent: DomId(parent),
                                    child: DomId(child),
                                    before: DomId(before),
                                },
                            ),
                        ),
                    },
                },
            },
            BatchCommandKind::SetStyleProperty => set_style_spec(s, c),
            _ => node_command_spec(s, c, kind),
        },
    }
}

/// The rewrite of a whole batch from state `s`: the state after its last
/// command, or the first refusal with the next real id at that point.
pub open spec fn batch_run(s: BatchRewriteState, commands: Seq<BatchCommand>) -> Result<
    BatchRewriteState,
    (BatchError, u32),
>
    decreases commands.len(),
{
    if commands.len() == 0 {
        Ok(s)
    } else {
        match batch_run(s, commands.drop_last()) {
            Err(e) => Err(e),
            Ok(t) => match batch_step(t, commands.last()) {
                Ok(u) => Ok(u),
                Err(e) => Err((e, t.next_dom_id)),
            },
        }
    }
}

/// The views of a sequence of renderer commands.
pub open spec fn command_views(commands: Seq<RenderCommand>) -> Seq<RenderCommandView> {
    commands.map_values(|c: RenderCommand| c@)
}

/// A batch rewritten for the renderer: the real id of each create
/// command's temporary id, in order, and the renderer commands.
pub struct RewrittenBatch {
    pub mappings: Vec<BatchIdMapping>,
    pub commands: Vec<RenderCommand>,
}

struct BatchRewriter {
    id_map: HashMap<i32, u32>,
    create_index: HashMap<i32, usize>,
    next_dom_id: u32,
    mappings: Vec<BatchIdMapping>,
    commands: Vec<RenderCommand>,
}

impl View for BatchRewriter {
    type V = BatchRewriteState;

    closed spec fn view(&self) -> BatchRewriteState {
        BatchRewriteState {
            id_map: self.id_map@,
            create_index: self.create_index@,
            next_dom_id: self.next_dom_id,
            mappings: self.mappings@,
            commands: command_views(self.commands@),
        }
    }
}

/// A field that a command needs.
fn required_i32(value: Option<i32>, command: BatchCommandKind, field: BatchField) -> (r: Result<
    i32,
    BatchError,
>)
    ensures
        r == required(value, command, field),
{
    match value {
        Some(v) => Ok(v),
        None => Err(BatchError::MissingField { command, field }),
    }
}

/// A text field that a command needs.
fn required_string(value: &Option<String>, command: BatchCommandKind, field: BatchField) -> (r:
    Result<String, BatchError>)
    ensures
        r == required(*value, command, field),
{
    match value {
        Some(v) => Ok(v.clone()),
        None => Err(BatchError::MissingField { command, field }),
    }
}

/// The real id that an id field names.
fn resolve_batch_id(
    value: Option<i32>,
    command: BatchCommandKind,
    field: BatchField,
    id_map: &HashMap<i32, u32>,
) -> (r: Result<u32, BatchError>)
    ensures
        r == resolve_spec(id_map@, value, command, field),
{
    let value = match required_i32(value, command, field) {
        Ok(v) => v,
        Err(e) => return Err(e),
    };
    if value >= 0 {
        return Ok(value as u32);
    }
    match id_map.get(&value) {
        Some(id) => Ok(*id),
        None => Err(BatchError::UnknownId { command, field, id: value }),
    }
}

/// Hands out the next real element id; refuses when the ids are used up.
pub fn allocate_dom_id(next_dom_id: &mut u32) -> (r: Result<DomId, BatchError>)
    ensures
        *old(next_dom_id) == u32::MAX ==> (r matches Err(BatchError::DomIdOverflow) && *final(
            next_dom_id) == *old(next_dom_id)),
        *old(next_dom_id) < u32::MAX ==> (r matches Ok(id) && id == DomId(*old(next_dom_id))
            && *final(next_dom_id) == *old(next_dom_id) + 1),
{
    let id = *next_dom_id;
    match next_dom_id.checked_add(1) {
        Some(next) => {
            *next_dom_id = next;
            Ok(DomId(id))
        },
        None => Err(BatchError::DomIdOverflow),
    }
}

/// Adds a style change to a create command; gives the change back when the
/// command creates no styled element.
fn fold_style(command: &mut RenderCommand, mutation: StyleMutation) -> (r: Option<StyleMutation>)
    ensures
        with_style(old(command)@, mutation) matches Some(folded) ==> r is None && final(command)@
            == folded,
        with_style(old(command)@, mutation) is None ==> r == Some(mutation) && *final(command)
            == *old(command),
{
    match command {
        RenderCommand::CreateElementWithId { styles, .. } => {
            styles.push(mutation);
            None
        },
        RenderCommand::CreateImageWithId { styles, .. } => {
            styles.push(mutation);
            None
        },
        RenderCommand::CreateInputWithId { styles, .. } => {
            styles.push(mutation);
            None
        },
        RenderCommand::CreateTextAreaWithId { styles, .. } => {
            styles.push(mutation);
            None
        },
        _ => Some(mutation),
    }
}

impl BatchRewriter {
    fn push_command(&mut self, command: RenderCommand)
        ensures
            final(self)@ == with_command(old(self)@, command@),
    {
        self.commands.push(command);
        proof {
            assert(command_views(self.commands@) =~= command_views(old(self).commands@).push(
                command@,
            ));
        }
    }

    fn create(&mut self, kind: BatchCommandKind, temporary_id: i32, command: &BatchCommand, text: Option<String>) -> (r: Result<(), BatchError>)
        requires
            kind == BatchCommandKind::CreateText ==> text is Some,
            kind != BatchCommandKind::CreateText ==> text is None,
        ensures
            match create_spec(
                old(self)@,
                kind,
                temporary_id,
                match text {
                    Some(t) => t,
                    None => command.command_type,
                },
            ) {
                Ok(t) => r is Ok && final(self)@ == t,
                Err(e) => r == Err::<(), BatchError>(e) && final(self)@ == old(self)@,
            },
    {
        let id = match allocate_dom_id(&mut self.next_dom_id) {
            Ok(id) => id,
            Err(e) => return Err(e),
        };
        self.id_map.insert(temporary_id, id.0);
        self.mappings.push(BatchIdMapping { temporary_id, id: id.0 });
        let index = self.commands.len();
        let created = match kind {
            BatchCommandKind::CreateSpan => RenderCommand::CreateElementWithId {
                id,
                inline: true,
                styles: Vec::new(),
            },
            BatchCommandKind::CreateText => RenderCommand::CreateTextWithId {
                id,
                text: match text {
                    Some(t) => t,
                    None => String::new(),
                },
            },
            BatchCommandKind::CreateImage => RenderCommand::CreateImageWithId {
                id,
                styles: Vec::new(),
            },
            BatchCommandKind::CreateInput => RenderCommand::CreateInputWithId {
                id,
                styles: Vec::new(),
            },
            BatchCommandKind::CreateTextArea => RenderCommand::CreateTextAreaWithId {
                id,
                styles: Vec::new(),
            },
            _ => RenderCommand::CreateElementWithId { id, inline: false, styles: Vec::new() },
        };
        if kind != BatchCommandKind::CreateText {
            self.create_index.insert(temporary_id, index);
        }
        self.push_command(created);
        Ok(())
    }

    fn style_change(&mut self, temporary_id: Option<i32>, node: DomId, mutation: StyleMutation)
        ensures
            final(self)@ == style_change_spec(old(self)@, temporary_id, node, mutation),
    {
        let mut mutation = mutation;
        if let Some(t) = temporary_id {
            if let Some(index) = self.create_index.get(&t) {
                let index = *index;
                if index < self.commands.len() {
                    let ghost before = self.commands@;
                    match fold_style(&mut self.commands[index], mutation) {
                        None => {
                            proof {
                                assert(command_views(self.commands@) =~= command_views(
                                    before,
                                ).update(index as int, self.commands@[index as int]@));
                            }
                            return;
                        },
                        Some(back) => {
                            proof {
                                assert(self.commands@ =~= before);
                            }
                            mutation = back;
                        },
                    }
                }
            }
        }
        self.push_command(RenderCommand::MutateStyle { node, mutation });
    }

    fn rewrite_command(&mut self, command: &BatchCommand) -> (r: Result<(), BatchError>)
        ensures
            match batch_step(old(self)@, *command) {
                Ok(t) => r is Ok && final(self)@ == t,
                Err(e) => r == Err::<(), BatchError>(e) && final(self)@.next_dom_id == old(self)@.next_dom_id,
            },
    {
        let kind = match command_kind(command.command_type.as_str()) {
            Some(kind) => kind,
            None => return Err(BatchError::UnsupportedCommand(command.command_type.clone())),
        };
        match kind {
            BatchCommandKind::CreateDiv | BatchCommandKind::CreateSpan
            | BatchCommandKind::CreateImage | BatchCommandKind::CreateInput
            | BatchCommandKind::CreateTextArea => {
                let temporary_id = match required_i32(command.id, kind, BatchField::Id) {
                    Ok(t) => t,
                    Err(e) => return Err(e),
                };
                self.create(kind, temporary_id, command, None)
            },
            BatchCommandKind::CreateText => {
                let temporary_id = match required_i32(command.id, kind, BatchField::Id) {
                    Ok(t) => t,
                    Err(e) => return Err(e),
                };
                let text = match required_string(&command.text, kind, BatchField::Text) {
                    Ok(text) => text,
                    Err(e) => return Err(e),
                };
                self.create(kind, temporary_id, command, Some(text))
            },
            BatchCommandKind::AppendChild => {
                let parent = match resolve_batch_id(
                    command.parent,
                    kind,
                    BatchField::Parent,
                    &self.id_map,
                ) {
                    Ok(id) => id,
                    Err(e) => return Err(e),
                };
                let child = match resolve_batch_id(
                    command.child,
                    kind,
                    BatchField::Child,
                    &self.id_map,
                ) {
                    Ok(id) => id,
                    Err(e) => return Err(e),
                };
                self.push_command(
                    RenderCommand::AppendChild { parent: DomId(parent), child: DomId(child) },
                );
                Ok(())
            },
            BatchCommandKind::InsertChildBefore => {
                let parent = match resolve_batch_id(
                    command.parent,
                    kind,
                    BatchField::Parent,
                    &self.id_map,
                ) {
                    Ok(id) => id,
                    Err(e) => return Err(e),
                };
                let child = match resolve_batch_id(
                    command.child,
                    kind,
                    BatchField::Child,
                    &self.id_map,
                ) {
                    Ok(id) => id,
                    Err(e) => return Err(e),
                };
                let before = match resolve_batch_id(
                    command.before,
                    kind,
                    BatchField::Before,
                    &self.id_map,
                ) {
                    Ok(id) => id,
                    Err(e) => return Err(e),
                };
                self.push_command(
                    RenderCommand::InsertChildBefore {
                        parent: DomId(parent),
                        child: DomId(child),
                        before: DomId(before),
                    },
                );
                Ok(())
            },
            BatchCommandKind::SetStyleProperty => self.set_style_property(command),
            _ => self.node_command(command, kind),
        }
    }

    fn set_style_property(&mut self, command: &BatchCommand) -> (r: Result<(), BatchError>)
        ensures
            match set_style_spec(old(self)@, *command) {
                Ok(t) => r is Ok && final(self)@ == t,
                Err(e) => r == Err::<(), BatchError>(e) && final(self)@ == old(self)@,
            },
    {
        let kind = BatchCommandKind::SetStyleProperty;
        let temporary_id = match command.id {
            Some(t) => if t < 0 {
                Some(t)
            } else {
                None
            },
            None => None,
        };
        let id = match resolve_batch_id(command.id, kind, BatchField::Id, &self.id_map) {
            Ok(id) => id,
            Err(e) => return Err(e),
        };
        let property = match required_string(&command.property, kind, BatchField::Property) {
            Ok(p) => p,
            Err(e) => return Err(e),
        };
        let value = match required_string(&command.value, kind, BatchField::Value) {
            Ok(v) => v,
            Err(e) => return Err(e),
        };
        match style_command(id, property.as_str(), value) {
            Err(StyleError::UnsupportedProperty(_)) => Err(
                BatchError::UnsupportedStyleProperty(property),
            ),
            Err(StyleError::InvalidValue { value, .. }) => Err(
                BatchError::InvalidStyleValue { property, value },
            ),
            Ok(StyleCommand::SetTransition { node, transitions }) => {
                self.push_command(RenderCommand::SetTransition { node, transitions });
                Ok(())
            },
            Ok(StyleCommand::MutateStyle { node, mutation }) => {
                self.style_change(temporary_id, node, mutation);
                Ok(())
            },
        }
    }

    fn node_command(&mut self, command: &BatchCommand, kind: BatchCommandKind) -> (r: Result<
        (),
        BatchError,
    >)
        ensures
            match node_command_spec(old(self)@, *command, kind) {
                Ok(t) => r is Ok && final(self)@ == t,
                Err(e) => r == Err::<(), BatchError>(e) && final(self)@ == old(self)@,
            },
    {
        let id = match resolve_batch_id(command.id, kind, BatchField::Id, &self.id_map) {
            Ok(id) => id,
            Err(e) => return Err(e),
        };
        let node = DomId(id);
        let render = match kind {
            BatchCommandKind::SetText => match required_string(&command.text, kind, BatchField::Text) {
                Ok(text) => RenderCommand::SetText { node, text },
                Err(e) => return Err(e),
            },
            BatchCommandKind::SetImageSource => match required_string(
                &command.src,
                kind,
                BatchField::Src,
            ) {
                Ok(src) => RenderCommand::SetImageSource { node, src },
                Err(e) => return Err(e),
            },
            BatchCommandKind::SetInputValue => match required_string(
                &command.value,
                kind,
                BatchField::Value,
            ) {
                Ok(value) => RenderCommand::SetInputValue {
                    node,
                    value,
                    cursor: match command.cursor {
                        Some(cursor) => cursor,
                        None => 0,
                    },
                },
                Err(e) => return Err(e),
            },
            BatchCommandKind::SetTextAreaValue => match required_string(
                &command.value,
                kind,
                BatchField::Value,
            ) {
                Ok(value) => RenderCommand::SetTextAreaValue {
                    node,
                    value,
                    cursor: match command.cursor {
                        Some(cursor) => cursor,
                        None => 0,
                    },
                },
                Err(e) => return Err(e),
            },
            BatchCommandKind::SetInputFocused => RenderCommand::SetInputFocused {
                node,
                focused: match command.focused {
                    Some(focused) => focused,
                    None => false,
                },
            },
            BatchCommandKind::SetTextAreaFocused => RenderCommand::SetTextAreaFocused {
                node,
                focused: match command.focused {
                    Some(focused) => focused,
                    None => false,
                },
            },
            BatchCommandKind::SetInputPlaceholder => match required_string(
                &command.placeholder,
                kind,
                BatchField::Placeholder,
            ) {
                Ok(placeholder) => RenderCommand::SetInputPlaceholder { node, placeholder },
                Err(e) => return Err(e),
            },
            BatchCommandKind::SetTextAreaPlaceholder => match required_string(
                &command.placeholder,
                kind,
                BatchField::Placeholder,
            ) {
                Ok(placeholder) => RenderCommand::SetTextAreaPlaceholder { node, placeholder },
                Err(e) => return Err(e),
            },
            BatchCommandKind::SetRoot => RenderCommand::SetRoot { root: node },
            BatchCommandKind::DetachNode => RenderCommand::DetachNode { node },
            _ => RenderCommand::DestroyNode { node },
        };
        self.push_command(render);
        Ok(())
    }
}

proof fn lemma_batch_run_refusal_persists(s: BatchRewriteState, commands: Seq<BatchCommand>, i: int)
    requires
        0 <= i <= commands.len(),
        batch_run(s, commands.take(i)) is Err,
    ensures
        batch_run(s, commands) == batch_run(s, commands.take(i)),
    decreases commands.len() - i,
{
    if i < commands.len() {
        assert(commands.take(i + 1).drop_last() =~= commands.take(i));
        lemma_batch_run_refusal_persists(s, commands, i + 1);
    } else {
        assert(commands.take(i) =~= commands);
    }
}

/// Rewrites a batch of DOM commands for the renderer, command by command:
/// a create command gives its temporary id the next real id; an id field
/// names a real id, or a temporary id through its latest create; a style
/// change to an element created in the batch joins its create command. The
/// first command that cannot be rewritten refuses the batch; the real ids
/// handed out before it stay used.
pub fn rewrite_batch(next_dom_id: &mut u32, commands: &Vec<BatchCommand>) -> (r: Result<
    RewrittenBatch,
    BatchError,
>)
    ensures
        batch_run(batch_start(*old(next_dom_id)), commands@) matches Ok(s) ==> (r matches Ok(b)
            && b.mappings@ == s.mappings && command_views(b.commands@) == s.commands && *final(next_dom_id) == s.next_dom_id),
        batch_run(batch_start(*old(next_dom_id)), commands@) matches Err((e, next)) ==> (r == Err::<
            RewrittenBatch,
            BatchError,
        >(e) && *final(next_dom_id) == next),
{
    let ghost start = batch_start(*next_dom_id);
    let mut rewriter = BatchRewriter {
        id_map: HashMap::new(),
        create_index: HashMap::new(),
        next_dom_id: *next_dom_id,
        mappings: Vec::new(),
        commands: Vec::new(),
    };
    proof {
        assert(command_views(rewriter.commands@) =~= seq![]);
        assert(rewriter@ == start);
        assert(commands@.take(0) =~= seq![]);
    }
    let mut i: usize = 0;
    while i < commands.len()
        invariant
            i <= commands@.len(),
            start == batch_start(*old(next_dom_id)),
            batch_run(start, commands@.take(i as int)) == Ok::<
                BatchRewriteState,
                (BatchError, u32),
            >(rewriter@),
        decreases commands.len() - i,
    {
        proof {
            assert(commands@.take(i as int + 1).drop_last() =~= commands@.take(i as int));
            assert(commands@.take(i as int + 1).last() == commands@[i as int]);
        }
        let ghost before = rewriter@;
        match rewriter.rewrite_command(&commands[i]) {
            Ok(()) => {},
            Err(e) => {
                *next_dom_id = rewriter.next_dom_id;
                proof {
                    assert(batch_run(start, commands@.take(i as int + 1)) == Err::<
                        BatchRewriteState,
                        (BatchError, u32),
                    >((e, before.next_dom_id)));
                    lemma_batch_run_refusal_persists(start, commands@, i as int + 1);
                }
                return Err(e);
            },
        }
        i = i + 1;
    }
    proof {
        assert(commands@.take(commands@.len() as int) =~= commands@);
    }
    *next_dom_id = rewriter.next_dom_id;
    Ok(RewrittenBatch { mappings: rewriter.mappings, commands: rewriter.commands })
}

/// Element ids are handed out one per create command, consecutively from
/// the next free id, and never twice: after a batch that is not refused,
/// the k-th mapping has id `next_dom_id + k` and the next free id is past
/// them all.
pub proof fn lemma_batch_ids_are_consecutive(next_dom_id: u32, commands: Seq<BatchCommand>)
    ensures
        batch_run(batch_start(next_dom_id), commands) matches Ok(s) ==> {
            &&& s.next_dom_id == next_dom_id + s.mappings.len()
            &&& forall|k: int|
                0 <= k < s.mappings.len() ==> #[trigger] s.mappings[k].id == next_dom_id + k
        },
    decreases commands.len(),
{
    if commands.len() > 0 {
        lemma_batch_ids_are_consecutive(next_dom_id, commands.drop_last());
    }
}

proof fn lemma_step_mapping_shape(s: BatchRewriteState, c: BatchCommand)
    ensures
        batch_step(s, c) matches Ok(u) ==> (u.mappings == s.mappings && u.id_map == s.id_map) || (
        exists|t: i32, id: u32|
            u.mappings == s.mappings.push(BatchIdMapping { temporary_id: t, id }) && u.id_map
                == s.id_map.insert(t, id)),
{
    if let Ok(u) = batch_step(s, c) {
        if u.mappings != s.mappings || u.id_map != s.id_map {
            let m = u.mappings.last();
            assert(u.mappings == s.mappings.push(
                BatchIdMapping { temporary_id: m.temporary_id, id: m.id },
            ));
            assert(u.id_map == s.id_map.insert(m.temporary_id, m.id));
        }
    }
}

/// No later mapping than the `k`-th is for the same temporary id.
pub open spec fn is_latest_mapping(mappings: Seq<BatchIdMapping>, k: int) -> bool {
    forall|j: int| k < j < mappings.len() ==> mappings[j].temporary_id != mappings[k].temporary_id
}

/// Each temporary id maps to the id of its latest mapping.
pub open spec fn temporary_ids_name_latest(s: BatchRewriteState) -> bool {
    forall|k: int|
        0 <= k < s.mappings.len() && #[trigger] is_latest_mapping(s.mappings, k)
            ==> s.id_map.contains_key(s.mappings[k].temporary_id)
            && s.id_map[s.mappings[k].temporary_id] == s.mappings[k].id
}

/// A temporary id names the element of its latest create command: after a
/// batch that is not refused, each temporary id that a create command gave
/// out maps to the id of the last mapping for it.
pub proof fn lemma_temporary_ids_name_their_latest_create(next_dom_id: u32, commands: Seq<
    BatchCommand,
>)
    ensures
        batch_run(batch_start(next_dom_id), commands) matches Ok(s) ==> temporary_ids_name_latest(s),
    decreases commands.len(),
{
    if commands.len() > 0 {
        lemma_temporary_ids_name_their_latest_create(next_dom_id, commands.drop_last());
        if let Ok(t) = batch_run(batch_start(next_dom_id), commands.drop_last()) {
            lemma_step_mapping_shape(t, commands.last());
            if let Ok(u) = batch_step(t, commands.last()) {
                assert forall|k: int|
                    0 <= k < u.mappings.len() && #[trigger] is_latest_mapping(
                        u.mappings,
                        k,
                    ) implies u.id_map.contains_key(u.mappings[k].temporary_id)
                    && u.id_map[u.mappings[k].temporary_id] == u.mappings[k].id by {
                    if k < t.mappings.len() {
                        assert forall|j: int|
                            k < j < t.mappings.len() implies t.mappings[j].temporary_id
                            != t.mappings[k].temporary_id by {
                            assert(u.mappings[j] == t.mappings[j]);
                        }
                        assert(is_latest_mapping(t.mappings, k));
                        if u.mappings.len() > t.mappings.len() {
                            assert(u.mappings[t.mappings.len() as int].temporary_id
                                != u.mappings[k].temporary_id);
                        }
                    }
                }
                assert(temporary_ids_name_latest(u));
            }
        }
    }
}

} // verus!
