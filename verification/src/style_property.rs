//! The style properties that can be set or reset, by their CSS and
//! camel-case names.

use vstd::prelude::*;
use crate::native_event::spec_transition_property_name;
use crate::style::TransitionProperty;
use crate::text::str_equals;

verus! {

/// A style property that an element's style can set or reset.
#[derive(Clone, Copy, Debug, PartialEq, Eq, Structural)]
pub enum StyleProperty {
    Display,
    Position,
    Top,
    Right,
    Bottom,
    Left,
    ZIndex,
    Visibility,
    Opacity,
    Overflow,
    OverflowX,
    OverflowY,
    ScrollbarColor,
    ScrollbarGutter,
    ImageRendering,
    WhiteSpace,
    FlexDirection,
    FlexWrap,
    FlexFlow,
    FlexBasis,
    FlexGrow,
    FlexShrink,
    Flex,
    JustifyContent,
    AlignItems,
    AlignSelf,
    AlignContent,
    JustifyItems,
    JustifySelf,
    Gap,
    RowGap,
    ColumnGap,
    Padding,
    PaddingTop,
    PaddingRight,
    PaddingBottom,
    PaddingLeft,
    Margin,
    MarginTop,
    MarginRight,
    MarginBottom,
    MarginLeft,
    Width,
    Height,
    MinWidth,
    MaxWidth,
    MinHeight,
    MaxHeight,
    Border,
    BorderTop,
    BorderRight,
    BorderBottom,
    BorderLeft,
    BorderColor,
    Color,
    PlaceholderColor,
    Background,
    SelectionBackground,
    FontWeight,
    FontStyle,
    TextDecorationLine,
    Cursor,
    GridTemplateColumns,
    GridTemplateRows,
    GridAutoColumns,
    GridAutoRows,
    GridAutoFlow,
    GridColumn,
    GridRow,
    GridColumnStart,
    GridColumnEnd,
    GridRowStart,
    GridRowEnd,
}

/// The property a name stands for, by its CSS name or its camel-case name.
pub open spec fn style_property_named(name: Seq<char>) -> Option<StyleProperty> {
    if name == "display"@ {
        Some(StyleProperty::Display)
    } else if name == "position"@ {
        Some(StyleProperty::Position)
    } else if name == "top"@ {
        Some(StyleProperty::Top)
    } else if name == "right"@ {
        Some(StyleProperty::Right)
    } else if name == "bottom"@ {
        Some(StyleProperty::Bottom)
    } else if name == "left"@ {
        Some(StyleProperty::Left)
    } else if name == "z-index"@ || name == "zIndex"@ {
        Some(StyleProperty::ZIndex)
    } else if name == "visibility"@ {
        Some(StyleProperty::Visibility)
    } else if name == "opacity"@ {
        Some(StyleProperty::Opacity)
    } else if name == "overflow"@ {
        Some(StyleProperty::Overflow)
    } else if name == "overflow-x"@ || name == "overflowX"@ {
        Some(StyleProperty::OverflowX)
    } else if name == "overflow-y"@ || name == "overflowY"@ {
        Some(StyleProperty::OverflowY)
    } else if name == "scrollbar-color"@ || name == "scrollbarColor"@ {
        Some(StyleProperty::ScrollbarColor)
    } else if name == "scrollbar-gutter"@ || name == "scrollbarGutter"@ {
        Some(StyleProperty::ScrollbarGutter)
    } else if name == "image-rendering"@ || name == "imageRendering"@ {
        Some(StyleProperty::ImageRendering)
    } else if name == "white-space"@ || name == "whiteSpace"@ {
        Some(StyleProperty::WhiteSpace)
    } else if name == "flex-direction"@ || name == "flexDirection"@ {
        Some(StyleProperty::FlexDirection)
    } else if name == "flex-wrap"@ || name == "flexWrap"@ {
        Some(StyleProperty::FlexWrap)
    } else if name == "flex-flow"@ || name == "flexFlow"@ {
        Some(StyleProperty::FlexFlow)
    } else if name == "flex-basis"@ || name == "flexBasis"@ {
        Some(StyleProperty::FlexBasis)
    } else if name == "flex-grow"@ || name == "flexGrow"@ {
        Some(StyleProperty::FlexGrow)
    } else if name == "flex-shrink"@ || name == "flexShrink"@ {
        Some(StyleProperty::FlexShrink)
    } else if name == "flex"@ {
        Some(StyleProperty::Flex)
    } else if name == "justify-content"@ || name == "justifyContent"@ {
        Some(StyleProperty::JustifyContent)
    } else if name == "align-items"@ || name == "alignItems"@ {
        Some(StyleProperty::AlignItems)
    } else if name == "align-self"@ || name == "alignSelf"@ {
        Some(StyleProperty::AlignSelf)
    } else if name == "align-content"@ || name == "alignContent"@ {
        Some(StyleProperty::AlignContent)
    } else if name == "justify-items"@ || name == "justifyItems"@ {
        Some(StyleProperty::JustifyItems)
    } else if name == "justify-self"@ || name == "justifySelf"@ {
        Some(StyleProperty::JustifySelf)
    } else if name == "gap"@ {
        Some(StyleProperty::Gap)
    } else if name == "row-gap"@ || name == "rowGap"@ {
        Some(StyleProperty::RowGap)
    } else if name == "column-gap"@ || name == "columnGap"@ {
        Some(StyleProperty::ColumnGap)
    } else if name == "padding"@ {
        Some(StyleProperty::Padding)
    } else if name == "padding-top"@ || name == "paddingTop"@ {
        Some(StyleProperty::PaddingTop)
    } else if name == "padding-right"@ || name == "paddingRight"@ {
        Some(StyleProperty::PaddingRight)
    } else if name == "padding-bottom"@ || name == "paddingBottom"@ {
        Some(StyleProperty::PaddingBottom)
    } else if name == "padding-left"@ || name == "paddingLeft"@ {
        Some(StyleProperty::PaddingLeft)
    } else if name == "margin"@ {
        Some(StyleProperty::Margin)
    } else if name == "margin-top"@ || name == "marginTop"@ {
        Some(StyleProperty::MarginTop)
    } else if name == "margin-right"@ || name == "marginRight"@ {
        Some(StyleProperty::MarginRight)
    } else if name == "margin-bottom"@ || name == "marginBottom"@ {
        Some(StyleProperty::MarginBottom)
    } else if name == "margin-left"@ || name == "marginLeft"@ {
        Some(StyleProperty::MarginLeft)
    } else if name == "width"@ {
        Some(StyleProperty::Width)
    } else if name == "height"@ {
        Some(StyleProperty::Height)
    } else if name == "min-width"@ || name == "minWidth"@ {
        Some(StyleProperty::MinWidth)
    } else if name == "max-width"@ || name == "maxWidth"@ {
        Some(StyleProperty::MaxWidth)
    } else if name == "min-height"@ || name == "minHeight"@ {
        Some(StyleProperty::MinHeight)
    } else if name == "max-height"@ || name == "maxHeight"@ {
        Some(StyleProperty::MaxHeight)
    } else if name == "border"@ {
        Some(StyleProperty::Border)
    } else if name == "border-top"@ || name == "borderTop"@ {
        Some(StyleProperty::BorderTop)
    } else if name == "border-right"@ || name == "borderRight"@ {
        Some(StyleProperty::BorderRight)
    } else if name == "border-bottom"@ || name == "borderBottom"@ {
        Some(StyleProperty::BorderBottom)
    } else if name == "border-left"@ || name == "borderLeft"@ {
        Some(StyleProperty::BorderLeft)
    } else if name == "border-color"@ || name == "borderColor"@ {
        Some(StyleProperty::BorderColor)
    } else if name == "color"@ {
        Some(StyleProperty::Color)
    } else if name == "placeholder-color"@ || name == "placeholderColor"@ {
        Some(StyleProperty::PlaceholderColor)
    } else if name == "background"@ || name == "background-color"@ || name == "backgroundColor"@ {
        Some(StyleProperty::Background)
    } else if name == "selection-background-color"@ || name == "selectionBackgroundColor"@ {
        Some(StyleProperty::SelectionBackground)
    } else if name == "font-weight"@ || name == "fontWeight"@ {
        Some(StyleProperty::FontWeight)
    } else if name == "font-style"@ || name == "fontStyle"@ {
        Some(StyleProperty::FontStyle)
    } else if name == "text-decoration"@ || name == "textDecoration"@ || name == "text-decoration-line"@ || name == "textDecorationLine"@ {
        Some(StyleProperty::TextDecorationLine)
    } else if name == "cursor"@ {
        Some(StyleProperty::Cursor)
    } else if name == "grid-template-columns"@ || name == "gridTemplateColumns"@ {
        Some(StyleProperty::GridTemplateColumns)
    } else if name == "grid-template-rows"@ || name == "gridTemplateRows"@ {
        Some(StyleProperty::GridTemplateRows)
    } else if name == "grid-auto-columns"@ || name == "gridAutoColumns"@ {
        Some(StyleProperty::GridAutoColumns)
    } else if name == "grid-auto-rows"@ || name == "gridAutoRows"@ {
        Some(StyleProperty::GridAutoRows)
    } else if name == "grid-auto-flow"@ || name == "gridAutoFlow"@ {
        Some(StyleProperty::GridAutoFlow)
    } else if name == "grid-column"@ || name == "gridColumn"@ {
        Some(StyleProperty::GridColumn)
    } else if name == "grid-row"@ || name == "gridRow"@ {
        Some(StyleProperty::GridRow)
    } else if name == "grid-column-start"@ || name == "gridColumnStart"@ {
        Some(StyleProperty::GridColumnStart)
    } else if name == "grid-column-end"@ || name == "gridColumnEnd"@ {
        Some(StyleProperty::GridColumnEnd)
    } else if name == "grid-row-start"@ || name == "gridRowStart"@ {
        Some(StyleProperty::GridRowStart)
    } else if name == "grid-row-end"@ || name == "gridRowEnd"@ {
        Some(StyleProperty::GridRowEnd)
    } else {
        None
    }
}

/// The property a name stands for, by its CSS name or its camel-case name.
#[verifier::rlimit(50)]
pub fn style_property(property: &str) -> (r: Option<StyleProperty>)
    ensures
        r == style_property_named(property@),
{
    if str_equals(property, "display") {
        return Some(StyleProperty::Display);
    }
    if str_equals(property, "position") {
        return Some(StyleProperty::Position);
    }
    if str_equals(property, "top") {
        return Some(StyleProperty::Top);
    }
    if str_equals(property, "right") {
        return Some(StyleProperty::Right);
    }
    if str_equals(property, "bottom") {
        return Some(StyleProperty::Bottom);
    }
    if str_equals(property, "left") {
        return Some(StyleProperty::Left);
    }
    if str_equals(property, "z-index") || str_equals(property, "zIndex") {
        return Some(StyleProperty::ZIndex);
    }
    if str_equals(property, "visibility") {
        return Some(StyleProperty::Visibility);
    }
    if str_equals(property, "opacity") {
        return Some(StyleProperty::Opacity);
    }
    if str_equals(property, "overflow") {
        return Some(StyleProperty::Overflow);
    }
    if str_equals(property, "overflow-x") || str_equals(property, "overflowX") {
        return Some(StyleProperty::OverflowX);
    }
    if str_equals(property, "overflow-y") || str_equals(property, "overflowY") {
        return Some(StyleProperty::OverflowY);
    }
    if str_equals(property, "scrollbar-color") || str_equals(property, "scrollbarColor") {
        return Some(StyleProperty::ScrollbarColor);
    }
    if str_equals(property, "scrollbar-gutter") || str_equals(property, "scrollbarGutter") {
        return Some(StyleProperty::ScrollbarGutter);
    }
    if str_equals(property, "image-rendering") || str_equals(property, "imageRendering") {
        return Some(StyleProperty::ImageRendering);
    }
    if str_equals(property, "white-space") || str_equals(property, "whiteSpace") {
        return Some(StyleProperty::WhiteSpace);
    }
    if str_equals(property, "flex-direction") || str_equals(property, "flexDirection") {
        return Some(StyleProperty::FlexDirection);
    }
    if str_equals(property, "flex-wrap") || str_equals(property, "flexWrap") {
        return Some(StyleProperty::FlexWrap);
    }
    if str_equals(property, "flex-flow") || str_equals(property, "flexFlow") {
        return Some(StyleProperty::FlexFlow);
    }
    if str_equals(property, "flex-basis") || str_equals(property, "flexBasis") {
        return Some(StyleProperty::FlexBasis);
    }
    if str_equals(property, "flex-grow") || str_equals(property, "flexGrow") {
        return Some(StyleProperty::FlexGrow);
    }
    if str_equals(property, "flex-shrink") || str_equals(property, "flexShrink") {
        return Some(StyleProperty::FlexShrink);
    }
    if str_equals(property, "flex") {
        return Some(StyleProperty::Flex);
    }
    if str_equals(property, "justify-content") || str_equals(property, "justifyContent") {
        return Some(StyleProperty::JustifyContent);
    }
    if str_equals(property, "align-items") || str_equals(property, "alignItems") {
        return Some(StyleProperty::AlignItems);
    }
    if str_equals(property, "align-self") || str_equals(property, "alignSelf") {
        return Some(StyleProperty::AlignSelf);
    }
    if str_equals(property, "align-content") || str_equals(property, "alignContent") {
        return Some(StyleProperty::AlignContent);
    }
    if str_equals(property, "justify-items") || str_equals(property, "justifyItems") {
        return Some(StyleProperty::JustifyItems);
    }
    if str_equals(property, "justify-self") || str_equals(property, "justifySelf") {
        return Some(StyleProperty::JustifySelf);
    }
    if str_equals(property, "gap") {
        return Some(StyleProperty::Gap);
    }
    if str_equals(property, "row-gap") || str_equals(property, "rowGap") {
        return Some(StyleProperty::RowGap);
    }
    if str_equals(property, "column-gap") || str_equals(property, "columnGap") {
        return Some(StyleProperty::ColumnGap);
    }
    if str_equals(property, "padding") {
        return Some(StyleProperty::Padding);
    }
    if str_equals(property, "padding-top") || str_equals(property, "paddingTop") {
        return Some(StyleProperty::PaddingTop);
    }
    if str_equals(property, "padding-right") || str_equals(property, "paddingRight") {
        return Some(StyleProperty::PaddingRight);
    }
    if str_equals(property, "padding-bottom") || str_equals(property, "paddingBottom") {
        return Some(StyleProperty::PaddingBottom);
    }
    if str_equals(property, "padding-left") || str_equals(property, "paddingLeft") {
        return Some(StyleProperty::PaddingLeft);
    }
    if str_equals(property, "margin") {
        return Some(StyleProperty::Margin);
    }
    if str_equals(property, "margin-top") || str_equals(property, "marginTop") {
        return Some(StyleProperty::MarginTop);
    }
    if str_equals(property, "margin-right") || str_equals(property, "marginRight") {
        return Some(StyleProperty::MarginRight);
    }
    if str_equals(property, "margin-bottom") || str_equals(property, "marginBottom") {
        return Some(StyleProperty::MarginBottom);
    }
    if str_equals(property, "margin-left") || str_equals(property, "marginLeft") {
        return Some(StyleProperty::MarginLeft);
    }
    if str_equals(property, "width") {
        return Some(StyleProperty::Width);
    }
    if str_equals(property, "height") {
        return Some(StyleProperty::Height);
    }
    if str_equals(property, "min-width") || str_equals(property, "minWidth") {
        return Some(StyleProperty::MinWidth);
    }
    if str_equals(property, "max-width") || str_equals(property, "maxWidth") {
        return Some(StyleProperty::MaxWidth);
    }
    if str_equals(property, "min-height") || str_equals(property, "minHeight") {
        return Some(StyleProperty::MinHeight);
    }
    if str_equals(property, "max-height") || str_equals(property, "maxHeight") {
        return Some(StyleProperty::MaxHeight);
    }
    if str_equals(property, "border") {
        return Some(StyleProperty::Border);
    }
    if str_equals(property, "border-top") || str_equals(property, "borderTop") {
        return Some(StyleProperty::BorderTop);
    }
    if str_equals(property, "border-right") || str_equals(property, "borderRight") {
        return Some(StyleProperty::BorderRight);
    }
    if str_equals(property, "border-bottom") || str_equals(property, "borderBottom") {
        return Some(StyleProperty::BorderBottom);
    }
    if str_equals(property, "border-left") || str_equals(property, "borderLeft") {
        return Some(StyleProperty::BorderLeft);
    }
    if str_equals(property, "border-color") || str_equals(property, "borderColor") {
        return Some(StyleProperty::BorderColor);
    }
    if str_equals(property, "color") {
        return Some(StyleProperty::Color);
    }
    if str_equals(property, "placeholder-color") || str_equals(property, "placeholderColor") {
        return Some(StyleProperty::PlaceholderColor);
    }
    if str_equals(property, "background") || str_equals(property, "background-color") || str_equals(property, "backgroundColor") {
        return Some(StyleProperty::Background);
    }
    if str_equals(property, "selection-background-color") || str_equals(property, "selectionBackgroundColor") {
        return Some(StyleProperty::SelectionBackground);
    }
    if str_equals(property, "font-weight") || str_equals(property, "fontWeight") {
        return Some(StyleProperty::FontWeight);
    }
    if str_equals(property, "font-style") || str_equals(property, "fontStyle") {
        return Some(StyleProperty::FontStyle);
    }
    if str_equals(property, "text-decoration") || str_equals(property, "textDecoration") || str_equals(property, "text-decoration-line") || str_equals(property, "textDecorationLine") {
        return Some(StyleProperty::TextDecorationLine);
    }
    if str_equals(property, "cursor") {
        return Some(StyleProperty::Cursor);
    }
    if str_equals(property, "grid-template-columns") || str_equals(property, "gridTemplateColumns") {
        return Some(StyleProperty::GridTemplateColumns);
    }
    if str_equals(property, "grid-template-rows") || str_equals(property, "gridTemplateRows") {
        return Some(StyleProperty::GridTemplateRows);
    }
    if str_equals(property, "grid-auto-columns") || str_equals(property, "gridAutoColumns") {
        return Some(StyleProperty::GridAutoColumns);
    }
    if str_equals(property, "grid-auto-rows") || str_equals(property, "gridAutoRows") {
        return Some(StyleProperty::GridAutoRows);
    }
    if str_equals(property, "grid-auto-flow") || str_equals(property, "gridAutoFlow") {
        return Some(StyleProperty::GridAutoFlow);
    }
    if str_equals(property, "grid-column") || str_equals(property, "gridColumn") {
        return Some(StyleProperty::GridColumn);
    }
    if str_equals(property, "grid-row") || str_equals(property, "gridRow") {
        return Some(StyleProperty::GridRow);
    }
    if str_equals(property, "grid-column-start") || str_equals(property, "gridColumnStart") {
        return Some(StyleProperty::GridColumnStart);
    }
    if str_equals(property, "grid-column-end") || str_equals(property, "gridColumnEnd") {
        return Some(StyleProperty::GridColumnEnd);
    }
    if str_equals(property, "grid-row-start") || str_equals(property, "gridRowStart") {
        return Some(StyleProperty::GridRowStart);
    }
    if str_equals(property, "grid-row-end") || str_equals(property, "gridRowEnd") {
        return Some(StyleProperty::GridRowEnd);
    }
    None
}

/// The names of each property: its CSS name, then its camel-case name
/// where that differs, then any other name it goes by.
pub open spec fn property_names(p: StyleProperty) -> Seq<Seq<char>> {
    match p {
        StyleProperty::Display => seq!["display"@],
        StyleProperty::Position => seq!["position"@],
        StyleProperty::Top => seq!["top"@],
        StyleProperty::Right => seq!["right"@],
        StyleProperty::Bottom => seq!["bottom"@],
        StyleProperty::Left => seq!["left"@],
        StyleProperty::ZIndex => seq!["z-index"@, "zIndex"@],
        StyleProperty::Visibility => seq!["visibility"@],
        StyleProperty::Opacity => seq!["opacity"@],
        StyleProperty::Overflow => seq!["overflow"@],
        StyleProperty::OverflowX => seq!["overflow-x"@, "overflowX"@],
        StyleProperty::OverflowY => seq!["overflow-y"@, "overflowY"@],
        StyleProperty::ScrollbarColor => seq!["scrollbar-color"@, "scrollbarColor"@],
        StyleProperty::ScrollbarGutter => seq!["scrollbar-gutter"@, "scrollbarGutter"@],
        StyleProperty::ImageRendering => seq!["image-rendering"@, "imageRendering"@],
        StyleProperty::WhiteSpace => seq!["white-space"@, "whiteSpace"@],
        StyleProperty::FlexDirection => seq!["flex-direction"@, "flexDirection"@],
        StyleProperty::FlexWrap => seq!["flex-wrap"@, "flexWrap"@],
        StyleProperty::FlexFlow => seq!["flex-flow"@, "flexFlow"@],
        StyleProperty::FlexBasis => seq!["flex-basis"@, "flexBasis"@],
        StyleProperty::FlexGrow => seq!["flex-grow"@, "flexGrow"@],
        StyleProperty::FlexShrink => seq!["flex-shrink"@, "flexShrink"@],
        StyleProperty::Flex => seq!["flex"@],
        StyleProperty::JustifyContent => seq!["justify-content"@, "justifyContent"@],
        StyleProperty::AlignItems => seq!["align-items"@, "alignItems"@],
        StyleProperty::AlignSelf => seq!["align-self"@, "alignSelf"@],
        StyleProperty::AlignContent => seq!["align-content"@, "alignContent"@],
        StyleProperty::JustifyItems => seq!["justify-items"@, "justifyItems"@],
        StyleProperty::JustifySelf => seq!["justify-self"@, "justifySelf"@],
        StyleProperty::Gap => seq!["gap"@],
        StyleProperty::RowGap => seq!["row-gap"@, "rowGap"@],
        StyleProperty::ColumnGap => seq!["column-gap"@, "columnGap"@],
        StyleProperty::Padding => seq!["padding"@],
        StyleProperty::PaddingTop => seq!["padding-top"@, "paddingTop"@],
        StyleProperty::PaddingRight => seq!["padding-right"@, "paddingRight"@],
        StyleProperty::PaddingBottom => seq!["padding-bottom"@, "paddingBottom"@],
        StyleProperty::PaddingLeft => seq!["padding-left"@, "paddingLeft"@],
        StyleProperty::Margin => seq!["margin"@],
        StyleProperty::MarginTop => seq!["margin-top"@, "marginTop"@],
        StyleProperty::MarginRight => seq!["margin-right"@, "marginRight"@],
        StyleProperty::MarginBottom => seq!["margin-bottom"@, "marginBottom"@],
        StyleProperty::MarginLeft => seq!["margin-left"@, "marginLeft"@],
        StyleProperty::Width => seq!["width"@],
        StyleProperty::Height => seq!["height"@],
        StyleProperty::MinWidth => seq!["min-width"@, "minWidth"@],
        StyleProperty::MaxWidth => seq!["max-width"@, "maxWidth"@],
        StyleProperty::MinHeight => seq!["min-height"@, "minHeight"@],
        StyleProperty::MaxHeight => seq!["max-height"@, "maxHeight"@],
        StyleProperty::Border => seq!["border"@],
        StyleProperty::BorderTop => seq!["border-top"@, "borderTop"@],
        StyleProperty::BorderRight => seq!["border-right"@, "borderRight"@],
        StyleProperty::BorderBottom => seq!["border-bottom"@, "borderBottom"@],
        StyleProperty::BorderLeft => seq!["border-left"@, "borderLeft"@],
        StyleProperty::BorderColor => seq!["border-color"@, "borderColor"@],
        StyleProperty::Color => seq!["color"@],
        StyleProperty::PlaceholderColor => seq!["placeholder-color"@, "placeholderColor"@],
        StyleProperty::Background => seq!["background"@, "background-color"@, "backgroundColor"@],
        StyleProperty::SelectionBackground => seq!["selection-background-color"@, "selectionBackgroundColor"@],
        StyleProperty::FontWeight => seq!["font-weight"@, "fontWeight"@],
        StyleProperty::FontStyle => seq!["font-style"@, "fontStyle"@],
        StyleProperty::TextDecorationLine => seq!["text-decoration"@, "textDecoration"@, "text-decoration-line"@, "textDecorationLine"@],
        StyleProperty::Cursor => seq!["cursor"@],
        StyleProperty::GridTemplateColumns => seq!["grid-template-columns"@, "gridTemplateColumns"@],
        StyleProperty::GridTemplateRows => seq!["grid-template-rows"@, "gridTemplateRows"@],
        StyleProperty::GridAutoColumns => seq!["grid-auto-columns"@, "gridAutoColumns"@],
        StyleProperty::GridAutoRows => seq!["grid-auto-rows"@, "gridAutoRows"@],
        StyleProperty::GridAutoFlow => seq!["grid-auto-flow"@, "gridAutoFlow"@],
        StyleProperty::GridColumn => seq!["grid-column"@, "gridColumn"@],
        StyleProperty::GridRow => seq!["grid-row"@, "gridRow"@],
        StyleProperty::GridColumnStart => seq!["grid-column-start"@, "gridColumnStart"@],
        StyleProperty::GridColumnEnd => seq!["grid-column-end"@, "gridColumnEnd"@],
        StyleProperty::GridRowStart => seq!["grid-row-start"@, "gridRowStart"@],
        StyleProperty::GridRowEnd => seq!["grid-row-end"@, "gridRowEnd"@],
    }
}

proof fn lemma_spelling_0()
    ensures
        "display"@.len() == 7,
        "display"@[0] == 'd',
        "display"@[1] == 'i',
        "display"@[2] == 's',
        "display"@[3] == 'p',
        "display"@[4] == 'l',
        "display"@[5] == 'a',
        "display"@[6] == 'y',
{
    reveal_strlit("display");
}

proof fn lemma_spelling_1()
    ensures
        "position"@.len() == 8,
        "position"@[0] == 'p',
        "position"@[1] == 'o',
        "position"@[2] == 's',
        "position"@[3] == 'i',
        "position"@[4] == 't',
        "position"@[5] == 'i',
        "position"@[6] == 'o',
        "position"@[7] == 'n',
{
    reveal_strlit("position");
}

proof fn lemma_spelling_2()
    ensures
        "top"@.len() == 3,
        "top"@[0] == 't',
        "top"@[1] == 'o',
        "top"@[2] == 'p',
{
    reveal_strlit("top");
}

proof fn lemma_spelling_3()
    ensures
        "right"@.len() == 5,
        "right"@[0] == 'r',
        "right"@[1] == 'i',
        "right"@[2] == 'g',
        "right"@[3] == 'h',
        "right"@[4] == 't',
{
    reveal_strlit("right");
}

proof fn lemma_spelling_4()
    ensures
        "bottom"@.len() == 6,
        "bottom"@[0] == 'b',
        "bottom"@[1] == 'o',
        "bottom"@[2] == 't',
        "bottom"@[3] == 't',
        "bottom"@[4] == 'o',
        "bottom"@[5] == 'm',
{
    reveal_strlit("bottom");
}

proof fn lemma_spelling_5()
    ensures
        "left"@.len() == 4,
        "left"@[0] == 'l',
        "left"@[1] == 'e',
        "left"@[2] == 'f',
        "left"@[3] == 't',
{
    reveal_strlit("left");
}

proof fn lemma_spelling_6()
    ensures
        "z-index"@.len() == 7,
        "z-index"@[0] == 'z',
        "z-index"@[1] == '-',
        "z-index"@[2] == 'i',
        "z-index"@[3] == 'n',
        "z-index"@[4] == 'd',
        "z-index"@[5] == 'e',
        "z-index"@[6] == 'x',
{
    reveal_strlit("z-index");
}

proof fn lemma_spelling_7()
    ensures
        "zIndex"@.len() == 6,
        "zIndex"@[0] == 'z',
        "zIndex"@[1] == 'I',
        "zIndex"@[2] == 'n',
        "zIndex"@[3] == 'd',
        "zIndex"@[4] == 'e',
        "zIndex"@[5] == 'x',
{
    reveal_strlit("zIndex");
}

proof fn lemma_spelling_8()
    ensures
        "visibility"@.len() == 10,
        "visibility"@[0] == 'v',
        "visibility"@[1] == 'i',
        "visibility"@[2] == 's',
        "visibility"@[3] == 'i',
        "visibility"@[4] == 'b',
        "visibility"@[5] == 'i',
        "visibility"@[6] == 'l',
        "visibility"@[7] == 'i',
        "visibility"@[8] == 't',
        "visibility"@[9] == 'y',
{
    reveal_strlit("visibility");
}

proof fn lemma_spelling_9()
    ensures
        "opacity"@.len() == 7,
        "opacity"@[0] == 'o',
        "opacity"@[1] == 'p',
        "opacity"@[2] == 'a',
        "opacity"@[3] == 'c',
        "opacity"@[4] == 'i',
        "opacity"@[5] == 't',
        "opacity"@[6] == 'y',
{
    reveal_strlit("opacity");
}

proof fn lemma_spelling_10()
    ensures
        "overflow"@.len() == 8,
        "overflow"@[0] == 'o',
        "overflow"@[1] == 'v',
        "overflow"@[2] == 'e',
        "overflow"@[3] == 'r',
        "overflow"@[4] == 'f',
        "overflow"@[5] == 'l',
        "overflow"@[6] == 'o',
        "overflow"@[7] == 'w',
{
    reveal_strlit("overflow");
}

proof fn lemma_spelling_11()
    ensures
        "overflow-x"@.len() == 10,
        "overflow-x"@[0] == 'o',
        "overflow-x"@[1] == 'v',
        "overflow-x"@[2] == 'e',
        "overflow-x"@[3] == 'r',
        "overflow-x"@[4] == 'f',
        "overflow-x"@[5] == 'l',
        "overflow-x"@[6] == 'o',
        "overflow-x"@[7] == 'w',
        "overflow-x"@[8] == '-',
        "overflow-x"@[9] == 'x',
{
    reveal_strlit("overflow-x");
}

proof fn lemma_spelling_12()
    ensures
        "overflowX"@.len() == 9,
        "overflowX"@[0] == 'o',
        "overflowX"@[1] == 'v',
        "overflowX"@[2] == 'e',
        "overflowX"@[3] == 'r',
        "overflowX"@[4] == 'f',
        "overflowX"@[5] == 'l',
        "overflowX"@[6] == 'o',
        "overflowX"@[7] == 'w',
        "overflowX"@[8] == 'X',
{
    reveal_strlit("overflowX");
}

proof fn lemma_spelling_13()
    ensures
        "overflow-y"@.len() == 10,
        "overflow-y"@[0] == 'o',
        "overflow-y"@[1] == 'v',
        "overflow-y"@[2] == 'e',
        "overflow-y"@[3] == 'r',
        "overflow-y"@[4] == 'f',
        "overflow-y"@[5] == 'l',
        "overflow-y"@[6] == 'o',
        "overflow-y"@[7] == 'w',
        "overflow-y"@[8] == '-',
        "overflow-y"@[9] == 'y',
{
    reveal_strlit("overflow-y");
}

proof fn lemma_spelling_14()
    ensures
        "overflowY"@.len() == 9,
        "overflowY"@[0] == 'o',
        "overflowY"@[1] == 'v',
        "overflowY"@[2] == 'e',
        "overflowY"@[3] == 'r',
        "overflowY"@[4] == 'f',
        "overflowY"@[5] == 'l',
        "overflowY"@[6] == 'o',
        "overflowY"@[7] == 'w',
        "overflowY"@[8] == 'Y',
{
    reveal_strlit("overflowY");
}

proof fn lemma_spelling_15()
    ensures
        "scrollbar-color"@.len() == 15,
        "scrollbar-color"@[0] == 's',
        "scrollbar-color"@[1] == 'c',
        "scrollbar-color"@[2] == 'r',
        "scrollbar-color"@[3] == 'o',
        "scrollbar-color"@[4] == 'l',
        "scrollbar-color"@[5] == 'l',
        "scrollbar-color"@[6] == 'b',
        "scrollbar-color"@[7] == 'a',
        "scrollbar-color"@[8] == 'r',
        "scrollbar-color"@[9] == '-',
        "scrollbar-color"@[10] == 'c',
        "scrollbar-color"@[11] == 'o',
        "scrollbar-color"@[12] == 'l',
        "scrollbar-color"@[13] == 'o',
        "scrollbar-color"@[14] == 'r',
{
    reveal_strlit("scrollbar-color");
}

proof fn lemma_spelling_16()
    ensures
        "scrollbarColor"@.len() == 14,
        "scrollbarColor"@[0] == 's',
        "scrollbarColor"@[1] == 'c',
        "scrollbarColor"@[2] == 'r',
        "scrollbarColor"@[3] == 'o',
        "scrollbarColor"@[4] == 'l',
        "scrollbarColor"@[5] == 'l',
        "scrollbarColor"@[6] == 'b',
        "scrollbarColor"@[7] == 'a',
        "scrollbarColor"@[8] == 'r',
        "scrollbarColor"@[9] == 'C',
        "scrollbarColor"@[10] == 'o',
        "scrollbarColor"@[11] == 'l',
        "scrollbarColor"@[12] == 'o',
        "scrollbarColor"@[13] == 'r',
{
    reveal_strlit("scrollbarColor");
}

proof fn lemma_spelling_17()
    ensures
        "scrollbar-gutter"@.len() == 16,
        "scrollbar-gutter"@[0] == 's',
        "scrollbar-gutter"@[1] == 'c',
        "scrollbar-gutter"@[2] == 'r',
        "scrollbar-gutter"@[3] == 'o',
        "scrollbar-gutter"@[4] == 'l',
        "scrollbar-gutter"@[5] == 'l',
        "scrollbar-gutter"@[6] == 'b',
        "scrollbar-gutter"@[7] == 'a',
        "scrollbar-gutter"@[8] == 'r',
        "scrollbar-gutter"@[9] == '-',
        "scrollbar-gutter"@[10] == 'g',
        "scrollbar-gutter"@[11] == 'u',
        "scrollbar-gutter"@[12] == 't',
        "scrollbar-gutter"@[13] == 't',
        "scrollbar-gutter"@[14] == 'e',
        "scrollbar-gutter"@[15] == 'r',
{
    reveal_strlit("scrollbar-gutter");
}

proof fn lemma_spelling_18()
    ensures
        "scrollbarGutter"@.len() == 15,
        "scrollbarGutter"@[0] == 's',
        "scrollbarGutter"@[1] == 'c',
        "scrollbarGutter"@[2] == 'r',
        "scrollbarGutter"@[3] == 'o',
        "scrollbarGutter"@[4] == 'l',
        "scrollbarGutter"@[5] == 'l',
        "scrollbarGutter"@[6] == 'b',
        "scrollbarGutter"@[7] == 'a',
        "scrollbarGutter"@[8] == 'r',
        "scrollbarGutter"@[9] == 'G',
        "scrollbarGutter"@[10] == 'u',
        "scrollbarGutter"@[11] == 't',
        "scrollbarGutter"@[12] == 't',
        "scrollbarGutter"@[13] == 'e',
        "scrollbarGutter"@[14] == 'r',
{
    reveal_strlit("scrollbarGutter");
}

proof fn lemma_spelling_19()
    ensures
        "image-rendering"@.len() == 15,
        "image-rendering"@[0] == 'i',
        "image-rendering"@[1] == 'm',
        "image-rendering"@[2] == 'a',
        "image-rendering"@[3] == 'g',
        "image-rendering"@[4] == 'e',
        "image-rendering"@[5] == '-',
        "image-rendering"@[6] == 'r',
        "image-rendering"@[7] == 'e',
        "image-rendering"@[8] == 'n',
        "image-rendering"@[9] == 'd',
        "image-rendering"@[10] == 'e',
        "image-rendering"@[11] == 'r',
        "image-rendering"@[12] == 'i',
        "image-rendering"@[13] == 'n',
        "image-rendering"@[14] == 'g',
{
    reveal_strlit("image-rendering");
}

proof fn lemma_spelling_20()
    ensures
        "imageRendering"@.len() == 14,
        "imageRendering"@[0] == 'i',
        "imageRendering"@[1] == 'm',
        "imageRendering"@[2] == 'a',
        "imageRendering"@[3] == 'g',
        "imageRendering"@[4] == 'e',
        "imageRendering"@[5] == 'R',
        "imageRendering"@[6] == 'e',
        "imageRendering"@[7] == 'n',
        "imageRendering"@[8] == 'd',
        "imageRendering"@[9] == 'e',
        "imageRendering"@[10] == 'r',
        "imageRendering"@[11] == 'i',
        "imageRendering"@[12] == 'n',
        "imageRendering"@[13] == 'g',
{
    reveal_strlit("imageRendering");
}

proof fn lemma_spelling_21()
    ensures
        "white-space"@.len() == 11,
        "white-space"@[0] == 'w',
        "white-space"@[1] == 'h',
        "white-space"@[2] == 'i',
        "white-space"@[3] == 't',
        "white-space"@[4] == 'e',
        "white-space"@[5] == '-',
        "white-space"@[6] == 's',
        "white-space"@[7] == 'p',
        "white-space"@[8] == 'a',
        "white-space"@[9] == 'c',
        "white-space"@[10] == 'e',
{
    reveal_strlit("white-space");
}

proof fn lemma_spelling_22()
    ensures
        "whiteSpace"@.len() == 10,
        "whiteSpace"@[0] == 'w',
        "whiteSpace"@[1] == 'h',
        "whiteSpace"@[2] == 'i',
        "whiteSpace"@[3] == 't',
        "whiteSpace"@[4] == 'e',
        "whiteSpace"@[5] == 'S',
        "whiteSpace"@[6] == 'p',
        "whiteSpace"@[7] == 'a',
        "whiteSpace"@[8] == 'c',
        "whiteSpace"@[9] == 'e',
{
    reveal_strlit("whiteSpace");
}

proof fn lemma_spelling_23()
    ensures
        "flex-direction"@.len() == 14,
        "flex-direction"@[0] == 'f',
        "flex-direction"@[1] == 'l',
        "flex-direction"@[2] == 'e',
        "flex-direction"@[3] == 'x',
        "flex-direction"@[4] == '-',
        "flex-direction"@[5] == 'd',
        "flex-direction"@[6] == 'i',
        "flex-direction"@[7] == 'r',
        "flex-direction"@[8] == 'e',
        "flex-direction"@[9] == 'c',
        "flex-direction"@[10] == 't',
        "flex-direction"@[11] == 'i',
        "flex-direction"@[12] == 'o',
        "flex-direction"@[13] == 'n',
{
    reveal_strlit("flex-direction");
}

proof fn lemma_spelling_24()
    ensures
        "flexDirection"@.len() == 13,
        "flexDirection"@[0] == 'f',
        "flexDirection"@[1] == 'l',
        "flexDirection"@[2] == 'e',
        "flexDirection"@[3] == 'x',
        "flexDirection"@[4] == 'D',
        "flexDirection"@[5] == 'i',
        "flexDirection"@[6] == 'r',
        "flexDirection"@[7] == 'e',
        "flexDirection"@[8] == 'c',
        "flexDirection"@[9] == 't',
        "flexDirection"@[10] == 'i',
        "flexDirection"@[11] == 'o',
        "flexDirection"@[12] == 'n',
{
    reveal_strlit("flexDirection");
}

proof fn lemma_spelling_25()
    ensures
        "flex-wrap"@.len() == 9,
        "flex-wrap"@[0] == 'f',
        "flex-wrap"@[1] == 'l',
        "flex-wrap"@[2] == 'e',
        "flex-wrap"@[3] == 'x',
        "flex-wrap"@[4] == '-',
        "flex-wrap"@[5] == 'w',
        "flex-wrap"@[6] == 'r',
        "flex-wrap"@[7] == 'a',
        "flex-wrap"@[8] == 'p',
{
    reveal_strlit("flex-wrap");
}

proof fn lemma_spelling_26()
    ensures
        "flexWrap"@.len() == 8,
        "flexWrap"@[0] == 'f',
        "flexWrap"@[1] == 'l',
        "flexWrap"@[2] == 'e',
        "flexWrap"@[3] == 'x',
        "flexWrap"@[4] == 'W',
        "flexWrap"@[5] == 'r',
        "flexWrap"@[6] == 'a',
        "flexWrap"@[7] == 'p',
{
    reveal_strlit("flexWrap");
}

proof fn lemma_spelling_27()
    ensures
        "flex-flow"@.len() == 9,
        "flex-flow"@[0] == 'f',
        "flex-flow"@[1] == 'l',
        "flex-flow"@[2] == 'e',
        "flex-flow"@[3] == 'x',
        "flex-flow"@[4] == '-',
        "flex-flow"@[5] == 'f',
        "flex-flow"@[6] == 'l',
        "flex-flow"@[7] == 'o',
        "flex-flow"@[8] == 'w',
{
    reveal_strlit("flex-flow");
}

proof fn lemma_spelling_28()
    ensures
        "flexFlow"@.len() == 8,
        "flexFlow"@[0] == 'f',
        "flexFlow"@[1] == 'l',
        "flexFlow"@[2] == 'e',
        "flexFlow"@[3] == 'x',
        "flexFlow"@[4] == 'F',
        "flexFlow"@[5] == 'l',
        "flexFlow"@[6] == 'o',
        "flexFlow"@[7] == 'w',
{
    reveal_strlit("flexFlow");
}

proof fn lemma_spelling_29()
    ensures
        "flex-basis"@.len() == 10,
        "flex-basis"@[0] == 'f',
        "flex-basis"@[1] == 'l',
        "flex-basis"@[2] == 'e',
        "flex-basis"@[3] == 'x',
        "flex-basis"@[4] == '-',
        "flex-basis"@[5] == 'b',
        "flex-basis"@[6] == 'a',
        "flex-basis"@[7] == 's',
        "flex-basis"@[8] == 'i',
        "flex-basis"@[9] == 's',
{
    reveal_strlit("flex-basis");
}

proof fn lemma_spelling_30()
    ensures
        "flexBasis"@.len() == 9,
        "flexBasis"@[0] == 'f',
        "flexBasis"@[1] == 'l',
        "flexBasis"@[2] == 'e',
        "flexBasis"@[3] == 'x',
        "flexBasis"@[4] == 'B',
        "flexBasis"@[5] == 'a',
        "flexBasis"@[6] == 's',
        "flexBasis"@[7] == 'i',
        "flexBasis"@[8] == 's',
{
    reveal_strlit("flexBasis");
}

proof fn lemma_spelling_31()
    ensures
        "flex-grow"@.len() == 9,
        "flex-grow"@[0] == 'f',
        "flex-grow"@[1] == 'l',
        "flex-grow"@[2] == 'e',
        "flex-grow"@[3] == 'x',
        "flex-grow"@[4] == '-',
        "flex-grow"@[5] == 'g',
        "flex-grow"@[6] == 'r',
        "flex-grow"@[7] == 'o',
        "flex-grow"@[8] == 'w',
{
    reveal_strlit("flex-grow");
}

proof fn lemma_spelling_32()
    ensures
        "flexGrow"@.len() == 8,
        "flexGrow"@[0] == 'f',
        "flexGrow"@[1] == 'l',
        "flexGrow"@[2] == 'e',
        "flexGrow"@[3] == 'x',
        "flexGrow"@[4] == 'G',
        "flexGrow"@[5] == 'r',
        "flexGrow"@[6] == 'o',
        "flexGrow"@[7] == 'w',
{
    reveal_strlit("flexGrow");
}

proof fn lemma_spelling_33()
    ensures
        "flex-shrink"@.len() == 11,
        "flex-shrink"@[0] == 'f',
        "flex-shrink"@[1] == 'l',
        "flex-shrink"@[2] == 'e',
        "flex-shrink"@[3] == 'x',
        "flex-shrink"@[4] == '-',
        "flex-shrink"@[5] == 's',
        "flex-shrink"@[6] == 'h',
        "flex-shrink"@[7] == 'r',
        "flex-shrink"@[8] == 'i',
        "flex-shrink"@[9] == 'n',
        "flex-shrink"@[10] == 'k',
{
    reveal_strlit("flex-shrink");
}

proof fn lemma_spelling_34()
    ensures
        "flexShrink"@.len() == 10,
        "flexShrink"@[0] == 'f',
        "flexShrink"@[1] == 'l',
        "flexShrink"@[2] == 'e',
        "flexShrink"@[3] == 'x',
        "flexShrink"@[4] == 'S',
        "flexShrink"@[5] == 'h',
        "flexShrink"@[6] == 'r',
        "flexShrink"@[7] == 'i',
        "flexShrink"@[8] == 'n',
        "flexShrink"@[9] == 'k',
{
    reveal_strlit("flexShrink");
}

proof fn lemma_spelling_35()
    ensures
        "flex"@.len() == 4,
        "flex"@[0] == 'f',
        "flex"@[1] == 'l',
        "flex"@[2] == 'e',
        "flex"@[3] == 'x',
{
    reveal_strlit("flex");
}

proof fn lemma_spelling_36()
    ensures
        "justify-content"@.len() == 15,
        "justify-content"@[0] == 'j',
        "justify-content"@[1] == 'u',
        "justify-content"@[2] == 's',
        "justify-content"@[3] == 't',
        "justify-content"@[4] == 'i',
        "justify-content"@[5] == 'f',
        "justify-content"@[6] == 'y',
        "justify-content"@[7] == '-',
        "justify-content"@[8] == 'c',
        "justify-content"@[9] == 'o',
        "justify-content"@[10] == 'n',
        "justify-content"@[11] == 't',
        "justify-content"@[12] == 'e',
        "justify-content"@[13] == 'n',
        "justify-content"@[14] == 't',
{
    reveal_strlit("justify-content");
}

proof fn lemma_spelling_37()
    ensures
        "justifyContent"@.len() == 14,
        "justifyContent"@[0] == 'j',
        "justifyContent"@[1] == 'u',
        "justifyContent"@[2] == 's',
        "justifyContent"@[3] == 't',
        "justifyContent"@[4] == 'i',
        "justifyContent"@[5] == 'f',
        "justifyContent"@[6] == 'y',
        "justifyContent"@[7] == 'C',
        "justifyContent"@[8] == 'o',
        "justifyContent"@[9] == 'n',
        "justifyContent"@[10] == 't',
        "justifyContent"@[11] == 'e',
        "justifyContent"@[12] == 'n',
        "justifyContent"@[13] == 't',
{
    reveal_strlit("justifyContent");
}

proof fn lemma_spelling_38()
    ensures
        "align-items"@.len() == 11,
        "align-items"@[0] == 'a',
        "align-items"@[1] == 'l',
        "align-items"@[2] == 'i',
        "align-items"@[3] == 'g',
        "align-items"@[4] == 'n',
        "align-items"@[5] == '-',
        "align-items"@[6] == 'i',
        "align-items"@[7] == 't',
        "align-items"@[8] == 'e',
        "align-items"@[9] == 'm',
        "align-items"@[10] == 's',
{
    reveal_strlit("align-items");
}

proof fn lemma_spelling_39()
    ensures
        "alignItems"@.len() == 10,
        "alignItems"@[0] == 'a',
        "alignItems"@[1] == 'l',
        "alignItems"@[2] == 'i',
        "alignItems"@[3] == 'g',
        "alignItems"@[4] == 'n',
        "alignItems"@[5] == 'I',
        "alignItems"@[6] == 't',
        "alignItems"@[7] == 'e',
        "alignItems"@[8] == 'm',
        "alignItems"@[9] == 's',
{
    reveal_strlit("alignItems");
}

proof fn lemma_spelling_40()
    ensures
        "align-self"@.len() == 10,
        "align-self"@[0] == 'a',
        "align-self"@[1] == 'l',
        "align-self"@[2] == 'i',
        "align-self"@[3] == 'g',
        "align-self"@[4] == 'n',
        "align-self"@[5] == '-',
        "align-self"@[6] == 's',
        "align-self"@[7] == 'e',
        "align-self"@[8] == 'l',
        "align-self"@[9] == 'f',
{
    reveal_strlit("align-self");
}

proof fn lemma_spelling_41()
    ensures
        "alignSelf"@.len() == 9,
        "alignSelf"@[0] == 'a',
        "alignSelf"@[1] == 'l',
        "alignSelf"@[2] == 'i',
        "alignSelf"@[3] == 'g',
        "alignSelf"@[4] == 'n',
        "alignSelf"@[5] == 'S',
        "alignSelf"@[6] == 'e',
        "alignSelf"@[7] == 'l',
        "alignSelf"@[8] == 'f',
{
    reveal_strlit("alignSelf");
}

proof fn lemma_spelling_42()
    ensures
        "align-content"@.len() == 13,
        "align-content"@[0] == 'a',
        "align-content"@[1] == 'l',
        "align-content"@[2] == 'i',
        "align-content"@[3] == 'g',
        "align-content"@[4] == 'n',
        "align-content"@[5] == '-',
        "align-content"@[6] == 'c',
        "align-content"@[7] == 'o',
        "align-content"@[8] == 'n',
        "align-content"@[9] == 't',
        "align-content"@[10] == 'e',
        "align-content"@[11] == 'n',
        "align-content"@[12] == 't',
{
    reveal_strlit("align-content");
}

proof fn lemma_spelling_43()
    ensures
        "alignContent"@.len() == 12,
        "alignContent"@[0] == 'a',
        "alignContent"@[1] == 'l',
        "alignContent"@[2] == 'i',
        "alignContent"@[3] == 'g',
        "alignContent"@[4] == 'n',
        "alignContent"@[5] == 'C',
        "alignContent"@[6] == 'o',
        "alignContent"@[7] == 'n',
        "alignContent"@[8] == 't',
        "alignContent"@[9] == 'e',
        "alignContent"@[10] == 'n',
        "alignContent"@[11] == 't',
{
    reveal_strlit("alignContent");
}

proof fn lemma_spelling_44()
    ensures
        "justify-items"@.len() == 13,
        "justify-items"@[0] == 'j',
        "justify-items"@[1] == 'u',
        "justify-items"@[2] == 's',
        "justify-items"@[3] == 't',
        "justify-items"@[4] == 'i',
        "justify-items"@[5] == 'f',
        "justify-items"@[6] == 'y',
        "justify-items"@[7] == '-',
        "justify-items"@[8] == 'i',
        "justify-items"@[9] == 't',
        "justify-items"@[10] == 'e',
        "justify-items"@[11] == 'm',
        "justify-items"@[12] == 's',
{
    reveal_strlit("justify-items");
}

proof fn lemma_spelling_45()
    ensures
        "justifyItems"@.len() == 12,
        "justifyItems"@[0] == 'j',
        "justifyItems"@[1] == 'u',
        "justifyItems"@[2] == 's',
        "justifyItems"@[3] == 't',
        "justifyItems"@[4] == 'i',
        "justifyItems"@[5] == 'f',
        "justifyItems"@[6] == 'y',
        "justifyItems"@[7] == 'I',
        "justifyItems"@[8] == 't',
        "justifyItems"@[9] == 'e',
        "justifyItems"@[10] == 'm',
        "justifyItems"@[11] == 's',
{
    reveal_strlit("justifyItems");
}

proof fn lemma_spelling_46()
    ensures
        "justify-self"@.len() == 12,
        "justify-self"@[0] == 'j',
        "justify-self"@[1] == 'u',
        "justify-self"@[2] == 's',
        "justify-self"@[3] == 't',
        "justify-self"@[4] == 'i',
        "justify-self"@[5] == 'f',
        "justify-self"@[6] == 'y',
        "justify-self"@[7] == '-',
        "justify-self"@[8] == 's',
        "justify-self"@[9] == 'e',
        "justify-self"@[10] == 'l',
        "justify-self"@[11] == 'f',
{
    reveal_strlit("justify-self");
}

proof fn lemma_spelling_47()
    ensures
        "justifySelf"@.len() == 11,
        "justifySelf"@[0] == 'j',
        "justifySelf"@[1] == 'u',
        "justifySelf"@[2] == 's',
        "justifySelf"@[3] == 't',
        "justifySelf"@[4] == 'i',
        "justifySelf"@[5] == 'f',
        "justifySelf"@[6] == 'y',
        "justifySelf"@[7] == 'S',
        "justifySelf"@[8] == 'e',
        "justifySelf"@[9] == 'l',
        "justifySelf"@[10] == 'f',
{
    reveal_strlit("justifySelf");
}

proof fn lemma_spelling_48()
    ensures
        "gap"@.len() == 3,
        "gap"@[0] == 'g',
        "gap"@[1] == 'a',
        "gap"@[2] == 'p',
{
    reveal_strlit("gap");
}

proof fn lemma_spelling_49()
    ensures
        "row-gap"@.len() == 7,
        "row-gap"@[0] == 'r',
        "row-gap"@[1] == 'o',
        "row-gap"@[2] == 'w',
        "row-gap"@[3] == '-',
        "row-gap"@[4] == 'g',
        "row-gap"@[5] == 'a',
        "row-gap"@[6] == 'p',
{
    reveal_strlit("row-gap");
}

proof fn lemma_spelling_50()
    ensures
        "rowGap"@.len() == 6,
        "rowGap"@[0] == 'r',
        "rowGap"@[1] == 'o',
        "rowGap"@[2] == 'w',
        "rowGap"@[3] == 'G',
        "rowGap"@[4] == 'a',
        "rowGap"@[5] == 'p',
{
    reveal_strlit("rowGap");
}

proof fn lemma_spelling_51()
    ensures
        "column-gap"@.len() == 10,
        "column-gap"@[0] == 'c',
        "column-gap"@[1] == 'o',
        "column-gap"@[2] == 'l',
        "column-gap"@[3] == 'u',
        "column-gap"@[4] == 'm',
        "column-gap"@[5] == 'n',
        "column-gap"@[6] == '-',
        "column-gap"@[7] == 'g',
        "column-gap"@[8] == 'a',
        "column-gap"@[9] == 'p',
{
    reveal_strlit("column-gap");
}

proof fn lemma_spelling_52()
    ensures
        "columnGap"@.len() == 9,
        "columnGap"@[0] == 'c',
        "columnGap"@[1] == 'o',
        "columnGap"@[2] == 'l',
        "columnGap"@[3] == 'u',
        "columnGap"@[4] == 'm',
        "columnGap"@[5] == 'n',
        "columnGap"@[6] == 'G',
        "columnGap"@[7] == 'a',
        "columnGap"@[8] == 'p',
{
    reveal_strlit("columnGap");
}

proof fn lemma_spelling_53()
    ensures
        "padding"@.len() == 7,
        "padding"@[0] == 'p',
        "padding"@[1] == 'a',
        "padding"@[2] == 'd',
        "padding"@[3] == 'd',
        "padding"@[4] == 'i',
        "padding"@[5] == 'n',
        "padding"@[6] == 'g',
{
    reveal_strlit("padding");
}

proof fn lemma_spelling_54()
    ensures
        "padding-top"@.len() == 11,
        "padding-top"@[0] == 'p',
        "padding-top"@[1] == 'a',
        "padding-top"@[2] == 'd',
        "padding-top"@[3] == 'd',
        "padding-top"@[4] == 'i',
        "padding-top"@[5] == 'n',
        "padding-top"@[6] == 'g',
        "padding-top"@[7] == '-',
        "padding-top"@[8] == 't',
        "padding-top"@[9] == 'o',
        "padding-top"@[10] == 'p',
{
    reveal_strlit("padding-top");
}

proof fn lemma_spelling_55()
    ensures
        "paddingTop"@.len() == 10,
        "paddingTop"@[0] == 'p',
        "paddingTop"@[1] == 'a',
        "paddingTop"@[2] == 'd',
        "paddingTop"@[3] == 'd',
        "paddingTop"@[4] == 'i',
        "paddingTop"@[5] == 'n',
        "paddingTop"@[6] == 'g',
        "paddingTop"@[7] == 'T',
        "paddingTop"@[8] == 'o',
        "paddingTop"@[9] == 'p',
{
    reveal_strlit("paddingTop");
}

proof fn lemma_spelling_56()
    ensures
        "padding-right"@.len() == 13,
        "padding-right"@[0] == 'p',
        "padding-right"@[1] == 'a',
        "padding-right"@[2] == 'd',
        "padding-right"@[3] == 'd',
        "padding-right"@[4] == 'i',
        "padding-right"@[5] == 'n',
        "padding-right"@[6] == 'g',
        "padding-right"@[7] == '-',
        "padding-right"@[8] == 'r',
        "padding-right"@[9] == 'i',
        "padding-right"@[10] == 'g',
        "padding-right"@[11] == 'h',
        "padding-right"@[12] == 't',
{
    reveal_strlit("padding-right");
}

proof fn lemma_spelling_57()
    ensures
        "paddingRight"@.len() == 12,
        "paddingRight"@[0] == 'p',
        "paddingRight"@[1] == 'a',
        "paddingRight"@[2] == 'd',
        "paddingRight"@[3] == 'd',
        "paddingRight"@[4] == 'i',
        "paddingRight"@[5] == 'n',
        "paddingRight"@[6] == 'g',
        "paddingRight"@[7] == 'R',
        "paddingRight"@[8] == 'i',
        "paddingRight"@[9] == 'g',
        "paddingRight"@[10] == 'h',
        "paddingRight"@[11] == 't',
{
    reveal_strlit("paddingRight");
}

proof fn lemma_spelling_58()
    ensures
        "padding-bottom"@.len() == 14,
        "padding-bottom"@[0] == 'p',
        "padding-bottom"@[1] == 'a',
        "padding-bottom"@[2] == 'd',
        "padding-bottom"@[3] == 'd',
        "padding-bottom"@[4] == 'i',
        "padding-bottom"@[5] == 'n',
        "padding-bottom"@[6] == 'g',
        "padding-bottom"@[7] == '-',
        "padding-bottom"@[8] == 'b',
        "padding-bottom"@[9] == 'o',
        "padding-bottom"@[10] == 't',
        "padding-bottom"@[11] == 't',
        "padding-bottom"@[12] == 'o',
        "padding-bottom"@[13] == 'm',
{
    reveal_strlit("padding-bottom");
}

proof fn lemma_spelling_59()
    ensures
        "paddingBottom"@.len() == 13,
        "paddingBottom"@[0] == 'p',
        "paddingBottom"@[1] == 'a',
        "paddingBottom"@[2] == 'd',
        "paddingBottom"@[3] == 'd',
        "paddingBottom"@[4] == 'i',
        "paddingBottom"@[5] == 'n',
        "paddingBottom"@[6] == 'g',
        "paddingBottom"@[7] == 'B',
        "paddingBottom"@[8] == 'o',
        "paddingBottom"@[9] == 't',
        "paddingBottom"@[10] == 't',
        "paddingBottom"@[11] == 'o',
        "paddingBottom"@[12] == 'm',
{
    reveal_strlit("paddingBottom");
}

proof fn lemma_spelling_60()
    ensures
        "padding-left"@.len() == 12,
        "padding-left"@[0] == 'p',
        "padding-left"@[1] == 'a',
        "padding-left"@[2] == 'd',
        "padding-left"@[3] == 'd',
        "padding-left"@[4] == 'i',
        "padding-left"@[5] == 'n',
        "padding-left"@[6] == 'g',
        "padding-left"@[7] == '-',
        "padding-left"@[8] == 'l',
        "padding-left"@[9] == 'e',
        "padding-left"@[10] == 'f',
        "padding-left"@[11] == 't',
{
    reveal_strlit("padding-left");
}

proof fn lemma_spelling_61()
    ensures
        "paddingLeft"@.len() == 11,
        "paddingLeft"@[0] == 'p',
        "paddingLeft"@[1] == 'a',
        "paddingLeft"@[2] == 'd',
        "paddingLeft"@[3] == 'd',
        "paddingLeft"@[4] == 'i',
        "paddingLeft"@[5] == 'n',
        "paddingLeft"@[6] == 'g',
        "paddingLeft"@[7] == 'L',
        "paddingLeft"@[8] == 'e',
        "paddingLeft"@[9] == 'f',
        "paddingLeft"@[10] == 't',
{
    reveal_strlit("paddingLeft");
}

proof fn lemma_spelling_62()
    ensures
        "margin"@.len() == 6,
        "margin"@[0] == 'm',
        "margin"@[1] == 'a',
        "margin"@[2] == 'r',
        "margin"@[3] == 'g',
        "margin"@[4] == 'i',
        "margin"@[5] == 'n',
{
    reveal_strlit("margin");
}

proof fn lemma_spelling_63()
    ensures
        "margin-top"@.len() == 10,
        "margin-top"@[0] == 'm',
        "margin-top"@[1] == 'a',
        "margin-top"@[2] == 'r',
        "margin-top"@[3] == 'g',
        "margin-top"@[4] == 'i',
        "margin-top"@[5] == 'n',
        "margin-top"@[6] == '-',
        "margin-top"@[7] == 't',
        "margin-top"@[8] == 'o',
        "margin-top"@[9] == 'p',
{
    reveal_strlit("margin-top");
}

proof fn lemma_spelling_64()
    ensures
        "marginTop"@.len() == 9,
        "marginTop"@[0] == 'm',
        "marginTop"@[1] == 'a',
        "marginTop"@[2] == 'r',
        "marginTop"@[3] == 'g',
        "marginTop"@[4] == 'i',
        "marginTop"@[5] == 'n',
        "marginTop"@[6] == 'T',
        "marginTop"@[7] == 'o',
        "marginTop"@[8] == 'p',
{
    reveal_strlit("marginTop");
}

proof fn lemma_spelling_65()
    ensures
        "margin-right"@.len() == 12,
        "margin-right"@[0] == 'm',
        "margin-right"@[1] == 'a',
        "margin-right"@[2] == 'r',
        "margin-right"@[3] == 'g',
        "margin-right"@[4] == 'i',
        "margin-right"@[5] == 'n',
        "margin-right"@[6] == '-',
        "margin-right"@[7] == 'r',
        "margin-right"@[8] == 'i',
        "margin-right"@[9] == 'g',
        "margin-right"@[10] == 'h',
        "margin-right"@[11] == 't',
{
    reveal_strlit("margin-right");
}

proof fn lemma_spelling_66()
    ensures
        "marginRight"@.len() == 11,
        "marginRight"@[0] == 'm',
        "marginRight"@[1] == 'a',
        "marginRight"@[2] == 'r',
        "marginRight"@[3] == 'g',
        "marginRight"@[4] == 'i',
        "marginRight"@[5] == 'n',
        "marginRight"@[6] == 'R',
        "marginRight"@[7] == 'i',
        "marginRight"@[8] == 'g',
        "marginRight"@[9] == 'h',
        "marginRight"@[10] == 't',
{
    reveal_strlit("marginRight");
}

proof fn lemma_spelling_67()
    ensures
        "margin-bottom"@.len() == 13,
        "margin-bottom"@[0] == 'm',
        "margin-bottom"@[1] == 'a',
        "margin-bottom"@[2] == 'r',
        "margin-bottom"@[3] == 'g',
        "margin-bottom"@[4] == 'i',
        "margin-bottom"@[5] == 'n',
        "margin-bottom"@[6] == '-',
        "margin-bottom"@[7] == 'b',
        "margin-bottom"@[8] == 'o',
        "margin-bottom"@[9] == 't',
        "margin-bottom"@[10] == 't',
        "margin-bottom"@[11] == 'o',
        "margin-bottom"@[12] == 'm',
{
    reveal_strlit("margin-bottom");
}

proof fn lemma_spelling_68()
    ensures
        "marginBottom"@.len() == 12,
        "marginBottom"@[0] == 'm',
        "marginBottom"@[1] == 'a',
        "marginBottom"@[2] == 'r',
        "marginBottom"@[3] == 'g',
        "marginBottom"@[4] == 'i',
        "marginBottom"@[5] == 'n',
        "marginBottom"@[6] == 'B',
        "marginBottom"@[7] == 'o',
        "marginBottom"@[8] == 't',
        "marginBottom"@[9] == 't',
        "marginBottom"@[10] == 'o',
        "marginBottom"@[11] == 'm',
{
    reveal_strlit("marginBottom");
}

proof fn lemma_spelling_69()
    ensures
        "margin-left"@.len() == 11,
        "margin-left"@[0] == 'm',
        "margin-left"@[1] == 'a',
        "margin-left"@[2] == 'r',
        "margin-left"@[3] == 'g',
        "margin-left"@[4] == 'i',
        "margin-left"@[5] == 'n',
        "margin-left"@[6] == '-',
        "margin-left"@[7] == 'l',
        "margin-left"@[8] == 'e',
        "margin-left"@[9] == 'f',
        "margin-left"@[10] == 't',
{
    reveal_strlit("margin-left");
}

proof fn lemma_spelling_70()
    ensures
        "marginLeft"@.len() == 10,
        "marginLeft"@[0] == 'm',
        "marginLeft"@[1] == 'a',
        "marginLeft"@[2] == 'r',
        "marginLeft"@[3] == 'g',
        "marginLeft"@[4] == 'i',
        "marginLeft"@[5] == 'n',
        "marginLeft"@[6] == 'L',
        "marginLeft"@[7] == 'e',
        "marginLeft"@[8] == 'f',
        "marginLeft"@[9] == 't',
{
    reveal_strlit("marginLeft");
}

proof fn lemma_spelling_71()
    ensures
        "width"@.len() == 5,
        "width"@[0] == 'w',
        "width"@[1] == 'i',
        "width"@[2] == 'd',
        "width"@[3] == 't',
        "width"@[4] == 'h',
{
    reveal_strlit("width");
}

proof fn lemma_spelling_72()
    ensures
        "height"@.len() == 6,
        "height"@[0] == 'h',
        "height"@[1] == 'e',
        "height"@[2] == 'i',
        "height"@[3] == 'g',
        "height"@[4] == 'h',
        "height"@[5] == 't',
{
    reveal_strlit("height");
}

proof fn lemma_spelling_73()
    ensures
        "min-width"@.len() == 9,
        "min-width"@[0] == 'm',
        "min-width"@[1] == 'i',
        "min-width"@[2] == 'n',
        "min-width"@[3] == '-',
        "min-width"@[4] == 'w',
        "min-width"@[5] == 'i',
        "min-width"@[6] == 'd',
        "min-width"@[7] == 't',
        "min-width"@[8] == 'h',
{
    reveal_strlit("min-width");
}

proof fn lemma_spelling_74()
    ensures
        "minWidth"@.len() == 8,
        "minWidth"@[0] == 'm',
        "minWidth"@[1] == 'i',
        "minWidth"@[2] == 'n',
        "minWidth"@[3] == 'W',
        "minWidth"@[4] == 'i',
        "minWidth"@[5] == 'd',
        "minWidth"@[6] == 't',
        "minWidth"@[7] == 'h',
{
    reveal_strlit("minWidth");
}

proof fn lemma_spelling_75()
    ensures
        "max-width"@.len() == 9,
        "max-width"@[0] == 'm',
        "max-width"@[1] == 'a',
        "max-width"@[2] == 'x',
        "max-width"@[3] == '-',
        "max-width"@[4] == 'w',
        "max-width"@[5] == 'i',
        "max-width"@[6] == 'd',
        "max-width"@[7] == 't',
        "max-width"@[8] == 'h',
{
    reveal_strlit("max-width");
}

proof fn lemma_spelling_76()
    ensures
        "maxWidth"@.len() == 8,
        "maxWidth"@[0] == 'm',
        "maxWidth"@[1] == 'a',
        "maxWidth"@[2] == 'x',
        "maxWidth"@[3] == 'W',
        "maxWidth"@[4] == 'i',
        "maxWidth"@[5] == 'd',
        "maxWidth"@[6] == 't',
        "maxWidth"@[7] == 'h',
{
    reveal_strlit("maxWidth");
}

proof fn lemma_spelling_77()
    ensures
        "min-height"@.len() == 10,
        "min-height"@[0] == 'm',
        "min-height"@[1] == 'i',
        "min-height"@[2] == 'n',
        "min-height"@[3] == '-',
        "min-height"@[4] == 'h',
        "min-height"@[5] == 'e',
        "min-height"@[6] == 'i',
        "min-height"@[7] == 'g',
        "min-height"@[8] == 'h',
        "min-height"@[9] == 't',
{
    reveal_strlit("min-height");
}

proof fn lemma_spelling_78()
    ensures
        "minHeight"@.len() == 9,
        "minHeight"@[0] == 'm',
        "minHeight"@[1] == 'i',
        "minHeight"@[2] == 'n',
        "minHeight"@[3] == 'H',
        "minHeight"@[4] == 'e',
        "minHeight"@[5] == 'i',
        "minHeight"@[6] == 'g',
        "minHeight"@[7] == 'h',
        "minHeight"@[8] == 't',
{
    reveal_strlit("minHeight");
}

proof fn lemma_spelling_79()
    ensures
        "max-height"@.len() == 10,
        "max-height"@[0] == 'm',
        "max-height"@[1] == 'a',
        "max-height"@[2] == 'x',
        "max-height"@[3] == '-',
        "max-height"@[4] == 'h',
        "max-height"@[5] == 'e',
        "max-height"@[6] == 'i',
        "max-height"@[7] == 'g',
        "max-height"@[8] == 'h',
        "max-height"@[9] == 't',
{
    reveal_strlit("max-height");
}

proof fn lemma_spelling_80()
    ensures
        "maxHeight"@.len() == 9,
        "maxHeight"@[0] == 'm',
        "maxHeight"@[1] == 'a',
        "maxHeight"@[2] == 'x',
        "maxHeight"@[3] == 'H',
        "maxHeight"@[4] == 'e',
        "maxHeight"@[5] == 'i',
        "maxHeight"@[6] == 'g',
        "maxHeight"@[7] == 'h',
        "maxHeight"@[8] == 't',
{
    reveal_strlit("maxHeight");
}

proof fn lemma_spelling_81()
    ensures
        "border"@.len() == 6,
        "border"@[0] == 'b',
        "border"@[1] == 'o',
        "border"@[2] == 'r',
        "border"@[3] == 'd',
        "border"@[4] == 'e',
        "border"@[5] == 'r',
{
    reveal_strlit("border");
}

proof fn lemma_spelling_82()
    ensures
        "border-top"@.len() == 10,
        "border-top"@[0] == 'b',
        "border-top"@[1] == 'o',
        "border-top"@[2] == 'r',
        "border-top"@[3] == 'd',
        "border-top"@[4] == 'e',
        "border-top"@[5] == 'r',
        "border-top"@[6] == '-',
        "border-top"@[7] == 't',
        "border-top"@[8] == 'o',
        "border-top"@[9] == 'p',
{
    reveal_strlit("border-top");
}

proof fn lemma_spelling_83()
    ensures
        "borderTop"@.len() == 9,
        "borderTop"@[0] == 'b',
        "borderTop"@[1] == 'o',
        "borderTop"@[2] == 'r',
        "borderTop"@[3] == 'd',
        "borderTop"@[4] == 'e',
        "borderTop"@[5] == 'r',
        "borderTop"@[6] == 'T',
        "borderTop"@[7] == 'o',
        "borderTop"@[8] == 'p',
{
    reveal_strlit("borderTop");
}

proof fn lemma_spelling_84()
    ensures
        "border-right"@.len() == 12,
        "border-right"@[0] == 'b',
        "border-right"@[1] == 'o',
        "border-right"@[2] == 'r',
        "border-right"@[3] == 'd',
        "border-right"@[4] == 'e',
        "border-right"@[5] == 'r',
        "border-right"@[6] == '-',
        "border-right"@[7] == 'r',
        "border-right"@[8] == 'i',
        "border-right"@[9] == 'g',
        "border-right"@[10] == 'h',
        "border-right"@[11] == 't',
{
    reveal_strlit("border-right");
}

proof fn lemma_spelling_85()
    ensures
        "borderRight"@.len() == 11,
        "borderRight"@[0] == 'b',
        "borderRight"@[1] == 'o',
        "borderRight"@[2] == 'r',
        "borderRight"@[3] == 'd',
        "borderRight"@[4] == 'e',
        "borderRight"@[5] == 'r',
        "borderRight"@[6] == 'R',
        "borderRight"@[7] == 'i',
        "borderRight"@[8] == 'g',
        "borderRight"@[9] == 'h',
        "borderRight"@[10] == 't',
{
    reveal_strlit("borderRight");
}

proof fn lemma_spelling_86()
    ensures
        "border-bottom"@.len() == 13,
        "border-bottom"@[0] == 'b',
        "border-bottom"@[1] == 'o',
        "border-bottom"@[2] == 'r',
        "border-bottom"@[3] == 'd',
        "border-bottom"@[4] == 'e',
        "border-bottom"@[5] == 'r',
        "border-bottom"@[6] == '-',
        "border-bottom"@[7] == 'b',
        "border-bottom"@[8] == 'o',
        "border-bottom"@[9] == 't',
        "border-bottom"@[10] == 't',
        "border-bottom"@[11] == 'o',
        "border-bottom"@[12] == 'm',
{
    reveal_strlit("border-bottom");
}

proof fn lemma_spelling_87()
    ensures
        "borderBottom"@.len() == 12,
        "borderBottom"@[0] == 'b',
        "borderBottom"@[1] == 'o',
        "borderBottom"@[2] == 'r',
        "borderBottom"@[3] == 'd',
        "borderBottom"@[4] == 'e',
        "borderBottom"@[5] == 'r',
        "borderBottom"@[6] == 'B',
        "borderBottom"@[7] == 'o',
        "borderBottom"@[8] == 't',
        "borderBottom"@[9] == 't',
        "borderBottom"@[10] == 'o',
        "borderBottom"@[11] == 'm',
{
    reveal_strlit("borderBottom");
}

proof fn lemma_spelling_88()
    ensures
        "border-left"@.len() == 11,
        "border-left"@[0] == 'b',
        "border-left"@[1] == 'o',
        "border-left"@[2] == 'r',
        "border-left"@[3] == 'd',
        "border-left"@[4] == 'e',
        "border-left"@[5] == 'r',
        "border-left"@[6] == '-',
        "border-left"@[7] == 'l',
        "border-left"@[8] == 'e',
        "border-left"@[9] == 'f',
        "border-left"@[10] == 't',
{
    reveal_strlit("border-left");
}

proof fn lemma_spelling_89()
    ensures
        "borderLeft"@.len() == 10,
        "borderLeft"@[0] == 'b',
        "borderLeft"@[1] == 'o',
        "borderLeft"@[2] == 'r',
        "borderLeft"@[3] == 'd',
        "borderLeft"@[4] == 'e',
        "borderLeft"@[5] == 'r',
        "borderLeft"@[6] == 'L',
        "borderLeft"@[7] == 'e',
        "borderLeft"@[8] == 'f',
        "borderLeft"@[9] == 't',
{
    reveal_strlit("borderLeft");
}

proof fn lemma_spelling_90()
    ensures
        "border-color"@.len() == 12,
        "border-color"@[0] == 'b',
        "border-color"@[1] == 'o',
        "border-color"@[2] == 'r',
        "border-color"@[3] == 'd',
        "border-color"@[4] == 'e',
        "border-color"@[5] == 'r',
        "border-color"@[6] == '-',
        "border-color"@[7] == 'c',
        "border-color"@[8] == 'o',
        "border-color"@[9] == 'l',
        "border-color"@[10] == 'o',
        "border-color"@[11] == 'r',
{
    reveal_strlit("border-color");
}

proof fn lemma_spelling_91()
    ensures
        "borderColor"@.len() == 11,
        "borderColor"@[0] == 'b',
        "borderColor"@[1] == 'o',
        "borderColor"@[2] == 'r',
        "borderColor"@[3] == 'd',
        "borderColor"@[4] == 'e',
        "borderColor"@[5] == 'r',
        "borderColor"@[6] == 'C',
        "borderColor"@[7] == 'o',
        "borderColor"@[8] == 'l',
        "borderColor"@[9] == 'o',
        "borderColor"@[10] == 'r',
{
    reveal_strlit("borderColor");
}

proof fn lemma_spelling_92()
    ensures
        "color"@.len() == 5,
        "color"@[0] == 'c',
        "color"@[1] == 'o',
        "color"@[2] == 'l',
        "color"@[3] == 'o',
        "color"@[4] == 'r',
{
    reveal_strlit("color");
}

proof fn lemma_spelling_93()
    ensures
        "placeholder-color"@.len() == 17,
        "placeholder-color"@[0] == 'p',
        "placeholder-color"@[1] == 'l',
        "placeholder-color"@[2] == 'a',
        "placeholder-color"@[3] == 'c',
        "placeholder-color"@[4] == 'e',
        "placeholder-color"@[5] == 'h',
        "placeholder-color"@[6] == 'o',
        "placeholder-color"@[7] == 'l',
        "placeholder-color"@[8] == 'd',
        "placeholder-color"@[9] == 'e',
        "placeholder-color"@[10] == 'r',
        "placeholder-color"@[11] == '-',
        "placeholder-color"@[12] == 'c',
        "placeholder-color"@[13] == 'o',
        "placeholder-color"@[14] == 'l',
        "placeholder-color"@[15] == 'o',
        "placeholder-color"@[16] == 'r',
{
    reveal_strlit("placeholder-color");
}

proof fn lemma_spelling_94()
    ensures
        "placeholderColor"@.len() == 16,
        "placeholderColor"@[0] == 'p',
        "placeholderColor"@[1] == 'l',
        "placeholderColor"@[2] == 'a',
        "placeholderColor"@[3] == 'c',
        "placeholderColor"@[4] == 'e',
        "placeholderColor"@[5] == 'h',
        "placeholderColor"@[6] == 'o',
        "placeholderColor"@[7] == 'l',
        "placeholderColor"@[8] == 'd',
        "placeholderColor"@[9] == 'e',
        "placeholderColor"@[10] == 'r',
        "placeholderColor"@[11] == 'C',
        "placeholderColor"@[12] == 'o',
        "placeholderColor"@[13] == 'l',
        "placeholderColor"@[14] == 'o',
        "placeholderColor"@[15] == 'r',
{
    reveal_strlit("placeholderColor");
}

proof fn lemma_spelling_95()
    ensures
        "background"@.len() == 10,
        "background"@[0] == 'b',
        "background"@[1] == 'a',
        "background"@[2] == 'c',
        "background"@[3] == 'k',
        "background"@[4] == 'g',
        "background"@[5] == 'r',
        "background"@[6] == 'o',
        "background"@[7] == 'u',
        "background"@[8] == 'n',
        "background"@[9] == 'd',
{
    reveal_strlit("background");
}

proof fn lemma_spelling_96()
    ensures
        "background-color"@.len() == 16,
        "background-color"@[0] == 'b',
        "background-color"@[1] == 'a',
        "background-color"@[2] == 'c',
        "background-color"@[3] == 'k',
        "background-color"@[4] == 'g',
        "background-color"@[5] == 'r',
        "background-color"@[6] == 'o',
        "background-color"@[7] == 'u',
        "background-color"@[8] == 'n',
        "background-color"@[9] == 'd',
        "background-color"@[10] == '-',
        "background-color"@[11] == 'c',
        "background-color"@[12] == 'o',
        "background-color"@[13] == 'l',
        "background-color"@[14] == 'o',
        "background-color"@[15] == 'r',
{
    reveal_strlit("background-color");
}

proof fn lemma_spelling_97()
    ensures
        "backgroundColor"@.len() == 15,
        "backgroundColor"@[0] == 'b',
        "backgroundColor"@[1] == 'a',
        "backgroundColor"@[2] == 'c',
        "backgroundColor"@[3] == 'k',
        "backgroundColor"@[4] == 'g',
        "backgroundColor"@[5] == 'r',
        "backgroundColor"@[6] == 'o',
        "backgroundColor"@[7] == 'u',
        "backgroundColor"@[8] == 'n',
        "backgroundColor"@[9] == 'd',
        "backgroundColor"@[10] == 'C',
        "backgroundColor"@[11] == 'o',
        "backgroundColor"@[12] == 'l',
        "backgroundColor"@[13] == 'o',
        "backgroundColor"@[14] == 'r',
{
    reveal_strlit("backgroundColor");
}

proof fn lemma_spelling_98()
    ensures
        "selection-background-color"@.len() == 26,
        "selection-background-color"@[0] == 's',
        "selection-background-color"@[1] == 'e',
        "selection-background-color"@[2] == 'l',
        "selection-background-color"@[3] == 'e',
        "selection-background-color"@[4] == 'c',
        "selection-background-color"@[5] == 't',
        "selection-background-color"@[6] == 'i',
        "selection-background-color"@[7] == 'o',
        "selection-background-color"@[8] == 'n',
        "selection-background-color"@[9] == '-',
        "selection-background-color"@[10] == 'b',
        "selection-background-color"@[11] == 'a',
        "selection-background-color"@[12] == 'c',
        "selection-background-color"@[13] == 'k',
        "selection-background-color"@[14] == 'g',
        "selection-background-color"@[15] == 'r',
        "selection-background-color"@[16] == 'o',
        "selection-background-color"@[17] == 'u',
        "selection-background-color"@[18] == 'n',
        "selection-background-color"@[19] == 'd',
        "selection-background-color"@[20] == '-',
        "selection-background-color"@[21] == 'c',
        "selection-background-color"@[22] == 'o',
        "selection-background-color"@[23] == 'l',
        "selection-background-color"@[24] == 'o',
        "selection-background-color"@[25] == 'r',
{
    reveal_strlit("selection-background-color");
}

proof fn lemma_spelling_99()
    ensures
        "selectionBackgroundColor"@.len() == 24,
        "selectionBackgroundColor"@[0] == 's',
        "selectionBackgroundColor"@[1] == 'e',
        "selectionBackgroundColor"@[2] == 'l',
        "selectionBackgroundColor"@[3] == 'e',
        "selectionBackgroundColor"@[4] == 'c',
        "selectionBackgroundColor"@[5] == 't',
        "selectionBackgroundColor"@[6] == 'i',
        "selectionBackgroundColor"@[7] == 'o',
        "selectionBackgroundColor"@[8] == 'n',
        "selectionBackgroundColor"@[9] == 'B',
        "selectionBackgroundColor"@[10] == 'a',
        "selectionBackgroundColor"@[11] == 'c',
        "selectionBackgroundColor"@[12] == 'k',
        "selectionBackgroundColor"@[13] == 'g',
        "selectionBackgroundColor"@[14] == 'r',
        "selectionBackgroundColor"@[15] == 'o',
        "selectionBackgroundColor"@[16] == 'u',
        "selectionBackgroundColor"@[17] == 'n',
        "selectionBackgroundColor"@[18] == 'd',
        "selectionBackgroundColor"@[19] == 'C',
        "selectionBackgroundColor"@[20] == 'o',
        "selectionBackgroundColor"@[21] == 'l',
        "selectionBackgroundColor"@[22] == 'o',
        "selectionBackgroundColor"@[23] == 'r',
{
    reveal_strlit("selectionBackgroundColor");
}

proof fn lemma_spelling_100()
    ensures
        "font-weight"@.len() == 11,
        "font-weight"@[0] == 'f',
        "font-weight"@[1] == 'o',
        "font-weight"@[2] == 'n',
        "font-weight"@[3] == 't',
        "font-weight"@[4] == '-',
        "font-weight"@[5] == 'w',
        "font-weight"@[6] == 'e',
        "font-weight"@[7] == 'i',
        "font-weight"@[8] == 'g',
        "font-weight"@[9] == 'h',
        "font-weight"@[10] == 't',
{
    reveal_strlit("font-weight");
}

proof fn lemma_spelling_101()
    ensures
        "fontWeight"@.len() == 10,
        "fontWeight"@[0] == 'f',
        "fontWeight"@[1] == 'o',
        "fontWeight"@[2] == 'n',
        "fontWeight"@[3] == 't',
        "fontWeight"@[4] == 'W',
        "fontWeight"@[5] == 'e',
        "fontWeight"@[6] == 'i',
        "fontWeight"@[7] == 'g',
        "fontWeight"@[8] == 'h',
        "fontWeight"@[9] == 't',
{
    reveal_strlit("fontWeight");
}

proof fn lemma_spelling_102()
    ensures
        "font-style"@.len() == 10,
        "font-style"@[0] == 'f',
        "font-style"@[1] == 'o',
        "font-style"@[2] == 'n',
        "font-style"@[3] == 't',
        "font-style"@[4] == '-',
        "font-style"@[5] == 's',
        "font-style"@[6] == 't',
        "font-style"@[7] == 'y',
        "font-style"@[8] == 'l',
        "font-style"@[9] == 'e',
{
    reveal_strlit("font-style");
}

proof fn lemma_spelling_103()
    ensures
        "fontStyle"@.len() == 9,
        "fontStyle"@[0] == 'f',
        "fontStyle"@[1] == 'o',
        "fontStyle"@[2] == 'n',
        "fontStyle"@[3] == 't',
        "fontStyle"@[4] == 'S',
        "fontStyle"@[5] == 't',
        "fontStyle"@[6] == 'y',
        "fontStyle"@[7] == 'l',
        "fontStyle"@[8] == 'e',
{
    reveal_strlit("fontStyle");
}

proof fn lemma_spelling_104()
    ensures
        "text-decoration"@.len() == 15,
        "text-decoration"@[0] == 't',
        "text-decoration"@[1] == 'e',
        "text-decoration"@[2] == 'x',
        "text-decoration"@[3] == 't',
        "text-decoration"@[4] == '-',
        "text-decoration"@[5] == 'd',
        "text-decoration"@[6] == 'e',
        "text-decoration"@[7] == 'c',
        "text-decoration"@[8] == 'o',
        "text-decoration"@[9] == 'r',
        "text-decoration"@[10] == 'a',
        "text-decoration"@[11] == 't',
        "text-decoration"@[12] == 'i',
        "text-decoration"@[13] == 'o',
        "text-decoration"@[14] == 'n',
{
    reveal_strlit("text-decoration");
}

proof fn lemma_spelling_105()
    ensures
        "textDecoration"@.len() == 14,
        "textDecoration"@[0] == 't',
        "textDecoration"@[1] == 'e',
        "textDecoration"@[2] == 'x',
        "textDecoration"@[3] == 't',
        "textDecoration"@[4] == 'D',
        "textDecoration"@[5] == 'e',
        "textDecoration"@[6] == 'c',
        "textDecoration"@[7] == 'o',
        "textDecoration"@[8] == 'r',
        "textDecoration"@[9] == 'a',
        "textDecoration"@[10] == 't',
        "textDecoration"@[11] == 'i',
        "textDecoration"@[12] == 'o',
        "textDecoration"@[13] == 'n',
{
    reveal_strlit("textDecoration");
}

proof fn lemma_spelling_106()
    ensures
        "text-decoration-line"@.len() == 20,
        "text-decoration-line"@[0] == 't',
        "text-decoration-line"@[1] == 'e',
        "text-decoration-line"@[2] == 'x',
        "text-decoration-line"@[3] == 't',
        "text-decoration-line"@[4] == '-',
        "text-decoration-line"@[5] == 'd',
        "text-decoration-line"@[6] == 'e',
        "text-decoration-line"@[7] == 'c',
        "text-decoration-line"@[8] == 'o',
        "text-decoration-line"@[9] == 'r',
        "text-decoration-line"@[10] == 'a',
        "text-decoration-line"@[11] == 't',
        "text-decoration-line"@[12] == 'i',
        "text-decoration-line"@[13] == 'o',
        "text-decoration-line"@[14] == 'n',
        "text-decoration-line"@[15] == '-',
        "text-decoration-line"@[16] == 'l',
        "text-decoration-line"@[17] == 'i',
        "text-decoration-line"@[18] == 'n',
        "text-decoration-line"@[19] == 'e',
{
    reveal_strlit("text-decoration-line");
}

proof fn lemma_spelling_107()
    ensures
        "textDecorationLine"@.len() == 18,
        "textDecorationLine"@[0] == 't',
        "textDecorationLine"@[1] == 'e',
        "textDecorationLine"@[2] == 'x',
        "textDecorationLine"@[3] == 't',
        "textDecorationLine"@[4] == 'D',
        "textDecorationLine"@[5] == 'e',
        "textDecorationLine"@[6] == 'c',
        "textDecorationLine"@[7] == 'o',
        "textDecorationLine"@[8] == 'r',
        "textDecorationLine"@[9] == 'a',
        "textDecorationLine"@[10] == 't',
        "textDecorationLine"@[11] == 'i',
        "textDecorationLine"@[12] == 'o',
        "textDecorationLine"@[13] == 'n',
        "textDecorationLine"@[14] == 'L',
        "textDecorationLine"@[15] == 'i',
        "textDecorationLine"@[16] == 'n',
        "textDecorationLine"@[17] == 'e',
{
    reveal_strlit("textDecorationLine");
}

proof fn lemma_spelling_108()
    ensures
        "cursor"@.len() == 6,
        "cursor"@[0] == 'c',
        "cursor"@[1] == 'u',
        "cursor"@[2] == 'r',
        "cursor"@[3] == 's',
        "cursor"@[4] == 'o',
        "cursor"@[5] == 'r',
{
    reveal_strlit("cursor");
}

proof fn lemma_spelling_109()
    ensures
        "grid-template-columns"@.len() == 21,
        "grid-template-columns"@[0] == 'g',
        "grid-template-columns"@[1] == 'r',
        "grid-template-columns"@[2] == 'i',
        "grid-template-columns"@[3] == 'd',
        "grid-template-columns"@[4] == '-',
        "grid-template-columns"@[5] == 't',
        "grid-template-columns"@[6] == 'e',
        "grid-template-columns"@[7] == 'm',
        "grid-template-columns"@[8] == 'p',
        "grid-template-columns"@[9] == 'l',
        "grid-template-columns"@[10] == 'a',
        "grid-template-columns"@[11] == 't',
        "grid-template-columns"@[12] == 'e',
        "grid-template-columns"@[13] == '-',
        "grid-template-columns"@[14] == 'c',
        "grid-template-columns"@[15] == 'o',
        "grid-template-columns"@[16] == 'l',
        "grid-template-columns"@[17] == 'u',
        "grid-template-columns"@[18] == 'm',
        "grid-template-columns"@[19] == 'n',
        "grid-template-columns"@[20] == 's',
{
    reveal_strlit("grid-template-columns");
}

proof fn lemma_spelling_110()
    ensures
        "gridTemplateColumns"@.len() == 19,
        "gridTemplateColumns"@[0] == 'g',
        "gridTemplateColumns"@[1] == 'r',
        "gridTemplateColumns"@[2] == 'i',
        "gridTemplateColumns"@[3] == 'd',
        "gridTemplateColumns"@[4] == 'T',
        "gridTemplateColumns"@[5] == 'e',
        "gridTemplateColumns"@[6] == 'm',
        "gridTemplateColumns"@[7] == 'p',
        "gridTemplateColumns"@[8] == 'l',
        "gridTemplateColumns"@[9] == 'a',
        "gridTemplateColumns"@[10] == 't',
        "gridTemplateColumns"@[11] == 'e',
        "gridTemplateColumns"@[12] == 'C',
        "gridTemplateColumns"@[13] == 'o',
        "gridTemplateColumns"@[14] == 'l',
        "gridTemplateColumns"@[15] == 'u',
        "gridTemplateColumns"@[16] == 'm',
        "gridTemplateColumns"@[17] == 'n',
        "gridTemplateColumns"@[18] == 's',
{
    reveal_strlit("gridTemplateColumns");
}

proof fn lemma_spelling_111()
    ensures
        "grid-template-rows"@.len() == 18,
        "grid-template-rows"@[0] == 'g',
        "grid-template-rows"@[1] == 'r',
        "grid-template-rows"@[2] == 'i',
        "grid-template-rows"@[3] == 'd',
        "grid-template-rows"@[4] == '-',
        "grid-template-rows"@[5] == 't',
        "grid-template-rows"@[6] == 'e',
        "grid-template-rows"@[7] == 'm',
        "grid-template-rows"@[8] == 'p',
        "grid-template-rows"@[9] == 'l',
        "grid-template-rows"@[10] == 'a',
        "grid-template-rows"@[11] == 't',
        "grid-template-rows"@[12] == 'e',
        "grid-template-rows"@[13] == '-',
        "grid-template-rows"@[14] == 'r',
        "grid-template-rows"@[15] == 'o',
        "grid-template-rows"@[16] == 'w',
        "grid-template-rows"@[17] == 's',
{
    reveal_strlit("grid-template-rows");
}

proof fn lemma_spelling_112()
    ensures
        "gridTemplateRows"@.len() == 16,
        "gridTemplateRows"@[0] == 'g',
        "gridTemplateRows"@[1] == 'r',
        "gridTemplateRows"@[2] == 'i',
        "gridTemplateRows"@[3] == 'd',
        "gridTemplateRows"@[4] == 'T',
        "gridTemplateRows"@[5] == 'e',
        "gridTemplateRows"@[6] == 'm',
        "gridTemplateRows"@[7] == 'p',
        "gridTemplateRows"@[8] == 'l',
        "gridTemplateRows"@[9] == 'a',
        "gridTemplateRows"@[10] == 't',
        "gridTemplateRows"@[11] == 'e',
        "gridTemplateRows"@[12] == 'R',
        "gridTemplateRows"@[13] == 'o',
        "gridTemplateRows"@[14] == 'w',
        "gridTemplateRows"@[15] == 's',
{
    reveal_strlit("gridTemplateRows");
}

proof fn lemma_spelling_113()
    ensures
        "grid-auto-columns"@.len() == 17,
        "grid-auto-columns"@[0] == 'g',
        "grid-auto-columns"@[1] == 'r',
        "grid-auto-columns"@[2] == 'i',
        "grid-auto-columns"@[3] == 'd',
        "grid-auto-columns"@[4] == '-',
        "grid-auto-columns"@[5] == 'a',
        "grid-auto-columns"@[6] == 'u',
        "grid-auto-columns"@[7] == 't',
        "grid-auto-columns"@[8] == 'o',
        "grid-auto-columns"@[9] == '-',
        "grid-auto-columns"@[10] == 'c',
        "grid-auto-columns"@[11] == 'o',
        "grid-auto-columns"@[12] == 'l',
        "grid-auto-columns"@[13] == 'u',
        "grid-auto-columns"@[14] == 'm',
        "grid-auto-columns"@[15] == 'n',
        "grid-auto-columns"@[16] == 's',
{
    reveal_strlit("grid-auto-columns");
}

proof fn lemma_spelling_114()
    ensures
        "gridAutoColumns"@.len() == 15,
        "gridAutoColumns"@[0] == 'g',
        "gridAutoColumns"@[1] == 'r',
        "gridAutoColumns"@[2] == 'i',
        "gridAutoColumns"@[3] == 'd',
        "gridAutoColumns"@[4] == 'A',
        "gridAutoColumns"@[5] == 'u',
        "gridAutoColumns"@[6] == 't',
        "gridAutoColumns"@[7] == 'o',
        "gridAutoColumns"@[8] == 'C',
        "gridAutoColumns"@[9] == 'o',
        "gridAutoColumns"@[10] == 'l',
        "gridAutoColumns"@[11] == 'u',
        "gridAutoColumns"@[12] == 'm',
        "gridAutoColumns"@[13] == 'n',
        "gridAutoColumns"@[14] == 's',
{
    reveal_strlit("gridAutoColumns");
}

proof fn lemma_spelling_115()
    ensures
        "grid-auto-rows"@.len() == 14,
        "grid-auto-rows"@[0] == 'g',
        "grid-auto-rows"@[1] == 'r',
        "grid-auto-rows"@[2] == 'i',
        "grid-auto-rows"@[3] == 'd',
        "grid-auto-rows"@[4] == '-',
        "grid-auto-rows"@[5] == 'a',
        "grid-auto-rows"@[6] == 'u',
        "grid-auto-rows"@[7] == 't',
        "grid-auto-rows"@[8] == 'o',
        "grid-auto-rows"@[9] == '-',
        "grid-auto-rows"@[10] == 'r',
        "grid-auto-rows"@[11] == 'o',
        "grid-auto-rows"@[12] == 'w',
        "grid-auto-rows"@[13] == 's',
{
    reveal_strlit("grid-auto-rows");
}

proof fn lemma_spelling_116()
    ensures
        "gridAutoRows"@.len() == 12,
        "gridAutoRows"@[0] == 'g',
        "gridAutoRows"@[1] == 'r',
        "gridAutoRows"@[2] == 'i',
        "gridAutoRows"@[3] == 'd',
        "gridAutoRows"@[4] == 'A',
        "gridAutoRows"@[5] == 'u',
        "gridAutoRows"@[6] == 't',
        "gridAutoRows"@[7] == 'o',
        "gridAutoRows"@[8] == 'R',
        "gridAutoRows"@[9] == 'o',
        "gridAutoRows"@[10] == 'w',
        "gridAutoRows"@[11] == 's',
{
    reveal_strlit("gridAutoRows");
}

proof fn lemma_spelling_117()
    ensures
        "grid-auto-flow"@.len() == 14,
        "grid-auto-flow"@[0] == 'g',
        "grid-auto-flow"@[1] == 'r',
        "grid-auto-flow"@[2] == 'i',
        "grid-auto-flow"@[3] == 'd',
        "grid-auto-flow"@[4] == '-',
        "grid-auto-flow"@[5] == 'a',
        "grid-auto-flow"@[6] == 'u',
        "grid-auto-flow"@[7] == 't',
        "grid-auto-flow"@[8] == 'o',
        "grid-auto-flow"@[9] == '-',
        "grid-auto-flow"@[10] == 'f',
        "grid-auto-flow"@[11] == 'l',
        "grid-auto-flow"@[12] == 'o',
        "grid-auto-flow"@[13] == 'w',
{
    reveal_strlit("grid-auto-flow");
}

proof fn lemma_spelling_118()
    ensures
        "gridAutoFlow"@.len() == 12,
        "gridAutoFlow"@[0] == 'g',
        "gridAutoFlow"@[1] == 'r',
        "gridAutoFlow"@[2] == 'i',
        "gridAutoFlow"@[3] == 'd',
        "gridAutoFlow"@[4] == 'A',
        "gridAutoFlow"@[5] == 'u',
        "gridAutoFlow"@[6] == 't',
        "gridAutoFlow"@[7] == 'o',
        "gridAutoFlow"@[8] == 'F',
        "gridAutoFlow"@[9] == 'l',
        "gridAutoFlow"@[10] == 'o',
        "gridAutoFlow"@[11] == 'w',
{
    reveal_strlit("gridAutoFlow");
}

proof fn lemma_spelling_119()
    ensures
        "grid-column"@.len() == 11,
        "grid-column"@[0] == 'g',
        "grid-column"@[1] == 'r',
        "grid-column"@[2] == 'i',
        "grid-column"@[3] == 'd',
        "grid-column"@[4] == '-',
        "grid-column"@[5] == 'c',
        "grid-column"@[6] == 'o',
        "grid-column"@[7] == 'l',
        "grid-column"@[8] == 'u',
        "grid-column"@[9] == 'm',
        "grid-column"@[10] == 'n',
{
    reveal_strlit("grid-column");
}

proof fn lemma_spelling_120()
    ensures
        "gridColumn"@.len() == 10,
        "gridColumn"@[0] == 'g',
        "gridColumn"@[1] == 'r',
        "gridColumn"@[2] == 'i',
        "gridColumn"@[3] == 'd',
        "gridColumn"@[4] == 'C',
        "gridColumn"@[5] == 'o',
        "gridColumn"@[6] == 'l',
        "gridColumn"@[7] == 'u',
        "gridColumn"@[8] == 'm',
        "gridColumn"@[9] == 'n',
{
    reveal_strlit("gridColumn");
}

proof fn lemma_spelling_121()
    ensures
        "grid-row"@.len() == 8,
        "grid-row"@[0] == 'g',
        "grid-row"@[1] == 'r',
        "grid-row"@[2] == 'i',
        "grid-row"@[3] == 'd',
        "grid-row"@[4] == '-',
        "grid-row"@[5] == 'r',
        "grid-row"@[6] == 'o',
        "grid-row"@[7] == 'w',
{
    reveal_strlit("grid-row");
}

proof fn lemma_spelling_122()
    ensures
        "gridRow"@.len() == 7,
        "gridRow"@[0] == 'g',
        "gridRow"@[1] == 'r',
        "gridRow"@[2] == 'i',
        "gridRow"@[3] == 'd',
        "gridRow"@[4] == 'R',
        "gridRow"@[5] == 'o',
        "gridRow"@[6] == 'w',
{
    reveal_strlit("gridRow");
}

proof fn lemma_spelling_123()
    ensures
        "grid-column-start"@.len() == 17,
        "grid-column-start"@[0] == 'g',
        "grid-column-start"@[1] == 'r',
        "grid-column-start"@[2] == 'i',
        "grid-column-start"@[3] == 'd',
        "grid-column-start"@[4] == '-',
        "grid-column-start"@[5] == 'c',
        "grid-column-start"@[6] == 'o',
        "grid-column-start"@[7] == 'l',
        "grid-column-start"@[8] == 'u',
        "grid-column-start"@[9] == 'm',
        "grid-column-start"@[10] == 'n',
        "grid-column-start"@[11] == '-',
        "grid-column-start"@[12] == 's',
        "grid-column-start"@[13] == 't',
        "grid-column-start"@[14] == 'a',
        "grid-column-start"@[15] == 'r',
        "grid-column-start"@[16] == 't',
{
    reveal_strlit("grid-column-start");
}

proof fn lemma_spelling_124()
    ensures
        "gridColumnStart"@.len() == 15,
        "gridColumnStart"@[0] == 'g',
        "gridColumnStart"@[1] == 'r',
        "gridColumnStart"@[2] == 'i',
        "gridColumnStart"@[3] == 'd',
        "gridColumnStart"@[4] == 'C',
        "gridColumnStart"@[5] == 'o',
        "gridColumnStart"@[6] == 'l',
        "gridColumnStart"@[7] == 'u',
        "gridColumnStart"@[8] == 'm',
        "gridColumnStart"@[9] == 'n',
        "gridColumnStart"@[10] == 'S',
        "gridColumnStart"@[11] == 't',
        "gridColumnStart"@[12] == 'a',
        "gridColumnStart"@[13] == 'r',
        "gridColumnStart"@[14] == 't',
{
    reveal_strlit("gridColumnStart");
}

proof fn lemma_spelling_125()
    ensures
        "grid-column-end"@.len() == 15,
        "grid-column-end"@[0] == 'g',
        "grid-column-end"@[1] == 'r',
        "grid-column-end"@[2] == 'i',
        "grid-column-end"@[3] == 'd',
        "grid-column-end"@[4] == '-',
        "grid-column-end"@[5] == 'c',
        "grid-column-end"@[6] == 'o',
        "grid-column-end"@[7] == 'l',
        "grid-column-end"@[8] == 'u',
        "grid-column-end"@[9] == 'm',
        "grid-column-end"@[10] == 'n',
        "grid-column-end"@[11] == '-',
        "grid-column-end"@[12] == 'e',
        "grid-column-end"@[13] == 'n',
        "grid-column-end"@[14] == 'd',
{
    reveal_strlit("grid-column-end");
}

proof fn lemma_spelling_126()
    ensures
        "gridColumnEnd"@.len() == 13,
        "gridColumnEnd"@[0] == 'g',
        "gridColumnEnd"@[1] == 'r',
        "gridColumnEnd"@[2] == 'i',
        "gridColumnEnd"@[3] == 'd',
        "gridColumnEnd"@[4] == 'C',
        "gridColumnEnd"@[5] == 'o',
        "gridColumnEnd"@[6] == 'l',
        "gridColumnEnd"@[7] == 'u',
        "gridColumnEnd"@[8] == 'm',
        "gridColumnEnd"@[9] == 'n',
        "gridColumnEnd"@[10] == 'E',
        "gridColumnEnd"@[11] == 'n',
        "gridColumnEnd"@[12] == 'd',
{
    reveal_strlit("gridColumnEnd");
}

proof fn lemma_spelling_127()
    ensures
        "grid-row-start"@.len() == 14,
        "grid-row-start"@[0] == 'g',
        "grid-row-start"@[1] == 'r',
        "grid-row-start"@[2] == 'i',
        "grid-row-start"@[3] == 'd',
        "grid-row-start"@[4] == '-',
        "grid-row-start"@[5] == 'r',
        "grid-row-start"@[6] == 'o',
        "grid-row-start"@[7] == 'w',
        "grid-row-start"@[8] == '-',
        "grid-row-start"@[9] == 's',
        "grid-row-start"@[10] == 't',
        "grid-row-start"@[11] == 'a',
        "grid-row-start"@[12] == 'r',
        "grid-row-start"@[13] == 't',
{
    reveal_strlit("grid-row-start");
}

proof fn lemma_spelling_128()
    ensures
        "gridRowStart"@.len() == 12,
        "gridRowStart"@[0] == 'g',
        "gridRowStart"@[1] == 'r',
        "gridRowStart"@[2] == 'i',
        "gridRowStart"@[3] == 'd',
        "gridRowStart"@[4] == 'R',
        "gridRowStart"@[5] == 'o',
        "gridRowStart"@[6] == 'w',
        "gridRowStart"@[7] == 'S',
        "gridRowStart"@[8] == 't',
        "gridRowStart"@[9] == 'a',
        "gridRowStart"@[10] == 'r',
        "gridRowStart"@[11] == 't',
{
    reveal_strlit("gridRowStart");
}

proof fn lemma_spelling_129()
    ensures
        "grid-row-end"@.len() == 12,
        "grid-row-end"@[0] == 'g',
        "grid-row-end"@[1] == 'r',
        "grid-row-end"@[2] == 'i',
        "grid-row-end"@[3] == 'd',
        "grid-row-end"@[4] == '-',
        "grid-row-end"@[5] == 'r',
        "grid-row-end"@[6] == 'o',
        "grid-row-end"@[7] == 'w',
        "grid-row-end"@[8] == '-',
        "grid-row-end"@[9] == 'e',
        "grid-row-end"@[10] == 'n',
        "grid-row-end"@[11] == 'd',
{
    reveal_strlit("grid-row-end");
}

proof fn lemma_spelling_130()
    ensures
        "gridRowEnd"@.len() == 10,
        "gridRowEnd"@[0] == 'g',
        "gridRowEnd"@[1] == 'r',
        "gridRowEnd"@[2] == 'i',
        "gridRowEnd"@[3] == 'd',
        "gridRowEnd"@[4] == 'R',
        "gridRowEnd"@[5] == 'o',
        "gridRowEnd"@[6] == 'w',
        "gridRowEnd"@[7] == 'E',
        "gridRowEnd"@[8] == 'n',
        "gridRowEnd"@[9] == 'd',
{
    reveal_strlit("gridRowEnd");
}

proof fn lemma_names_of_display()
    ensures
        style_property_named("display"@) == Some(StyleProperty::Display),
{
    lemma_spelling_0();
}

proof fn lemma_names_of_position()
    ensures
        style_property_named("position"@) == Some(StyleProperty::Position),
{
    lemma_spelling_0();
    lemma_spelling_1();
}

proof fn lemma_names_of_top()
    ensures
        style_property_named("top"@) == Some(StyleProperty::Top),
{
    lemma_spelling_0();
    lemma_spelling_1();
    lemma_spelling_2();
}

proof fn lemma_names_of_right()
    ensures
        style_property_named("right"@) == Some(StyleProperty::Right),
{
    lemma_spelling_0();
    lemma_spelling_1();
    lemma_spelling_2();
    lemma_spelling_3();
}

proof fn lemma_names_of_bottom()
    ensures
        style_property_named("bottom"@) == Some(StyleProperty::Bottom),
{
    lemma_spelling_0();
    lemma_spelling_1();
    lemma_spelling_2();
    lemma_spelling_3();
    lemma_spelling_4();
}

proof fn lemma_names_of_left()
    ensures
        style_property_named("left"@) == Some(StyleProperty::Left),
{
    lemma_spelling_0();
    lemma_spelling_1();
    lemma_spelling_2();
    lemma_spelling_3();
    lemma_spelling_4();
    lemma_spelling_5();
}

proof fn lemma_names_of_z_index()
    ensures
        style_property_named("z-index"@) == Some(StyleProperty::ZIndex),
        style_property_named("zIndex"@) == Some(StyleProperty::ZIndex),
{
    lemma_spelling_0();
    lemma_spelling_1();
    lemma_spelling_2();
    lemma_spelling_3();
    lemma_spelling_4();
    lemma_spelling_5();
    lemma_spelling_6();
    lemma_spelling_7();
}

proof fn lemma_names_of_visibility()
    ensures
        style_property_named("visibility"@) == Some(StyleProperty::Visibility),
{
    lemma_spelling_0();
    lemma_spelling_1();
    lemma_spelling_2();
    lemma_spelling_3();
    lemma_spelling_4();
    lemma_spelling_5();
    lemma_spelling_6();
    lemma_spelling_7();
    lemma_spelling_8();
}

proof fn lemma_names_of_opacity()
    ensures
        style_property_named("opacity"@) == Some(StyleProperty::Opacity),
{
    lemma_spelling_0();
    lemma_spelling_1();
    lemma_spelling_2();
    lemma_spelling_3();
    lemma_spelling_4();
    lemma_spelling_5();
    lemma_spelling_6();
    lemma_spelling_7();
    lemma_spelling_8();
    lemma_spelling_9();
}

proof fn lemma_names_of_overflow()
    ensures
        style_property_named("overflow"@) == Some(StyleProperty::Overflow),
{
    lemma_spelling_0();
    lemma_spelling_1();
    lemma_spelling_2();
    lemma_spelling_3();
    lemma_spelling_4();
    lemma_spelling_5();
    lemma_spelling_6();
    lemma_spelling_7();
    lemma_spelling_8();
    lemma_spelling_9();
    lemma_spelling_10();
}

proof fn lemma_names_of_overflow_x()
    ensures
        style_property_named("overflow-x"@) == Some(StyleProperty::OverflowX),
        style_property_named("overflowX"@) == Some(StyleProperty::OverflowX),
{
    lemma_spelling_0();
    lemma_spelling_1();
    lemma_spelling_2();
    lemma_spelling_3();
    lemma_spelling_4();
    lemma_spelling_5();
    lemma_spelling_6();
    lemma_spelling_7();
    lemma_spelling_8();
    lemma_spelling_9();
    lemma_spelling_10();
    lemma_spelling_11();
    lemma_spelling_12();
}

proof fn lemma_names_of_overflow_y()
    ensures
        style_property_named("overflow-y"@) == Some(StyleProperty::OverflowY),
        style_property_named("overflowY"@) == Some(StyleProperty::OverflowY),
{
    lemma_spelling_0();
    lemma_spelling_1();
    lemma_spelling_2();
    lemma_spelling_3();
    lemma_spelling_4();
    lemma_spelling_5();
    lemma_spelling_6();
    lemma_spelling_7();
    lemma_spelling_8();
    lemma_spelling_9();
    lemma_spelling_10();
    lemma_spelling_11();
    lemma_spelling_12();
    lemma_spelling_13();
    lemma_spelling_14();
}

proof fn lemma_names_of_scrollbar_color()
    ensures
        style_property_named("scrollbar-color"@) == Some(StyleProperty::ScrollbarColor),
        style_property_named("scrollbarColor"@) == Some(StyleProperty::ScrollbarColor),
{
    lemma_spelling_0();
    lemma_spelling_1();
    lemma_spelling_2();
    lemma_spelling_3();
    lemma_spelling_4();
    lemma_spelling_5();
    lemma_spelling_6();
    lemma_spelling_7();
    lemma_spelling_8();
    lemma_spelling_9();
    lemma_spelling_10();
    lemma_spelling_11();
    lemma_spelling_12();
    lemma_spelling_13();
    lemma_spelling_14();
    lemma_spelling_15();
    lemma_spelling_16();
}

proof fn lemma_names_of_scrollbar_gutter()
    ensures
        style_property_named("scrollbar-gutter"@) == Some(StyleProperty::ScrollbarGutter),
        style_property_named("scrollbarGutter"@) == Some(StyleProperty::ScrollbarGutter),
{
    lemma_spelling_0();
    lemma_spelling_1();
    lemma_spelling_2();
    lemma_spelling_3();
    lemma_spelling_4();
    lemma_spelling_5();
    lemma_spelling_6();
    lemma_spelling_7();
    lemma_spelling_8();
    lemma_spelling_9();
    lemma_spelling_10();
    lemma_spelling_11();
    lemma_spelling_12();
    lemma_spelling_13();
    lemma_spelling_14();
    lemma_spelling_15();
    lemma_spelling_16();
    lemma_spelling_17();
    lemma_spelling_18();
}

proof fn lemma_names_of_image_rendering()
    ensures
        style_property_named("image-rendering"@) == Some(StyleProperty::ImageRendering),
        style_property_named("imageRendering"@) == Some(StyleProperty::ImageRendering),
{
    lemma_spelling_0();
    lemma_spelling_1();
    lemma_spelling_2();
    lemma_spelling_3();
    lemma_spelling_4();
    lemma_spelling_5();
    lemma_spelling_6();
    lemma_spelling_7();
    lemma_spelling_8();
    lemma_spelling_9();
    lemma_spelling_10();
    lemma_spelling_11();
    lemma_spelling_12();
    lemma_spelling_13();
    lemma_spelling_14();
    lemma_spelling_15();
    lemma_spelling_16();
    lemma_spelling_17();
    lemma_spelling_18();
    lemma_spelling_19();
    lemma_spelling_20();
}

proof fn lemma_names_of_white_space()
    ensures
        style_property_named("white-space"@) == Some(StyleProperty::WhiteSpace),
        style_property_named("whiteSpace"@) == Some(StyleProperty::WhiteSpace),
{
    lemma_spelling_0();
    lemma_spelling_1();
    lemma_spelling_2();
    lemma_spelling_3();
    lemma_spelling_4();
    lemma_spelling_5();
    lemma_spelling_6();
    lemma_spelling_7();
    lemma_spelling_8();
    lemma_spelling_9();
    lemma_spelling_10();
    lemma_spelling_11();
    lemma_spelling_12();
    lemma_spelling_13();
    lemma_spelling_14();
    lemma_spelling_15();
    lemma_spelling_16();
    lemma_spelling_17();
    lemma_spelling_18();
    lemma_spelling_19();
    lemma_spelling_20();
    lemma_spelling_21();
    lemma_spelling_22();
}

proof fn lemma_names_of_flex_direction()
    ensures
        style_property_named("flex-direction"@) == Some(StyleProperty::FlexDirection),
        style_property_named("flexDirection"@) == Some(StyleProperty::FlexDirection),
{
    lemma_spelling_0();
    lemma_spelling_1();
    lemma_spelling_2();
    lemma_spelling_3();
    lemma_spelling_4();
    lemma_spelling_5();
    lemma_spelling_6();
    lemma_spelling_7();
    lemma_spelling_8();
    lemma_spelling_9();
    lemma_spelling_10();
    lemma_spelling_11();
    lemma_spelling_12();
    lemma_spelling_13();
    lemma_spelling_14();
    lemma_spelling_15();
    lemma_spelling_16();
    lemma_spelling_17();
    lemma_spelling_18();
    lemma_spelling_19();
    lemma_spelling_20();
    lemma_spelling_21();
    lemma_spelling_22();
    lemma_spelling_23();
    lemma_spelling_24();
}

proof fn lemma_names_of_flex_wrap()
    ensures
        style_property_named("flex-wrap"@) == Some(StyleProperty::FlexWrap),
        style_property_named("flexWrap"@) == Some(StyleProperty::FlexWrap),
{
    lemma_spelling_0();
    lemma_spelling_1();
    lemma_spelling_2();
    lemma_spelling_3();
    lemma_spelling_4();
    lemma_spelling_5();
    lemma_spelling_6();
    lemma_spelling_7();
    lemma_spelling_8();
    lemma_spelling_9();
    lemma_spelling_10();
    lemma_spelling_11();
    lemma_spelling_12();
    lemma_spelling_13();
    lemma_spelling_14();
    lemma_spelling_15();
    lemma_spelling_16();
    lemma_spelling_17();
    lemma_spelling_18();
    lemma_spelling_19();
    lemma_spelling_20();
    lemma_spelling_21();
    lemma_spelling_22();
    lemma_spelling_23();
    lemma_spelling_24();
    lemma_spelling_25();
    lemma_spelling_26();
}

proof fn lemma_names_of_flex_flow()
    ensures
        style_property_named("flex-flow"@) == Some(StyleProperty::FlexFlow),
        style_property_named("flexFlow"@) == Some(StyleProperty::FlexFlow),
{
    lemma_spelling_0();
    lemma_spelling_1();
    lemma_spelling_2();
    lemma_spelling_3();
    lemma_spelling_4();
    lemma_spelling_5();
    lemma_spelling_6();
    lemma_spelling_7();
    lemma_spelling_8();
    lemma_spelling_9();
    lemma_spelling_10();
    lemma_spelling_11();
    lemma_spelling_12();
    lemma_spelling_13();
    lemma_spelling_14();
    lemma_spelling_15();
    lemma_spelling_16();
    lemma_spelling_17();
    lemma_spelling_18();
    lemma_spelling_19();
    lemma_spelling_20();
    lemma_spelling_21();
    lemma_spelling_22();
    lemma_spelling_23();
    lemma_spelling_24();
    lemma_spelling_25();
    lemma_spelling_26();
    lemma_spelling_27();
    lemma_spelling_28();
}

proof fn lemma_names_of_flex_basis()
    ensures
        style_property_named("flex-basis"@) == Some(StyleProperty::FlexBasis),
        style_property_named("flexBasis"@) == Some(StyleProperty::FlexBasis),
{
    lemma_spelling_0();
    lemma_spelling_1();
    lemma_spelling_2();
    lemma_spelling_3();
    lemma_spelling_4();
    lemma_spelling_5();
    lemma_spelling_6();
    lemma_spelling_7();
    lemma_spelling_8();
    lemma_spelling_9();
    lemma_spelling_10();
    lemma_spelling_11();
    lemma_spelling_12();
    lemma_spelling_13();
    lemma_spelling_14();
    lemma_spelling_15();
    lemma_spelling_16();
    lemma_spelling_17();
    lemma_spelling_18();
    lemma_spelling_19();
    lemma_spelling_20();
    lemma_spelling_21();
    lemma_spelling_22();
    lemma_spelling_23();
    lemma_spelling_24();
    lemma_spelling_25();
    lemma_spelling_26();
    lemma_spelling_27();
    lemma_spelling_28();
    lemma_spelling_29();
    lemma_spelling_30();
}

proof fn lemma_names_of_flex_grow()
    ensures
        style_property_named("flex-grow"@) == Some(StyleProperty::FlexGrow),
        style_property_named("flexGrow"@) == Some(StyleProperty::FlexGrow),
{
    lemma_spelling_0();
    lemma_spelling_1();
    lemma_spelling_2();
    lemma_spelling_3();
    lemma_spelling_4();
    lemma_spelling_5();
    lemma_spelling_6();
    lemma_spelling_7();
    lemma_spelling_8();
    lemma_spelling_9();
    lemma_spelling_10();
    lemma_spelling_11();
    lemma_spelling_12();
    lemma_spelling_13();
    lemma_spelling_14();
    lemma_spelling_15();
    lemma_spelling_16();
    lemma_spelling_17();
    lemma_spelling_18();
    lemma_spelling_19();
    lemma_spelling_20();
    lemma_spelling_21();
    lemma_spelling_22();
    lemma_spelling_23();
    lemma_spelling_24();
    lemma_spelling_25();
    lemma_spelling_26();
    lemma_spelling_27();
    lemma_spelling_28();
    lemma_spelling_29();
    lemma_spelling_30();
    lemma_spelling_31();
    lemma_spelling_32();
}

proof fn lemma_names_of_flex_shrink()
    ensures
        style_property_named("flex-shrink"@) == Some(StyleProperty::FlexShrink),
        style_property_named("flexShrink"@) == Some(StyleProperty::FlexShrink),
{
    lemma_spelling_0();
    lemma_spelling_1();
    lemma_spelling_2();
    lemma_spelling_3();
    lemma_spelling_4();
    lemma_spelling_5();
    lemma_spelling_6();
    lemma_spelling_7();
    lemma_spelling_8();
    lemma_spelling_9();
    lemma_spelling_10();
    lemma_spelling_11();
    lemma_spelling_12();
    lemma_spelling_13();
    lemma_spelling_14();
    lemma_spelling_15();
    lemma_spelling_16();
    lemma_spelling_17();
    lemma_spelling_18();
    lemma_spelling_19();
    lemma_spelling_20();
    lemma_spelling_21();
    lemma_spelling_22();
    lemma_spelling_23();
    lemma_spelling_24();
    lemma_spelling_25();
    lemma_spelling_26();
    lemma_spelling_27();
    lemma_spelling_28();
    lemma_spelling_29();
    lemma_spelling_30();
    lemma_spelling_31();
    lemma_spelling_32();
    lemma_spelling_33();
    lemma_spelling_34();
}

proof fn lemma_names_of_flex()
    ensures
        style_property_named("flex"@) == Some(StyleProperty::Flex),
{
    lemma_spelling_0();
    lemma_spelling_1();
    lemma_spelling_2();
    lemma_spelling_3();
    lemma_spelling_4();
    lemma_spelling_5();
    lemma_spelling_6();
    lemma_spelling_7();
    lemma_spelling_8();
    lemma_spelling_9();
    lemma_spelling_10();
    lemma_spelling_11();
    lemma_spelling_12();
    lemma_spelling_13();
    lemma_spelling_14();
    lemma_spelling_15();
    lemma_spelling_16();
    lemma_spelling_17();
    lemma_spelling_18();
    lemma_spelling_19();
    lemma_spelling_20();
    lemma_spelling_21();
    lemma_spelling_22();
    lemma_spelling_23();
    lemma_spelling_24();
    lemma_spelling_25();
    lemma_spelling_26();
    lemma_spelling_27();
    lemma_spelling_28();
    lemma_spelling_29();
    lemma_spelling_30();
    lemma_spelling_31();
    lemma_spelling_32();
    lemma_spelling_33();
    lemma_spelling_34();
    lemma_spelling_35();
}

proof fn lemma_names_of_justify_content()
    ensures
        style_property_named("justify-content"@) == Some(StyleProperty::JustifyContent),
        style_property_named("justifyContent"@) == Some(StyleProperty::JustifyContent),
{
    lemma_spelling_0();
    lemma_spelling_1();
    lemma_spelling_2();
    lemma_spelling_3();
    lemma_spelling_4();
    lemma_spelling_5();
    lemma_spelling_6();
    lemma_spelling_7();
    lemma_spelling_8();
    lemma_spelling_9();
    lemma_spelling_10();
    lemma_spelling_11();
    lemma_spelling_12();
    lemma_spelling_13();
    lemma_spelling_14();
    lemma_spelling_15();
    lemma_spelling_16();
    lemma_spelling_17();
    lemma_spelling_18();
    lemma_spelling_19();
    lemma_spelling_20();
    lemma_spelling_21();
    lemma_spelling_22();
    lemma_spelling_23();
    lemma_spelling_24();
    lemma_spelling_25();
    lemma_spelling_26();
    lemma_spelling_27();
    lemma_spelling_28();
    lemma_spelling_29();
    lemma_spelling_30();
    lemma_spelling_31();
    lemma_spelling_32();
    lemma_spelling_33();
    lemma_spelling_34();
    lemma_spelling_35();
    lemma_spelling_36();
    lemma_spelling_37();
}

proof fn lemma_names_of_align_items()
    ensures
        style_property_named("align-items"@) == Some(StyleProperty::AlignItems),
        style_property_named("alignItems"@) == Some(StyleProperty::AlignItems),
{
    lemma_spelling_0();
    lemma_spelling_1();
    lemma_spelling_2();
    lemma_spelling_3();
    lemma_spelling_4();
    lemma_spelling_5();
    lemma_spelling_6();
    lemma_spelling_7();
    lemma_spelling_8();
    lemma_spelling_9();
    lemma_spelling_10();
    lemma_spelling_11();
    lemma_spelling_12();
    lemma_spelling_13();
    lemma_spelling_14();
    lemma_spelling_15();
    lemma_spelling_16();
    lemma_spelling_17();
    lemma_spelling_18();
    lemma_spelling_19();
    lemma_spelling_20();
    lemma_spelling_21();
    lemma_spelling_22();
    lemma_spelling_23();
    lemma_spelling_24();
    lemma_spelling_25();
    lemma_spelling_26();
    lemma_spelling_27();
    lemma_spelling_28();
    lemma_spelling_29();
    lemma_spelling_30();
    lemma_spelling_31();
    lemma_spelling_32();
    lemma_spelling_33();
    lemma_spelling_34();
    lemma_spelling_35();
    lemma_spelling_36();
    lemma_spelling_37();
    lemma_spelling_38();
    lemma_spelling_39();
}

proof fn lemma_names_of_align_self()
    ensures
        style_property_named("align-self"@) == Some(StyleProperty::AlignSelf),
        style_property_named("alignSelf"@) == Some(StyleProperty::AlignSelf),
{
    lemma_spelling_0();
    lemma_spelling_1();
    lemma_spelling_2();
    lemma_spelling_3();
    lemma_spelling_4();
    lemma_spelling_5();
    lemma_spelling_6();
    lemma_spelling_7();
    lemma_spelling_8();
    lemma_spelling_9();
    lemma_spelling_10();
    lemma_spelling_11();
    lemma_spelling_12();
    lemma_spelling_13();
    lemma_spelling_14();
    lemma_spelling_15();
    lemma_spelling_16();
    lemma_spelling_17();
    lemma_spelling_18();
    lemma_spelling_19();
    lemma_spelling_20();
    lemma_spelling_21();
    lemma_spelling_22();
    lemma_spelling_23();
    lemma_spelling_24();
    lemma_spelling_25();
    lemma_spelling_26();
    lemma_spelling_27();
    lemma_spelling_28();
    lemma_spelling_29();
    lemma_spelling_30();
    lemma_spelling_31();
    lemma_spelling_32();
    lemma_spelling_33();
    lemma_spelling_34();
    lemma_spelling_35();
    lemma_spelling_36();
    lemma_spelling_37();
    lemma_spelling_38();
    lemma_spelling_39();
    lemma_spelling_40();
    lemma_spelling_41();
}

proof fn lemma_names_of_align_content()
    ensures
        style_property_named("align-content"@) == Some(StyleProperty::AlignContent),
        style_property_named("alignContent"@) == Some(StyleProperty::AlignContent),
{
    lemma_spelling_0();
    lemma_spelling_1();
    lemma_spelling_2();
    lemma_spelling_3();
    lemma_spelling_4();
    lemma_spelling_5();
    lemma_spelling_6();
    lemma_spelling_7();
    lemma_spelling_8();
    lemma_spelling_9();
    lemma_spelling_10();
    lemma_spelling_11();
    lemma_spelling_12();
    lemma_spelling_13();
    lemma_spelling_14();
    lemma_spelling_15();
    lemma_spelling_16();
    lemma_spelling_17();
    lemma_spelling_18();
    lemma_spelling_19();
    lemma_spelling_20();
    lemma_spelling_21();
    lemma_spelling_22();
    lemma_spelling_23();
    lemma_spelling_24();
    lemma_spelling_25();
    lemma_spelling_26();
    lemma_spelling_27();
    lemma_spelling_28();
    lemma_spelling_29();
    lemma_spelling_30();
    lemma_spelling_31();
    lemma_spelling_32();
    lemma_spelling_33();
    lemma_spelling_34();
    lemma_spelling_35();
    lemma_spelling_36();
    lemma_spelling_37();
    lemma_spelling_38();
    lemma_spelling_39();
    lemma_spelling_40();
    lemma_spelling_41();
    lemma_spelling_42();
    lemma_spelling_43();
}

proof fn lemma_names_of_justify_items()
    ensures
        style_property_named("justify-items"@) == Some(StyleProperty::JustifyItems),
        style_property_named("justifyItems"@) == Some(StyleProperty::JustifyItems),
{
    lemma_spelling_0();
    lemma_spelling_1();
    lemma_spelling_2();
    lemma_spelling_3();
    lemma_spelling_4();
    lemma_spelling_5();
    lemma_spelling_6();
    lemma_spelling_7();
    lemma_spelling_8();
    lemma_spelling_9();
    lemma_spelling_10();
    lemma_spelling_11();
    lemma_spelling_12();
    lemma_spelling_13();
    lemma_spelling_14();
    lemma_spelling_15();
    lemma_spelling_16();
    lemma_spelling_17();
    lemma_spelling_18();
    lemma_spelling_19();
    lemma_spelling_20();
    lemma_spelling_21();
    lemma_spelling_22();
    lemma_spelling_23();
    lemma_spelling_24();
    lemma_spelling_25();
    lemma_spelling_26();
    lemma_spelling_27();
    lemma_spelling_28();
    lemma_spelling_29();
    lemma_spelling_30();
    lemma_spelling_31();
    lemma_spelling_32();
    lemma_spelling_33();
    lemma_spelling_34();
    lemma_spelling_35();
    lemma_spelling_36();
    lemma_spelling_37();
    lemma_spelling_38();
    lemma_spelling_39();
    lemma_spelling_40();
    lemma_spelling_41();
    lemma_spelling_42();
    lemma_spelling_43();
    lemma_spelling_44();
    lemma_spelling_45();
}

proof fn lemma_names_of_justify_self()
    ensures
        style_property_named("justify-self"@) == Some(StyleProperty::JustifySelf),
        style_property_named("justifySelf"@) == Some(StyleProperty::JustifySelf),
{
    lemma_spelling_0();
    lemma_spelling_1();
    lemma_spelling_2();
    lemma_spelling_3();
    lemma_spelling_4();
    lemma_spelling_5();
    lemma_spelling_6();
    lemma_spelling_7();
    lemma_spelling_8();
    lemma_spelling_9();
    lemma_spelling_10();
    lemma_spelling_11();
    lemma_spelling_12();
    lemma_spelling_13();
    lemma_spelling_14();
    lemma_spelling_15();
    lemma_spelling_16();
    lemma_spelling_17();
    lemma_spelling_18();
    lemma_spelling_19();
    lemma_spelling_20();
    lemma_spelling_21();
    lemma_spelling_22();
    lemma_spelling_23();
    lemma_spelling_24();
    lemma_spelling_25();
    lemma_spelling_26();
    lemma_spelling_27();
    lemma_spelling_28();
    lemma_spelling_29();
    lemma_spelling_30();
    lemma_spelling_31();
    lemma_spelling_32();
    lemma_spelling_33();
    lemma_spelling_34();
    lemma_spelling_35();
    lemma_spelling_36();
    lemma_spelling_37();
    lemma_spelling_38();
    lemma_spelling_39();
    lemma_spelling_40();
    lemma_spelling_41();
    lemma_spelling_42();
    lemma_spelling_43();
    lemma_spelling_44();
    lemma_spelling_45();
    lemma_spelling_46();
    lemma_spelling_47();
}

proof fn lemma_names_of_gap()
    ensures
        style_property_named("gap"@) == Some(StyleProperty::Gap),
{
    lemma_spelling_0();
    lemma_spelling_1();
    lemma_spelling_2();
    lemma_spelling_3();
    lemma_spelling_4();
    lemma_spelling_5();
    lemma_spelling_6();
    lemma_spelling_7();
    lemma_spelling_8();
    lemma_spelling_9();
    lemma_spelling_10();
    lemma_spelling_11();
    lemma_spelling_12();
    lemma_spelling_13();
    lemma_spelling_14();
    lemma_spelling_15();
    lemma_spelling_16();
    lemma_spelling_17();
    lemma_spelling_18();
    lemma_spelling_19();
    lemma_spelling_20();
    lemma_spelling_21();
    lemma_spelling_22();
    lemma_spelling_23();
    lemma_spelling_24();
    lemma_spelling_25();
    lemma_spelling_26();
    lemma_spelling_27();
    lemma_spelling_28();
    lemma_spelling_29();
    lemma_spelling_30();
    lemma_spelling_31();
    lemma_spelling_32();
    lemma_spelling_33();
    lemma_spelling_34();
    lemma_spelling_35();
    lemma_spelling_36();
    lemma_spelling_37();
    lemma_spelling_38();
    lemma_spelling_39();
    lemma_spelling_40();
    lemma_spelling_41();
    lemma_spelling_42();
    lemma_spelling_43();
    lemma_spelling_44();
    lemma_spelling_45();
    lemma_spelling_46();
    lemma_spelling_47();
    lemma_spelling_48();
}

proof fn lemma_names_of_row_gap()
    ensures
        style_property_named("row-gap"@) == Some(StyleProperty::RowGap),
        style_property_named("rowGap"@) == Some(StyleProperty::RowGap),
{
    lemma_spelling_0();
    lemma_spelling_1();
    lemma_spelling_2();
    lemma_spelling_3();
    lemma_spelling_4();
    lemma_spelling_5();
    lemma_spelling_6();
    lemma_spelling_7();
    lemma_spelling_8();
    lemma_spelling_9();
    lemma_spelling_10();
    lemma_spelling_11();
    lemma_spelling_12();
    lemma_spelling_13();
    lemma_spelling_14();
    lemma_spelling_15();
    lemma_spelling_16();
    lemma_spelling_17();
    lemma_spelling_18();
    lemma_spelling_19();
    lemma_spelling_20();
    lemma_spelling_21();
    lemma_spelling_22();
    lemma_spelling_23();
    lemma_spelling_24();
    lemma_spelling_25();
    lemma_spelling_26();
    lemma_spelling_27();
    lemma_spelling_28();
    lemma_spelling_29();
    lemma_spelling_30();
    lemma_spelling_31();
    lemma_spelling_32();
    lemma_spelling_33();
    lemma_spelling_34();
    lemma_spelling_35();
    lemma_spelling_36();
    lemma_spelling_37();
    lemma_spelling_38();
    lemma_spelling_39();
    lemma_spelling_40();
    lemma_spelling_41();
    lemma_spelling_42();
    lemma_spelling_43();
    lemma_spelling_44();
    lemma_spelling_45();
    lemma_spelling_46();
    lemma_spelling_47();
    lemma_spelling_48();
    lemma_spelling_49();
    lemma_spelling_50();
}

proof fn lemma_names_of_column_gap()
    ensures
        style_property_named("column-gap"@) == Some(StyleProperty::ColumnGap),
        style_property_named("columnGap"@) == Some(StyleProperty::ColumnGap),
{
    lemma_spelling_0();
    lemma_spelling_1();
    lemma_spelling_2();
    lemma_spelling_3();
    lemma_spelling_4();
    lemma_spelling_5();
    lemma_spelling_6();
    lemma_spelling_7();
    lemma_spelling_8();
    lemma_spelling_9();
    lemma_spelling_10();
    lemma_spelling_11();
    lemma_spelling_12();
    lemma_spelling_13();
    lemma_spelling_14();
    lemma_spelling_15();
    lemma_spelling_16();
    lemma_spelling_17();
    lemma_spelling_18();
    lemma_spelling_19();
    lemma_spelling_20();
    lemma_spelling_21();
    lemma_spelling_22();
    lemma_spelling_23();
    lemma_spelling_24();
    lemma_spelling_25();
    lemma_spelling_26();
    lemma_spelling_27();
    lemma_spelling_28();
    lemma_spelling_29();
    lemma_spelling_30();
    lemma_spelling_31();
    lemma_spelling_32();
    lemma_spelling_33();
    lemma_spelling_34();
    lemma_spelling_35();
    lemma_spelling_36();
    lemma_spelling_37();
    lemma_spelling_38();
    lemma_spelling_39();
    lemma_spelling_40();
    lemma_spelling_41();
    lemma_spelling_42();
    lemma_spelling_43();
    lemma_spelling_44();
    lemma_spelling_45();
    lemma_spelling_46();
    lemma_spelling_47();
    lemma_spelling_48();
    lemma_spelling_49();
    lemma_spelling_50();
    lemma_spelling_51();
    lemma_spelling_52();
}

proof fn lemma_names_of_padding()
    ensures
        style_property_named("padding"@) == Some(StyleProperty::Padding),
{
    lemma_spelling_0();
    lemma_spelling_1();
    lemma_spelling_2();
    lemma_spelling_3();
    lemma_spelling_4();
    lemma_spelling_5();
    lemma_spelling_6();
    lemma_spelling_7();
    lemma_spelling_8();
    lemma_spelling_9();
    lemma_spelling_10();
    lemma_spelling_11();
    lemma_spelling_12();
    lemma_spelling_13();
    lemma_spelling_14();
    lemma_spelling_15();
    lemma_spelling_16();
    lemma_spelling_17();
    lemma_spelling_18();
    lemma_spelling_19();
    lemma_spelling_20();
    lemma_spelling_21();
    lemma_spelling_22();
    lemma_spelling_23();
    lemma_spelling_24();
    lemma_spelling_25();
    lemma_spelling_26();
    lemma_spelling_27();
    lemma_spelling_28();
    lemma_spelling_29();
    lemma_spelling_30();
    lemma_spelling_31();
    lemma_spelling_32();
    lemma_spelling_33();
    lemma_spelling_34();
    lemma_spelling_35();
    lemma_spelling_36();
    lemma_spelling_37();
    lemma_spelling_38();
    lemma_spelling_39();
    lemma_spelling_40();
    lemma_spelling_41();
    lemma_spelling_42();
    lemma_spelling_43();
    lemma_spelling_44();
    lemma_spelling_45();
    lemma_spelling_46();
    lemma_spelling_47();
    lemma_spelling_48();
    lemma_spelling_49();
    lemma_spelling_50();
    lemma_spelling_51();
    lemma_spelling_52();
    lemma_spelling_53();
}

proof fn lemma_names_of_padding_top()
    ensures
        style_property_named("padding-top"@) == Some(StyleProperty::PaddingTop),
        style_property_named("paddingTop"@) == Some(StyleProperty::PaddingTop),
{
    lemma_spelling_0();
    lemma_spelling_1();
    lemma_spelling_2();
    lemma_spelling_3();
    lemma_spelling_4();
    lemma_spelling_5();
    lemma_spelling_6();
    lemma_spelling_7();
    lemma_spelling_8();
    lemma_spelling_9();
    lemma_spelling_10();
    lemma_spelling_11();
    lemma_spelling_12();
    lemma_spelling_13();
    lemma_spelling_14();
    lemma_spelling_15();
    lemma_spelling_16();
    lemma_spelling_17();
    lemma_spelling_18();
    lemma_spelling_19();
    lemma_spelling_20();
    lemma_spelling_21();
    lemma_spelling_22();
    lemma_spelling_23();
    lemma_spelling_24();
    lemma_spelling_25();
    lemma_spelling_26();
    lemma_spelling_27();
    lemma_spelling_28();
    lemma_spelling_29();
    lemma_spelling_30();
    lemma_spelling_31();
    lemma_spelling_32();
    lemma_spelling_33();
    lemma_spelling_34();
    lemma_spelling_35();
    lemma_spelling_36();
    lemma_spelling_37();
    lemma_spelling_38();
    lemma_spelling_39();
    lemma_spelling_40();
    lemma_spelling_41();
    lemma_spelling_42();
    lemma_spelling_43();
    lemma_spelling_44();
    lemma_spelling_45();
    lemma_spelling_46();
    lemma_spelling_47();
    lemma_spelling_48();
    lemma_spelling_49();
    lemma_spelling_50();
    lemma_spelling_51();
    lemma_spelling_52();
    lemma_spelling_53();
    lemma_spelling_54();
    lemma_spelling_55();
}

proof fn lemma_names_of_padding_right()
    ensures
        style_property_named("padding-right"@) == Some(StyleProperty::PaddingRight),
        style_property_named("paddingRight"@) == Some(StyleProperty::PaddingRight),
{
    lemma_spelling_0();
    lemma_spelling_1();
    lemma_spelling_2();
    lemma_spelling_3();
    lemma_spelling_4();
    lemma_spelling_5();
    lemma_spelling_6();
    lemma_spelling_7();
    lemma_spelling_8();
    lemma_spelling_9();
    lemma_spelling_10();
    lemma_spelling_11();
    lemma_spelling_12();
    lemma_spelling_13();
    lemma_spelling_14();
    lemma_spelling_15();
    lemma_spelling_16();
    lemma_spelling_17();
    lemma_spelling_18();
    lemma_spelling_19();
    lemma_spelling_20();
    lemma_spelling_21();
    lemma_spelling_22();
    lemma_spelling_23();
    lemma_spelling_24();
    lemma_spelling_25();
    lemma_spelling_26();
    lemma_spelling_27();
    lemma_spelling_28();
    lemma_spelling_29();
    lemma_spelling_30();
    lemma_spelling_31();
    lemma_spelling_32();
    lemma_spelling_33();
    lemma_spelling_34();
    lemma_spelling_35();
    lemma_spelling_36();
    lemma_spelling_37();
    lemma_spelling_38();
    lemma_spelling_39();
    lemma_spelling_40();
    lemma_spelling_41();
    lemma_spelling_42();
    lemma_spelling_43();
    lemma_spelling_44();
    lemma_spelling_45();
    lemma_spelling_46();
    lemma_spelling_47();
    lemma_spelling_48();
    lemma_spelling_49();
    lemma_spelling_50();
    lemma_spelling_51();
    lemma_spelling_52();
    lemma_spelling_53();
    lemma_spelling_54();
    lemma_spelling_55();
    lemma_spelling_56();
    lemma_spelling_57();
}

proof fn lemma_names_of_padding_bottom()
    ensures
        style_property_named("padding-bottom"@) == Some(StyleProperty::PaddingBottom),
        style_property_named("paddingBottom"@) == Some(StyleProperty::PaddingBottom),
{
    lemma_spelling_0();
    lemma_spelling_1();
    lemma_spelling_2();
    lemma_spelling_3();
    lemma_spelling_4();
    lemma_spelling_5();
    lemma_spelling_6();
    lemma_spelling_7();
    lemma_spelling_8();
    lemma_spelling_9();
    lemma_spelling_10();
    lemma_spelling_11();
    lemma_spelling_12();
    lemma_spelling_13();
    lemma_spelling_14();
    lemma_spelling_15();
    lemma_spelling_16();
    lemma_spelling_17();
    lemma_spelling_18();
    lemma_spelling_19();
    lemma_spelling_20();
    lemma_spelling_21();
    lemma_spelling_22();
    lemma_spelling_23();
    lemma_spelling_24();
    lemma_spelling_25();
    lemma_spelling_26();
    lemma_spelling_27();
    lemma_spelling_28();
    lemma_spelling_29();
    lemma_spelling_30();
    lemma_spelling_31();
    lemma_spelling_32();
    lemma_spelling_33();
    lemma_spelling_34();
    lemma_spelling_35();
    lemma_spelling_36();
    lemma_spelling_37();
    lemma_spelling_38();
    lemma_spelling_39();
    lemma_spelling_40();
    lemma_spelling_41();
    lemma_spelling_42();
    lemma_spelling_43();
    lemma_spelling_44();
    lemma_spelling_45();
    lemma_spelling_46();
    lemma_spelling_47();
    lemma_spelling_48();
    lemma_spelling_49();
    lemma_spelling_50();
    lemma_spelling_51();
    lemma_spelling_52();
    lemma_spelling_53();
    lemma_spelling_54();
    lemma_spelling_55();
    lemma_spelling_56();
    lemma_spelling_57();
    lemma_spelling_58();
    lemma_spelling_59();
}

proof fn lemma_names_of_padding_left()
    ensures
        style_property_named("padding-left"@) == Some(StyleProperty::PaddingLeft),
        style_property_named("paddingLeft"@) == Some(StyleProperty::PaddingLeft),
{
    lemma_spelling_0();
    lemma_spelling_1();
    lemma_spelling_2();
    lemma_spelling_3();
    lemma_spelling_4();
    lemma_spelling_5();
    lemma_spelling_6();
    lemma_spelling_7();
    lemma_spelling_8();
    lemma_spelling_9();
    lemma_spelling_10();
    lemma_spelling_11();
    lemma_spelling_12();
    lemma_spelling_13();
    lemma_spelling_14();
    lemma_spelling_15();
    lemma_spelling_16();
    lemma_spelling_17();
    lemma_spelling_18();
    lemma_spelling_19();
    lemma_spelling_20();
    lemma_spelling_21();
    lemma_spelling_22();
    lemma_spelling_23();
    lemma_spelling_24();
    lemma_spelling_25();
    lemma_spelling_26();
    lemma_spelling_27();
    lemma_spelling_28();
    lemma_spelling_29();
    lemma_spelling_30();
    lemma_spelling_31();
    lemma_spelling_32();
    lemma_spelling_33();
    lemma_spelling_34();
    lemma_spelling_35();
    lemma_spelling_36();
    lemma_spelling_37();
    lemma_spelling_38();
    lemma_spelling_39();
    lemma_spelling_40();
    lemma_spelling_41();
    lemma_spelling_42();
    lemma_spelling_43();
    lemma_spelling_44();
    lemma_spelling_45();
    lemma_spelling_46();
    lemma_spelling_47();
    lemma_spelling_48();
    lemma_spelling_49();
    lemma_spelling_50();
    lemma_spelling_51();
    lemma_spelling_52();
    lemma_spelling_53();
    lemma_spelling_54();
    lemma_spelling_55();
    lemma_spelling_56();
    lemma_spelling_57();
    lemma_spelling_58();
    lemma_spelling_59();
    lemma_spelling_60();
    lemma_spelling_61();
}

proof fn lemma_names_of_margin()
    ensures
        style_property_named("margin"@) == Some(StyleProperty::Margin),
{
    lemma_spelling_0();
    lemma_spelling_1();
    lemma_spelling_2();
    lemma_spelling_3();
    lemma_spelling_4();
    lemma_spelling_5();
    lemma_spelling_6();
    lemma_spelling_7();
    lemma_spelling_8();
    lemma_spelling_9();
    lemma_spelling_10();
    lemma_spelling_11();
    lemma_spelling_12();
    lemma_spelling_13();
    lemma_spelling_14();
    lemma_spelling_15();
    lemma_spelling_16();
    lemma_spelling_17();
    lemma_spelling_18();
    lemma_spelling_19();
    lemma_spelling_20();
    lemma_spelling_21();
    lemma_spelling_22();
    lemma_spelling_23();
    lemma_spelling_24();
    lemma_spelling_25();
    lemma_spelling_26();
    lemma_spelling_27();
    lemma_spelling_28();
    lemma_spelling_29();
    lemma_spelling_30();
    lemma_spelling_31();
    lemma_spelling_32();
    lemma_spelling_33();
    lemma_spelling_34();
    lemma_spelling_35();
    lemma_spelling_36();
    lemma_spelling_37();
    lemma_spelling_38();
    lemma_spelling_39();
    lemma_spelling_40();
    lemma_spelling_41();
    lemma_spelling_42();
    lemma_spelling_43();
    lemma_spelling_44();
    lemma_spelling_45();
    lemma_spelling_46();
    lemma_spelling_47();
    lemma_spelling_48();
    lemma_spelling_49();
    lemma_spelling_50();
    lemma_spelling_51();
    lemma_spelling_52();
    lemma_spelling_53();
    lemma_spelling_54();
    lemma_spelling_55();
    lemma_spelling_56();
    lemma_spelling_57();
    lemma_spelling_58();
    lemma_spelling_59();
    lemma_spelling_60();
    lemma_spelling_61();
    lemma_spelling_62();
}

proof fn lemma_names_of_margin_top()
    ensures
        style_property_named("margin-top"@) == Some(StyleProperty::MarginTop),
        style_property_named("marginTop"@) == Some(StyleProperty::MarginTop),
{
    lemma_spelling_0();
    lemma_spelling_1();
    lemma_spelling_2();
    lemma_spelling_3();
    lemma_spelling_4();
    lemma_spelling_5();
    lemma_spelling_6();
    lemma_spelling_7();
    lemma_spelling_8();
    lemma_spelling_9();
    lemma_spelling_10();
    lemma_spelling_11();
    lemma_spelling_12();
    lemma_spelling_13();
    lemma_spelling_14();
    lemma_spelling_15();
    lemma_spelling_16();
    lemma_spelling_17();
    lemma_spelling_18();
    lemma_spelling_19();
    lemma_spelling_20();
    lemma_spelling_21();
    lemma_spelling_22();
    lemma_spelling_23();
    lemma_spelling_24();
    lemma_spelling_25();
    lemma_spelling_26();
    lemma_spelling_27();
    lemma_spelling_28();
    lemma_spelling_29();
    lemma_spelling_30();
    lemma_spelling_31();
    lemma_spelling_32();
    lemma_spelling_33();
    lemma_spelling_34();
    lemma_spelling_35();
    lemma_spelling_36();
    lemma_spelling_37();
    lemma_spelling_38();
    lemma_spelling_39();
    lemma_spelling_40();
    lemma_spelling_41();
    lemma_spelling_42();
    lemma_spelling_43();
    lemma_spelling_44();
    lemma_spelling_45();
    lemma_spelling_46();
    lemma_spelling_47();
    lemma_spelling_48();
    lemma_spelling_49();
    lemma_spelling_50();
    lemma_spelling_51();
    lemma_spelling_52();
    lemma_spelling_53();
    lemma_spelling_54();
    lemma_spelling_55();
    lemma_spelling_56();
    lemma_spelling_57();
    lemma_spelling_58();
    lemma_spelling_59();
    lemma_spelling_60();
    lemma_spelling_61();
    lemma_spelling_62();
    lemma_spelling_63();
    lemma_spelling_64();
}

proof fn lemma_names_of_margin_right()
    ensures
        style_property_named("margin-right"@) == Some(StyleProperty::MarginRight),
        style_property_named("marginRight"@) == Some(StyleProperty::MarginRight),
{
    lemma_spelling_0();
    lemma_spelling_1();
    lemma_spelling_2();
    lemma_spelling_3();
    lemma_spelling_4();
    lemma_spelling_5();
    lemma_spelling_6();
    lemma_spelling_7();
    lemma_spelling_8();
    lemma_spelling_9();
    lemma_spelling_10();
    lemma_spelling_11();
    lemma_spelling_12();
    lemma_spelling_13();
    lemma_spelling_14();
    lemma_spelling_15();
    lemma_spelling_16();
    lemma_spelling_17();
    lemma_spelling_18();
    lemma_spelling_19();
    lemma_spelling_20();
    lemma_spelling_21();
    lemma_spelling_22();
    lemma_spelling_23();
    lemma_spelling_24();
    lemma_spelling_25();
    lemma_spelling_26();
    lemma_spelling_27();
    lemma_spelling_28();
    lemma_spelling_29();
    lemma_spelling_30();
    lemma_spelling_31();
    lemma_spelling_32();
    lemma_spelling_33();
    lemma_spelling_34();
    lemma_spelling_35();
    lemma_spelling_36();
    lemma_spelling_37();
    lemma_spelling_38();
    lemma_spelling_39();
    lemma_spelling_40();
    lemma_spelling_41();
    lemma_spelling_42();
    lemma_spelling_43();
    lemma_spelling_44();
    lemma_spelling_45();
    lemma_spelling_46();
    lemma_spelling_47();
    lemma_spelling_48();
    lemma_spelling_49();
    lemma_spelling_50();
    lemma_spelling_51();
    lemma_spelling_52();
    lemma_spelling_53();
    lemma_spelling_54();
    lemma_spelling_55();
    lemma_spelling_56();
    lemma_spelling_57();
    lemma_spelling_58();
    lemma_spelling_59();
    lemma_spelling_60();
    lemma_spelling_61();
    lemma_spelling_62();
    lemma_spelling_63();
    lemma_spelling_64();
    lemma_spelling_65();
    lemma_spelling_66();
}

proof fn lemma_names_of_margin_bottom()
    ensures
        style_property_named("margin-bottom"@) == Some(StyleProperty::MarginBottom),
        style_property_named("marginBottom"@) == Some(StyleProperty::MarginBottom),
{
    lemma_spelling_0();
    lemma_spelling_1();
    lemma_spelling_2();
    lemma_spelling_3();
    lemma_spelling_4();
    lemma_spelling_5();
    lemma_spelling_6();
    lemma_spelling_7();
    lemma_spelling_8();
    lemma_spelling_9();
    lemma_spelling_10();
    lemma_spelling_11();
    lemma_spelling_12();
    lemma_spelling_13();
    lemma_spelling_14();
    lemma_spelling_15();
    lemma_spelling_16();
    lemma_spelling_17();
    lemma_spelling_18();
    lemma_spelling_19();
    lemma_spelling_20();
    lemma_spelling_21();
    lemma_spelling_22();
    lemma_spelling_23();
    lemma_spelling_24();
    lemma_spelling_25();
    lemma_spelling_26();
    lemma_spelling_27();
    lemma_spelling_28();
    lemma_spelling_29();
    lemma_spelling_30();
    lemma_spelling_31();
    lemma_spelling_32();
    lemma_spelling_33();
    lemma_spelling_34();
    lemma_spelling_35();
    lemma_spelling_36();
    lemma_spelling_37();
    lemma_spelling_38();
    lemma_spelling_39();
    lemma_spelling_40();
    lemma_spelling_41();
    lemma_spelling_42();
    lemma_spelling_43();
    lemma_spelling_44();
    lemma_spelling_45();
    lemma_spelling_46();
    lemma_spelling_47();
    lemma_spelling_48();
    lemma_spelling_49();
    lemma_spelling_50();
    lemma_spelling_51();
    lemma_spelling_52();
    lemma_spelling_53();
    lemma_spelling_54();
    lemma_spelling_55();
    lemma_spelling_56();
    lemma_spelling_57();
    lemma_spelling_58();
    lemma_spelling_59();
    lemma_spelling_60();
    lemma_spelling_61();
    lemma_spelling_62();
    lemma_spelling_63();
    lemma_spelling_64();
    lemma_spelling_65();
    lemma_spelling_66();
    lemma_spelling_67();
    lemma_spelling_68();
}

proof fn lemma_names_of_margin_left()
    ensures
        style_property_named("margin-left"@) == Some(StyleProperty::MarginLeft),
        style_property_named("marginLeft"@) == Some(StyleProperty::MarginLeft),
{
    lemma_spelling_0();
    lemma_spelling_1();
    lemma_spelling_2();
    lemma_spelling_3();
    lemma_spelling_4();
    lemma_spelling_5();
    lemma_spelling_6();
    lemma_spelling_7();
    lemma_spelling_8();
    lemma_spelling_9();
    lemma_spelling_10();
    lemma_spelling_11();
    lemma_spelling_12();
    lemma_spelling_13();
    lemma_spelling_14();
    lemma_spelling_15();
    lemma_spelling_16();
    lemma_spelling_17();
    lemma_spelling_18();
    lemma_spelling_19();
    lemma_spelling_20();
    lemma_spelling_21();
    lemma_spelling_22();
    lemma_spelling_23();
    lemma_spelling_24();
    lemma_spelling_25();
    lemma_spelling_26();
    lemma_spelling_27();
    lemma_spelling_28();
    lemma_spelling_29();
    lemma_spelling_30();
    lemma_spelling_31();
    lemma_spelling_32();
    lemma_spelling_33();
    lemma_spelling_34();
    lemma_spelling_35();
    lemma_spelling_36();
    lemma_spelling_37();
    lemma_spelling_38();
    lemma_spelling_39();
    lemma_spelling_40();
    lemma_spelling_41();
    lemma_spelling_42();
    lemma_spelling_43();
    lemma_spelling_44();
    lemma_spelling_45();
    lemma_spelling_46();
    lemma_spelling_47();
    lemma_spelling_48();
    lemma_spelling_49();
    lemma_spelling_50();
    lemma_spelling_51();
    lemma_spelling_52();
    lemma_spelling_53();
    lemma_spelling_54();
    lemma_spelling_55();
    lemma_spelling_56();
    lemma_spelling_57();
    lemma_spelling_58();
    lemma_spelling_59();
    lemma_spelling_60();
    lemma_spelling_61();
    lemma_spelling_62();
    lemma_spelling_63();
    lemma_spelling_64();
    lemma_spelling_65();
    lemma_spelling_66();
    lemma_spelling_67();
    lemma_spelling_68();
    lemma_spelling_69();
    lemma_spelling_70();
}

proof fn lemma_names_of_width()
    ensures
        style_property_named("width"@) == Some(StyleProperty::Width),
{
    lemma_spelling_0();
    lemma_spelling_1();
    lemma_spelling_2();
    lemma_spelling_3();
    lemma_spelling_4();
    lemma_spelling_5();
    lemma_spelling_6();
    lemma_spelling_7();
    lemma_spelling_8();
    lemma_spelling_9();
    lemma_spelling_10();
    lemma_spelling_11();
    lemma_spelling_12();
    lemma_spelling_13();
    lemma_spelling_14();
    lemma_spelling_15();
    lemma_spelling_16();
    lemma_spelling_17();
    lemma_spelling_18();
    lemma_spelling_19();
    lemma_spelling_20();
    lemma_spelling_21();
    lemma_spelling_22();
    lemma_spelling_23();
    lemma_spelling_24();
    lemma_spelling_25();
    lemma_spelling_26();
    lemma_spelling_27();
    lemma_spelling_28();
    lemma_spelling_29();
    lemma_spelling_30();
    lemma_spelling_31();
    lemma_spelling_32();
    lemma_spelling_33();
    lemma_spelling_34();
    lemma_spelling_35();
    lemma_spelling_36();
    lemma_spelling_37();
    lemma_spelling_38();
    lemma_spelling_39();
    lemma_spelling_40();
    lemma_spelling_41();
    lemma_spelling_42();
    lemma_spelling_43();
    lemma_spelling_44();
    lemma_spelling_45();
    lemma_spelling_46();
    lemma_spelling_47();
    lemma_spelling_48();
    lemma_spelling_49();
    lemma_spelling_50();
    lemma_spelling_51();
    lemma_spelling_52();
    lemma_spelling_53();
    lemma_spelling_54();
    lemma_spelling_55();
    lemma_spelling_56();
    lemma_spelling_57();
    lemma_spelling_58();
    lemma_spelling_59();
    lemma_spelling_60();
    lemma_spelling_61();
    lemma_spelling_62();
    lemma_spelling_63();
    lemma_spelling_64();
    lemma_spelling_65();
    lemma_spelling_66();
    lemma_spelling_67();
    lemma_spelling_68();
    lemma_spelling_69();
    lemma_spelling_70();
    lemma_spelling_71();
}

proof fn lemma_names_of_height()
    ensures
        style_property_named("height"@) == Some(StyleProperty::Height),
{
    lemma_spelling_0();
    lemma_spelling_1();
    lemma_spelling_2();
    lemma_spelling_3();
    lemma_spelling_4();
    lemma_spelling_5();
    lemma_spelling_6();
    lemma_spelling_7();
    lemma_spelling_8();
    lemma_spelling_9();
    lemma_spelling_10();
    lemma_spelling_11();
    lemma_spelling_12();
    lemma_spelling_13();
    lemma_spelling_14();
    lemma_spelling_15();
    lemma_spelling_16();
    lemma_spelling_17();
    lemma_spelling_18();
    lemma_spelling_19();
    lemma_spelling_20();
    lemma_spelling_21();
    lemma_spelling_22();
    lemma_spelling_23();
    lemma_spelling_24();
    lemma_spelling_25();
    lemma_spelling_26();
    lemma_spelling_27();
    lemma_spelling_28();
    lemma_spelling_29();
    lemma_spelling_30();
    lemma_spelling_31();
    lemma_spelling_32();
    lemma_spelling_33();
    lemma_spelling_34();
    lemma_spelling_35();
    lemma_spelling_36();
    lemma_spelling_37();
    lemma_spelling_38();
    lemma_spelling_39();
    lemma_spelling_40();
    lemma_spelling_41();
    lemma_spelling_42();
    lemma_spelling_43();
    lemma_spelling_44();
    lemma_spelling_45();
    lemma_spelling_46();
    lemma_spelling_47();
    lemma_spelling_48();
    lemma_spelling_49();
    lemma_spelling_50();
    lemma_spelling_51();
    lemma_spelling_52();
    lemma_spelling_53();
    lemma_spelling_54();
    lemma_spelling_55();
    lemma_spelling_56();
    lemma_spelling_57();
    lemma_spelling_58();
    lemma_spelling_59();
    lemma_spelling_60();
    lemma_spelling_61();
    lemma_spelling_62();
    lemma_spelling_63();
    lemma_spelling_64();
    lemma_spelling_65();
    lemma_spelling_66();
    lemma_spelling_67();
    lemma_spelling_68();
    lemma_spelling_69();
    lemma_spelling_70();
    lemma_spelling_71();
    lemma_spelling_72();
}

proof fn lemma_names_of_min_width()
    ensures
        style_property_named("min-width"@) == Some(StyleProperty::MinWidth),
        style_property_named("minWidth"@) == Some(StyleProperty::MinWidth),
{
    lemma_spelling_0();
    lemma_spelling_1();
    lemma_spelling_2();
    lemma_spelling_3();
    lemma_spelling_4();
    lemma_spelling_5();
    lemma_spelling_6();
    lemma_spelling_7();
    lemma_spelling_8();
    lemma_spelling_9();
    lemma_spelling_10();
    lemma_spelling_11();
    lemma_spelling_12();
    lemma_spelling_13();
    lemma_spelling_14();
    lemma_spelling_15();
    lemma_spelling_16();
    lemma_spelling_17();
    lemma_spelling_18();
    lemma_spelling_19();
    lemma_spelling_20();
    lemma_spelling_21();
    lemma_spelling_22();
    lemma_spelling_23();
    lemma_spelling_24();
    lemma_spelling_25();
    lemma_spelling_26();
    lemma_spelling_27();
    lemma_spelling_28();
    lemma_spelling_29();
    lemma_spelling_30();
    lemma_spelling_31();
    lemma_spelling_32();
    lemma_spelling_33();
    lemma_spelling_34();
    lemma_spelling_35();
    lemma_spelling_36();
    lemma_spelling_37();
    lemma_spelling_38();
    lemma_spelling_39();
    lemma_spelling_40();
    lemma_spelling_41();
    lemma_spelling_42();
    lemma_spelling_43();
    lemma_spelling_44();
    lemma_spelling_45();
    lemma_spelling_46();
    lemma_spelling_47();
    lemma_spelling_48();
    lemma_spelling_49();
    lemma_spelling_50();
    lemma_spelling_51();
    lemma_spelling_52();
    lemma_spelling_53();
    lemma_spelling_54();
    lemma_spelling_55();
    lemma_spelling_56();
    lemma_spelling_57();
    lemma_spelling_58();
    lemma_spelling_59();
    lemma_spelling_60();
    lemma_spelling_61();
    lemma_spelling_62();
    lemma_spelling_63();
    lemma_spelling_64();
    lemma_spelling_65();
    lemma_spelling_66();
    lemma_spelling_67();
    lemma_spelling_68();
    lemma_spelling_69();
    lemma_spelling_70();
    lemma_spelling_71();
    lemma_spelling_72();
    lemma_spelling_73();
    lemma_spelling_74();
}

proof fn lemma_names_of_max_width()
    ensures
        style_property_named("max-width"@) == Some(StyleProperty::MaxWidth),
        style_property_named("maxWidth"@) == Some(StyleProperty::MaxWidth),
{
    lemma_spelling_0();
    lemma_spelling_1();
    lemma_spelling_2();
    lemma_spelling_3();
    lemma_spelling_4();
    lemma_spelling_5();
    lemma_spelling_6();
    lemma_spelling_7();
    lemma_spelling_8();
    lemma_spelling_9();
    lemma_spelling_10();
    lemma_spelling_11();
    lemma_spelling_12();
    lemma_spelling_13();
    lemma_spelling_14();
    lemma_spelling_15();
    lemma_spelling_16();
    lemma_spelling_17();
    lemma_spelling_18();
    lemma_spelling_19();
    lemma_spelling_20();
    lemma_spelling_21();
    lemma_spelling_22();
    lemma_spelling_23();
    lemma_spelling_24();
    lemma_spelling_25();
    lemma_spelling_26();
    lemma_spelling_27();
    lemma_spelling_28();
    lemma_spelling_29();
    lemma_spelling_30();
    lemma_spelling_31();
    lemma_spelling_32();
    lemma_spelling_33();
    lemma_spelling_34();
    lemma_spelling_35();
    lemma_spelling_36();
    lemma_spelling_37();
    lemma_spelling_38();
    lemma_spelling_39();
    lemma_spelling_40();
    lemma_spelling_41();
    lemma_spelling_42();
    lemma_spelling_43();
    lemma_spelling_44();
    lemma_spelling_45();
    lemma_spelling_46();
    lemma_spelling_47();
    lemma_spelling_48();
    lemma_spelling_49();
    lemma_spelling_50();
    lemma_spelling_51();
    lemma_spelling_52();
    lemma_spelling_53();
    lemma_spelling_54();
    lemma_spelling_55();
    lemma_spelling_56();
    lemma_spelling_57();
    lemma_spelling_58();
    lemma_spelling_59();
    lemma_spelling_60();
    lemma_spelling_61();
    lemma_spelling_62();
    lemma_spelling_63();
    lemma_spelling_64();
    lemma_spelling_65();
    lemma_spelling_66();
    lemma_spelling_67();
    lemma_spelling_68();
    lemma_spelling_69();
    lemma_spelling_70();
    lemma_spelling_71();
    lemma_spelling_72();
    lemma_spelling_73();
    lemma_spelling_74();
    lemma_spelling_75();
    lemma_spelling_76();
}

proof fn lemma_names_of_min_height()
    ensures
        style_property_named("min-height"@) == Some(StyleProperty::MinHeight),
        style_property_named("minHeight"@) == Some(StyleProperty::MinHeight),
{
    lemma_spelling_0();
    lemma_spelling_1();
    lemma_spelling_2();
    lemma_spelling_3();
    lemma_spelling_4();
    lemma_spelling_5();
    lemma_spelling_6();
    lemma_spelling_7();
    lemma_spelling_8();
    lemma_spelling_9();
    lemma_spelling_10();
    lemma_spelling_11();
    lemma_spelling_12();
    lemma_spelling_13();
    lemma_spelling_14();
    lemma_spelling_15();
    lemma_spelling_16();
    lemma_spelling_17();
    lemma_spelling_18();
    lemma_spelling_19();
    lemma_spelling_20();
    lemma_spelling_21();
    lemma_spelling_22();
    lemma_spelling_23();
    lemma_spelling_24();
    lemma_spelling_25();
    lemma_spelling_26();
    lemma_spelling_27();
    lemma_spelling_28();
    lemma_spelling_29();
    lemma_spelling_30();
    lemma_spelling_31();
    lemma_spelling_32();
    lemma_spelling_33();
    lemma_spelling_34();
    lemma_spelling_35();
    lemma_spelling_36();
    lemma_spelling_37();
    lemma_spelling_38();
    lemma_spelling_39();
    lemma_spelling_40();
    lemma_spelling_41();
    lemma_spelling_42();
    lemma_spelling_43();
    lemma_spelling_44();
    lemma_spelling_45();
    lemma_spelling_46();
    lemma_spelling_47();
    lemma_spelling_48();
    lemma_spelling_49();
    lemma_spelling_50();
    lemma_spelling_51();
    lemma_spelling_52();
    lemma_spelling_53();
    lemma_spelling_54();
    lemma_spelling_55();
    lemma_spelling_56();
    lemma_spelling_57();
    lemma_spelling_58();
    lemma_spelling_59();
    lemma_spelling_60();
    lemma_spelling_61();
    lemma_spelling_62();
    lemma_spelling_63();
    lemma_spelling_64();
    lemma_spelling_65();
    lemma_spelling_66();
    lemma_spelling_67();
    lemma_spelling_68();
    lemma_spelling_69();
    lemma_spelling_70();
    lemma_spelling_71();
    lemma_spelling_72();
    lemma_spelling_73();
    lemma_spelling_74();
    lemma_spelling_75();
    lemma_spelling_76();
    lemma_spelling_77();
    lemma_spelling_78();
}

proof fn lemma_names_of_max_height()
    ensures
        style_property_named("max-height"@) == Some(StyleProperty::MaxHeight),
        style_property_named("maxHeight"@) == Some(StyleProperty::MaxHeight),
{
    lemma_spelling_0();
    lemma_spelling_1();
    lemma_spelling_2();
    lemma_spelling_3();
    lemma_spelling_4();
    lemma_spelling_5();
    lemma_spelling_6();
    lemma_spelling_7();
    lemma_spelling_8();
    lemma_spelling_9();
    lemma_spelling_10();
    lemma_spelling_11();
    lemma_spelling_12();
    lemma_spelling_13();
    lemma_spelling_14();
    lemma_spelling_15();
    lemma_spelling_16();
    lemma_spelling_17();
    lemma_spelling_18();
    lemma_spelling_19();
    lemma_spelling_20();
    lemma_spelling_21();
    lemma_spelling_22();
    lemma_spelling_23();
    lemma_spelling_24();
    lemma_spelling_25();
    lemma_spelling_26();
    lemma_spelling_27();
    lemma_spelling_28();
    lemma_spelling_29();
    lemma_spelling_30();
    lemma_spelling_31();
    lemma_spelling_32();
    lemma_spelling_33();
    lemma_spelling_34();
    lemma_spelling_35();
    lemma_spelling_36();
    lemma_spelling_37();
    lemma_spelling_38();
    lemma_spelling_39();
    lemma_spelling_40();
    lemma_spelling_41();
    lemma_spelling_42();
    lemma_spelling_43();
    lemma_spelling_44();
    lemma_spelling_45();
    lemma_spelling_46();
    lemma_spelling_47();
    lemma_spelling_48();
    lemma_spelling_49();
    lemma_spelling_50();
    lemma_spelling_51();
    lemma_spelling_52();
    lemma_spelling_53();
    lemma_spelling_54();
    lemma_spelling_55();
    lemma_spelling_56();
    lemma_spelling_57();
    lemma_spelling_58();
    lemma_spelling_59();
    lemma_spelling_60();
    lemma_spelling_61();
    lemma_spelling_62();
    lemma_spelling_63();
    lemma_spelling_64();
    lemma_spelling_65();
    lemma_spelling_66();
    lemma_spelling_67();
    lemma_spelling_68();
    lemma_spelling_69();
    lemma_spelling_70();
    lemma_spelling_71();
    lemma_spelling_72();
    lemma_spelling_73();
    lemma_spelling_74();
    lemma_spelling_75();
    lemma_spelling_76();
    lemma_spelling_77();
    lemma_spelling_78();
    lemma_spelling_79();
    lemma_spelling_80();
}

proof fn lemma_names_of_border()
    ensures
        style_property_named("border"@) == Some(StyleProperty::Border),
{
    lemma_spelling_0();
    lemma_spelling_1();
    lemma_spelling_2();
    lemma_spelling_3();
    lemma_spelling_4();
    lemma_spelling_5();
    lemma_spelling_6();
    lemma_spelling_7();
    lemma_spelling_8();
    lemma_spelling_9();
    lemma_spelling_10();
    lemma_spelling_11();
    lemma_spelling_12();
    lemma_spelling_13();
    lemma_spelling_14();
    lemma_spelling_15();
    lemma_spelling_16();
    lemma_spelling_17();
    lemma_spelling_18();
    lemma_spelling_19();
    lemma_spelling_20();
    lemma_spelling_21();
    lemma_spelling_22();
    lemma_spelling_23();
    lemma_spelling_24();
    lemma_spelling_25();
    lemma_spelling_26();
    lemma_spelling_27();
    lemma_spelling_28();
    lemma_spelling_29();
    lemma_spelling_30();
    lemma_spelling_31();
    lemma_spelling_32();
    lemma_spelling_33();
    lemma_spelling_34();
    lemma_spelling_35();
    lemma_spelling_36();
    lemma_spelling_37();
    lemma_spelling_38();
    lemma_spelling_39();
    lemma_spelling_40();
    lemma_spelling_41();
    lemma_spelling_42();
    lemma_spelling_43();
    lemma_spelling_44();
    lemma_spelling_45();
    lemma_spelling_46();
    lemma_spelling_47();
    lemma_spelling_48();
    lemma_spelling_49();
    lemma_spelling_50();
    lemma_spelling_51();
    lemma_spelling_52();
    lemma_spelling_53();
    lemma_spelling_54();
    lemma_spelling_55();
    lemma_spelling_56();
    lemma_spelling_57();
    lemma_spelling_58();
    lemma_spelling_59();
    lemma_spelling_60();
    lemma_spelling_61();
    lemma_spelling_62();
    lemma_spelling_63();
    lemma_spelling_64();
    lemma_spelling_65();
    lemma_spelling_66();
    lemma_spelling_67();
    lemma_spelling_68();
    lemma_spelling_69();
    lemma_spelling_70();
    lemma_spelling_71();
    lemma_spelling_72();
    lemma_spelling_73();
    lemma_spelling_74();
    lemma_spelling_75();
    lemma_spelling_76();
    lemma_spelling_77();
    lemma_spelling_78();
    lemma_spelling_79();
    lemma_spelling_80();
    lemma_spelling_81();
}

proof fn lemma_names_of_border_top()
    ensures
        style_property_named("border-top"@) == Some(StyleProperty::BorderTop),
        style_property_named("borderTop"@) == Some(StyleProperty::BorderTop),
{
    lemma_spelling_0();
    lemma_spelling_1();
    lemma_spelling_2();
    lemma_spelling_3();
    lemma_spelling_4();
    lemma_spelling_5();
    lemma_spelling_6();
    lemma_spelling_7();
    lemma_spelling_8();
    lemma_spelling_9();
    lemma_spelling_10();
    lemma_spelling_11();
    lemma_spelling_12();
    lemma_spelling_13();
    lemma_spelling_14();
    lemma_spelling_15();
    lemma_spelling_16();
    lemma_spelling_17();
    lemma_spelling_18();
    lemma_spelling_19();
    lemma_spelling_20();
    lemma_spelling_21();
    lemma_spelling_22();
    lemma_spelling_23();
    lemma_spelling_24();
    lemma_spelling_25();
    lemma_spelling_26();
    lemma_spelling_27();
    lemma_spelling_28();
    lemma_spelling_29();
    lemma_spelling_30();
    lemma_spelling_31();
    lemma_spelling_32();
    lemma_spelling_33();
    lemma_spelling_34();
    lemma_spelling_35();
    lemma_spelling_36();
    lemma_spelling_37();
    lemma_spelling_38();
    lemma_spelling_39();
    lemma_spelling_40();
    lemma_spelling_41();
    lemma_spelling_42();
    lemma_spelling_43();
    lemma_spelling_44();
    lemma_spelling_45();
    lemma_spelling_46();
    lemma_spelling_47();
    lemma_spelling_48();
    lemma_spelling_49();
    lemma_spelling_50();
    lemma_spelling_51();
    lemma_spelling_52();
    lemma_spelling_53();
    lemma_spelling_54();
    lemma_spelling_55();
    lemma_spelling_56();
    lemma_spelling_57();
    lemma_spelling_58();
    lemma_spelling_59();
    lemma_spelling_60();
    lemma_spelling_61();
    lemma_spelling_62();
    lemma_spelling_63();
    lemma_spelling_64();
    lemma_spelling_65();
    lemma_spelling_66();
    lemma_spelling_67();
    lemma_spelling_68();
    lemma_spelling_69();
    lemma_spelling_70();
    lemma_spelling_71();
    lemma_spelling_72();
    lemma_spelling_73();
    lemma_spelling_74();
    lemma_spelling_75();
    lemma_spelling_76();
    lemma_spelling_77();
    lemma_spelling_78();
    lemma_spelling_79();
    lemma_spelling_80();
    lemma_spelling_81();
    lemma_spelling_82();
    lemma_spelling_83();
}

proof fn lemma_names_of_border_right()
    ensures
        style_property_named("border-right"@) == Some(StyleProperty::BorderRight),
        style_property_named("borderRight"@) == Some(StyleProperty::BorderRight),
{
    lemma_spelling_0();
    lemma_spelling_1();
    lemma_spelling_2();
    lemma_spelling_3();
    lemma_spelling_4();
    lemma_spelling_5();
    lemma_spelling_6();
    lemma_spelling_7();
    lemma_spelling_8();
    lemma_spelling_9();
    lemma_spelling_10();
    lemma_spelling_11();
    lemma_spelling_12();
    lemma_spelling_13();
    lemma_spelling_14();
    lemma_spelling_15();
    lemma_spelling_16();
    lemma_spelling_17();
    lemma_spelling_18();
    lemma_spelling_19();
    lemma_spelling_20();
    lemma_spelling_21();
    lemma_spelling_22();
    lemma_spelling_23();
    lemma_spelling_24();
    lemma_spelling_25();
    lemma_spelling_26();
    lemma_spelling_27();
    lemma_spelling_28();
    lemma_spelling_29();
    lemma_spelling_30();
    lemma_spelling_31();
    lemma_spelling_32();
    lemma_spelling_33();
    lemma_spelling_34();
    lemma_spelling_35();
    lemma_spelling_36();
    lemma_spelling_37();
    lemma_spelling_38();
    lemma_spelling_39();
    lemma_spelling_40();
    lemma_spelling_41();
    lemma_spelling_42();
    lemma_spelling_43();
    lemma_spelling_44();
    lemma_spelling_45();
    lemma_spelling_46();
    lemma_spelling_47();
    lemma_spelling_48();
    lemma_spelling_49();
    lemma_spelling_50();
    lemma_spelling_51();
    lemma_spelling_52();
    lemma_spelling_53();
    lemma_spelling_54();
    lemma_spelling_55();
    lemma_spelling_56();
    lemma_spelling_57();
    lemma_spelling_58();
    lemma_spelling_59();
    lemma_spelling_60();
    lemma_spelling_61();
    lemma_spelling_62();
    lemma_spelling_63();
    lemma_spelling_64();
    lemma_spelling_65();
    lemma_spelling_66();
    lemma_spelling_67();
    lemma_spelling_68();
    lemma_spelling_69();
    lemma_spelling_70();
    lemma_spelling_71();
    lemma_spelling_72();
    lemma_spelling_73();
    lemma_spelling_74();
    lemma_spelling_75();
    lemma_spelling_76();
    lemma_spelling_77();
    lemma_spelling_78();
    lemma_spelling_79();
    lemma_spelling_80();
    lemma_spelling_81();
    lemma_spelling_82();
    lemma_spelling_83();
    lemma_spelling_84();
    lemma_spelling_85();
}

proof fn lemma_names_of_border_bottom()
    ensures
        style_property_named("border-bottom"@) == Some(StyleProperty::BorderBottom),
        style_property_named("borderBottom"@) == Some(StyleProperty::BorderBottom),
{
    lemma_spelling_0();
    lemma_spelling_1();
    lemma_spelling_2();
    lemma_spelling_3();
    lemma_spelling_4();
    lemma_spelling_5();
    lemma_spelling_6();
    lemma_spelling_7();
    lemma_spelling_8();
    lemma_spelling_9();
    lemma_spelling_10();
    lemma_spelling_11();
    lemma_spelling_12();
    lemma_spelling_13();
    lemma_spelling_14();
    lemma_spelling_15();
    lemma_spelling_16();
    lemma_spelling_17();
    lemma_spelling_18();
    lemma_spelling_19();
    lemma_spelling_20();
    lemma_spelling_21();
    lemma_spelling_22();
    lemma_spelling_23();
    lemma_spelling_24();
    lemma_spelling_25();
    lemma_spelling_26();
    lemma_spelling_27();
    lemma_spelling_28();
    lemma_spelling_29();
    lemma_spelling_30();
    lemma_spelling_31();
    lemma_spelling_32();
    lemma_spelling_33();
    lemma_spelling_34();
    lemma_spelling_35();
    lemma_spelling_36();
    lemma_spelling_37();
    lemma_spelling_38();
    lemma_spelling_39();
    lemma_spelling_40();
    lemma_spelling_41();
    lemma_spelling_42();
    lemma_spelling_43();
    lemma_spelling_44();
    lemma_spelling_45();
    lemma_spelling_46();
    lemma_spelling_47();
    lemma_spelling_48();
    lemma_spelling_49();
    lemma_spelling_50();
    lemma_spelling_51();
    lemma_spelling_52();
    lemma_spelling_53();
    lemma_spelling_54();
    lemma_spelling_55();
    lemma_spelling_56();
    lemma_spelling_57();
    lemma_spelling_58();
    lemma_spelling_59();
    lemma_spelling_60();
    lemma_spelling_61();
    lemma_spelling_62();
    lemma_spelling_63();
    lemma_spelling_64();
    lemma_spelling_65();
    lemma_spelling_66();
    lemma_spelling_67();
    lemma_spelling_68();
    lemma_spelling_69();
    lemma_spelling_70();
    lemma_spelling_71();
    lemma_spelling_72();
    lemma_spelling_73();
    lemma_spelling_74();
    lemma_spelling_75();
    lemma_spelling_76();
    lemma_spelling_77();
    lemma_spelling_78();
    lemma_spelling_79();
    lemma_spelling_80();
    lemma_spelling_81();
    lemma_spelling_82();
    lemma_spelling_83();
    lemma_spelling_84();
    lemma_spelling_85();
    lemma_spelling_86();
    lemma_spelling_87();
}

proof fn lemma_names_of_border_left()
    ensures
        style_property_named("border-left"@) == Some(StyleProperty::BorderLeft),
        style_property_named("borderLeft"@) == Some(StyleProperty::BorderLeft),
{
    lemma_spelling_0();
    lemma_spelling_1();
    lemma_spelling_2();
    lemma_spelling_3();
    lemma_spelling_4();
    lemma_spelling_5();
    lemma_spelling_6();
    lemma_spelling_7();
    lemma_spelling_8();
    lemma_spelling_9();
    lemma_spelling_10();
    lemma_spelling_11();
    lemma_spelling_12();
    lemma_spelling_13();
    lemma_spelling_14();
    lemma_spelling_15();
    lemma_spelling_16();
    lemma_spelling_17();
    lemma_spelling_18();
    lemma_spelling_19();
    lemma_spelling_20();
    lemma_spelling_21();
    lemma_spelling_22();
    lemma_spelling_23();
    lemma_spelling_24();
    lemma_spelling_25();
    lemma_spelling_26();
    lemma_spelling_27();
    lemma_spelling_28();
    lemma_spelling_29();
    lemma_spelling_30();
    lemma_spelling_31();
    lemma_spelling_32();
    lemma_spelling_33();
    lemma_spelling_34();
    lemma_spelling_35();
    lemma_spelling_36();
    lemma_spelling_37();
    lemma_spelling_38();
    lemma_spelling_39();
    lemma_spelling_40();
    lemma_spelling_41();
    lemma_spelling_42();
    lemma_spelling_43();
    lemma_spelling_44();
    lemma_spelling_45();
    lemma_spelling_46();
    lemma_spelling_47();
    lemma_spelling_48();
    lemma_spelling_49();
    lemma_spelling_50();
    lemma_spelling_51();
    lemma_spelling_52();
    lemma_spelling_53();
    lemma_spelling_54();
    lemma_spelling_55();
    lemma_spelling_56();
    lemma_spelling_57();
    lemma_spelling_58();
    lemma_spelling_59();
    lemma_spelling_60();
    lemma_spelling_61();
    lemma_spelling_62();
    lemma_spelling_63();
    lemma_spelling_64();
    lemma_spelling_65();
    lemma_spelling_66();
    lemma_spelling_67();
    lemma_spelling_68();
    lemma_spelling_69();
    lemma_spelling_70();
    lemma_spelling_71();
    lemma_spelling_72();
    lemma_spelling_73();
    lemma_spelling_74();
    lemma_spelling_75();
    lemma_spelling_76();
    lemma_spelling_77();
    lemma_spelling_78();
    lemma_spelling_79();
    lemma_spelling_80();
    lemma_spelling_81();
    lemma_spelling_82();
    lemma_spelling_83();
    lemma_spelling_84();
    lemma_spelling_85();
    lemma_spelling_86();
    lemma_spelling_87();
    lemma_spelling_88();
    lemma_spelling_89();
}

proof fn lemma_names_of_border_color()
    ensures
        style_property_named("border-color"@) == Some(StyleProperty::BorderColor),
        style_property_named("borderColor"@) == Some(StyleProperty::BorderColor),
{
    lemma_spelling_0();
    lemma_spelling_1();
    lemma_spelling_2();
    lemma_spelling_3();
    lemma_spelling_4();
    lemma_spelling_5();
    lemma_spelling_6();
    lemma_spelling_7();
    lemma_spelling_8();
    lemma_spelling_9();
    lemma_spelling_10();
    lemma_spelling_11();
    lemma_spelling_12();
    lemma_spelling_13();
    lemma_spelling_14();
    lemma_spelling_15();
    lemma_spelling_16();
    lemma_spelling_17();
    lemma_spelling_18();
    lemma_spelling_19();
    lemma_spelling_20();
    lemma_spelling_21();
    lemma_spelling_22();
    lemma_spelling_23();
    lemma_spelling_24();
    lemma_spelling_25();
    lemma_spelling_26();
    lemma_spelling_27();
    lemma_spelling_28();
    lemma_spelling_29();
    lemma_spelling_30();
    lemma_spelling_31();
    lemma_spelling_32();
    lemma_spelling_33();
    lemma_spelling_34();
    lemma_spelling_35();
    lemma_spelling_36();
    lemma_spelling_37();
    lemma_spelling_38();
    lemma_spelling_39();
    lemma_spelling_40();
    lemma_spelling_41();
    lemma_spelling_42();
    lemma_spelling_43();
    lemma_spelling_44();
    lemma_spelling_45();
    lemma_spelling_46();
    lemma_spelling_47();
    lemma_spelling_48();
    lemma_spelling_49();
    lemma_spelling_50();
    lemma_spelling_51();
    lemma_spelling_52();
    lemma_spelling_53();
    lemma_spelling_54();
    lemma_spelling_55();
    lemma_spelling_56();
    lemma_spelling_57();
    lemma_spelling_58();
    lemma_spelling_59();
    lemma_spelling_60();
    lemma_spelling_61();
    lemma_spelling_62();
    lemma_spelling_63();
    lemma_spelling_64();
    lemma_spelling_65();
    lemma_spelling_66();
    lemma_spelling_67();
    lemma_spelling_68();
    lemma_spelling_69();
    lemma_spelling_70();
    lemma_spelling_71();
    lemma_spelling_72();
    lemma_spelling_73();
    lemma_spelling_74();
    lemma_spelling_75();
    lemma_spelling_76();
    lemma_spelling_77();
    lemma_spelling_78();
    lemma_spelling_79();
    lemma_spelling_80();
    lemma_spelling_81();
    lemma_spelling_82();
    lemma_spelling_83();
    lemma_spelling_84();
    lemma_spelling_85();
    lemma_spelling_86();
    lemma_spelling_87();
    lemma_spelling_88();
    lemma_spelling_89();
    lemma_spelling_90();
    lemma_spelling_91();
}

proof fn lemma_names_of_color()
    ensures
        style_property_named("color"@) == Some(StyleProperty::Color),
{
    lemma_spelling_0();
    lemma_spelling_1();
    lemma_spelling_2();
    lemma_spelling_3();
    lemma_spelling_4();
    lemma_spelling_5();
    lemma_spelling_6();
    lemma_spelling_7();
    lemma_spelling_8();
    lemma_spelling_9();
    lemma_spelling_10();
    lemma_spelling_11();
    lemma_spelling_12();
    lemma_spelling_13();
    lemma_spelling_14();
    lemma_spelling_15();
    lemma_spelling_16();
    lemma_spelling_17();
    lemma_spelling_18();
    lemma_spelling_19();
    lemma_spelling_20();
    lemma_spelling_21();
    lemma_spelling_22();
    lemma_spelling_23();
    lemma_spelling_24();
    lemma_spelling_25();
    lemma_spelling_26();
    lemma_spelling_27();
    lemma_spelling_28();
    lemma_spelling_29();
    lemma_spelling_30();
    lemma_spelling_31();
    lemma_spelling_32();
    lemma_spelling_33();
    lemma_spelling_34();
    lemma_spelling_35();
    lemma_spelling_36();
    lemma_spelling_37();
    lemma_spelling_38();
    lemma_spelling_39();
    lemma_spelling_40();
    lemma_spelling_41();
    lemma_spelling_42();
    lemma_spelling_43();
    lemma_spelling_44();
    lemma_spelling_45();
    lemma_spelling_46();
    lemma_spelling_47();
    lemma_spelling_48();
    lemma_spelling_49();
    lemma_spelling_50();
    lemma_spelling_51();
    lemma_spelling_52();
    lemma_spelling_53();
    lemma_spelling_54();
    lemma_spelling_55();
    lemma_spelling_56();
    lemma_spelling_57();
    lemma_spelling_58();
    lemma_spelling_59();
    lemma_spelling_60();
    lemma_spelling_61();
    lemma_spelling_62();
    lemma_spelling_63();
    lemma_spelling_64();
    lemma_spelling_65();
    lemma_spelling_66();
    lemma_spelling_67();
    lemma_spelling_68();
    lemma_spelling_69();
    lemma_spelling_70();
    lemma_spelling_71();
    lemma_spelling_72();
    lemma_spelling_73();
    lemma_spelling_74();
    lemma_spelling_75();
    lemma_spelling_76();
    lemma_spelling_77();
    lemma_spelling_78();
    lemma_spelling_79();
    lemma_spelling_80();
    lemma_spelling_81();
    lemma_spelling_82();
    lemma_spelling_83();
    lemma_spelling_84();
    lemma_spelling_85();
    lemma_spelling_86();
    lemma_spelling_87();
    lemma_spelling_88();
    lemma_spelling_89();
    lemma_spelling_90();
    lemma_spelling_91();
    lemma_spelling_92();
}

proof fn lemma_names_of_placeholder_color()
    ensures
        style_property_named("placeholder-color"@) == Some(StyleProperty::PlaceholderColor),
        style_property_named("placeholderColor"@) == Some(StyleProperty::PlaceholderColor),
{
    lemma_spelling_0();
    lemma_spelling_1();
    lemma_spelling_2();
    lemma_spelling_3();
    lemma_spelling_4();
    lemma_spelling_5();
    lemma_spelling_6();
    lemma_spelling_7();
    lemma_spelling_8();
    lemma_spelling_9();
    lemma_spelling_10();
    lemma_spelling_11();
    lemma_spelling_12();
    lemma_spelling_13();
    lemma_spelling_14();
    lemma_spelling_15();
    lemma_spelling_16();
    lemma_spelling_17();
    lemma_spelling_18();
    lemma_spelling_19();
    lemma_spelling_20();
    lemma_spelling_21();
    lemma_spelling_22();
    lemma_spelling_23();
    lemma_spelling_24();
    lemma_spelling_25();
    lemma_spelling_26();
    lemma_spelling_27();
    lemma_spelling_28();
    lemma_spelling_29();
    lemma_spelling_30();
    lemma_spelling_31();
    lemma_spelling_32();
    lemma_spelling_33();
    lemma_spelling_34();
    lemma_spelling_35();
    lemma_spelling_36();
    lemma_spelling_37();
    lemma_spelling_38();
    lemma_spelling_39();
    lemma_spelling_40();
    lemma_spelling_41();
    lemma_spelling_42();
    lemma_spelling_43();
    lemma_spelling_44();
    lemma_spelling_45();
    lemma_spelling_46();
    lemma_spelling_47();
    lemma_spelling_48();
    lemma_spelling_49();
    lemma_spelling_50();
    lemma_spelling_51();
    lemma_spelling_52();
    lemma_spelling_53();
    lemma_spelling_54();
    lemma_spelling_55();
    lemma_spelling_56();
    lemma_spelling_57();
    lemma_spelling_58();
    lemma_spelling_59();
    lemma_spelling_60();
    lemma_spelling_61();
    lemma_spelling_62();
    lemma_spelling_63();
    lemma_spelling_64();
    lemma_spelling_65();
    lemma_spelling_66();
    lemma_spelling_67();
    lemma_spelling_68();
    lemma_spelling_69();
    lemma_spelling_70();
    lemma_spelling_71();
    lemma_spelling_72();
    lemma_spelling_73();
    lemma_spelling_74();
    lemma_spelling_75();
    lemma_spelling_76();
    lemma_spelling_77();
    lemma_spelling_78();
    lemma_spelling_79();
    lemma_spelling_80();
    lemma_spelling_81();
    lemma_spelling_82();
    lemma_spelling_83();
    lemma_spelling_84();
    lemma_spelling_85();
    lemma_spelling_86();
    lemma_spelling_87();
    lemma_spelling_88();
    lemma_spelling_89();
    lemma_spelling_90();
    lemma_spelling_91();
    lemma_spelling_92();
    lemma_spelling_93();
    lemma_spelling_94();
}

proof fn lemma_names_of_background()
    ensures
        style_property_named("background"@) == Some(StyleProperty::Background),
        style_property_named("background-color"@) == Some(StyleProperty::Background),
        style_property_named("backgroundColor"@) == Some(StyleProperty::Background),
{
    lemma_spelling_0();
    lemma_spelling_1();
    lemma_spelling_2();
    lemma_spelling_3();
    lemma_spelling_4();
    lemma_spelling_5();
    lemma_spelling_6();
    lemma_spelling_7();
    lemma_spelling_8();
    lemma_spelling_9();
    lemma_spelling_10();
    lemma_spelling_11();
    lemma_spelling_12();
    lemma_spelling_13();
    lemma_spelling_14();
    lemma_spelling_15();
    lemma_spelling_16();
    lemma_spelling_17();
    lemma_spelling_18();
    lemma_spelling_19();
    lemma_spelling_20();
    lemma_spelling_21();
    lemma_spelling_22();
    lemma_spelling_23();
    lemma_spelling_24();
    lemma_spelling_25();
    lemma_spelling_26();
    lemma_spelling_27();
    lemma_spelling_28();
    lemma_spelling_29();
    lemma_spelling_30();
    lemma_spelling_31();
    lemma_spelling_32();
    lemma_spelling_33();
    lemma_spelling_34();
    lemma_spelling_35();
    lemma_spelling_36();
    lemma_spelling_37();
    lemma_spelling_38();
    lemma_spelling_39();
    lemma_spelling_40();
    lemma_spelling_41();
    lemma_spelling_42();
    lemma_spelling_43();
    lemma_spelling_44();
    lemma_spelling_45();
    lemma_spelling_46();
    lemma_spelling_47();
    lemma_spelling_48();
    lemma_spelling_49();
    lemma_spelling_50();
    lemma_spelling_51();
    lemma_spelling_52();
    lemma_spelling_53();
    lemma_spelling_54();
    lemma_spelling_55();
    lemma_spelling_56();
    lemma_spelling_57();
    lemma_spelling_58();
    lemma_spelling_59();
    lemma_spelling_60();
    lemma_spelling_61();
    lemma_spelling_62();
    lemma_spelling_63();
    lemma_spelling_64();
    lemma_spelling_65();
    lemma_spelling_66();
    lemma_spelling_67();
    lemma_spelling_68();
    lemma_spelling_69();
    lemma_spelling_70();
    lemma_spelling_71();
    lemma_spelling_72();
    lemma_spelling_73();
    lemma_spelling_74();
    lemma_spelling_75();
    lemma_spelling_76();
    lemma_spelling_77();
    lemma_spelling_78();
    lemma_spelling_79();
    lemma_spelling_80();
    lemma_spelling_81();
    lemma_spelling_82();
    lemma_spelling_83();
    lemma_spelling_84();
    lemma_spelling_85();
    lemma_spelling_86();
    lemma_spelling_87();
    lemma_spelling_88();
    lemma_spelling_89();
    lemma_spelling_90();
    lemma_spelling_91();
    lemma_spelling_92();
    lemma_spelling_93();
    lemma_spelling_94();
    lemma_spelling_95();
    lemma_spelling_96();
    lemma_spelling_97();
}

proof fn lemma_names_of_selection_background()
    ensures
        style_property_named("selection-background-color"@) == Some(StyleProperty::SelectionBackground),
        style_property_named("selectionBackgroundColor"@) == Some(StyleProperty::SelectionBackground),
{
    lemma_spelling_0();
    lemma_spelling_1();
    lemma_spelling_2();
    lemma_spelling_3();
    lemma_spelling_4();
    lemma_spelling_5();
    lemma_spelling_6();
    lemma_spelling_7();
    lemma_spelling_8();
    lemma_spelling_9();
    lemma_spelling_10();
    lemma_spelling_11();
    lemma_spelling_12();
    lemma_spelling_13();
    lemma_spelling_14();
    lemma_spelling_15();
    lemma_spelling_16();
    lemma_spelling_17();
    lemma_spelling_18();
    lemma_spelling_19();
    lemma_spelling_20();
    lemma_spelling_21();
    lemma_spelling_22();
    lemma_spelling_23();
    lemma_spelling_24();
    lemma_spelling_25();
    lemma_spelling_26();
    lemma_spelling_27();
    lemma_spelling_28();
    lemma_spelling_29();
    lemma_spelling_30();
    lemma_spelling_31();
    lemma_spelling_32();
    lemma_spelling_33();
    lemma_spelling_34();
    lemma_spelling_35();
    lemma_spelling_36();
    lemma_spelling_37();
    lemma_spelling_38();
    lemma_spelling_39();
    lemma_spelling_40();
    lemma_spelling_41();
    lemma_spelling_42();
    lemma_spelling_43();
    lemma_spelling_44();
    lemma_spelling_45();
    lemma_spelling_46();
    lemma_spelling_47();
    lemma_spelling_48();
    lemma_spelling_49();
    lemma_spelling_50();
    lemma_spelling_51();
    lemma_spelling_52();
    lemma_spelling_53();
    lemma_spelling_54();
    lemma_spelling_55();
    lemma_spelling_56();
    lemma_spelling_57();
    lemma_spelling_58();
    lemma_spelling_59();
    lemma_spelling_60();
    lemma_spelling_61();
    lemma_spelling_62();
    lemma_spelling_63();
    lemma_spelling_64();
    lemma_spelling_65();
    lemma_spelling_66();
    lemma_spelling_67();
    lemma_spelling_68();
    lemma_spelling_69();
    lemma_spelling_70();
    lemma_spelling_71();
    lemma_spelling_72();
    lemma_spelling_73();
    lemma_spelling_74();
    lemma_spelling_75();
    lemma_spelling_76();
    lemma_spelling_77();
    lemma_spelling_78();
    lemma_spelling_79();
    lemma_spelling_80();
    lemma_spelling_81();
    lemma_spelling_82();
    lemma_spelling_83();
    lemma_spelling_84();
    lemma_spelling_85();
    lemma_spelling_86();
    lemma_spelling_87();
    lemma_spelling_88();
    lemma_spelling_89();
    lemma_spelling_90();
    lemma_spelling_91();
    lemma_spelling_92();
    lemma_spelling_93();
    lemma_spelling_94();
    lemma_spelling_95();
    lemma_spelling_96();
    lemma_spelling_97();
    lemma_spelling_98();
    lemma_spelling_99();
}

proof fn lemma_names_of_font_weight()
    ensures
        style_property_named("font-weight"@) == Some(StyleProperty::FontWeight),
        style_property_named("fontWeight"@) == Some(StyleProperty::FontWeight),
{
    lemma_spelling_0();
    lemma_spelling_1();
    lemma_spelling_2();
    lemma_spelling_3();
    lemma_spelling_4();
    lemma_spelling_5();
    lemma_spelling_6();
    lemma_spelling_7();
    lemma_spelling_8();
    lemma_spelling_9();
    lemma_spelling_10();
    lemma_spelling_11();
    lemma_spelling_12();
    lemma_spelling_13();
    lemma_spelling_14();
    lemma_spelling_15();
    lemma_spelling_16();
    lemma_spelling_17();
    lemma_spelling_18();
    lemma_spelling_19();
    lemma_spelling_20();
    lemma_spelling_21();
    lemma_spelling_22();
    lemma_spelling_23();
    lemma_spelling_24();
    lemma_spelling_25();
    lemma_spelling_26();
    lemma_spelling_27();
    lemma_spelling_28();
    lemma_spelling_29();
    lemma_spelling_30();
    lemma_spelling_31();
    lemma_spelling_32();
    lemma_spelling_33();
    lemma_spelling_34();
    lemma_spelling_35();
    lemma_spelling_36();
    lemma_spelling_37();
    lemma_spelling_38();
    lemma_spelling_39();
    lemma_spelling_40();
    lemma_spelling_41();
    lemma_spelling_42();
    lemma_spelling_43();
    lemma_spelling_44();
    lemma_spelling_45();
    lemma_spelling_46();
    lemma_spelling_47();
    lemma_spelling_48();
    lemma_spelling_49();
    lemma_spelling_50();
    lemma_spelling_51();
    lemma_spelling_52();
    lemma_spelling_53();
    lemma_spelling_54();
    lemma_spelling_55();
    lemma_spelling_56();
    lemma_spelling_57();
    lemma_spelling_58();
    lemma_spelling_59();
    lemma_spelling_60();
    lemma_spelling_61();
    lemma_spelling_62();
    lemma_spelling_63();
    lemma_spelling_64();
    lemma_spelling_65();
    lemma_spelling_66();
    lemma_spelling_67();
    lemma_spelling_68();
    lemma_spelling_69();
    lemma_spelling_70();
    lemma_spelling_71();
    lemma_spelling_72();
    lemma_spelling_73();
    lemma_spelling_74();
    lemma_spelling_75();
    lemma_spelling_76();
    lemma_spelling_77();
    lemma_spelling_78();
    lemma_spelling_79();
    lemma_spelling_80();
    lemma_spelling_81();
    lemma_spelling_82();
    lemma_spelling_83();
    lemma_spelling_84();
    lemma_spelling_85();
    lemma_spelling_86();
    lemma_spelling_87();
    lemma_spelling_88();
    lemma_spelling_89();
    lemma_spelling_90();
    lemma_spelling_91();
    lemma_spelling_92();
    lemma_spelling_93();
    lemma_spelling_94();
    lemma_spelling_95();
    lemma_spelling_96();
    lemma_spelling_97();
    lemma_spelling_98();
    lemma_spelling_99();
    lemma_spelling_100();
    lemma_spelling_101();
}

proof fn lemma_names_of_font_style()
    ensures
        style_property_named("font-style"@) == Some(StyleProperty::FontStyle),
        style_property_named("fontStyle"@) == Some(StyleProperty::FontStyle),
{
    lemma_spelling_0();
    lemma_spelling_1();
    lemma_spelling_2();
    lemma_spelling_3();
    lemma_spelling_4();
    lemma_spelling_5();
    lemma_spelling_6();
    lemma_spelling_7();
    lemma_spelling_8();
    lemma_spelling_9();
    lemma_spelling_10();
    lemma_spelling_11();
    lemma_spelling_12();
    lemma_spelling_13();
    lemma_spelling_14();
    lemma_spelling_15();
    lemma_spelling_16();
    lemma_spelling_17();
    lemma_spelling_18();
    lemma_spelling_19();
    lemma_spelling_20();
    lemma_spelling_21();
    lemma_spelling_22();
    lemma_spelling_23();
    lemma_spelling_24();
    lemma_spelling_25();
    lemma_spelling_26();
    lemma_spelling_27();
    lemma_spelling_28();
    lemma_spelling_29();
    lemma_spelling_30();
    lemma_spelling_31();
    lemma_spelling_32();
    lemma_spelling_33();
    lemma_spelling_34();
    lemma_spelling_35();
    lemma_spelling_36();
    lemma_spelling_37();
    lemma_spelling_38();
    lemma_spelling_39();
    lemma_spelling_40();
    lemma_spelling_41();
    lemma_spelling_42();
    lemma_spelling_43();
    lemma_spelling_44();
    lemma_spelling_45();
    lemma_spelling_46();
    lemma_spelling_47();
    lemma_spelling_48();
    lemma_spelling_49();
    lemma_spelling_50();
    lemma_spelling_51();
    lemma_spelling_52();
    lemma_spelling_53();
    lemma_spelling_54();
    lemma_spelling_55();
    lemma_spelling_56();
    lemma_spelling_57();
    lemma_spelling_58();
    lemma_spelling_59();
    lemma_spelling_60();
    lemma_spelling_61();
    lemma_spelling_62();
    lemma_spelling_63();
    lemma_spelling_64();
    lemma_spelling_65();
    lemma_spelling_66();
    lemma_spelling_67();
    lemma_spelling_68();
    lemma_spelling_69();
    lemma_spelling_70();
    lemma_spelling_71();
    lemma_spelling_72();
    lemma_spelling_73();
    lemma_spelling_74();
    lemma_spelling_75();
    lemma_spelling_76();
    lemma_spelling_77();
    lemma_spelling_78();
    lemma_spelling_79();
    lemma_spelling_80();
    lemma_spelling_81();
    lemma_spelling_82();
    lemma_spelling_83();
    lemma_spelling_84();
    lemma_spelling_85();
    lemma_spelling_86();
    lemma_spelling_87();
    lemma_spelling_88();
    lemma_spelling_89();
    lemma_spelling_90();
    lemma_spelling_91();
    lemma_spelling_92();
    lemma_spelling_93();
    lemma_spelling_94();
    lemma_spelling_95();
    lemma_spelling_96();
    lemma_spelling_97();
    lemma_spelling_98();
    lemma_spelling_99();
    lemma_spelling_100();
    lemma_spelling_101();
    lemma_spelling_102();
    lemma_spelling_103();
}

proof fn lemma_names_of_text_decoration_line()
    ensures
        style_property_named("text-decoration"@) == Some(StyleProperty::TextDecorationLine),
        style_property_named("textDecoration"@) == Some(StyleProperty::TextDecorationLine),
        style_property_named("text-decoration-line"@) == Some(StyleProperty::TextDecorationLine),
        style_property_named("textDecorationLine"@) == Some(StyleProperty::TextDecorationLine),
{
    lemma_spelling_0();
    lemma_spelling_1();
    lemma_spelling_2();
    lemma_spelling_3();
    lemma_spelling_4();
    lemma_spelling_5();
    lemma_spelling_6();
    lemma_spelling_7();
    lemma_spelling_8();
    lemma_spelling_9();
    lemma_spelling_10();
    lemma_spelling_11();
    lemma_spelling_12();
    lemma_spelling_13();
    lemma_spelling_14();
    lemma_spelling_15();
    lemma_spelling_16();
    lemma_spelling_17();
    lemma_spelling_18();
    lemma_spelling_19();
    lemma_spelling_20();
    lemma_spelling_21();
    lemma_spelling_22();
    lemma_spelling_23();
    lemma_spelling_24();
    lemma_spelling_25();
    lemma_spelling_26();
    lemma_spelling_27();
    lemma_spelling_28();
    lemma_spelling_29();
    lemma_spelling_30();
    lemma_spelling_31();
    lemma_spelling_32();
    lemma_spelling_33();
    lemma_spelling_34();
    lemma_spelling_35();
    lemma_spelling_36();
    lemma_spelling_37();
    lemma_spelling_38();
    lemma_spelling_39();
    lemma_spelling_40();
    lemma_spelling_41();
    lemma_spelling_42();
    lemma_spelling_43();
    lemma_spelling_44();
    lemma_spelling_45();
    lemma_spelling_46();
    lemma_spelling_47();
    lemma_spelling_48();
    lemma_spelling_49();
    lemma_spelling_50();
    lemma_spelling_51();
    lemma_spelling_52();
    lemma_spelling_53();
    lemma_spelling_54();
    lemma_spelling_55();
    lemma_spelling_56();
    lemma_spelling_57();
    lemma_spelling_58();
    lemma_spelling_59();
    lemma_spelling_60();
    lemma_spelling_61();
    lemma_spelling_62();
    lemma_spelling_63();
    lemma_spelling_64();
    lemma_spelling_65();
    lemma_spelling_66();
    lemma_spelling_67();
    lemma_spelling_68();
    lemma_spelling_69();
    lemma_spelling_70();
    lemma_spelling_71();
    lemma_spelling_72();
    lemma_spelling_73();
    lemma_spelling_74();
    lemma_spelling_75();
    lemma_spelling_76();
    lemma_spelling_77();
    lemma_spelling_78();
    lemma_spelling_79();
    lemma_spelling_80();
    lemma_spelling_81();
    lemma_spelling_82();
    lemma_spelling_83();
    lemma_spelling_84();
    lemma_spelling_85();
    lemma_spelling_86();
    lemma_spelling_87();
    lemma_spelling_88();
    lemma_spelling_89();
    lemma_spelling_90();
    lemma_spelling_91();
    lemma_spelling_92();
    lemma_spelling_93();
    lemma_spelling_94();
    lemma_spelling_95();
    lemma_spelling_96();
    lemma_spelling_97();
    lemma_spelling_98();
    lemma_spelling_99();
    lemma_spelling_100();
    lemma_spelling_101();
    lemma_spelling_102();
    lemma_spelling_103();
    lemma_spelling_104();
    lemma_spelling_105();
    lemma_spelling_106();
    lemma_spelling_107();
}

proof fn lemma_names_of_cursor()
    ensures
        style_property_named("cursor"@) == Some(StyleProperty::Cursor),
{
    lemma_spelling_0();
    lemma_spelling_1();
    lemma_spelling_2();
    lemma_spelling_3();
    lemma_spelling_4();
    lemma_spelling_5();
    lemma_spelling_6();
    lemma_spelling_7();
    lemma_spelling_8();
    lemma_spelling_9();
    lemma_spelling_10();
    lemma_spelling_11();
    lemma_spelling_12();
    lemma_spelling_13();
    lemma_spelling_14();
    lemma_spelling_15();
    lemma_spelling_16();
    lemma_spelling_17();
    lemma_spelling_18();
    lemma_spelling_19();
    lemma_spelling_20();
    lemma_spelling_21();
    lemma_spelling_22();
    lemma_spelling_23();
    lemma_spelling_24();
    lemma_spelling_25();
    lemma_spelling_26();
    lemma_spelling_27();
    lemma_spelling_28();
    lemma_spelling_29();
    lemma_spelling_30();
    lemma_spelling_31();
    lemma_spelling_32();
    lemma_spelling_33();
    lemma_spelling_34();
    lemma_spelling_35();
    lemma_spelling_36();
    lemma_spelling_37();
    lemma_spelling_38();
    lemma_spelling_39();
    lemma_spelling_40();
    lemma_spelling_41();
    lemma_spelling_42();
    lemma_spelling_43();
    lemma_spelling_44();
    lemma_spelling_45();
    lemma_spelling_46();
    lemma_spelling_47();
    lemma_spelling_48();
    lemma_spelling_49();
    lemma_spelling_50();
    lemma_spelling_51();
    lemma_spelling_52();
    lemma_spelling_53();
    lemma_spelling_54();
    lemma_spelling_55();
    lemma_spelling_56();
    lemma_spelling_57();
    lemma_spelling_58();
    lemma_spelling_59();
    lemma_spelling_60();
    lemma_spelling_61();
    lemma_spelling_62();
    lemma_spelling_63();
    lemma_spelling_64();
    lemma_spelling_65();
    lemma_spelling_66();
    lemma_spelling_67();
    lemma_spelling_68();
    lemma_spelling_69();
    lemma_spelling_70();
    lemma_spelling_71();
    lemma_spelling_72();
    lemma_spelling_73();
    lemma_spelling_74();
    lemma_spelling_75();
    lemma_spelling_76();
    lemma_spelling_77();
    lemma_spelling_78();
    lemma_spelling_79();
    lemma_spelling_80();
    lemma_spelling_81();
    lemma_spelling_82();
    lemma_spelling_83();
    lemma_spelling_84();
    lemma_spelling_85();
    lemma_spelling_86();
    lemma_spelling_87();
    lemma_spelling_88();
    lemma_spelling_89();
    lemma_spelling_90();
    lemma_spelling_91();
    lemma_spelling_92();
    lemma_spelling_93();
    lemma_spelling_94();
    lemma_spelling_95();
    lemma_spelling_96();
    lemma_spelling_97();
    lemma_spelling_98();
    lemma_spelling_99();
    lemma_spelling_100();
    lemma_spelling_101();
    lemma_spelling_102();
    lemma_spelling_103();
    lemma_spelling_104();
    lemma_spelling_105();
    lemma_spelling_106();
    lemma_spelling_107();
    lemma_spelling_108();
}

proof fn lemma_names_of_grid_template_columns()
    ensures
        style_property_named("grid-template-columns"@) == Some(StyleProperty::GridTemplateColumns),
        style_property_named("gridTemplateColumns"@) == Some(StyleProperty::GridTemplateColumns),
{
    lemma_spelling_0();
    lemma_spelling_1();
    lemma_spelling_2();
    lemma_spelling_3();
    lemma_spelling_4();
    lemma_spelling_5();
    lemma_spelling_6();
    lemma_spelling_7();
    lemma_spelling_8();
    lemma_spelling_9();
    lemma_spelling_10();
    lemma_spelling_11();
    lemma_spelling_12();
    lemma_spelling_13();
    lemma_spelling_14();
    lemma_spelling_15();
    lemma_spelling_16();
    lemma_spelling_17();
    lemma_spelling_18();
    lemma_spelling_19();
    lemma_spelling_20();
    lemma_spelling_21();
    lemma_spelling_22();
    lemma_spelling_23();
    lemma_spelling_24();
    lemma_spelling_25();
    lemma_spelling_26();
    lemma_spelling_27();
    lemma_spelling_28();
    lemma_spelling_29();
    lemma_spelling_30();
    lemma_spelling_31();
    lemma_spelling_32();
    lemma_spelling_33();
    lemma_spelling_34();
    lemma_spelling_35();
    lemma_spelling_36();
    lemma_spelling_37();
    lemma_spelling_38();
    lemma_spelling_39();
    lemma_spelling_40();
    lemma_spelling_41();
    lemma_spelling_42();
    lemma_spelling_43();
    lemma_spelling_44();
    lemma_spelling_45();
    lemma_spelling_46();
    lemma_spelling_47();
    lemma_spelling_48();
    lemma_spelling_49();
    lemma_spelling_50();
    lemma_spelling_51();
    lemma_spelling_52();
    lemma_spelling_53();
    lemma_spelling_54();
    lemma_spelling_55();
    lemma_spelling_56();
    lemma_spelling_57();
    lemma_spelling_58();
    lemma_spelling_59();
    lemma_spelling_60();
    lemma_spelling_61();
    lemma_spelling_62();
    lemma_spelling_63();
    lemma_spelling_64();
    lemma_spelling_65();
    lemma_spelling_66();
    lemma_spelling_67();
    lemma_spelling_68();
    lemma_spelling_69();
    lemma_spelling_70();
    lemma_spelling_71();
    lemma_spelling_72();
    lemma_spelling_73();
    lemma_spelling_74();
    lemma_spelling_75();
    lemma_spelling_76();
    lemma_spelling_77();
    lemma_spelling_78();
    lemma_spelling_79();
    lemma_spelling_80();
    lemma_spelling_81();
    lemma_spelling_82();
    lemma_spelling_83();
    lemma_spelling_84();
    lemma_spelling_85();
    lemma_spelling_86();
    lemma_spelling_87();
    lemma_spelling_88();
    lemma_spelling_89();
    lemma_spelling_90();
    lemma_spelling_91();
    lemma_spelling_92();
    lemma_spelling_93();
    lemma_spelling_94();
    lemma_spelling_95();
    lemma_spelling_96();
    lemma_spelling_97();
    lemma_spelling_98();
    lemma_spelling_99();
    lemma_spelling_100();
    lemma_spelling_101();
    lemma_spelling_102();
    lemma_spelling_103();
    lemma_spelling_104();
    lemma_spelling_105();
    lemma_spelling_106();
    lemma_spelling_107();
    lemma_spelling_108();
    lemma_spelling_109();
    lemma_spelling_110();
}

proof fn lemma_names_of_grid_template_rows()
    ensures
        style_property_named("grid-template-rows"@) == Some(StyleProperty::GridTemplateRows),
        style_property_named("gridTemplateRows"@) == Some(StyleProperty::GridTemplateRows),
{
    lemma_spelling_0();
    lemma_spelling_1();
    lemma_spelling_2();
    lemma_spelling_3();
    lemma_spelling_4();
    lemma_spelling_5();
    lemma_spelling_6();
    lemma_spelling_7();
    lemma_spelling_8();
    lemma_spelling_9();
    lemma_spelling_10();
    lemma_spelling_11();
    lemma_spelling_12();
    lemma_spelling_13();
    lemma_spelling_14();
    lemma_spelling_15();
    lemma_spelling_16();
    lemma_spelling_17();
    lemma_spelling_18();
    lemma_spelling_19();
    lemma_spelling_20();
    lemma_spelling_21();
    lemma_spelling_22();
    lemma_spelling_23();
    lemma_spelling_24();
    lemma_spelling_25();
    lemma_spelling_26();
    lemma_spelling_27();
    lemma_spelling_28();
    lemma_spelling_29();
    lemma_spelling_30();
    lemma_spelling_31();
    lemma_spelling_32();
    lemma_spelling_33();
    lemma_spelling_34();
    lemma_spelling_35();
    lemma_spelling_36();
    lemma_spelling_37();
    lemma_spelling_38();
    lemma_spelling_39();
    lemma_spelling_40();
    lemma_spelling_41();
    lemma_spelling_42();
    lemma_spelling_43();
    lemma_spelling_44();
    lemma_spelling_45();
    lemma_spelling_46();
    lemma_spelling_47();
    lemma_spelling_48();
    lemma_spelling_49();
    lemma_spelling_50();
    lemma_spelling_51();
    lemma_spelling_52();
    lemma_spelling_53();
    lemma_spelling_54();
    lemma_spelling_55();
    lemma_spelling_56();
    lemma_spelling_57();
    lemma_spelling_58();
    lemma_spelling_59();
    lemma_spelling_60();
    lemma_spelling_61();
    lemma_spelling_62();
    lemma_spelling_63();
    lemma_spelling_64();
    lemma_spelling_65();
    lemma_spelling_66();
    lemma_spelling_67();
    lemma_spelling_68();
    lemma_spelling_69();
    lemma_spelling_70();
    lemma_spelling_71();
    lemma_spelling_72();
    lemma_spelling_73();
    lemma_spelling_74();
    lemma_spelling_75();
    lemma_spelling_76();
    lemma_spelling_77();
    lemma_spelling_78();
    lemma_spelling_79();
    lemma_spelling_80();
    lemma_spelling_81();
    lemma_spelling_82();
    lemma_spelling_83();
    lemma_spelling_84();
    lemma_spelling_85();
    lemma_spelling_86();
    lemma_spelling_87();
    lemma_spelling_88();
    lemma_spelling_89();
    lemma_spelling_90();
    lemma_spelling_91();
    lemma_spelling_92();
    lemma_spelling_93();
    lemma_spelling_94();
    lemma_spelling_95();
    lemma_spelling_96();
    lemma_spelling_97();
    lemma_spelling_98();
    lemma_spelling_99();
    lemma_spelling_100();
    lemma_spelling_101();
    lemma_spelling_102();
    lemma_spelling_103();
    lemma_spelling_104();
    lemma_spelling_105();
    lemma_spelling_106();
    lemma_spelling_107();
    lemma_spelling_108();
    lemma_spelling_109();
    lemma_spelling_110();
    lemma_spelling_111();
    lemma_spelling_112();
}

proof fn lemma_names_of_grid_auto_columns()
    ensures
        style_property_named("grid-auto-columns"@) == Some(StyleProperty::GridAutoColumns),
        style_property_named("gridAutoColumns"@) == Some(StyleProperty::GridAutoColumns),
{
    lemma_spelling_0();
    lemma_spelling_1();
    lemma_spelling_2();
    lemma_spelling_3();
    lemma_spelling_4();
    lemma_spelling_5();
    lemma_spelling_6();
    lemma_spelling_7();
    lemma_spelling_8();
    lemma_spelling_9();
    lemma_spelling_10();
    lemma_spelling_11();
    lemma_spelling_12();
    lemma_spelling_13();
    lemma_spelling_14();
    lemma_spelling_15();
    lemma_spelling_16();
    lemma_spelling_17();
    lemma_spelling_18();
    lemma_spelling_19();
    lemma_spelling_20();
    lemma_spelling_21();
    lemma_spelling_22();
    lemma_spelling_23();
    lemma_spelling_24();
    lemma_spelling_25();
    lemma_spelling_26();
    lemma_spelling_27();
    lemma_spelling_28();
    lemma_spelling_29();
    lemma_spelling_30();
    lemma_spelling_31();
    lemma_spelling_32();
    lemma_spelling_33();
    lemma_spelling_34();
    lemma_spelling_35();
    lemma_spelling_36();
    lemma_spelling_37();
    lemma_spelling_38();
    lemma_spelling_39();
    lemma_spelling_40();
    lemma_spelling_41();
    lemma_spelling_42();
    lemma_spelling_43();
    lemma_spelling_44();
    lemma_spelling_45();
    lemma_spelling_46();
    lemma_spelling_47();
    lemma_spelling_48();
    lemma_spelling_49();
    lemma_spelling_50();
    lemma_spelling_51();
    lemma_spelling_52();
    lemma_spelling_53();
    lemma_spelling_54();
    lemma_spelling_55();
    lemma_spelling_56();
    lemma_spelling_57();
    lemma_spelling_58();
    lemma_spelling_59();
    lemma_spelling_60();
    lemma_spelling_61();
    lemma_spelling_62();
    lemma_spelling_63();
    lemma_spelling_64();
    lemma_spelling_65();
    lemma_spelling_66();
    lemma_spelling_67();
    lemma_spelling_68();
    lemma_spelling_69();
    lemma_spelling_70();
    lemma_spelling_71();
    lemma_spelling_72();
    lemma_spelling_73();
    lemma_spelling_74();
    lemma_spelling_75();
    lemma_spelling_76();
    lemma_spelling_77();
    lemma_spelling_78();
    lemma_spelling_79();
    lemma_spelling_80();
    lemma_spelling_81();
    lemma_spelling_82();
    lemma_spelling_83();
    lemma_spelling_84();
    lemma_spelling_85();
    lemma_spelling_86();
    lemma_spelling_87();
    lemma_spelling_88();
    lemma_spelling_89();
    lemma_spelling_90();
    lemma_spelling_91();
    lemma_spelling_92();
    lemma_spelling_93();
    lemma_spelling_94();
    lemma_spelling_95();
    lemma_spelling_96();
    lemma_spelling_97();
    lemma_spelling_98();
    lemma_spelling_99();
    lemma_spelling_100();
    lemma_spelling_101();
    lemma_spelling_102();
    lemma_spelling_103();
    lemma_spelling_104();
    lemma_spelling_105();
    lemma_spelling_106();
    lemma_spelling_107();
    lemma_spelling_108();
    lemma_spelling_109();
    lemma_spelling_110();
    lemma_spelling_111();
    lemma_spelling_112();
    lemma_spelling_113();
    lemma_spelling_114();
}

proof fn lemma_names_of_grid_auto_rows()
    ensures
        style_property_named("grid-auto-rows"@) == Some(StyleProperty::GridAutoRows),
        style_property_named("gridAutoRows"@) == Some(StyleProperty::GridAutoRows),
{
    lemma_spelling_0();
    lemma_spelling_1();
    lemma_spelling_2();
    lemma_spelling_3();
    lemma_spelling_4();
    lemma_spelling_5();
    lemma_spelling_6();
    lemma_spelling_7();
    lemma_spelling_8();
    lemma_spelling_9();
    lemma_spelling_10();
    lemma_spelling_11();
    lemma_spelling_12();
    lemma_spelling_13();
    lemma_spelling_14();
    lemma_spelling_15();
    lemma_spelling_16();
    lemma_spelling_17();
    lemma_spelling_18();
    lemma_spelling_19();
    lemma_spelling_20();
    lemma_spelling_21();
    lemma_spelling_22();
    lemma_spelling_23();
    lemma_spelling_24();
    lemma_spelling_25();
    lemma_spelling_26();
    lemma_spelling_27();
    lemma_spelling_28();
    lemma_spelling_29();
    lemma_spelling_30();
    lemma_spelling_31();
    lemma_spelling_32();
    lemma_spelling_33();
    lemma_spelling_34();
    lemma_spelling_35();
    lemma_spelling_36();
    lemma_spelling_37();
    lemma_spelling_38();
    lemma_spelling_39();
    lemma_spelling_40();
    lemma_spelling_41();
    lemma_spelling_42();
    lemma_spelling_43();
    lemma_spelling_44();
    lemma_spelling_45();
    lemma_spelling_46();
    lemma_spelling_47();
    lemma_spelling_48();
    lemma_spelling_49();
    lemma_spelling_50();
    lemma_spelling_51();
    lemma_spelling_52();
    lemma_spelling_53();
    lemma_spelling_54();
    lemma_spelling_55();
    lemma_spelling_56();
    lemma_spelling_57();
    lemma_spelling_58();
    lemma_spelling_59();
    lemma_spelling_60();
    lemma_spelling_61();
    lemma_spelling_62();
    lemma_spelling_63();
    lemma_spelling_64();
    lemma_spelling_65();
    lemma_spelling_66();
    lemma_spelling_67();
    lemma_spelling_68();
    lemma_spelling_69();
    lemma_spelling_70();
    lemma_spelling_71();
    lemma_spelling_72();
    lemma_spelling_73();
    lemma_spelling_74();
    lemma_spelling_75();
    lemma_spelling_76();
    lemma_spelling_77();
    lemma_spelling_78();
    lemma_spelling_79();
    lemma_spelling_80();
    lemma_spelling_81();
    lemma_spelling_82();
    lemma_spelling_83();
    lemma_spelling_84();
    lemma_spelling_85();
    lemma_spelling_86();
    lemma_spelling_87();
    lemma_spelling_88();
    lemma_spelling_89();
    lemma_spelling_90();
    lemma_spelling_91();
    lemma_spelling_92();
    lemma_spelling_93();
    lemma_spelling_94();
    lemma_spelling_95();
    lemma_spelling_96();
    lemma_spelling_97();
    lemma_spelling_98();
    lemma_spelling_99();
    lemma_spelling_100();
    lemma_spelling_101();
    lemma_spelling_102();
    lemma_spelling_103();
    lemma_spelling_104();
    lemma_spelling_105();
    lemma_spelling_106();
    lemma_spelling_107();
    lemma_spelling_108();
    lemma_spelling_109();
    lemma_spelling_110();
    lemma_spelling_111();
    lemma_spelling_112();
    lemma_spelling_113();
    lemma_spelling_114();
    lemma_spelling_115();
    lemma_spelling_116();
}

proof fn lemma_names_of_grid_auto_flow()
    ensures
        style_property_named("grid-auto-flow"@) == Some(StyleProperty::GridAutoFlow),
        style_property_named("gridAutoFlow"@) == Some(StyleProperty::GridAutoFlow),
{
    lemma_spelling_0();
    lemma_spelling_1();
    lemma_spelling_2();
    lemma_spelling_3();
    lemma_spelling_4();
    lemma_spelling_5();
    lemma_spelling_6();
    lemma_spelling_7();
    lemma_spelling_8();
    lemma_spelling_9();
    lemma_spelling_10();
    lemma_spelling_11();
    lemma_spelling_12();
    lemma_spelling_13();
    lemma_spelling_14();
    lemma_spelling_15();
    lemma_spelling_16();
    lemma_spelling_17();
    lemma_spelling_18();
    lemma_spelling_19();
    lemma_spelling_20();
    lemma_spelling_21();
    lemma_spelling_22();
    lemma_spelling_23();
    lemma_spelling_24();
    lemma_spelling_25();
    lemma_spelling_26();
    lemma_spelling_27();
    lemma_spelling_28();
    lemma_spelling_29();
    lemma_spelling_30();
    lemma_spelling_31();
    lemma_spelling_32();
    lemma_spelling_33();
    lemma_spelling_34();
    lemma_spelling_35();
    lemma_spelling_36();
    lemma_spelling_37();
    lemma_spelling_38();
    lemma_spelling_39();
    lemma_spelling_40();
    lemma_spelling_41();
    lemma_spelling_42();
    lemma_spelling_43();
    lemma_spelling_44();
    lemma_spelling_45();
    lemma_spelling_46();
    lemma_spelling_47();
    lemma_spelling_48();
    lemma_spelling_49();
    lemma_spelling_50();
    lemma_spelling_51();
    lemma_spelling_52();
    lemma_spelling_53();
    lemma_spelling_54();
    lemma_spelling_55();
    lemma_spelling_56();
    lemma_spelling_57();
    lemma_spelling_58();
    lemma_spelling_59();
    lemma_spelling_60();
    lemma_spelling_61();
    lemma_spelling_62();
    lemma_spelling_63();
    lemma_spelling_64();
    lemma_spelling_65();
    lemma_spelling_66();
    lemma_spelling_67();
    lemma_spelling_68();
    lemma_spelling_69();
    lemma_spelling_70();
    lemma_spelling_71();
    lemma_spelling_72();
    lemma_spelling_73();
    lemma_spelling_74();
    lemma_spelling_75();
    lemma_spelling_76();
    lemma_spelling_77();
    lemma_spelling_78();
    lemma_spelling_79();
    lemma_spelling_80();
    lemma_spelling_81();
    lemma_spelling_82();
    lemma_spelling_83();
    lemma_spelling_84();
    lemma_spelling_85();
    lemma_spelling_86();
    lemma_spelling_87();
    lemma_spelling_88();
    lemma_spelling_89();
    lemma_spelling_90();
    lemma_spelling_91();
    lemma_spelling_92();
    lemma_spelling_93();
    lemma_spelling_94();
    lemma_spelling_95();
    lemma_spelling_96();
    lemma_spelling_97();
    lemma_spelling_98();
    lemma_spelling_99();
    lemma_spelling_100();
    lemma_spelling_101();
    lemma_spelling_102();
    lemma_spelling_103();
    lemma_spelling_104();
    lemma_spelling_105();
    lemma_spelling_106();
    lemma_spelling_107();
    lemma_spelling_108();
    lemma_spelling_109();
    lemma_spelling_110();
    lemma_spelling_111();
    lemma_spelling_112();
    lemma_spelling_113();
    lemma_spelling_114();
    lemma_spelling_115();
    lemma_spelling_116();
    lemma_spelling_117();
    lemma_spelling_118();
}

proof fn lemma_names_of_grid_column()
    ensures
        style_property_named("grid-column"@) == Some(StyleProperty::GridColumn),
        style_property_named("gridColumn"@) == Some(StyleProperty::GridColumn),
{
    lemma_spelling_0();
    lemma_spelling_1();
    lemma_spelling_2();
    lemma_spelling_3();
    lemma_spelling_4();
    lemma_spelling_5();
    lemma_spelling_6();
    lemma_spelling_7();
    lemma_spelling_8();
    lemma_spelling_9();
    lemma_spelling_10();
    lemma_spelling_11();
    lemma_spelling_12();
    lemma_spelling_13();
    lemma_spelling_14();
    lemma_spelling_15();
    lemma_spelling_16();
    lemma_spelling_17();
    lemma_spelling_18();
    lemma_spelling_19();
    lemma_spelling_20();
    lemma_spelling_21();
    lemma_spelling_22();
    lemma_spelling_23();
    lemma_spelling_24();
    lemma_spelling_25();
    lemma_spelling_26();
    lemma_spelling_27();
    lemma_spelling_28();
    lemma_spelling_29();
    lemma_spelling_30();
    lemma_spelling_31();
    lemma_spelling_32();
    lemma_spelling_33();
    lemma_spelling_34();
    lemma_spelling_35();
    lemma_spelling_36();
    lemma_spelling_37();
    lemma_spelling_38();
    lemma_spelling_39();
    lemma_spelling_40();
    lemma_spelling_41();
    lemma_spelling_42();
    lemma_spelling_43();
    lemma_spelling_44();
    lemma_spelling_45();
    lemma_spelling_46();
    lemma_spelling_47();
    lemma_spelling_48();
    lemma_spelling_49();
    lemma_spelling_50();
    lemma_spelling_51();
    lemma_spelling_52();
    lemma_spelling_53();
    lemma_spelling_54();
    lemma_spelling_55();
    lemma_spelling_56();
    lemma_spelling_57();
    lemma_spelling_58();
    lemma_spelling_59();
    lemma_spelling_60();
    lemma_spelling_61();
    lemma_spelling_62();
    lemma_spelling_63();
    lemma_spelling_64();
    lemma_spelling_65();
    lemma_spelling_66();
    lemma_spelling_67();
    lemma_spelling_68();
    lemma_spelling_69();
    lemma_spelling_70();
    lemma_spelling_71();
    lemma_spelling_72();
    lemma_spelling_73();
    lemma_spelling_74();
    lemma_spelling_75();
    lemma_spelling_76();
    lemma_spelling_77();
    lemma_spelling_78();
    lemma_spelling_79();
    lemma_spelling_80();
    lemma_spelling_81();
    lemma_spelling_82();
    lemma_spelling_83();
    lemma_spelling_84();
    lemma_spelling_85();
    lemma_spelling_86();
    lemma_spelling_87();
    lemma_spelling_88();
    lemma_spelling_89();
    lemma_spelling_90();
    lemma_spelling_91();
    lemma_spelling_92();
    lemma_spelling_93();
    lemma_spelling_94();
    lemma_spelling_95();
    lemma_spelling_96();
    lemma_spelling_97();
    lemma_spelling_98();
    lemma_spelling_99();
    lemma_spelling_100();
    lemma_spelling_101();
    lemma_spelling_102();
    lemma_spelling_103();
    lemma_spelling_104();
    lemma_spelling_105();
    lemma_spelling_106();
    lemma_spelling_107();
    lemma_spelling_108();
    lemma_spelling_109();
    lemma_spelling_110();
    lemma_spelling_111();
    lemma_spelling_112();
    lemma_spelling_113();
    lemma_spelling_114();
    lemma_spelling_115();
    lemma_spelling_116();
    lemma_spelling_117();
    lemma_spelling_118();
    lemma_spelling_119();
    lemma_spelling_120();
}

proof fn lemma_names_of_grid_row()
    ensures
        style_property_named("grid-row"@) == Some(StyleProperty::GridRow),
        style_property_named("gridRow"@) == Some(StyleProperty::GridRow),
{
    lemma_spelling_0();
    lemma_spelling_1();
    lemma_spelling_2();
    lemma_spelling_3();
    lemma_spelling_4();
    lemma_spelling_5();
    lemma_spelling_6();
    lemma_spelling_7();
    lemma_spelling_8();
    lemma_spelling_9();
    lemma_spelling_10();
    lemma_spelling_11();
    lemma_spelling_12();
    lemma_spelling_13();
    lemma_spelling_14();
    lemma_spelling_15();
    lemma_spelling_16();
    lemma_spelling_17();
    lemma_spelling_18();
    lemma_spelling_19();
    lemma_spelling_20();
    lemma_spelling_21();
    lemma_spelling_22();
    lemma_spelling_23();
    lemma_spelling_24();
    lemma_spelling_25();
    lemma_spelling_26();
    lemma_spelling_27();
    lemma_spelling_28();
    lemma_spelling_29();
    lemma_spelling_30();
    lemma_spelling_31();
    lemma_spelling_32();
    lemma_spelling_33();
    lemma_spelling_34();
    lemma_spelling_35();
    lemma_spelling_36();
    lemma_spelling_37();
    lemma_spelling_38();
    lemma_spelling_39();
    lemma_spelling_40();
    lemma_spelling_41();
    lemma_spelling_42();
    lemma_spelling_43();
    lemma_spelling_44();
    lemma_spelling_45();
    lemma_spelling_46();
    lemma_spelling_47();
    lemma_spelling_48();
    lemma_spelling_49();
    lemma_spelling_50();
    lemma_spelling_51();
    lemma_spelling_52();
    lemma_spelling_53();
    lemma_spelling_54();
    lemma_spelling_55();
    lemma_spelling_56();
    lemma_spelling_57();
    lemma_spelling_58();
    lemma_spelling_59();
    lemma_spelling_60();
    lemma_spelling_61();
    lemma_spelling_62();
    lemma_spelling_63();
    lemma_spelling_64();
    lemma_spelling_65();
    lemma_spelling_66();
    lemma_spelling_67();
    lemma_spelling_68();
    lemma_spelling_69();
    lemma_spelling_70();
    lemma_spelling_71();
    lemma_spelling_72();
    lemma_spelling_73();
    lemma_spelling_74();
    lemma_spelling_75();
    lemma_spelling_76();
    lemma_spelling_77();
    lemma_spelling_78();
    lemma_spelling_79();
    lemma_spelling_80();
    lemma_spelling_81();
    lemma_spelling_82();
    lemma_spelling_83();
    lemma_spelling_84();
    lemma_spelling_85();
    lemma_spelling_86();
    lemma_spelling_87();
    lemma_spelling_88();
    lemma_spelling_89();
    lemma_spelling_90();
    lemma_spelling_91();
    lemma_spelling_92();
    lemma_spelling_93();
    lemma_spelling_94();
    lemma_spelling_95();
    lemma_spelling_96();
    lemma_spelling_97();
    lemma_spelling_98();
    lemma_spelling_99();
    lemma_spelling_100();
    lemma_spelling_101();
    lemma_spelling_102();
    lemma_spelling_103();
    lemma_spelling_104();
    lemma_spelling_105();
    lemma_spelling_106();
    lemma_spelling_107();
    lemma_spelling_108();
    lemma_spelling_109();
    lemma_spelling_110();
    lemma_spelling_111();
    lemma_spelling_112();
    lemma_spelling_113();
    lemma_spelling_114();
    lemma_spelling_115();
    lemma_spelling_116();
    lemma_spelling_117();
    lemma_spelling_118();
    lemma_spelling_119();
    lemma_spelling_120();
    lemma_spelling_121();
    lemma_spelling_122();
}

proof fn lemma_names_of_grid_column_start()
    ensures
        style_property_named("grid-column-start"@) == Some(StyleProperty::GridColumnStart),
        style_property_named("gridColumnStart"@) == Some(StyleProperty::GridColumnStart),
{
    lemma_spelling_0();
    lemma_spelling_1();
    lemma_spelling_2();
    lemma_spelling_3();
    lemma_spelling_4();
    lemma_spelling_5();
    lemma_spelling_6();
    lemma_spelling_7();
    lemma_spelling_8();
    lemma_spelling_9();
    lemma_spelling_10();
    lemma_spelling_11();
    lemma_spelling_12();
    lemma_spelling_13();
    lemma_spelling_14();
    lemma_spelling_15();
    lemma_spelling_16();
    lemma_spelling_17();
    lemma_spelling_18();
    lemma_spelling_19();
    lemma_spelling_20();
    lemma_spelling_21();
    lemma_spelling_22();
    lemma_spelling_23();
    lemma_spelling_24();
    lemma_spelling_25();
    lemma_spelling_26();
    lemma_spelling_27();
    lemma_spelling_28();
    lemma_spelling_29();
    lemma_spelling_30();
    lemma_spelling_31();
    lemma_spelling_32();
    lemma_spelling_33();
    lemma_spelling_34();
    lemma_spelling_35();
    lemma_spelling_36();
    lemma_spelling_37();
    lemma_spelling_38();
    lemma_spelling_39();
    lemma_spelling_40();
    lemma_spelling_41();
    lemma_spelling_42();
    lemma_spelling_43();
    lemma_spelling_44();
    lemma_spelling_45();
    lemma_spelling_46();
    lemma_spelling_47();
    lemma_spelling_48();
    lemma_spelling_49();
    lemma_spelling_50();
    lemma_spelling_51();
    lemma_spelling_52();
    lemma_spelling_53();
    lemma_spelling_54();
    lemma_spelling_55();
    lemma_spelling_56();
    lemma_spelling_57();
    lemma_spelling_58();
    lemma_spelling_59();
    lemma_spelling_60();
    lemma_spelling_61();
    lemma_spelling_62();
    lemma_spelling_63();
    lemma_spelling_64();
    lemma_spelling_65();
    lemma_spelling_66();
    lemma_spelling_67();
    lemma_spelling_68();
    lemma_spelling_69();
    lemma_spelling_70();
    lemma_spelling_71();
    lemma_spelling_72();
    lemma_spelling_73();
    lemma_spelling_74();
    lemma_spelling_75();
    lemma_spelling_76();
    lemma_spelling_77();
    lemma_spelling_78();
    lemma_spelling_79();
    lemma_spelling_80();
    lemma_spelling_81();
    lemma_spelling_82();
    lemma_spelling_83();
    lemma_spelling_84();
    lemma_spelling_85();
    lemma_spelling_86();
    lemma_spelling_87();
    lemma_spelling_88();
    lemma_spelling_89();
    lemma_spelling_90();
    lemma_spelling_91();
    lemma_spelling_92();
    lemma_spelling_93();
    lemma_spelling_94();
    lemma_spelling_95();
    lemma_spelling_96();
    lemma_spelling_97();
    lemma_spelling_98();
    lemma_spelling_99();
    lemma_spelling_100();
    lemma_spelling_101();
    lemma_spelling_102();
    lemma_spelling_103();
    lemma_spelling_104();
    lemma_spelling_105();
    lemma_spelling_106();
    lemma_spelling_107();
    lemma_spelling_108();
    lemma_spelling_109();
    lemma_spelling_110();
    lemma_spelling_111();
    lemma_spelling_112();
    lemma_spelling_113();
    lemma_spelling_114();
    lemma_spelling_115();
    lemma_spelling_116();
    lemma_spelling_117();
    lemma_spelling_118();
    lemma_spelling_119();
    lemma_spelling_120();
    lemma_spelling_121();
    lemma_spelling_122();
    lemma_spelling_123();
    lemma_spelling_124();
}

proof fn lemma_names_of_grid_column_end()
    ensures
        style_property_named("grid-column-end"@) == Some(StyleProperty::GridColumnEnd),
        style_property_named("gridColumnEnd"@) == Some(StyleProperty::GridColumnEnd),
{
    lemma_spelling_0();
    lemma_spelling_1();
    lemma_spelling_2();
    lemma_spelling_3();
    lemma_spelling_4();
    lemma_spelling_5();
    lemma_spelling_6();
    lemma_spelling_7();
    lemma_spelling_8();
    lemma_spelling_9();
    lemma_spelling_10();
    lemma_spelling_11();
    lemma_spelling_12();
    lemma_spelling_13();
    lemma_spelling_14();
    lemma_spelling_15();
    lemma_spelling_16();
    lemma_spelling_17();
    lemma_spelling_18();
    lemma_spelling_19();
    lemma_spelling_20();
    lemma_spelling_21();
    lemma_spelling_22();
    lemma_spelling_23();
    lemma_spelling_24();
    lemma_spelling_25();
    lemma_spelling_26();
    lemma_spelling_27();
    lemma_spelling_28();
    lemma_spelling_29();
    lemma_spelling_30();
    lemma_spelling_31();
    lemma_spelling_32();
    lemma_spelling_33();
    lemma_spelling_34();
    lemma_spelling_35();
    lemma_spelling_36();
    lemma_spelling_37();
    lemma_spelling_38();
    lemma_spelling_39();
    lemma_spelling_40();
    lemma_spelling_41();
    lemma_spelling_42();
    lemma_spelling_43();
    lemma_spelling_44();
    lemma_spelling_45();
    lemma_spelling_46();
    lemma_spelling_47();
    lemma_spelling_48();
    lemma_spelling_49();
    lemma_spelling_50();
    lemma_spelling_51();
    lemma_spelling_52();
    lemma_spelling_53();
    lemma_spelling_54();
    lemma_spelling_55();
    lemma_spelling_56();
    lemma_spelling_57();
    lemma_spelling_58();
    lemma_spelling_59();
    lemma_spelling_60();
    lemma_spelling_61();
    lemma_spelling_62();
    lemma_spelling_63();
    lemma_spelling_64();
    lemma_spelling_65();
    lemma_spelling_66();
    lemma_spelling_67();
    lemma_spelling_68();
    lemma_spelling_69();
    lemma_spelling_70();
    lemma_spelling_71();
    lemma_spelling_72();
    lemma_spelling_73();
    lemma_spelling_74();
    lemma_spelling_75();
    lemma_spelling_76();
    lemma_spelling_77();
    lemma_spelling_78();
    lemma_spelling_79();
    lemma_spelling_80();
    lemma_spelling_81();
    lemma_spelling_82();
    lemma_spelling_83();
    lemma_spelling_84();
    lemma_spelling_85();
    lemma_spelling_86();
    lemma_spelling_87();
    lemma_spelling_88();
    lemma_spelling_89();
    lemma_spelling_90();
    lemma_spelling_91();
    lemma_spelling_92();
    lemma_spelling_93();
    lemma_spelling_94();
    lemma_spelling_95();
    lemma_spelling_96();
    lemma_spelling_97();
    lemma_spelling_98();
    lemma_spelling_99();
    lemma_spelling_100();
    lemma_spelling_101();
    lemma_spelling_102();
    lemma_spelling_103();
    lemma_spelling_104();
    lemma_spelling_105();
    lemma_spelling_106();
    lemma_spelling_107();
    lemma_spelling_108();
    lemma_spelling_109();
    lemma_spelling_110();
    lemma_spelling_111();
    lemma_spelling_112();
    lemma_spelling_113();
    lemma_spelling_114();
    lemma_spelling_115();
    lemma_spelling_116();
    lemma_spelling_117();
    lemma_spelling_118();
    lemma_spelling_119();
    lemma_spelling_120();
    lemma_spelling_121();
    lemma_spelling_122();
    lemma_spelling_123();
    lemma_spelling_124();
    lemma_spelling_125();
    lemma_spelling_126();
}

proof fn lemma_names_of_grid_row_start()
    ensures
        style_property_named("grid-row-start"@) == Some(StyleProperty::GridRowStart),
        style_property_named("gridRowStart"@) == Some(StyleProperty::GridRowStart),
{
    lemma_spelling_0();
    lemma_spelling_1();
    lemma_spelling_2();
    lemma_spelling_3();
    lemma_spelling_4();
    lemma_spelling_5();
    lemma_spelling_6();
    lemma_spelling_7();
    lemma_spelling_8();
    lemma_spelling_9();
    lemma_spelling_10();
    lemma_spelling_11();
    lemma_spelling_12();
    lemma_spelling_13();
    lemma_spelling_14();
    lemma_spelling_15();
    lemma_spelling_16();
    lemma_spelling_17();
    lemma_spelling_18();
    lemma_spelling_19();
    lemma_spelling_20();
    lemma_spelling_21();
    lemma_spelling_22();
    lemma_spelling_23();
    lemma_spelling_24();
    lemma_spelling_25();
    lemma_spelling_26();
    lemma_spelling_27();
    lemma_spelling_28();
    lemma_spelling_29();
    lemma_spelling_30();
    lemma_spelling_31();
    lemma_spelling_32();
    lemma_spelling_33();
    lemma_spelling_34();
    lemma_spelling_35();
    lemma_spelling_36();
    lemma_spelling_37();
    lemma_spelling_38();
    lemma_spelling_39();
    lemma_spelling_40();
    lemma_spelling_41();
    lemma_spelling_42();
    lemma_spelling_43();
    lemma_spelling_44();
    lemma_spelling_45();
    lemma_spelling_46();
    lemma_spelling_47();
    lemma_spelling_48();
    lemma_spelling_49();
    lemma_spelling_50();
    lemma_spelling_51();
    lemma_spelling_52();
    lemma_spelling_53();
    lemma_spelling_54();
    lemma_spelling_55();
    lemma_spelling_56();
    lemma_spelling_57();
    lemma_spelling_58();
    lemma_spelling_59();
    lemma_spelling_60();
    lemma_spelling_61();
    lemma_spelling_62();
    lemma_spelling_63();
    lemma_spelling_64();
    lemma_spelling_65();
    lemma_spelling_66();
    lemma_spelling_67();
    lemma_spelling_68();
    lemma_spelling_69();
    lemma_spelling_70();
    lemma_spelling_71();
    lemma_spelling_72();
    lemma_spelling_73();
    lemma_spelling_74();
    lemma_spelling_75();
    lemma_spelling_76();
    lemma_spelling_77();
    lemma_spelling_78();
    lemma_spelling_79();
    lemma_spelling_80();
    lemma_spelling_81();
    lemma_spelling_82();
    lemma_spelling_83();
    lemma_spelling_84();
    lemma_spelling_85();
    lemma_spelling_86();
    lemma_spelling_87();
    lemma_spelling_88();
    lemma_spelling_89();
    lemma_spelling_90();
    lemma_spelling_91();
    lemma_spelling_92();
    lemma_spelling_93();
    lemma_spelling_94();
    lemma_spelling_95();
    lemma_spelling_96();
    lemma_spelling_97();
    lemma_spelling_98();
    lemma_spelling_99();
    lemma_spelling_100();
    lemma_spelling_101();
    lemma_spelling_102();
    lemma_spelling_103();
    lemma_spelling_104();
    lemma_spelling_105();
    lemma_spelling_106();
    lemma_spelling_107();
    lemma_spelling_108();
    lemma_spelling_109();
    lemma_spelling_110();
    lemma_spelling_111();
    lemma_spelling_112();
    lemma_spelling_113();
    lemma_spelling_114();
    lemma_spelling_115();
    lemma_spelling_116();
    lemma_spelling_117();
    lemma_spelling_118();
    lemma_spelling_119();
    lemma_spelling_120();
    lemma_spelling_121();
    lemma_spelling_122();
    lemma_spelling_123();
    lemma_spelling_124();
    lemma_spelling_125();
    lemma_spelling_126();
    lemma_spelling_127();
    lemma_spelling_128();
}

proof fn lemma_names_of_grid_row_end()
    ensures
        style_property_named("grid-row-end"@) == Some(StyleProperty::GridRowEnd),
        style_property_named("gridRowEnd"@) == Some(StyleProperty::GridRowEnd),
{
    lemma_spelling_0();
    lemma_spelling_1();
    lemma_spelling_2();
    lemma_spelling_3();
    lemma_spelling_4();
    lemma_spelling_5();
    lemma_spelling_6();
    lemma_spelling_7();
    lemma_spelling_8();
    lemma_spelling_9();
    lemma_spelling_10();
    lemma_spelling_11();
    lemma_spelling_12();
    lemma_spelling_13();
    lemma_spelling_14();
    lemma_spelling_15();
    lemma_spelling_16();
    lemma_spelling_17();
    lemma_spelling_18();
    lemma_spelling_19();
    lemma_spelling_20();
    lemma_spelling_21();
    lemma_spelling_22();
    lemma_spelling_23();
    lemma_spelling_24();
    lemma_spelling_25();
    lemma_spelling_26();
    lemma_spelling_27();
    lemma_spelling_28();
    lemma_spelling_29();
    lemma_spelling_30();
    lemma_spelling_31();
    lemma_spelling_32();
    lemma_spelling_33();
    lemma_spelling_34();
    lemma_spelling_35();
    lemma_spelling_36();
    lemma_spelling_37();
    lemma_spelling_38();
    lemma_spelling_39();
    lemma_spelling_40();
    lemma_spelling_41();
    lemma_spelling_42();
    lemma_spelling_43();
    lemma_spelling_44();
    lemma_spelling_45();
    lemma_spelling_46();
    lemma_spelling_47();
    lemma_spelling_48();
    lemma_spelling_49();
    lemma_spelling_50();
    lemma_spelling_51();
    lemma_spelling_52();
    lemma_spelling_53();
    lemma_spelling_54();
    lemma_spelling_55();
    lemma_spelling_56();
    lemma_spelling_57();
    lemma_spelling_58();
    lemma_spelling_59();
    lemma_spelling_60();
    lemma_spelling_61();
    lemma_spelling_62();
    lemma_spelling_63();
    lemma_spelling_64();
    lemma_spelling_65();
    lemma_spelling_66();
    lemma_spelling_67();
    lemma_spelling_68();
    lemma_spelling_69();
    lemma_spelling_70();
    lemma_spelling_71();
    lemma_spelling_72();
    lemma_spelling_73();
    lemma_spelling_74();
    lemma_spelling_75();
    lemma_spelling_76();
    lemma_spelling_77();
    lemma_spelling_78();
    lemma_spelling_79();
    lemma_spelling_80();
    lemma_spelling_81();
    lemma_spelling_82();
    lemma_spelling_83();
    lemma_spelling_84();
    lemma_spelling_85();
    lemma_spelling_86();
    lemma_spelling_87();
    lemma_spelling_88();
    lemma_spelling_89();
    lemma_spelling_90();
    lemma_spelling_91();
    lemma_spelling_92();
    lemma_spelling_93();
    lemma_spelling_94();
    lemma_spelling_95();
    lemma_spelling_96();
    lemma_spelling_97();
    lemma_spelling_98();
    lemma_spelling_99();
    lemma_spelling_100();
    lemma_spelling_101();
    lemma_spelling_102();
    lemma_spelling_103();
    lemma_spelling_104();
    lemma_spelling_105();
    lemma_spelling_106();
    lemma_spelling_107();
    lemma_spelling_108();
    lemma_spelling_109();
    lemma_spelling_110();
    lemma_spelling_111();
    lemma_spelling_112();
    lemma_spelling_113();
    lemma_spelling_114();
    lemma_spelling_115();
    lemma_spelling_116();
    lemma_spelling_117();
    lemma_spelling_118();
    lemma_spelling_119();
    lemma_spelling_120();
    lemma_spelling_121();
    lemma_spelling_122();
    lemma_spelling_123();
    lemma_spelling_124();
    lemma_spelling_125();
    lemma_spelling_126();
    lemma_spelling_127();
    lemma_spelling_128();
    lemma_spelling_129();
    lemma_spelling_130();
}

/// Every name of a property resolves to that property.
pub proof fn lemma_property_names_resolve(p: StyleProperty)
    ensures
        forall|k: int|
            0 <= k < property_names(p).len() ==> style_property_named(#[trigger] property_names(p)[k])
                == Some(p),
{
    match p {
        StyleProperty::Display => lemma_names_of_display(),
        StyleProperty::Position => lemma_names_of_position(),
        StyleProperty::Top => lemma_names_of_top(),
        StyleProperty::Right => lemma_names_of_right(),
        StyleProperty::Bottom => lemma_names_of_bottom(),
        StyleProperty::Left => lemma_names_of_left(),
        StyleProperty::ZIndex => lemma_names_of_z_index(),
        StyleProperty::Visibility => lemma_names_of_visibility(),
        StyleProperty::Opacity => lemma_names_of_opacity(),
        StyleProperty::Overflow => lemma_names_of_overflow(),
        StyleProperty::OverflowX => lemma_names_of_overflow_x(),
        StyleProperty::OverflowY => lemma_names_of_overflow_y(),
        StyleProperty::ScrollbarColor => lemma_names_of_scrollbar_color(),
        StyleProperty::ScrollbarGutter => lemma_names_of_scrollbar_gutter(),
        StyleProperty::ImageRendering => lemma_names_of_image_rendering(),
        StyleProperty::WhiteSpace => lemma_names_of_white_space(),
        StyleProperty::FlexDirection => lemma_names_of_flex_direction(),
        StyleProperty::FlexWrap => lemma_names_of_flex_wrap(),
        StyleProperty::FlexFlow => lemma_names_of_flex_flow(),
        StyleProperty::FlexBasis => lemma_names_of_flex_basis(),
        StyleProperty::FlexGrow => lemma_names_of_flex_grow(),
        StyleProperty::FlexShrink => lemma_names_of_flex_shrink(),
        StyleProperty::Flex => lemma_names_of_flex(),
        StyleProperty::JustifyContent => lemma_names_of_justify_content(),
        StyleProperty::AlignItems => lemma_names_of_align_items(),
        StyleProperty::AlignSelf => lemma_names_of_align_self(),
        StyleProperty::AlignContent => lemma_names_of_align_content(),
        StyleProperty::JustifyItems => lemma_names_of_justify_items(),
        StyleProperty::JustifySelf => lemma_names_of_justify_self(),
        StyleProperty::Gap => lemma_names_of_gap(),
        StyleProperty::RowGap => lemma_names_of_row_gap(),
        StyleProperty::ColumnGap => lemma_names_of_column_gap(),
        StyleProperty::Padding => lemma_names_of_padding(),
        StyleProperty::PaddingTop => lemma_names_of_padding_top(),
        StyleProperty::PaddingRight => lemma_names_of_padding_right(),
        StyleProperty::PaddingBottom => lemma_names_of_padding_bottom(),
        StyleProperty::PaddingLeft => lemma_names_of_padding_left(),
        StyleProperty::Margin => lemma_names_of_margin(),
        StyleProperty::MarginTop => lemma_names_of_margin_top(),
        StyleProperty::MarginRight => lemma_names_of_margin_right(),
        StyleProperty::MarginBottom => lemma_names_of_margin_bottom(),
        StyleProperty::MarginLeft => lemma_names_of_margin_left(),
        StyleProperty::Width => lemma_names_of_width(),
        StyleProperty::Height => lemma_names_of_height(),
        StyleProperty::MinWidth => lemma_names_of_min_width(),
        StyleProperty::MaxWidth => lemma_names_of_max_width(),
        StyleProperty::MinHeight => lemma_names_of_min_height(),
        StyleProperty::MaxHeight => lemma_names_of_max_height(),
        StyleProperty::Border => lemma_names_of_border(),
        StyleProperty::BorderTop => lemma_names_of_border_top(),
        StyleProperty::BorderRight => lemma_names_of_border_right(),
        StyleProperty::BorderBottom => lemma_names_of_border_bottom(),
        StyleProperty::BorderLeft => lemma_names_of_border_left(),
        StyleProperty::BorderColor => lemma_names_of_border_color(),
        StyleProperty::Color => lemma_names_of_color(),
        StyleProperty::PlaceholderColor => lemma_names_of_placeholder_color(),
        StyleProperty::Background => lemma_names_of_background(),
        StyleProperty::SelectionBackground => lemma_names_of_selection_background(),
        StyleProperty::FontWeight => lemma_names_of_font_weight(),
        StyleProperty::FontStyle => lemma_names_of_font_style(),
        StyleProperty::TextDecorationLine => lemma_names_of_text_decoration_line(),
        StyleProperty::Cursor => lemma_names_of_cursor(),
        StyleProperty::GridTemplateColumns => lemma_names_of_grid_template_columns(),
        StyleProperty::GridTemplateRows => lemma_names_of_grid_template_rows(),
        StyleProperty::GridAutoColumns => lemma_names_of_grid_auto_columns(),
        StyleProperty::GridAutoRows => lemma_names_of_grid_auto_rows(),
        StyleProperty::GridAutoFlow => lemma_names_of_grid_auto_flow(),
        StyleProperty::GridColumn => lemma_names_of_grid_column(),
        StyleProperty::GridRow => lemma_names_of_grid_row(),
        StyleProperty::GridColumnStart => lemma_names_of_grid_column_start(),
        StyleProperty::GridColumnEnd => lemma_names_of_grid_column_end(),
        StyleProperty::GridRowStart => lemma_names_of_grid_row_start(),
        StyleProperty::GridRowEnd => lemma_names_of_grid_row_end(),
    }
}

/// A name resolves only to a property it is a name of, so that no name
/// stands for two properties.
pub proof fn lemma_property_names_only(name: Seq<char>)
    ensures
        style_property_named(name) matches Some(p) ==> property_names(p).contains(name),
{
    if let Some(p) = style_property_named(name) {
        let names = property_names(p);
        assert(names[0] == name || (names.len() > 1 && names[1] == name) || (names.len() > 2
            && names[2] == name) || (names.len() > 3 && names[3] == name));
    }
}

/// Two properties with a name in common are the same property.
pub proof fn lemma_property_names_distinct(p: StyleProperty, q: StyleProperty, name: Seq<char>)
    requires
        property_names(p).contains(name),
        property_names(q).contains(name),
    ensures
        p == q,
{
    let i = choose|i: int| 0 <= i < property_names(p).len() && property_names(p)[i] == name;
    let j = choose|j: int| 0 <= j < property_names(q).len() && property_names(q)[j] == name;
    lemma_property_names_resolve(p);
    lemma_property_names_resolve(q);
    assert(style_property_named(property_names(p)[i]) == Some(p));
    assert(style_property_named(property_names(q)[j]) == Some(q));
}

/// A transition event names the CSS property that transitioned: its name
/// resolves to that property, and distinct properties get distinct names.
pub proof fn lemma_transition_names_are_css_names(t: TransitionProperty, u: TransitionProperty)
    ensures
        style_property_named(spec_transition_property_name(t)) == Some(
            match t {
                TransitionProperty::Color => StyleProperty::Color,
                TransitionProperty::BackgroundColor => StyleProperty::Background,
                TransitionProperty::BorderColor => StyleProperty::BorderColor,
                TransitionProperty::Opacity => StyleProperty::Opacity,
            },
        ),
        t != u ==> spec_transition_property_name(t) != spec_transition_property_name(u),
{
    lemma_property_names_resolve(StyleProperty::Color);
    lemma_property_names_resolve(StyleProperty::Background);
    lemma_property_names_resolve(StyleProperty::BorderColor);
    lemma_property_names_resolve(StyleProperty::Opacity);
    assert(style_property_named(property_names(StyleProperty::Color)[0]) == Some(StyleProperty::Color));
    assert(style_property_named(property_names(StyleProperty::Background)[1]) == Some(
        StyleProperty::Background,
    ));
    assert(style_property_named(property_names(StyleProperty::BorderColor)[0]) == Some(
        StyleProperty::BorderColor,
    ));
    assert(style_property_named(property_names(StyleProperty::Opacity)[0]) == Some(
        StyleProperty::Opacity,
    ));
}

} // verus!
