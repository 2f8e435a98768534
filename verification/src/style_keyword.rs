//! Keyword values of style properties and the colours that style values
//! name.

use vstd::prelude::*;
use crate::style::Background;
use crate::style_value::chars_are;

verus! {

/// CSS `flex-direction`.
#[derive(Clone, Copy, Debug, PartialEq, Eq, Structural)]
pub enum FlexDirection {
    Row,
    RowReverse,
    Column,
    ColumnReverse,
}

/// The `flex-direction` value a keyword names.
pub open spec fn flex_direction_named(t: Seq<char>) -> Option<FlexDirection> {

    if t == "row"@ {
        Some(FlexDirection::Row)

    } else if t == "row-reverse"@ {
        Some(FlexDirection::RowReverse)

    } else if t == "column"@ {
        Some(FlexDirection::Column)

    } else if t == "column-reverse"@ {
        Some(FlexDirection::ColumnReverse)

    } else {
        None
    }
}

/// Reads a `flex-direction` keyword.
pub fn flex_direction_of(t: &Vec<char>) -> (r: Option<FlexDirection>)
    ensures
        r == flex_direction_named(t@),
{

    if chars_are(t, "row") {
        Some(FlexDirection::Row)

    } else if chars_are(t, "row-reverse") {
        Some(FlexDirection::RowReverse)

    } else if chars_are(t, "column") {
        Some(FlexDirection::Column)

    } else if chars_are(t, "column-reverse") {
        Some(FlexDirection::ColumnReverse)

    } else {
        None
    }
}

/// CSS `flex-wrap`.
#[derive(Clone, Copy, Debug, PartialEq, Eq, Structural)]
pub enum FlexWrap {
    NoWrap,
    Wrap,
    WrapReverse,
}

/// The `flex-wrap` value a keyword names.
pub open spec fn flex_wrap_named(t: Seq<char>) -> Option<FlexWrap> {

    if t == "nowrap"@ {
        Some(FlexWrap::NoWrap)

    } else if t == "wrap"@ {
        Some(FlexWrap::Wrap)

    } else if t == "wrap-reverse"@ {
        Some(FlexWrap::WrapReverse)

    } else {
        None
    }
}

/// Reads a `flex-wrap` keyword.
pub fn flex_wrap_of(t: &Vec<char>) -> (r: Option<FlexWrap>)
    ensures
        r == flex_wrap_named(t@),
{

    if chars_are(t, "nowrap") {
        Some(FlexWrap::NoWrap)

    } else if chars_are(t, "wrap") {
        Some(FlexWrap::Wrap)

    } else if chars_are(t, "wrap-reverse") {
        Some(FlexWrap::WrapReverse)

    } else {
        None
    }
}

/// CSS `justify-content` and `align-content`.
#[derive(Clone, Copy, Debug, PartialEq, Eq, Structural)]
pub enum JustifyContent {
    Start,
    End,
    FlexStart,
    FlexEnd,
    Center,
    Stretch,
    SpaceBetween,
    SpaceEvenly,
    SpaceAround,
}

/// The `justify-content` value a keyword names.
pub open spec fn justify_content_named(t: Seq<char>) -> Option<JustifyContent> {

    if t == "start"@ {
        Some(JustifyContent::Start)

    } else if t == "end"@ {
        Some(JustifyContent::End)

    } else if t == "flex-start"@ {
        Some(JustifyContent::FlexStart)

    } else if t == "flex-end"@ {
        Some(JustifyContent::FlexEnd)

    } else if t == "center"@ {
        Some(JustifyContent::Center)

    } else if t == "stretch"@ {
        Some(JustifyContent::Stretch)

    } else if t == "space-between"@ {
        Some(JustifyContent::SpaceBetween)

    } else if t == "space-evenly"@ {
        Some(JustifyContent::SpaceEvenly)

    } else if t == "space-around"@ {
        Some(JustifyContent::SpaceAround)

    } else {
        None
    }
}

/// Reads a `justify-content` keyword.
pub fn justify_content_of(t: &Vec<char>) -> (r: Option<JustifyContent>)
    ensures
        r == justify_content_named(t@),
{

    if chars_are(t, "start") {
        Some(JustifyContent::Start)

    } else if chars_are(t, "end") {
        Some(JustifyContent::End)

    } else if chars_are(t, "flex-start") {
        Some(JustifyContent::FlexStart)

    } else if chars_are(t, "flex-end") {
        Some(JustifyContent::FlexEnd)

    } else if chars_are(t, "center") {
        Some(JustifyContent::Center)

    } else if chars_are(t, "stretch") {
        Some(JustifyContent::Stretch)

    } else if chars_are(t, "space-between") {
        Some(JustifyContent::SpaceBetween)

    } else if chars_are(t, "space-evenly") {
        Some(JustifyContent::SpaceEvenly)

    } else if chars_are(t, "space-around") {
        Some(JustifyContent::SpaceAround)

    } else {
        None
    }
}

/// CSS `align-items`, `align-self`, `justify-items` and `justify-self`.
#[derive(Clone, Copy, Debug, PartialEq, Eq, Structural)]
pub enum AlignItems {
    Start,
    End,
    FlexStart,
    FlexEnd,
    Center,
    Baseline,
    Stretch,
}

/// The `align-items` value a keyword names.
pub open spec fn align_items_named(t: Seq<char>) -> Option<AlignItems> {

    if t == "start"@ {
        Some(AlignItems::Start)

    } else if t == "end"@ {
        Some(AlignItems::End)

    } else if t == "flex-start"@ {
        Some(AlignItems::FlexStart)

    } else if t == "flex-end"@ {
        Some(AlignItems::FlexEnd)

    } else if t == "center"@ {
        Some(AlignItems::Center)

    } else if t == "baseline"@ {
        Some(AlignItems::Baseline)

    } else if t == "stretch"@ {
        Some(AlignItems::Stretch)

    } else {
        None
    }
}

/// Reads a `align-items` keyword.
pub fn align_items_of(t: &Vec<char>) -> (r: Option<AlignItems>)
    ensures
        r == align_items_named(t@),
{

    if chars_are(t, "start") {
        Some(AlignItems::Start)

    } else if chars_are(t, "end") {
        Some(AlignItems::End)

    } else if chars_are(t, "flex-start") {
        Some(AlignItems::FlexStart)

    } else if chars_are(t, "flex-end") {
        Some(AlignItems::FlexEnd)

    } else if chars_are(t, "center") {
        Some(AlignItems::Center)

    } else if chars_are(t, "baseline") {
        Some(AlignItems::Baseline)

    } else if chars_are(t, "stretch") {
        Some(AlignItems::Stretch)

    } else {
        None
    }
}

/// CSS `font-weight`.
#[derive(Clone, Copy, Debug, PartialEq, Eq, Structural)]
pub enum FontWeight {
    Normal,
    Bold,
}

/// The `font-weight` value a keyword names.
pub open spec fn font_weight_named(t: Seq<char>) -> Option<FontWeight> {

    if t == "normal"@ {
        Some(FontWeight::Normal)

    } else if t == "bold"@ {
        Some(FontWeight::Bold)

    } else {
        None
    }
}

/// Reads a `font-weight` keyword.
pub fn font_weight_of(t: &Vec<char>) -> (r: Option<FontWeight>)
    ensures
        r == font_weight_named(t@),
{

    if chars_are(t, "normal") {
        Some(FontWeight::Normal)

    } else if chars_are(t, "bold") {
        Some(FontWeight::Bold)

    } else {
        None
    }
}

/// CSS `font-style`.
#[derive(Clone, Copy, Debug, PartialEq, Eq, Structural)]
pub enum FontStyle {
    Normal,
    Italic,
}

/// The `font-style` value a keyword names.
pub open spec fn font_style_named(t: Seq<char>) -> Option<FontStyle> {

    if t == "normal"@ {
        Some(FontStyle::Normal)

    } else if t == "italic"@ {
        Some(FontStyle::Italic)

    } else {
        None
    }
}

/// Reads a `font-style` keyword.
pub fn font_style_of(t: &Vec<char>) -> (r: Option<FontStyle>)
    ensures
        r == font_style_named(t@),
{

    if chars_are(t, "normal") {
        Some(FontStyle::Normal)

    } else if chars_are(t, "italic") {
        Some(FontStyle::Italic)

    } else {
        None
    }
}

/// CSS `text-decoration-line`.
#[derive(Clone, Copy, Debug, PartialEq, Eq, Structural)]
pub enum TextDecorationLine {
    NoDecoration,
    Underline,
    LineThrough,
}

/// The `text-decoration-line` value a keyword names.
pub open spec fn text_decoration_line_named(t: Seq<char>) -> Option<TextDecorationLine> {

    if t == "none"@ {
        Some(TextDecorationLine::NoDecoration)

    } else if t == "underline"@ {
        Some(TextDecorationLine::Underline)

    } else if t == "line-through"@ {
        Some(TextDecorationLine::LineThrough)

    } else {
        None
    }
}

/// Reads a `text-decoration-line` keyword.
pub fn text_decoration_line_of(t: &Vec<char>) -> (r: Option<TextDecorationLine>)
    ensures
        r == text_decoration_line_named(t@),
{

    if chars_are(t, "none") {
        Some(TextDecorationLine::NoDecoration)

    } else if chars_are(t, "underline") {
        Some(TextDecorationLine::Underline)

    } else if chars_are(t, "line-through") {
        Some(TextDecorationLine::LineThrough)

    } else {
        None
    }
}

/// CSS `scrollbar-gutter`.
#[derive(Clone, Copy, Debug, PartialEq, Eq, Structural)]
pub enum ScrollbarGutter {
    Auto,
    Stable,
}

/// The `scrollbar-gutter` value a keyword names.
pub open spec fn scrollbar_gutter_named(t: Seq<char>) -> Option<ScrollbarGutter> {

    if t == "auto"@ {
        Some(ScrollbarGutter::Auto)

    } else if t == "stable"@ {
        Some(ScrollbarGutter::Stable)

    } else {
        None
    }
}

/// Reads a `scrollbar-gutter` keyword.
pub fn scrollbar_gutter_of(t: &Vec<char>) -> (r: Option<ScrollbarGutter>)
    ensures
        r == scrollbar_gutter_named(t@),
{

    if chars_are(t, "auto") {
        Some(ScrollbarGutter::Auto)

    } else if chars_are(t, "stable") {
        Some(ScrollbarGutter::Stable)

    } else {
        None
    }
}

/// The colour a CSS colour name names: the eight terminal palette colours
/// by their names, every other CSS named colour as its RGB value.
pub open spec fn colour_named(t: Seq<char>) -> Option<Background> {

    if t == "aliceblue"@ {
        Some(Background::Rgb(240, 248, 255))

    } else if t == "antiquewhite"@ {
        Some(Background::Rgb(250, 235, 215))

    } else if t == "aqua"@ {
        Some(Background::Rgb(0, 255, 255))

    } else if t == "aquamarine"@ {
        Some(Background::Rgb(127, 255, 212))

    } else if t == "azure"@ {
        Some(Background::Rgb(240, 255, 255))

    } else if t == "beige"@ {
        Some(Background::Rgb(245, 245, 220))

    } else if t == "bisque"@ {
        Some(Background::Rgb(255, 228, 196))

    } else if t == "black"@ {
        Some(Background::Black)

    } else if t == "blanchedalmond"@ {
        Some(Background::Rgb(255, 235, 205))

    } else if t == "blue"@ {
        Some(Background::Blue)

    } else if t == "blueviolet"@ {
        Some(Background::Rgb(138, 43, 226))

    } else if t == "brown"@ {
        Some(Background::Rgb(165, 42, 42))

    } else if t == "burlywood"@ {
        Some(Background::Rgb(222, 184, 135))

    } else if t == "cadetblue"@ {
        Some(Background::Rgb(95, 158, 160))

    } else if t == "chartreuse"@ {
        Some(Background::Rgb(127, 255, 0))

    } else if t == "chocolate"@ {
        Some(Background::Rgb(210, 105, 30))

    } else if t == "coral"@ {
        Some(Background::Rgb(255, 127, 80))

    } else if t == "cornflowerblue"@ {
        Some(Background::Rgb(100, 149, 237))

    } else if t == "cornsilk"@ {
        Some(Background::Rgb(255, 248, 220))

    } else if t == "crimson"@ {
        Some(Background::Rgb(220, 20, 60))

    } else if t == "cyan"@ {
        Some(Background::Cyan)

    } else if t == "darkblue"@ {
        Some(Background::Rgb(0, 0, 139))

    } else if t == "darkcyan"@ {
        Some(Background::Rgb(0, 139, 139))

    } else if t == "darkgoldenrod"@ {
        Some(Background::Rgb(184, 134, 11))

    } else if t == "darkgray"@ {
        Some(Background::Rgb(169, 169, 169))

    } else if t == "darkgreen"@ {
        Some(Background::Rgb(0, 100, 0))

    } else if t == "darkgrey"@ {
        Some(Background::Rgb(169, 169, 169))

    } else if t == "darkkhaki"@ {
        Some(Background::Rgb(189, 183, 107))

    } else if t == "darkmagenta"@ {
        Some(Background::Rgb(139, 0, 139))

    } else if t == "darkolivegreen"@ {
        Some(Background::Rgb(85, 107, 47))

    } else if t == "darkorange"@ {
        Some(Background::Rgb(255, 140, 0))

    } else if t == "darkorchid"@ {
        Some(Background::Rgb(153, 50, 204))

    } else if t == "darkred"@ {
        Some(Background::Rgb(139, 0, 0))

    } else if t == "darksalmon"@ {
        Some(Background::Rgb(233, 150, 122))

    } else if t == "darkseagreen"@ {
        Some(Background::Rgb(143, 188, 143))

    } else if t == "darkslateblue"@ {
        Some(Background::Rgb(72, 61, 139))

    } else if t == "darkslategray"@ {
        Some(Background::Rgb(47, 79, 79))

    } else if t == "darkslategrey"@ {
        Some(Background::Rgb(47, 79, 79))

    } else if t == "darkturquoise"@ {
        Some(Background::Rgb(0, 206, 209))

    } else if t == "darkviolet"@ {
        Some(Background::Rgb(148, 0, 211))

    } else if t == "deeppink"@ {
        Some(Background::Rgb(255, 20, 147))

    } else if t == "deepskyblue"@ {
        Some(Background::Rgb(0, 191, 255))

    } else if t == "dimgray"@ {
        Some(Background::Rgb(105, 105, 105))

    } else if t == "dimgrey"@ {
        Some(Background::Rgb(105, 105, 105))

    } else if t == "dodgerblue"@ {
        Some(Background::Rgb(30, 144, 255))

    } else if t == "firebrick"@ {
        Some(Background::Rgb(178, 34, 34))

    } else if t == "floralwhite"@ {
        Some(Background::Rgb(255, 250, 240))

    } else if t == "forestgreen"@ {
        Some(Background::Rgb(34, 139, 34))

    } else if t == "fuchsia"@ {
        Some(Background::Rgb(255, 0, 255))

    } else if t == "gainsboro"@ {
        Some(Background::Rgb(220, 220, 220))

    } else if t == "ghostwhite"@ {
        Some(Background::Rgb(248, 248, 255))

    } else if t == "gold"@ {
        Some(Background::Rgb(255, 215, 0))

    } else if t == "goldenrod"@ {
        Some(Background::Rgb(218, 165, 32))

    } else if t == "gray"@ {
        Some(Background::Rgb(128, 128, 128))

    } else if t == "green"@ {
        Some(Background::Green)

    } else if t == "greenyellow"@ {
        Some(Background::Rgb(173, 255, 47))

    } else if t == "grey"@ {
        Some(Background::Rgb(128, 128, 128))

    } else if t == "honeydew"@ {
        Some(Background::Rgb(240, 255, 240))

    } else if t == "hotpink"@ {
        Some(Background::Rgb(255, 105, 180))

    } else if t == "indianred"@ {
        Some(Background::Rgb(205, 92, 92))

    } else if t == "indigo"@ {
        Some(Background::Rgb(75, 0, 130))

    } else if t == "ivory"@ {
        Some(Background::Rgb(255, 255, 240))

    } else if t == "khaki"@ {
        Some(Background::Rgb(240, 230, 140))

    } else if t == "lavender"@ {
        Some(Background::Rgb(230, 230, 250))

    } else if t == "lavenderblush"@ {
        Some(Background::Rgb(255, 240, 245))

    } else if t == "lawngreen"@ {
        Some(Background::Rgb(124, 252, 0))

    } else if t == "lemonchiffon"@ {
        Some(Background::Rgb(255, 250, 205))

    } else if t == "lightblue"@ {
        Some(Background::Rgb(173, 216, 230))

    } else if t == "lightcoral"@ {
        Some(Background::Rgb(240, 128, 128))

    } else if t == "lightcyan"@ {
        Some(Background::Rgb(224, 255, 255))

    } else if t == "lightgoldenrodyellow"@ {
        Some(Background::Rgb(250, 250, 210))

    } else if t == "lightgray"@ {
        Some(Background::Rgb(211, 211, 211))

    } else if t == "lightgreen"@ {
        Some(Background::Rgb(144, 238, 144))

    } else if t == "lightgrey"@ {
        Some(Background::Rgb(211, 211, 211))

    } else if t == "lightpink"@ {
        Some(Background::Rgb(255, 182, 193))

    } else if t == "lightsalmon"@ {
        Some(Background::Rgb(255, 160, 122))

    } else if t == "lightseagreen"@ {
        Some(Background::Rgb(32, 178, 170))

    } else if t == "lightskyblue"@ {
        Some(Background::Rgb(135, 206, 250))

    } else if t == "lightslategray"@ {
        Some(Background::Rgb(119, 136, 153))

    } else if t == "lightslategrey"@ {
        Some(Background::Rgb(119, 136, 153))

    } else if t == "lightsteelblue"@ {
        Some(Background::Rgb(176, 196, 222))

    } else if t == "lightyellow"@ {
        Some(Background::Rgb(255, 255, 224))

    } else if t == "lime"@ {
        Some(Background::Rgb(0, 255, 0))

    } else if t == "limegreen"@ {
        Some(Background::Rgb(50, 205, 50))

    } else if t == "linen"@ {
        Some(Background::Rgb(250, 240, 230))

    } else if t == "magenta"@ {
        Some(Background::Magenta)

    } else if t == "maroon"@ {
        Some(Background::Rgb(128, 0, 0))

    } else if t == "mediumaquamarine"@ {
        Some(Background::Rgb(102, 205, 170))

    } else if t == "mediumblue"@ {
        Some(Background::Rgb(0, 0, 205))

    } else if t == "mediumorchid"@ {
        Some(Background::Rgb(186, 85, 211))

    } else if t == "mediumpurple"@ {
        Some(Background::Rgb(147, 112, 219))

    } else if t == "mediumseagreen"@ {
        Some(Background::Rgb(60, 179, 113))

    } else if t == "mediumslateblue"@ {
        Some(Background::Rgb(123, 104, 238))

    } else if t == "mediumspringgreen"@ {
        Some(Background::Rgb(0, 250, 154))

    } else if t == "mediumturquoise"@ {
        Some(Background::Rgb(72, 209, 204))

    } else if t == "mediumvioletred"@ {
        Some(Background::Rgb(199, 21, 133))

    } else if t == "midnightblue"@ {
        Some(Background::Rgb(25, 25, 112))

    } else if t == "mintcream"@ {
        Some(Background::Rgb(245, 255, 250))

    } else if t == "mistyrose"@ {
        Some(Background::Rgb(255, 228, 225))

    } else if t == "moccasin"@ {
        Some(Background::Rgb(255, 228, 181))

    } else if t == "navajowhite"@ {
        Some(Background::Rgb(255, 222, 173))

    } else if t == "navy"@ {
        Some(Background::Rgb(0, 0, 128))

    } else if t == "oldlace"@ {
        Some(Background::Rgb(253, 245, 230))

    } else if t == "olive"@ {
        Some(Background::Rgb(128, 128, 0))

    } else if t == "olivedrab"@ {
        Some(Background::Rgb(107, 142, 35))

    } else if t == "orange"@ {
        Some(Background::Rgb(255, 165, 0))

    } else if t == "orangered"@ {
        Some(Background::Rgb(255, 69, 0))

    } else if t == "orchid"@ {
        Some(Background::Rgb(218, 112, 214))

    } else if t == "palegoldenrod"@ {
        Some(Background::Rgb(238, 232, 170))

    } else if t == "palegreen"@ {
        Some(Background::Rgb(152, 251, 152))

    } else if t == "paleturquoise"@ {
        Some(Background::Rgb(175, 238, 238))

    } else if t == "palevioletred"@ {
        Some(Background::Rgb(219, 112, 147))

    } else if t == "papayawhip"@ {
        Some(Background::Rgb(255, 239, 213))

    } else if t == "peachpuff"@ {
        Some(Background::Rgb(255, 218, 185))

    } else if t == "peru"@ {
        Some(Background::Rgb(205, 133, 63))

    } else if t == "pink"@ {
        Some(Background::Rgb(255, 192, 203))

    } else if t == "plum"@ {
        Some(Background::Rgb(221, 160, 221))

    } else if t == "powderblue"@ {
        Some(Background::Rgb(176, 224, 230))

    } else if t == "purple"@ {
        Some(Background::Rgb(128, 0, 128))

    } else if t == "rebeccapurple"@ {
        Some(Background::Rgb(102, 51, 153))

    } else if t == "red"@ {
        Some(Background::Red)

    } else if t == "rosybrown"@ {
        Some(Background::Rgb(188, 143, 143))

    } else if t == "royalblue"@ {
        Some(Background::Rgb(65, 105, 225))

    } else if t == "saddlebrown"@ {
        Some(Background::Rgb(139, 69, 19))

    } else if t == "salmon"@ {
        Some(Background::Rgb(250, 128, 114))

    } else if t == "sandybrown"@ {
        Some(Background::Rgb(244, 164, 96))

    } else if t == "seagreen"@ {
        Some(Background::Rgb(46, 139, 87))

    } else if t == "seashell"@ {
        Some(Background::Rgb(255, 245, 238))

    } else if t == "sienna"@ {
        Some(Background::Rgb(160, 82, 45))

    } else if t == "silver"@ {
        Some(Background::Rgb(192, 192, 192))

    } else if t == "skyblue"@ {
        Some(Background::Rgb(135, 206, 235))

    } else if t == "slateblue"@ {
        Some(Background::Rgb(106, 90, 205))

    } else if t == "slategray"@ {
        Some(Background::Rgb(112, 128, 144))

    } else if t == "slategrey"@ {
        Some(Background::Rgb(112, 128, 144))

    } else if t == "snow"@ {
        Some(Background::Rgb(255, 250, 250))

    } else if t == "springgreen"@ {
        Some(Background::Rgb(0, 255, 127))

    } else if t == "steelblue"@ {
        Some(Background::Rgb(70, 130, 180))

    } else if t == "tan"@ {
        Some(Background::Rgb(210, 180, 140))

    } else if t == "teal"@ {
        Some(Background::Rgb(0, 128, 128))

    } else if t == "thistle"@ {
        Some(Background::Rgb(216, 191, 216))

    } else if t == "tomato"@ {
        Some(Background::Rgb(255, 99, 71))

    } else if t == "turquoise"@ {
        Some(Background::Rgb(64, 224, 208))

    } else if t == "violet"@ {
        Some(Background::Rgb(238, 130, 238))

    } else if t == "wheat"@ {
        Some(Background::Rgb(245, 222, 179))

    } else if t == "white"@ {
        Some(Background::White)

    } else if t == "whitesmoke"@ {
        Some(Background::Rgb(245, 245, 245))

    } else if t == "yellow"@ {
        Some(Background::Yellow)

    } else if t == "yellowgreen"@ {
        Some(Background::Rgb(154, 205, 50))

    } else {
        None
    }
}

/// Reads a CSS colour name.
#[verifier::rlimit(50)]
pub fn colour_name_of(t: &Vec<char>) -> (r: Option<Background>)
    ensures
        r == colour_named(t@),
{

    if chars_are(t, "aliceblue") {
        Some(Background::Rgb(240, 248, 255))

    } else if chars_are(t, "antiquewhite") {
        Some(Background::Rgb(250, 235, 215))

    } else if chars_are(t, "aqua") {
        Some(Background::Rgb(0, 255, 255))

    } else if chars_are(t, "aquamarine") {
        Some(Background::Rgb(127, 255, 212))

    } else if chars_are(t, "azure") {
        Some(Background::Rgb(240, 255, 255))

    } else if chars_are(t, "beige") {
        Some(Background::Rgb(245, 245, 220))

    } else if chars_are(t, "bisque") {
        Some(Background::Rgb(255, 228, 196))

    } else if chars_are(t, "black") {
        Some(Background::Black)

    } else if chars_are(t, "blanchedalmond") {
        Some(Background::Rgb(255, 235, 205))

    } else if chars_are(t, "blue") {
        Some(Background::Blue)

    } else if chars_are(t, "blueviolet") {
        Some(Background::Rgb(138, 43, 226))

    } else if chars_are(t, "brown") {
        Some(Background::Rgb(165, 42, 42))

    } else if chars_are(t, "burlywood") {
        Some(Background::Rgb(222, 184, 135))

    } else if chars_are(t, "cadetblue") {
        Some(Background::Rgb(95, 158, 160))

    } else if chars_are(t, "chartreuse") {
        Some(Background::Rgb(127, 255, 0))

    } else if chars_are(t, "chocolate") {
        Some(Background::Rgb(210, 105, 30))

    } else if chars_are(t, "coral") {
        Some(Background::Rgb(255, 127, 80))

    } else if chars_are(t, "cornflowerblue") {
        Some(Background::Rgb(100, 149, 237))

    } else if chars_are(t, "cornsilk") {
        Some(Background::Rgb(255, 248, 220))

    } else if chars_are(t, "crimson") {
        Some(Background::Rgb(220, 20, 60))

    } else if chars_are(t, "cyan") {
        Some(Background::Cyan)

    } else if chars_are(t, "darkblue") {
        Some(Background::Rgb(0, 0, 139))

    } else if chars_are(t, "darkcyan") {
        Some(Background::Rgb(0, 139, 139))

    } else if chars_are(t, "darkgoldenrod") {
        Some(Background::Rgb(184, 134, 11))

    } else if chars_are(t, "darkgray") {
        Some(Background::Rgb(169, 169, 169))

    } else if chars_are(t, "darkgreen") {
        Some(Background::Rgb(0, 100, 0))

    } else if chars_are(t, "darkgrey") {
        Some(Background::Rgb(169, 169, 169))

    } else if chars_are(t, "darkkhaki") {
        Some(Background::Rgb(189, 183, 107))

    } else if chars_are(t, "darkmagenta") {
        Some(Background::Rgb(139, 0, 139))

    } else if chars_are(t, "darkolivegreen") {
        Some(Background::Rgb(85, 107, 47))

    } else if chars_are(t, "darkorange") {
        Some(Background::Rgb(255, 140, 0))

    } else if chars_are(t, "darkorchid") {
        Some(Background::Rgb(153, 50, 204))

    } else if chars_are(t, "darkred") {
        Some(Background::Rgb(139, 0, 0))

    } else if chars_are(t, "darksalmon") {
        Some(Background::Rgb(233, 150, 122))

    } else if chars_are(t, "darkseagreen") {
        Some(Background::Rgb(143, 188, 143))

    } else if chars_are(t, "darkslateblue") {
        Some(Background::Rgb(72, 61, 139))

    } else if chars_are(t, "darkslategray") {
        Some(Background::Rgb(47, 79, 79))

    } else if chars_are(t, "darkslategrey") {
        Some(Background::Rgb(47, 79, 79))

    } else if chars_are(t, "darkturquoise") {
        Some(Background::Rgb(0, 206, 209))

    } else if chars_are(t, "darkviolet") {
        Some(Background::Rgb(148, 0, 211))

    } else if chars_are(t, "deeppink") {
        Some(Background::Rgb(255, 20, 147))

    } else if chars_are(t, "deepskyblue") {
        Some(Background::Rgb(0, 191, 255))

    } else if chars_are(t, "dimgray") {
        Some(Background::Rgb(105, 105, 105))

    } else if chars_are(t, "dimgrey") {
        Some(Background::Rgb(105, 105, 105))

    } else if chars_are(t, "dodgerblue") {
        Some(Background::Rgb(30, 144, 255))

    } else if chars_are(t, "firebrick") {
        Some(Background::Rgb(178, 34, 34))

    } else if chars_are(t, "floralwhite") {
        Some(Background::Rgb(255, 250, 240))

    } else if chars_are(t, "forestgreen") {
        Some(Background::Rgb(34, 139, 34))

    } else if chars_are(t, "fuchsia") {
        Some(Background::Rgb(255, 0, 255))

    } else if chars_are(t, "gainsboro") {
        Some(Background::Rgb(220, 220, 220))

    } else if chars_are(t, "ghostwhite") {
        Some(Background::Rgb(248, 248, 255))

    } else if chars_are(t, "gold") {
        Some(Background::Rgb(255, 215, 0))

    } else if chars_are(t, "goldenrod") {
        Some(Background::Rgb(218, 165, 32))

    } else if chars_are(t, "gray") {
        Some(Background::Rgb(128, 128, 128))

    } else if chars_are(t, "green") {
        Some(Background::Green)

    } else if chars_are(t, "greenyellow") {
        Some(Background::Rgb(173, 255, 47))

    } else if chars_are(t, "grey") {
        Some(Background::Rgb(128, 128, 128))

    } else if chars_are(t, "honeydew") {
        Some(Background::Rgb(240, 255, 240))

    } else if chars_are(t, "hotpink") {
        Some(Background::Rgb(255, 105, 180))

    } else if chars_are(t, "indianred") {
        Some(Background::Rgb(205, 92, 92))

    } else if chars_are(t, "indigo") {
        Some(Background::Rgb(75, 0, 130))

    } else if chars_are(t, "ivory") {
        Some(Background::Rgb(255, 255, 240))

    } else if chars_are(t, "khaki") {
        Some(Background::Rgb(240, 230, 140))

    } else if chars_are(t, "lavender") {
        Some(Background::Rgb(230, 230, 250))

    } else if chars_are(t, "lavenderblush") {
        Some(Background::Rgb(255, 240, 245))

    } else if chars_are(t, "lawngreen") {
        Some(Background::Rgb(124, 252, 0))

    } else if chars_are(t, "lemonchiffon") {
        Some(Background::Rgb(255, 250, 205))

    } else if chars_are(t, "lightblue") {
        Some(Background::Rgb(173, 216, 230))

    } else if chars_are(t, "lightcoral") {
        Some(Background::Rgb(240, 128, 128))

    } else if chars_are(t, "lightcyan") {
        Some(Background::Rgb(224, 255, 255))

    } else if chars_are(t, "lightgoldenrodyellow") {
        Some(Background::Rgb(250, 250, 210))

    } else if chars_are(t, "lightgray") {
        Some(Background::Rgb(211, 211, 211))

    } else if chars_are(t, "lightgreen") {
        Some(Background::Rgb(144, 238, 144))

    } else if chars_are(t, "lightgrey") {
        Some(Background::Rgb(211, 211, 211))

    } else if chars_are(t, "lightpink") {
        Some(Background::Rgb(255, 182, 193))

    } else if chars_are(t, "lightsalmon") {
        Some(Background::Rgb(255, 160, 122))

    } else if chars_are(t, "lightseagreen") {
        Some(Background::Rgb(32, 178, 170))

    } else if chars_are(t, "lightskyblue") {
        Some(Background::Rgb(135, 206, 250))

    } else if chars_are(t, "lightslategray") {
        Some(Background::Rgb(119, 136, 153))

    } else if chars_are(t, "lightslategrey") {
        Some(Background::Rgb(119, 136, 153))

    } else if chars_are(t, "lightsteelblue") {
        Some(Background::Rgb(176, 196, 222))

    } else if chars_are(t, "lightyellow") {
        Some(Background::Rgb(255, 255, 224))

    } else if chars_are(t, "lime") {
        Some(Background::Rgb(0, 255, 0))

    } else if chars_are(t, "limegreen") {
        Some(Background::Rgb(50, 205, 50))

    } else if chars_are(t, "linen") {
        Some(Background::Rgb(250, 240, 230))

    } else if chars_are(t, "magenta") {
        Some(Background::Magenta)

    } else if chars_are(t, "maroon") {
        Some(Background::Rgb(128, 0, 0))

    } else if chars_are(t, "mediumaquamarine") {
        Some(Background::Rgb(102, 205, 170))

    } else if chars_are(t, "mediumblue") {
        Some(Background::Rgb(0, 0, 205))

    } else if chars_are(t, "mediumorchid") {
        Some(Background::Rgb(186, 85, 211))

    } else if chars_are(t, "mediumpurple") {
        Some(Background::Rgb(147, 112, 219))

    } else if chars_are(t, "mediumseagreen") {
        Some(Background::Rgb(60, 179, 113))

    } else if chars_are(t, "mediumslateblue") {
        Some(Background::Rgb(123, 104, 238))

    } else if chars_are(t, "mediumspringgreen") {
        Some(Background::Rgb(0, 250, 154))

    } else if chars_are(t, "mediumturquoise") {
        Some(Background::Rgb(72, 209, 204))

    } else if chars_are(t, "mediumvioletred") {
        Some(Background::Rgb(199, 21, 133))

    } else if chars_are(t, "midnightblue") {
        Some(Background::Rgb(25, 25, 112))

    } else if chars_are(t, "mintcream") {
        Some(Background::Rgb(245, 255, 250))

    } else if chars_are(t, "mistyrose") {
        Some(Background::Rgb(255, 228, 225))

    } else if chars_are(t, "moccasin") {
        Some(Background::Rgb(255, 228, 181))

    } else if chars_are(t, "navajowhite") {
        Some(Background::Rgb(255, 222, 173))

    } else if chars_are(t, "navy") {
        Some(Background::Rgb(0, 0, 128))

    } else if chars_are(t, "oldlace") {
        Some(Background::Rgb(253, 245, 230))

    } else if chars_are(t, "olive") {
        Some(Background::Rgb(128, 128, 0))

    } else if chars_are(t, "olivedrab") {
        Some(Background::Rgb(107, 142, 35))

    } else if chars_are(t, "orange") {
        Some(Background::Rgb(255, 165, 0))

    } else if chars_are(t, "orangered") {
        Some(Background::Rgb(255, 69, 0))

    } else if chars_are(t, "orchid") {
        Some(Background::Rgb(218, 112, 214))

    } else if chars_are(t, "palegoldenrod") {
        Some(Background::Rgb(238, 232, 170))

    } else if chars_are(t, "palegreen") {
        Some(Background::Rgb(152, 251, 152))

    } else if chars_are(t, "paleturquoise") {
        Some(Background::Rgb(175, 238, 238))

    } else if chars_are(t, "palevioletred") {
        Some(Background::Rgb(219, 112, 147))

    } else if chars_are(t, "papayawhip") {
        Some(Background::Rgb(255, 239, 213))

    } else if chars_are(t, "peachpuff") {
        Some(Background::Rgb(255, 218, 185))

    } else if chars_are(t, "peru") {
        Some(Background::Rgb(205, 133, 63))

    } else if chars_are(t, "pink") {
        Some(Background::Rgb(255, 192, 203))

    } else if chars_are(t, "plum") {
        Some(Background::Rgb(221, 160, 221))

    } else if chars_are(t, "powderblue") {
        Some(Background::Rgb(176, 224, 230))

    } else if chars_are(t, "purple") {
        Some(Background::Rgb(128, 0, 128))

    } else if chars_are(t, "rebeccapurple") {
        Some(Background::Rgb(102, 51, 153))

    } else if chars_are(t, "red") {
        Some(Background::Red)

    } else if chars_are(t, "rosybrown") {
        Some(Background::Rgb(188, 143, 143))

    } else if chars_are(t, "royalblue") {
        Some(Background::Rgb(65, 105, 225))

    } else if chars_are(t, "saddlebrown") {
        Some(Background::Rgb(139, 69, 19))

    } else if chars_are(t, "salmon") {
        Some(Background::Rgb(250, 128, 114))

    } else if chars_are(t, "sandybrown") {
        Some(Background::Rgb(244, 164, 96))

    } else if chars_are(t, "seagreen") {
        Some(Background::Rgb(46, 139, 87))

    } else if chars_are(t, "seashell") {
        Some(Background::Rgb(255, 245, 238))

    } else if chars_are(t, "sienna") {
        Some(Background::Rgb(160, 82, 45))

    } else if chars_are(t, "silver") {
        Some(Background::Rgb(192, 192, 192))

    } else if chars_are(t, "skyblue") {
        Some(Background::Rgb(135, 206, 235))

    } else if chars_are(t, "slateblue") {
        Some(Background::Rgb(106, 90, 205))

    } else if chars_are(t, "slategray") {
        Some(Background::Rgb(112, 128, 144))

    } else if chars_are(t, "slategrey") {
        Some(Background::Rgb(112, 128, 144))

    } else if chars_are(t, "snow") {
        Some(Background::Rgb(255, 250, 250))

    } else if chars_are(t, "springgreen") {
        Some(Background::Rgb(0, 255, 127))

    } else if chars_are(t, "steelblue") {
        Some(Background::Rgb(70, 130, 180))

    } else if chars_are(t, "tan") {
        Some(Background::Rgb(210, 180, 140))

    } else if chars_are(t, "teal") {
        Some(Background::Rgb(0, 128, 128))

    } else if chars_are(t, "thistle") {
        Some(Background::Rgb(216, 191, 216))

    } else if chars_are(t, "tomato") {
        Some(Background::Rgb(255, 99, 71))

    } else if chars_are(t, "turquoise") {
        Some(Background::Rgb(64, 224, 208))

    } else if chars_are(t, "violet") {
        Some(Background::Rgb(238, 130, 238))

    } else if chars_are(t, "wheat") {
        Some(Background::Rgb(245, 222, 179))

    } else if chars_are(t, "white") {
        Some(Background::White)

    } else if chars_are(t, "whitesmoke") {
        Some(Background::Rgb(245, 245, 245))

    } else if chars_are(t, "yellow") {
        Some(Background::Yellow)

    } else if chars_are(t, "yellowgreen") {
        Some(Background::Rgb(154, 205, 50))

    } else {
        None
    }
}


/// Whether `c` is a hexadecimal digit.
pub open spec fn is_hex(c: char) -> bool {
    ('0' <= c <= '9') || ('a' <= c <= 'f') || ('A' <= c <= 'F')
}

/// The value of the hexadecimal digit `c`.
pub open spec fn hex_value(c: char) -> int {
    if '0' <= c <= '9' {
        c as int - '0' as int
    } else if 'a' <= c <= 'f' {
        c as int - 'a' as int + 10
    } else {
        c as int - 'A' as int + 10
    }
}

/// The colour `#rrggbb`, or `#rgb` with each digit doubled.
pub open spec fn hex_colour(t: Seq<char>) -> Option<Background> {
    if t.len() == 7 && t[0] == '#' && (forall|i: int| 1 <= i < 7 ==> is_hex(#[trigger] t[i])) {
        Some(
            Background::Rgb(
                (16 * hex_value(t[1]) + hex_value(t[2])) as u8,
                (16 * hex_value(t[3]) + hex_value(t[4])) as u8,
                (16 * hex_value(t[5]) + hex_value(t[6])) as u8,
            ),
        )
    } else if t.len() == 4 && t[0] == '#' && (forall|i: int| 1 <= i < 4 ==> is_hex(#[trigger] t[i])) {
        Some(
            Background::Rgb(
                (17 * hex_value(t[1])) as u8,
                (17 * hex_value(t[2])) as u8,
                (17 * hex_value(t[3])) as u8,
            ),
        )
    } else {
        None
    }
}

/// A colour: a CSS colour name or a hexadecimal RGB value.
pub open spec fn colour_spec(t: Seq<char>) -> Option<Background> {
    match colour_named(t) {
        Some(c) => Some(c),
        None => hex_colour(t),
    }
}

fn hex_digit(c: char) -> (r: Option<u8>)
    ensures
        is_hex(c) ==> r == Some(hex_value(c) as u8),
        !is_hex(c) ==> r is None,
{
    if '0' <= c && c <= '9' {
        Some((c as u32 - '0' as u32) as u8)
    } else if 'a' <= c && c <= 'f' {
        Some((c as u32 - 'a' as u32 + 10) as u8)
    } else if 'A' <= c && c <= 'F' {
        Some((c as u32 - 'A' as u32 + 10) as u8)
    } else {
        None
    }
}

fn hex_colour_of(t: &Vec<char>) -> (r: Option<Background>)
    ensures
        r == hex_colour(t@),
{
    let n = t.len();
    if (n != 7 && n != 4) || t[0] != '#' {
        return None;
    }
    let mut digits: Vec<u8> = Vec::new();
    let mut i: usize = 1;
    while i < n
        invariant
            n == t@.len(),
            n == 7 || n == 4,
            1 <= i <= n,
            digits@.len() == i - 1,
            forall|j: int| 1 <= j < i ==> is_hex(#[trigger] t@[j]) && digits@[j - 1] == hex_value(t@[j]),
        decreases n - i,
    {
        match hex_digit(t[i]) {
            Some(d) => digits.push(d),
            None => return None,
        }
        i = i + 1;
    }
    proof {
        assert forall|j: int| 1 <= j < n implies 0 <= hex_value(#[trigger] t@[j]) < 16 by {}
    }
    if n == 7 {
        Some(
            Background::Rgb(
                16 * digits[0] + digits[1],
                16 * digits[2] + digits[3],
                16 * digits[4] + digits[5],
            ),
        )
    } else {
        Some(Background::Rgb(17 * digits[0], 17 * digits[1], 17 * digits[2]))
    }
}

/// Reads a colour.
pub fn colour_of(t: &Vec<char>) -> (r: Option<Background>)
    ensures
        r == colour_spec(t@),
{
    match colour_name_of(t) {
        Some(c) => Some(c),
        None => hex_colour_of(t),
    }
}

} // verus!
