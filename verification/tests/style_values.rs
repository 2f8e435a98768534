use paintcannon::api::{
    rewrite_batch, style_command, BatchCommand, BatchError, StyleCommand, StyleError,
    StyleMutation,
};
use paintcannon::style::{Background, BorderStyle, CssWhiteSpace, LayoutOverflow, TransitionProperty};
use paintcannon::style_keyword::{AlignItems, FlexDirection, FlexWrap, FontWeight, JustifyContent, TextDecorationLine};
use paintcannon::transition_value::{parse_transition, TransitionSpec};
use paintcannon::style_property::StyleProperty;
use paintcannon::style_value::{
    CssDimension, CssDisplay, CssNumber, CssPosition, CssVisibility, CssZIndex, ScrollbarColours,
    StyleValue,
};

fn number_value(n: CssNumber) -> f64 {
    let v = n.mantissa as f64 / 10f64.powi(n.scale as i32);
    if n.negative {
        -v
    } else {
        v
    }
}

fn assigned(command: StyleCommand) -> (StyleProperty, StyleValue) {
    match command {
        StyleCommand::MutateStyle { mutation: StyleMutation::Assign(p, v), .. } => (p, v),
        _ => panic!("expected a style assignment"),
    }
}

#[test]
fn max_height_style_command_is_supported() {
    match assigned(style_command(1, "max-height", "90%".to_string()).unwrap()) {
        (StyleProperty::MaxHeight, StyleValue::Dimension(CssDimension::Percent(value))) => {
            assert_eq!(number_value(value), 0.9)
        }
        _ => panic!("expected max-height style mutation"),
    }
}

#[test]
fn min_and_max_width_style_commands_are_supported() {
    match assigned(style_command(1, "min-width", "12".to_string()).unwrap()) {
        (StyleProperty::MinWidth, StyleValue::Dimension(CssDimension::Length(value))) => {
            assert_eq!(number_value(value), 12.0)
        }
        _ => panic!("expected min-width style mutation"),
    }
    match assigned(style_command(1, "maxWidth", "75%".to_string()).unwrap()) {
        (StyleProperty::MaxWidth, StyleValue::Dimension(CssDimension::Percent(value))) => {
            assert_eq!(number_value(value), 0.75)
        }
        _ => panic!("expected max-width style mutation"),
    }
    let reset_command = style_command(1, "max-width", "".to_string()).unwrap();
    assert!(matches!(
        reset_command,
        StyleCommand::MutateStyle { mutation: StyleMutation::Reset(StyleProperty::MaxWidth), .. }
    ));
}

#[test]
fn visibility_style_command_is_supported() {
    match assigned(style_command(1, "visibility", "hidden".to_string()).unwrap()) {
        (StyleProperty::Visibility, StyleValue::Visibility(CssVisibility::Hidden)) => {}
        _ => panic!("expected visibility style mutation"),
    }
}

#[test]
fn opacity_style_command_is_supported() {
    assert!(matches!(
        assigned(style_command(1, "opacity", "75%".to_string()).unwrap()),
        (StyleProperty::Opacity, StyleValue::Number(value)) if number_value(value) == 0.75
    ));
    assert!(matches!(
        style_command(1, "opacity", "".to_string()).unwrap(),
        StyleCommand::MutateStyle { mutation: StyleMutation::Reset(StyleProperty::Opacity), .. }
    ));
}

#[test]
fn positioning_style_commands_are_supported() {
    assert!(matches!(
        assigned(style_command(1, "position", "absolute".to_string()).unwrap()),
        (StyleProperty::Position, StyleValue::Position(CssPosition::Absolute))
    ));
    assert!(matches!(
        assigned(style_command(1, "left", "25%".to_string()).unwrap()),
        (StyleProperty::Left, StyleValue::Dimension(CssDimension::Percent(value))) if number_value(value) == 0.25
    ));
    assert!(matches!(
        assigned(style_command(1, "zIndex", "-2".to_string()).unwrap()),
        (StyleProperty::ZIndex, StyleValue::ZIndex(CssZIndex::Integer(-2)))
    ));
    assert!(matches!(
        style_command(1, "top", "".to_string()).unwrap(),
        StyleCommand::MutateStyle { mutation: StyleMutation::Reset(StyleProperty::Top), .. }
    ));
}

#[test]
fn keyword_values_are_read_into_their_kinds() {
    assert!(matches!(
        assigned(style_command(1, "display", "flex".to_string()).unwrap()),
        (StyleProperty::Display, StyleValue::Display(CssDisplay::Flex))
    ));
    assert!(matches!(
        assigned(style_command(1, "overflowY", " scroll ".to_string()).unwrap()),
        (StyleProperty::OverflowY, StyleValue::Overflow(LayoutOverflow::Scroll))
    ));
    assert!(matches!(
        assigned(style_command(1, "border", "chunky-rounded".to_string()).unwrap()),
        (StyleProperty::Border, StyleValue::Border(BorderStyle::ChunkyRounded))
    ));
    assert!(matches!(
        assigned(style_command(1, "white-space", "pre-wrap".to_string()).unwrap()),
        (StyleProperty::WhiteSpace, StyleValue::WhiteSpace(CssWhiteSpace::PreWrap))
    ));
    assert!(matches!(
        assigned(style_command(1, "width", "auto".to_string()).unwrap()),
        (StyleProperty::Width, StyleValue::Dimension(CssDimension::Auto))
    ));
    assert!(matches!(
        assigned(style_command(1, "flex-grow", "1.5".to_string()).unwrap()),
        (StyleProperty::FlexGrow, StyleValue::Number(CssNumber { negative: false, mantissa: 15, scale: 1 }))
    ));
    assert!(matches!(
        assigned(style_command(1, "color", "red".to_string()).unwrap()),
        (StyleProperty::Color, StyleValue::Colour(Background::Red))
    ));
}

#[test]
fn values_outside_the_grammar_are_refused() {
    assert!(matches!(
        style_command(1, "display", "bogus".to_string()),
        Err(StyleError::InvalidValue { property, value }) if property == "display" && value == "bogus"
    ));
    assert!(style_command(1, "padding-top", "auto".to_string()).is_err());
    assert!(style_command(1, "z-index", "1.5".to_string()).is_err());
    assert!(style_command(1, "z-index", "3000000000".to_string()).is_err());
    assert!(style_command(1, "flex-shrink", "-1".to_string()).is_err());
    assert!(style_command(1, "width", "12px".to_string()).is_err());
    assert!(style_command(1, "width", ".".to_string()).is_err());
    assert!(style_command(1, "width", "99999999999999999999".to_string()).is_err());
}

#[test]
fn batch_refuses_a_value_outside_the_grammar() {
    let command = BatchCommand {
        command_type: "setStyleProperty".to_string(),
        id: Some(4),
        parent: None,
        child: None,
        before: None,
        text: None,
        src: None,
        cursor: None,
        focused: None,
        placeholder: None,
        property: Some("position".to_string()),
        value: Some("sideways".to_string()),
    };
    let mut next = 1u32;
    assert!(matches!(
        rewrite_batch(&mut next, &vec![command]),
        Err(BatchError::InvalidStyleValue { property, value }) if property == "position" && value == "sideways"
    ));
}

fn whole(n: u64) -> CssNumber {
    CssNumber { negative: false, mantissa: n, scale: 0 }
}

#[test]
fn colours_are_read_by_name_and_hex() {
    assert!(matches!(
        assigned(style_command(1, "background-color", "#ff8000".to_string()).unwrap()),
        (StyleProperty::Background, StyleValue::Colour(Background::Rgb(255, 128, 0)))
    ));
    assert!(matches!(
        assigned(style_command(1, "borderColor", "#0f8".to_string()).unwrap()),
        (StyleProperty::BorderColor, StyleValue::Colour(Background::Rgb(0, 255, 136)))
    ));
    assert!(matches!(
        assigned(style_command(1, "color", "rebeccapurple".to_string()).unwrap()),
        (StyleProperty::Color, StyleValue::Colour(Background::Rgb(102, 51, 153)))
    ));
    assert!(matches!(
        assigned(style_command(1, "color", "blue".to_string()).unwrap()),
        (StyleProperty::Color, StyleValue::Colour(Background::Blue))
    ));
    assert!(matches!(
        style_command(1, "color", "bluish".to_string()),
        Err(StyleError::InvalidValue { .. })
    ));
    assert!(style_command(1, "color", "#12345".to_string()).is_err());
    assert!(style_command(1, "color", "#gg0000".to_string()).is_err());
}

#[test]
fn layout_keywords_and_shorthands_are_read() {
    assert!(matches!(
        assigned(style_command(1, "flex-direction", "column".to_string()).unwrap()),
        (StyleProperty::FlexDirection, StyleValue::FlexDirection(FlexDirection::Column))
    ));
    assert!(matches!(
        assigned(style_command(1, "flexFlow", "wrap column-reverse".to_string()).unwrap()),
        (StyleProperty::FlexFlow, StyleValue::FlexFlow(FlexDirection::ColumnReverse, FlexWrap::Wrap))
    ));
    assert!(matches!(
        assigned(style_command(1, "justify-content", "space-between".to_string()).unwrap()),
        (StyleProperty::JustifyContent, StyleValue::JustifyContent(JustifyContent::SpaceBetween))
    ));
    assert!(matches!(
        assigned(style_command(1, "alignItems", "center".to_string()).unwrap()),
        (StyleProperty::AlignItems, StyleValue::AlignItems(AlignItems::Center))
    ));
    assert!(matches!(
        assigned(style_command(1, "font-weight", "bold".to_string()).unwrap()),
        (StyleProperty::FontWeight, StyleValue::FontWeight(FontWeight::Bold))
    ));
    assert!(matches!(
        assigned(style_command(1, "text-decoration", "line-through".to_string()).unwrap()),
        (StyleProperty::TextDecorationLine, StyleValue::TextDecoration(TextDecorationLine::LineThrough))
    ));
    assert!(matches!(
        assigned(style_command(1, "padding", "1 2 3".to_string()).unwrap()),
        (StyleProperty::Padding, StyleValue::Sides(
            CssDimension::Length(a), CssDimension::Length(b), CssDimension::Length(c), CssDimension::Length(d)
        )) if a == whole(1) && b == whole(2) && c == whole(3) && d == whole(2)
    ));
    assert!(matches!(
        assigned(style_command(1, "margin", "auto 4".to_string()).unwrap()),
        (StyleProperty::Margin, StyleValue::Sides(CssDimension::Auto, CssDimension::Length(_), CssDimension::Auto, CssDimension::Length(_)))
    ));
    assert!(style_command(1, "padding", "auto".to_string()).is_err());
    assert!(style_command(1, "padding", "1 2 3 4 5".to_string()).is_err());
    assert!(matches!(
        assigned(style_command(1, "gap", "2".to_string()).unwrap()),
        (StyleProperty::Gap, StyleValue::Gap(CssDimension::Length(a), CssDimension::Length(b))) if a == whole(2) && b == whole(2)
    ));
    assert!(matches!(
        assigned(style_command(1, "flex", "1".to_string()).unwrap()),
        (StyleProperty::Flex, StyleValue::Flex(g, s, CssDimension::Percent(b))) if g == whole(1) && s == whole(1) && b == whole(0)
    ));
    assert!(matches!(
        assigned(style_command(1, "flex", "none".to_string()).unwrap()),
        (StyleProperty::Flex, StyleValue::Flex(g, s, CssDimension::Auto)) if g == whole(0) && s == whole(0)
    ));
    assert!(matches!(
        assigned(style_command(1, "scrollbar-color", "red black".to_string()).unwrap()),
        (StyleProperty::ScrollbarColor, StyleValue::ScrollbarColour(ScrollbarColours::Colours { thumb: Background::Red, track: Background::Black }))
    ));
    assert!(style_command(1, "flex-direction", "diagonal".to_string()).is_err());
}

#[test]
fn transitions_are_read_item_by_item() {
    assert_eq!(
        parse_transition("opacity 150ms, color 0.25s ease-in"),
        vec![
            TransitionSpec { property: TransitionProperty::Opacity, duration_ms: 150 },
            TransitionSpec { property: TransitionProperty::Color, duration_ms: 250 },
        ]
    );
    assert_eq!(parse_transition("all 1s").len(), 4);
    assert_eq!(parse_transition("width 1s, opacity"), vec![]);
}
