//! Which style change last set each field of an element's style: the
//! record that setting and resetting style properties keep.

use vstd::prelude::*;
use crate::api::StyleMutation;
use crate::style_property::StyleProperty;

verus! {

/// A field of an element's style. A shorthand property sets several.
#[derive(Clone, Copy, Debug, PartialEq, Eq, Structural)]
pub enum StyleField {
    Display,
    Position,
    Top,
    Right,
    Bottom,
    Left,
    ZIndex,
    Visibility,
    Opacity,
    OverflowX,
    OverflowY,
    ScrollbarColor,
    ScrollbarGutter,
    ImageRendering,
    WhiteSpace,
    FlexDirection,
    FlexWrap,
    FlexBasis,
    FlexGrow,
    FlexShrink,
    JustifyContent,
    AlignItems,
    AlignSelf,
    AlignContent,
    JustifyItems,
    JustifySelf,
    RowGap,
    ColumnGap,
    PaddingTop,
    PaddingRight,
    PaddingBottom,
    PaddingLeft,
    MarginTop,
    MarginRight,
    MarginBottom,
    MarginLeft,
    Width,
    Height,
    MinWidth,
    MaxWidth,
    MinHeight,
    MaxHeight,
    BorderTop,
    BorderRight,
    BorderBottom,
    BorderLeft,
    BorderColor,
    Color,
    PlaceholderColor,
    Background,
    SelectionBackground,
    FontWeight,
    FontStyle,
    TextDecorationLine,
    Cursor,
    GridTemplateColumns,
    GridTemplateRows,
    GridAutoColumns,
    GridAutoRows,
    GridAutoFlow,
    GridColumnStart,
    GridColumnEnd,
    GridRowStart,
    GridRowEnd,
}
/// The number of style fields.
pub const FIELD_COUNT: usize = 64;
/// The field at position `i` of a style record.
pub open spec fn field_at(i: int) -> StyleField {
    if i == 0 {
        StyleField::Display
    } else if i == 1 {
        StyleField::Position
    } else if i == 2 {
        StyleField::Top
    } else if i == 3 {
        StyleField::Right
    } else if i == 4 {
        StyleField::Bottom
    } else if i == 5 {
        StyleField::Left
    } else if i == 6 {
        StyleField::ZIndex
    } else if i == 7 {
        StyleField::Visibility
    } else if i == 8 {
        StyleField::Opacity
    } else if i == 9 {
        StyleField::OverflowX
    } else if i == 10 {
        StyleField::OverflowY
    } else if i == 11 {
        StyleField::ScrollbarColor
    } else if i == 12 {
        StyleField::ScrollbarGutter
    } else if i == 13 {
        StyleField::ImageRendering
    } else if i == 14 {
        StyleField::WhiteSpace
    } else if i == 15 {
        StyleField::FlexDirection
    } else if i == 16 {
        StyleField::FlexWrap
    } else if i == 17 {
        StyleField::FlexBasis
    } else if i == 18 {
        StyleField::FlexGrow
    } else if i == 19 {
        StyleField::FlexShrink
    } else if i == 20 {
        StyleField::JustifyContent
    } else if i == 21 {
        StyleField::AlignItems
    } else if i == 22 {
        StyleField::AlignSelf
    } else if i == 23 {
        StyleField::AlignContent
    } else if i == 24 {
        StyleField::JustifyItems
    } else if i == 25 {
        StyleField::JustifySelf
    } else if i == 26 {
        StyleField::RowGap
    } else if i == 27 {
        StyleField::ColumnGap
    } else if i == 28 {
        StyleField::PaddingTop
    } else if i == 29 {
        StyleField::PaddingRight
    } else if i == 30 {
        StyleField::PaddingBottom
    } else if i == 31 {
        StyleField::PaddingLeft
    } else if i == 32 {
        StyleField::MarginTop
    } else if i == 33 {
        StyleField::MarginRight
    } else if i == 34 {
        StyleField::MarginBottom
    } else if i == 35 {
        StyleField::MarginLeft
    } else if i == 36 {
        StyleField::Width
    } else if i == 37 {
        StyleField::Height
    } else if i == 38 {
        StyleField::MinWidth
    } else if i == 39 {
        StyleField::MaxWidth
    } else if i == 40 {
        StyleField::MinHeight
    } else if i == 41 {
        StyleField::MaxHeight
    } else if i == 42 {
        StyleField::BorderTop
    } else if i == 43 {
        StyleField::BorderRight
    } else if i == 44 {
        StyleField::BorderBottom
    } else if i == 45 {
        StyleField::BorderLeft
    } else if i == 46 {
        StyleField::BorderColor
    } else if i == 47 {
        StyleField::Color
    } else if i == 48 {
        StyleField::PlaceholderColor
    } else if i == 49 {
        StyleField::Background
    } else if i == 50 {
        StyleField::SelectionBackground
    } else if i == 51 {
        StyleField::FontWeight
    } else if i == 52 {
        StyleField::FontStyle
    } else if i == 53 {
        StyleField::TextDecorationLine
    } else if i == 54 {
        StyleField::Cursor
    } else if i == 55 {
        StyleField::GridTemplateColumns
    } else if i == 56 {
        StyleField::GridTemplateRows
    } else if i == 57 {
        StyleField::GridAutoColumns
    } else if i == 58 {
        StyleField::GridAutoRows
    } else if i == 59 {
        StyleField::GridAutoFlow
    } else if i == 60 {
        StyleField::GridColumnStart
    } else if i == 61 {
        StyleField::GridColumnEnd
    } else if i == 62 {
        StyleField::GridRowStart
    } else {
        StyleField::GridRowEnd
    }
}
fn field_at_exec(i: usize) -> (r: StyleField)
    ensures
        r == field_at(i as int),
{
    if i == 0 {
        StyleField::Display
    } else if i == 1 {
        StyleField::Position
    } else if i == 2 {
        StyleField::Top
    } else if i == 3 {
        StyleField::Right
    } else if i == 4 {
        StyleField::Bottom
    } else if i == 5 {
        StyleField::Left
    } else if i == 6 {
        StyleField::ZIndex
    } else if i == 7 {
        StyleField::Visibility
    } else if i == 8 {
        StyleField::Opacity
    } else if i == 9 {
        StyleField::OverflowX
    } else if i == 10 {
        StyleField::OverflowY
    } else if i == 11 {
        StyleField::ScrollbarColor
    } else if i == 12 {
        StyleField::ScrollbarGutter
    } else if i == 13 {
        StyleField::ImageRendering
    } else if i == 14 {
        StyleField::WhiteSpace
    } else if i == 15 {
        StyleField::FlexDirection
    } else if i == 16 {
        StyleField::FlexWrap
    } else if i == 17 {
        StyleField::FlexBasis
    } else if i == 18 {
        StyleField::FlexGrow
    } else if i == 19 {
        StyleField::FlexShrink
    } else if i == 20 {
        StyleField::JustifyContent
    } else if i == 21 {
        StyleField::AlignItems
    } else if i == 22 {
        StyleField::AlignSelf
    } else if i == 23 {
        StyleField::AlignContent
    } else if i == 24 {
        StyleField::JustifyItems
    } else if i == 25 {
        StyleField::JustifySelf
    } else if i == 26 {
        StyleField::RowGap
    } else if i == 27 {
        StyleField::ColumnGap
    } else if i == 28 {
        StyleField::PaddingTop
    } else if i == 29 {
        StyleField::PaddingRight
    } else if i == 30 {
        StyleField::PaddingBottom
    } else if i == 31 {
        StyleField::PaddingLeft
    } else if i == 32 {
        StyleField::MarginTop
    } else if i == 33 {
        StyleField::MarginRight
    } else if i == 34 {
        StyleField::MarginBottom
    } else if i == 35 {
        StyleField::MarginLeft
    } else if i == 36 {
        StyleField::Width
    } else if i == 37 {
        StyleField::Height
    } else if i == 38 {
        StyleField::MinWidth
    } else if i == 39 {
        StyleField::MaxWidth
    } else if i == 40 {
        StyleField::MinHeight
    } else if i == 41 {
        StyleField::MaxHeight
    } else if i == 42 {
        StyleField::BorderTop
    } else if i == 43 {
        StyleField::BorderRight
    } else if i == 44 {
        StyleField::BorderBottom
    } else if i == 45 {
        StyleField::BorderLeft
    } else if i == 46 {
        StyleField::BorderColor
    } else if i == 47 {
        StyleField::Color
    } else if i == 48 {
        StyleField::PlaceholderColor
    } else if i == 49 {
        StyleField::Background
    } else if i == 50 {
        StyleField::SelectionBackground
    } else if i == 51 {
        StyleField::FontWeight
    } else if i == 52 {
        StyleField::FontStyle
    } else if i == 53 {
        StyleField::TextDecorationLine
    } else if i == 54 {
        StyleField::Cursor
    } else if i == 55 {
        StyleField::GridTemplateColumns
    } else if i == 56 {
        StyleField::GridTemplateRows
    } else if i == 57 {
        StyleField::GridAutoColumns
    } else if i == 58 {
        StyleField::GridAutoRows
    } else if i == 59 {
        StyleField::GridAutoFlow
    } else if i == 60 {
        StyleField::GridColumnStart
    } else if i == 61 {
        StyleField::GridColumnEnd
    } else if i == 62 {
        StyleField::GridRowStart
    } else {
        StyleField::GridRowEnd
    }
}
/// Whether setting or resetting `p` sets field `f`: a shorthand sets each
/// of its parts, any other property the field of its own name.
pub open spec fn covers(p: StyleProperty, f: StyleField) -> bool {
    match p {
        StyleProperty::Display => f == StyleField::Display,
        StyleProperty::Position => f == StyleField::Position,
        StyleProperty::Top => f == StyleField::Top,
        StyleProperty::Right => f == StyleField::Right,
        StyleProperty::Bottom => f == StyleField::Bottom,
        StyleProperty::Left => f == StyleField::Left,
        StyleProperty::ZIndex => f == StyleField::ZIndex,
        StyleProperty::Visibility => f == StyleField::Visibility,
        StyleProperty::Opacity => f == StyleField::Opacity,
        StyleProperty::Overflow => f == StyleField::OverflowX || f == StyleField::OverflowY,
        StyleProperty::OverflowX => f == StyleField::OverflowX,
        StyleProperty::OverflowY => f == StyleField::OverflowY,
        StyleProperty::ScrollbarColor => f == StyleField::ScrollbarColor,
        StyleProperty::ScrollbarGutter => f == StyleField::ScrollbarGutter,
        StyleProperty::ImageRendering => f == StyleField::ImageRendering,
        StyleProperty::WhiteSpace => f == StyleField::WhiteSpace,
        StyleProperty::FlexDirection => f == StyleField::FlexDirection,
        StyleProperty::FlexWrap => f == StyleField::FlexWrap,
        StyleProperty::FlexFlow => f == StyleField::FlexDirection || f == StyleField::FlexWrap,
        StyleProperty::FlexBasis => f == StyleField::FlexBasis,
        StyleProperty::FlexGrow => f == StyleField::FlexGrow,
        StyleProperty::FlexShrink => f == StyleField::FlexShrink,
        StyleProperty::Flex => f == StyleField::FlexGrow || f == StyleField::FlexShrink || f == StyleField::FlexBasis,
        StyleProperty::JustifyContent => f == StyleField::JustifyContent,
        StyleProperty::AlignItems => f == StyleField::AlignItems,
        StyleProperty::AlignSelf => f == StyleField::AlignSelf,
        StyleProperty::AlignContent => f == StyleField::AlignContent,
        StyleProperty::JustifyItems => f == StyleField::JustifyItems,
        StyleProperty::JustifySelf => f == StyleField::JustifySelf,
        StyleProperty::Gap => f == StyleField::RowGap || f == StyleField::ColumnGap,
        StyleProperty::RowGap => f == StyleField::RowGap,
        StyleProperty::ColumnGap => f == StyleField::ColumnGap,
        StyleProperty::Padding => f == StyleField::PaddingTop || f == StyleField::PaddingRight || f == StyleField::PaddingBottom || f == StyleField::PaddingLeft,
        StyleProperty::PaddingTop => f == StyleField::PaddingTop,
        StyleProperty::PaddingRight => f == StyleField::PaddingRight,
        StyleProperty::PaddingBottom => f == StyleField::PaddingBottom,
        StyleProperty::PaddingLeft => f == StyleField::PaddingLeft,
        StyleProperty::Margin => f == StyleField::MarginTop || f == StyleField::MarginRight || f == StyleField::MarginBottom || f == StyleField::MarginLeft,
        StyleProperty::MarginTop => f == StyleField::MarginTop,
        StyleProperty::MarginRight => f == StyleField::MarginRight,
        StyleProperty::MarginBottom => f == StyleField::MarginBottom,
        StyleProperty::MarginLeft => f == StyleField::MarginLeft,
        StyleProperty::Width => f == StyleField::Width,
        StyleProperty::Height => f == StyleField::Height,
        StyleProperty::MinWidth => f == StyleField::MinWidth,
        StyleProperty::MaxWidth => f == StyleField::MaxWidth,
        StyleProperty::MinHeight => f == StyleField::MinHeight,
        StyleProperty::MaxHeight => f == StyleField::MaxHeight,
        StyleProperty::Border => f == StyleField::BorderTop || f == StyleField::BorderRight || f == StyleField::BorderBottom || f == StyleField::BorderLeft,
        StyleProperty::BorderTop => f == StyleField::BorderTop,
        StyleProperty::BorderRight => f == StyleField::BorderRight,
        StyleProperty::BorderBottom => f == StyleField::BorderBottom,
        StyleProperty::BorderLeft => f == StyleField::BorderLeft,
        StyleProperty::BorderColor => f == StyleField::BorderColor,
        StyleProperty::Color => f == StyleField::Color,
        StyleProperty::PlaceholderColor => f == StyleField::PlaceholderColor,
        StyleProperty::Background => f == StyleField::Background,
        StyleProperty::SelectionBackground => f == StyleField::SelectionBackground,
        StyleProperty::FontWeight => f == StyleField::FontWeight,
        StyleProperty::FontStyle => f == StyleField::FontStyle,
        StyleProperty::TextDecorationLine => f == StyleField::TextDecorationLine,
        StyleProperty::Cursor => f == StyleField::Cursor,
        StyleProperty::GridTemplateColumns => f == StyleField::GridTemplateColumns,
        StyleProperty::GridTemplateRows => f == StyleField::GridTemplateRows,
        StyleProperty::GridAutoColumns => f == StyleField::GridAutoColumns,
        StyleProperty::GridAutoRows => f == StyleField::GridAutoRows,
        StyleProperty::GridAutoFlow => f == StyleField::GridAutoFlow,
        StyleProperty::GridColumn => f == StyleField::GridColumnStart || f == StyleField::GridColumnEnd,
        StyleProperty::GridRow => f == StyleField::GridRowStart || f == StyleField::GridRowEnd,
        StyleProperty::GridColumnStart => f == StyleField::GridColumnStart,
        StyleProperty::GridColumnEnd => f == StyleField::GridColumnEnd,
        StyleProperty::GridRowStart => f == StyleField::GridRowStart,
        StyleProperty::GridRowEnd => f == StyleField::GridRowEnd,
    }
}
fn covers_exec(p: StyleProperty, f: StyleField) -> (r: bool)
    ensures
        r == covers(p, f),
{
    match p {
        StyleProperty::Display => f == StyleField::Display,
        StyleProperty::Position => f == StyleField::Position,
        StyleProperty::Top => f == StyleField::Top,
        StyleProperty::Right => f == StyleField::Right,
        StyleProperty::Bottom => f == StyleField::Bottom,
        StyleProperty::Left => f == StyleField::Left,
        StyleProperty::ZIndex => f == StyleField::ZIndex,
        StyleProperty::Visibility => f == StyleField::Visibility,
        StyleProperty::Opacity => f == StyleField::Opacity,
        StyleProperty::Overflow => f == StyleField::OverflowX || f == StyleField::OverflowY,
        StyleProperty::OverflowX => f == StyleField::OverflowX,
        StyleProperty::OverflowY => f == StyleField::OverflowY,
        StyleProperty::ScrollbarColor => f == StyleField::ScrollbarColor,
        StyleProperty::ScrollbarGutter => f == StyleField::ScrollbarGutter,
        StyleProperty::ImageRendering => f == StyleField::ImageRendering,
        StyleProperty::WhiteSpace => f == StyleField::WhiteSpace,
        StyleProperty::FlexDirection => f == StyleField::FlexDirection,
        StyleProperty::FlexWrap => f == StyleField::FlexWrap,
        StyleProperty::FlexFlow => f == StyleField::FlexDirection || f == StyleField::FlexWrap,
        StyleProperty::FlexBasis => f == StyleField::FlexBasis,
        StyleProperty::FlexGrow => f == StyleField::FlexGrow,
        StyleProperty::FlexShrink => f == StyleField::FlexShrink,
        StyleProperty::Flex => f == StyleField::FlexGrow || f == StyleField::FlexShrink || f == StyleField::FlexBasis,
        StyleProperty::JustifyContent => f == StyleField::JustifyContent,
        StyleProperty::AlignItems => f == StyleField::AlignItems,
        StyleProperty::AlignSelf => f == StyleField::AlignSelf,
        StyleProperty::AlignContent => f == StyleField::AlignContent,
        StyleProperty::JustifyItems => f == StyleField::JustifyItems,
        StyleProperty::JustifySelf => f == StyleField::JustifySelf,
        StyleProperty::Gap => f == StyleField::RowGap || f == StyleField::ColumnGap,
        StyleProperty::RowGap => f == StyleField::RowGap,
        StyleProperty::ColumnGap => f == StyleField::ColumnGap,
        StyleProperty::Padding => f == StyleField::PaddingTop || f == StyleField::PaddingRight || f == StyleField::PaddingBottom || f == StyleField::PaddingLeft,
        StyleProperty::PaddingTop => f == StyleField::PaddingTop,
        StyleProperty::PaddingRight => f == StyleField::PaddingRight,
        StyleProperty::PaddingBottom => f == StyleField::PaddingBottom,
        StyleProperty::PaddingLeft => f == StyleField::PaddingLeft,
        StyleProperty::Margin => f == StyleField::MarginTop || f == StyleField::MarginRight || f == StyleField::MarginBottom || f == StyleField::MarginLeft,
        StyleProperty::MarginTop => f == StyleField::MarginTop,
        StyleProperty::MarginRight => f == StyleField::MarginRight,
        StyleProperty::MarginBottom => f == StyleField::MarginBottom,
        StyleProperty::MarginLeft => f == StyleField::MarginLeft,
        StyleProperty::Width => f == StyleField::Width,
        StyleProperty::Height => f == StyleField::Height,
        StyleProperty::MinWidth => f == StyleField::MinWidth,
        StyleProperty::MaxWidth => f == StyleField::MaxWidth,
        StyleProperty::MinHeight => f == StyleField::MinHeight,
        StyleProperty::MaxHeight => f == StyleField::MaxHeight,
        StyleProperty::Border => f == StyleField::BorderTop || f == StyleField::BorderRight || f == StyleField::BorderBottom || f == StyleField::BorderLeft,
        StyleProperty::BorderTop => f == StyleField::BorderTop,
        StyleProperty::BorderRight => f == StyleField::BorderRight,
        StyleProperty::BorderBottom => f == StyleField::BorderBottom,
        StyleProperty::BorderLeft => f == StyleField::BorderLeft,
        StyleProperty::BorderColor => f == StyleField::BorderColor,
        StyleProperty::Color => f == StyleField::Color,
        StyleProperty::PlaceholderColor => f == StyleField::PlaceholderColor,
        StyleProperty::Background => f == StyleField::Background,
        StyleProperty::SelectionBackground => f == StyleField::SelectionBackground,
        StyleProperty::FontWeight => f == StyleField::FontWeight,
        StyleProperty::FontStyle => f == StyleField::FontStyle,
        StyleProperty::TextDecorationLine => f == StyleField::TextDecorationLine,
        StyleProperty::Cursor => f == StyleField::Cursor,
        StyleProperty::GridTemplateColumns => f == StyleField::GridTemplateColumns,
        StyleProperty::GridTemplateRows => f == StyleField::GridTemplateRows,
        StyleProperty::GridAutoColumns => f == StyleField::GridAutoColumns,
        StyleProperty::GridAutoRows => f == StyleField::GridAutoRows,
        StyleProperty::GridAutoFlow => f == StyleField::GridAutoFlow,
        StyleProperty::GridColumn => f == StyleField::GridColumnStart || f == StyleField::GridColumnEnd,
        StyleProperty::GridRow => f == StyleField::GridRowStart || f == StyleField::GridRowEnd,
        StyleProperty::GridColumnStart => f == StyleField::GridColumnStart,
        StyleProperty::GridColumnEnd => f == StyleField::GridColumnEnd,
        StyleProperty::GridRowStart => f == StyleField::GridRowStart,
        StyleProperty::GridRowEnd => f == StyleField::GridRowEnd,
    }
}

/// For each field, in the order of `field_at`, the position of the style
/// change that last set it, or none where it has its default value.
pub struct StyleRecord {
    set_by: Vec<Option<usize>>,
}

impl View for StyleRecord {
    type V = Seq<Option<usize>>;

    closed spec fn view(&self) -> Seq<Option<usize>> {
        self.set_by@
    }
}

/// `record` with every field that `p` sets set to `value`.
pub open spec fn fields_set(record: Seq<Option<usize>>, p: StyleProperty, value: Option<usize>) -> Seq<
    Option<usize>,
> {
    Seq::new(
        record.len(),
        |i: int|
            if covers(p, field_at(i)) {
                value
            } else {
                record[i]
            },
    )
}

/// `record` after resetting `p`: the fields it sets take their defaults.
pub open spec fn reset_applied(record: Seq<Option<usize>>, p: StyleProperty) -> Seq<Option<usize>> {
    fields_set(record, p, None)
}

/// `record` after the style change `m`, made as change number `k`.
pub open spec fn change_applied(record: Seq<Option<usize>>, m: StyleMutation, k: usize) -> Seq<
    Option<usize>,
> {
    match m {
        StyleMutation::Assign(p, _) => fields_set(record, p, Some(k)),
        StyleMutation::Reset(p) => fields_set(record, p, None),
    }
}

/// The record after the style changes `styles`, in order, from defaults.
pub open spec fn record_of(styles: Seq<StyleMutation>) -> Seq<Option<usize>>
    decreases styles.len(),
{
    if styles.len() == 0 {
        Seq::new(FIELD_COUNT as nat, |i: int| None)
    } else {
        change_applied(record_of(styles.drop_last()), styles.last(), (styles.len() - 1) as usize)
    }
}

/// Resetting a property after setting it leaves the record as resetting it
/// alone would.
pub proof fn lemma_reset_undoes_set(record: Seq<Option<usize>>, p: StyleProperty, k: usize)
    ensures
        reset_applied(fields_set(record, p, Some(k)), p) == reset_applied(record, p),
{
    assert(reset_applied(fields_set(record, p, Some(k)), p) =~= reset_applied(record, p));
}

impl StyleRecord {
    /// Every field at its default.
    pub fn new() -> (r: StyleRecord)
        ensures
            r@ == Seq::new(FIELD_COUNT as nat, |i: int| None::<usize>),
    {
        let mut set_by: Vec<Option<usize>> = Vec::new();
        let mut i: usize = 0;
        while i < FIELD_COUNT
            invariant
                i <= FIELD_COUNT,
                set_by@ == Seq::new(i as nat, |j: int| None::<usize>),
            decreases FIELD_COUNT - i,
        {
            set_by.push(None);
            i = i + 1;
            assert(set_by@ =~= Seq::new(i as nat, |j: int| None::<usize>));
        }
        StyleRecord { set_by }
    }

    /// The change that last set field `i`, if any; `None` past the fields.
    pub fn set_by(&self, i: usize) -> (r: Option<usize>)
        ensures
            i < self@.len() ==> r == self@[i as int],
            i >= self@.len() ==> r is None,
    {
        if i < self.set_by.len() {
            self.set_by[i]
        } else {
            None
        }
    }

    fn set_fields(&mut self, p: StyleProperty, value: Option<usize>)
        ensures
            final(self)@ == fields_set(old(self)@, p, value),
    {
        let n = self.set_by.len();
        let ghost start = self.set_by@;
        let mut i: usize = 0;
        while i < n
            invariant
                n == self.set_by@.len(),
                n == start.len(),
                i <= n,
                forall|j: int| 0 <= j < i ==> self.set_by@[j] == fields_set(start, p, value)[j],
                forall|j: int| i <= j < n ==> self.set_by@[j] == start[j],
            decreases n - i,
        {
            if covers_exec(p, field_at_exec(i)) {
                self.set_by.set(i, value);
            }
            i = i + 1;
        }
        assert(self.set_by@ =~= fields_set(start, p, value));
    }
}

/// Resets `p`: the fields it sets take their default values.
pub fn reset_style_property(style: &mut StyleRecord, p: StyleProperty)
    ensures
        final(style)@ == reset_applied(old(style)@, p),
{
    style.set_fields(p, None);
}

/// Records the style change `m`, made as change number `k`.
pub fn record_style_change(style: &mut StyleRecord, m: &StyleMutation, k: usize)
    ensures
        final(style)@ == change_applied(old(style)@, *m, k),
{
    match m {
        StyleMutation::Assign(p, _) => style.set_fields(*p, Some(k)),
        StyleMutation::Reset(p) => reset_style_property(style, *p),
    }
}

/// The record of the style changes `styles`.
pub fn style_record(styles: &Vec<StyleMutation>) -> (r: StyleRecord)
    ensures
        r@ == record_of(styles@),
{
    let mut r = StyleRecord::new();
    let mut i: usize = 0;
    while i < styles.len()
        invariant
            i <= styles.len(),
            r@ == record_of(styles@.take(i as int)),
        decreases styles.len() - i,
    {
        proof {
            assert(styles@.take(i as int + 1).drop_last() =~= styles@.take(i as int));
            assert(record_of(Seq::<StyleMutation>::empty()) =~= Seq::new(FIELD_COUNT as nat, |j: int| None::<usize>));
        }
        record_style_change(&mut r, &styles[i], i);
        i = i + 1;
    }
    proof {
        assert(styles@.take(i as int) =~= styles@);
    }
    r
}

} // verus!
