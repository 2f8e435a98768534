//! Style values read from the text that JavaScript sets: keywords, integers
//! and decimal numbers with an optional percent sign.

use vstd::prelude::*;
use crate::frame::{is_whitespace, spec_is_whitespace};
use crate::style::{BorderStyle, CssWhiteSpace, LayoutOverflow};
use crate::style_property::StyleProperty;
use crate::style::Background;
use crate::style_keyword::{
    align_items_named, align_items_of, colour_of, colour_spec, flex_direction_named,
    flex_direction_of, flex_wrap_named, flex_wrap_of, font_style_named, font_style_of,
    font_weight_named, font_weight_of, justify_content_named, justify_content_of,
    scrollbar_gutter_named, scrollbar_gutter_of, text_decoration_line_named,
    text_decoration_line_of, AlignItems, FlexDirection, FlexWrap, FontStyle, FontWeight,
    JustifyContent, ScrollbarGutter, TextDecorationLine,
};

verus! {

/// CSS `display`.
#[derive(Clone, Copy, Debug, PartialEq, Eq, Structural)]
pub enum CssDisplay {
    Block,
    Flex,
    Grid,
    Inline,
}

/// CSS `position`.
#[derive(Clone, Copy, Debug, PartialEq, Eq, Structural)]
pub enum CssPosition {
    Static,
    Relative,
    Absolute,
}

/// CSS `visibility`.
#[derive(Clone, Copy, Debug, PartialEq, Eq, Structural)]
pub enum CssVisibility {
    Visible,
    Hidden,
}

/// CSS `z-index`.
#[derive(Clone, Copy, Debug, PartialEq, Eq, Structural)]
pub enum CssZIndex {
    Auto,
    Integer(i32),
}

/// A decimal number: `mantissa / 10^scale`, negated where `negative`.
#[derive(Clone, Copy, Debug, PartialEq, Eq, Structural)]
pub struct CssNumber {
    pub negative: bool,
    pub mantissa: u64,
    pub scale: u32,
}

/// A length in cells, a percentage of the containing block (as a fraction:
/// `50%` is 0.5), or `auto`.
#[derive(Clone, Copy, Debug, PartialEq, Eq, Structural)]
pub enum CssDimension {
    Auto,
    Length(CssNumber),
    Percent(CssNumber),
}

/// A style value: read into its kind where this module knows the
/// property's grammar, else kept as the text that was set.
#[derive(Clone, Debug)]
pub enum StyleValue {
    Text(String),
    Display(CssDisplay),
    Position(CssPosition),
    Visibility(CssVisibility),
    Overflow(LayoutOverflow),
    ZIndex(CssZIndex),
    WhiteSpace(CssWhiteSpace),
    Border(BorderStyle),
    Dimension(CssDimension),
    Number(CssNumber),
    FlexDirection(FlexDirection),
    FlexWrap(FlexWrap),
    FlexFlow(FlexDirection, FlexWrap),
    JustifyContent(JustifyContent),
    AlignItems(AlignItems),
    FontWeight(FontWeight),
    FontStyle(FontStyle),
    TextDecoration(TextDecorationLine),
    ScrollbarGutter(ScrollbarGutter),
    Colour(Background),
    ScrollbarColour(ScrollbarColours),
    /// Top, right, bottom and left.
    Sides(CssDimension, CssDimension, CssDimension, CssDimension),
    /// Row gap and column gap.
    Gap(CssDimension, CssDimension),
    /// Grow, shrink and basis.
    Flex(CssNumber, CssNumber, CssDimension),
}

/// CSS `scrollbar-color`: the terminal's own, or a thumb and a track colour.
#[derive(Clone, Copy, Debug, PartialEq, Eq, Structural)]
pub enum ScrollbarColours {
    Auto,
    Colours { thumb: Background, track: Background },
}

/// `s` without leading whitespace.
pub open spec fn trim_start(s: Seq<char>) -> Seq<char>
    decreases s.len(),
{
    if s.len() > 0 && spec_is_whitespace(s[0]) {
        trim_start(s.drop_first())
    } else {
        s
    }
}

/// `s` without trailing whitespace.
pub open spec fn trim_end(s: Seq<char>) -> Seq<char>
    decreases s.len(),
{
    if s.len() > 0 && spec_is_whitespace(s.last()) {
        trim_end(s.drop_last())
    } else {
        s
    }
}

/// `s` without leading and trailing whitespace.
pub open spec fn trimmed(s: Seq<char>) -> Seq<char> {
    trim_end(trim_start(s))
}

proof fn lemma_trim_start(s: Seq<char>, a: int)
    requires
        0 <= a <= s.len(),
        forall|j: int| 0 <= j < a ==> spec_is_whitespace(#[trigger] s[j]),
        a == s.len() || !spec_is_whitespace(s[a]),
    ensures
        trim_start(s) == s.skip(a),
    decreases a,
{
    if a > 0 {
        lemma_trim_start(s.drop_first(), a - 1);
        assert(s.drop_first().skip(a - 1) =~= s.skip(a));
    } else {
        assert(s.skip(0) =~= s);
    }
}

proof fn lemma_trim_end(s: Seq<char>, b: int)
    requires
        0 <= b <= s.len(),
        forall|j: int| b <= j < s.len() ==> spec_is_whitespace(#[trigger] s[j]),
        b == 0 || !spec_is_whitespace(s[b - 1]),
    ensures
        trim_end(s) == s.take(b),
    decreases s.len() - b,
{
    if b < s.len() {
        lemma_trim_end(s.drop_last(), b);
        assert(s.drop_last().take(b) =~= s.take(b));
    } else {
        assert(s.take(b) =~= s);
    }
}

/// The characters of `s` without leading and trailing whitespace.
pub fn trimmed_chars(s: &str) -> (r: Vec<char>)
    ensures
        r@ == trimmed(s@),
{
    let n = s.unicode_len();
    let mut a: usize = 0;
    while a < n && is_whitespace(s.get_char(a))
        invariant
            n == s@.len(),
            a <= n,
            forall|j: int| 0 <= j < a ==> spec_is_whitespace(#[trigger] s@[j]),
        decreases n - a,
    {
        a = a + 1;
    }
    proof {
        lemma_trim_start(s@, a as int);
    }
    let ghost t = s@.skip(a as int);
    let mut b: usize = n;
    while b > a && is_whitespace(s.get_char(b - 1))
        invariant
            n == s@.len(),
            a <= b <= n,
            t == s@.skip(a as int),
            forall|j: int| b <= j < n ==> spec_is_whitespace(#[trigger] s@[j]),
        decreases b,
    {
        b = b - 1;
    }
    proof {
        assert forall|j: int| b - a <= j < t.len() implies spec_is_whitespace(#[trigger] t[j]) by {
            assert(t[j] == s@[j + a]);
        }
        if b > a {
            assert(t[b - a - 1] == s@[b - 1]);
        }
        lemma_trim_end(t, b - a);
    }
    let mut r: Vec<char> = Vec::new();
    let mut i: usize = a;
    while i < b
        invariant
            n == s@.len(),
            a <= i <= b <= n,
            t == s@.skip(a as int),
            r@ == t.take(i - a),
        decreases b - i,
    {
        proof {
            assert(t.take(i - a + 1) =~= t.take(i - a).push(s@[i as int]));
        }
        r.push(s.get_char(i));
        i = i + 1;
    }
    r
}

/// Whether `v` holds exactly the characters of `word`.
pub(crate) fn chars_are(v: &Vec<char>, word: &str) -> (r: bool)
    ensures
        r == (v@ == word@),
{
    let n = word.unicode_len();
    if v.len() != n {
        return false;
    }
    let mut i: usize = 0;
    while i < n
        invariant
            n == word@.len(),
            n == v@.len(),
            i <= n,
            forall|j: int| 0 <= j < i ==> v@[j] == word@[j],
        decreases n - i,
    {
        if v[i] != word.get_char(i) {
            return false;
        }
        i = i + 1;
    }
    assert(v@ =~= word@);
    true
}

/// The display a keyword names.
pub open spec fn display_named(t: Seq<char>) -> Option<CssDisplay> {
    if t == "block"@ {
        Some(CssDisplay::Block)
    } else if t == "flex"@ {
        Some(CssDisplay::Flex)
    } else if t == "grid"@ {
        Some(CssDisplay::Grid)
    } else if t == "inline"@ {
        Some(CssDisplay::Inline)
    } else {
        None
    }
}

/// The position a keyword names.
pub open spec fn position_named(t: Seq<char>) -> Option<CssPosition> {
    if t == "static"@ {
        Some(CssPosition::Static)
    } else if t == "relative"@ {
        Some(CssPosition::Relative)
    } else if t == "absolute"@ {
        Some(CssPosition::Absolute)
    } else {
        None
    }
}

/// The visibility a keyword names.
pub open spec fn visibility_named(t: Seq<char>) -> Option<CssVisibility> {
    if t == "visible"@ {
        Some(CssVisibility::Visible)
    } else if t == "hidden"@ {
        Some(CssVisibility::Hidden)
    } else {
        None
    }
}

/// The overflow a keyword names.
pub open spec fn overflow_named(t: Seq<char>) -> Option<LayoutOverflow> {
    if t == "visible"@ {
        Some(LayoutOverflow::Visible)
    } else if t == "hidden"@ {
        Some(LayoutOverflow::Hidden)
    } else if t == "scroll"@ {
        Some(LayoutOverflow::Scroll)
    } else {
        None
    }
}

/// The white-space handling a keyword names.
pub open spec fn white_space_named(t: Seq<char>) -> Option<CssWhiteSpace> {
    if t == "normal"@ {
        Some(CssWhiteSpace::Normal)
    } else if t == "nowrap"@ {
        Some(CssWhiteSpace::Nowrap)
    } else if t == "pre"@ {
        Some(CssWhiteSpace::Pre)
    } else if t == "pre-wrap"@ {
        Some(CssWhiteSpace::PreWrap)
    } else if t == "pre-line"@ {
        Some(CssWhiteSpace::PreLine)
    } else {
        None
    }
}

/// The border style a keyword names.
pub open spec fn border_named(t: Seq<char>) -> Option<BorderStyle> {
    if t == "none"@ {
        Some(BorderStyle::NoBorder)
    } else if t == "solid"@ {
        Some(BorderStyle::Solid)
    } else if t == "double"@ {
        Some(BorderStyle::Double)
    } else if t == "heavy"@ {
        Some(BorderStyle::Heavy)
    } else if t == "rounded"@ {
        Some(BorderStyle::Rounded)
    } else if t == "chunky-rounded"@ {
        Some(BorderStyle::ChunkyRounded)
    } else if t == "ascii"@ {
        Some(BorderStyle::Ascii)
    } else {
        None
    }
}

fn display_of(t: &Vec<char>) -> (r: Option<CssDisplay>)
    ensures
        r == display_named(t@),
{
    if chars_are(t, "block") {
        Some(CssDisplay::Block)
    } else if chars_are(t, "flex") {
        Some(CssDisplay::Flex)
    } else if chars_are(t, "grid") {
        Some(CssDisplay::Grid)
    } else if chars_are(t, "inline") {
        Some(CssDisplay::Inline)
    } else {
        None
    }
}

fn position_of(t: &Vec<char>) -> (r: Option<CssPosition>)
    ensures
        r == position_named(t@),
{
    if chars_are(t, "static") {
        Some(CssPosition::Static)
    } else if chars_are(t, "relative") {
        Some(CssPosition::Relative)
    } else if chars_are(t, "absolute") {
        Some(CssPosition::Absolute)
    } else {
        None
    }
}

fn visibility_of(t: &Vec<char>) -> (r: Option<CssVisibility>)
    ensures
        r == visibility_named(t@),
{
    if chars_are(t, "visible") {
        Some(CssVisibility::Visible)
    } else if chars_are(t, "hidden") {
        Some(CssVisibility::Hidden)
    } else {
        None
    }
}

fn overflow_of(t: &Vec<char>) -> (r: Option<LayoutOverflow>)
    ensures
        r == overflow_named(t@),
{
    if chars_are(t, "visible") {
        Some(LayoutOverflow::Visible)
    } else if chars_are(t, "hidden") {
        Some(LayoutOverflow::Hidden)
    } else if chars_are(t, "scroll") {
        Some(LayoutOverflow::Scroll)
    } else {
        None
    }
}

fn white_space_of(t: &Vec<char>) -> (r: Option<CssWhiteSpace>)
    ensures
        r == white_space_named(t@),
{
    if chars_are(t, "normal") {
        Some(CssWhiteSpace::Normal)
    } else if chars_are(t, "nowrap") {
        Some(CssWhiteSpace::Nowrap)
    } else if chars_are(t, "pre") {
        Some(CssWhiteSpace::Pre)
    } else if chars_are(t, "pre-wrap") {
        Some(CssWhiteSpace::PreWrap)
    } else if chars_are(t, "pre-line") {
        Some(CssWhiteSpace::PreLine)
    } else {
        None
    }
}

fn border_of(t: &Vec<char>) -> (r: Option<BorderStyle>)
    ensures
        r == border_named(t@),
{
    if chars_are(t, "none") {
        Some(BorderStyle::NoBorder)
    } else if chars_are(t, "solid") {
        Some(BorderStyle::Solid)
    } else if chars_are(t, "double") {
        Some(BorderStyle::Double)
    } else if chars_are(t, "heavy") {
        Some(BorderStyle::Heavy)
    } else if chars_are(t, "rounded") {
        Some(BorderStyle::Rounded)
    } else if chars_are(t, "chunky-rounded") {
        Some(BorderStyle::ChunkyRounded)
    } else if chars_are(t, "ascii") {
        Some(BorderStyle::Ascii)
    } else {
        None
    }
}

/// Where the word of `s` that starts at `i` ends: the first whitespace at
/// or after `i`, or the end.
pub open spec fn word_end(s: Seq<char>, i: int) -> int
    decreases s.len() - i,
{
    if i < 0 || i >= s.len() || spec_is_whitespace(s[i]) {
        i
    } else {
        word_end(s, i + 1)
    }
}

/// The word that starts at `i` ends at the next whitespace, and is not
/// empty when `i` holds no whitespace.
pub proof fn lemma_word_end(s: Seq<char>, i: int)
    requires
        0 <= i <= s.len(),
    ensures
        i <= word_end(s, i) <= s.len(),
        i < s.len() && !spec_is_whitespace(s[i]) ==> i < word_end(s, i),
        forall|j: int| i <= j < word_end(s, i) ==> !spec_is_whitespace(#[trigger] s[j]),
        word_end(s, i) == s.len() || spec_is_whitespace(s[word_end(s, i)]),
    decreases s.len() - i,
{
    if i < s.len() && !spec_is_whitespace(s[i]) {
        lemma_word_end(s, i + 1);
    }
}

/// The words of `s` from position `i` on: its runs of non-whitespace
/// characters, in order.
pub open spec fn words_from(s: Seq<char>, i: int) -> Seq<Seq<char>>
    decreases s.len() - i,
{
    if i < 0 || i >= s.len() {
        Seq::empty()
    } else if spec_is_whitespace(s[i]) {
        words_from(s, i + 1)
    } else {
        let j = word_end(s, i);
        proof {
            lemma_word_end(s, i);
        }
        seq![s.subrange(i, j)] + words_from(s, j)
    }
}

/// The words of `s`: its runs of non-whitespace characters, in order.
pub open spec fn words(s: Seq<char>) -> Seq<Seq<char>> {
    words_from(s, 0)
}

/// The views of `v`'s words.
pub open spec fn word_views(v: Seq<Vec<char>>) -> Seq<Seq<char>> {
    v.map_values(|w: Vec<char>| w@)
}

/// Splits `t` into its words.
pub fn split_words(t: &Vec<char>) -> (r: Vec<Vec<char>>)
    ensures
        word_views(r@) == words(t@),
{
    let n = t.len();
    let mut r: Vec<Vec<char>> = Vec::new();
    let mut i: usize = 0;
    while i < n
        invariant
            n == t@.len(),
            i <= n,
            words(t@) == word_views(r@) + words_from(t@, i as int),
        decreases n - i,
    {
        if is_whitespace(t[i]) {
            i = i + 1;
        } else {
            let mut j: usize = i;
            let mut w: Vec<char> = Vec::new();
            while j < n && !is_whitespace(t[j])
                invariant
                    n == t@.len(),
                    i <= j <= n,
                    w@ == t@.subrange(i as int, j as int),
                    word_end(t@, i as int) == word_end(t@, j as int),
                decreases n - j,
            {
                proof {
                    assert(t@.subrange(i as int, j + 1) =~= w@.push(t@[j as int]));
                }
                w.push(t[j]);
                j = j + 1;
            }
            proof {
                assert(word_end(t@, j as int) == j);
                lemma_word_end(t@, i as int);
                let ghost before = r@;
                assert(word_views(before.push(w)) =~= word_views(before) + seq![w@]);
            }
            let ghost before = r@;
            r.push(w);
            proof {
                assert(word_views(r@) =~= word_views(before) + seq![w@]);
                assert(words_from(t@, i as int) == seq![t@.subrange(i as int, j as int)] + words_from(
                    t@,
                    j as int,
                ));
                assert(words(t@) =~= word_views(r@) + words_from(t@, j as int));
            }
            i = j;
        }
    }
    proof {
        assert(word_views(r@) + words_from(t@, n as int) =~= word_views(r@));
    }
    r
}

/// Whether `c` is an ASCII digit.
pub open spec fn is_digit(c: char) -> bool {
    '0' <= c <= '9'
}

/// The value of the decimal digits `s`.
pub open spec fn digits_value(s: Seq<char>) -> nat
    decreases s.len(),
{
    if s.len() == 0 {
        0
    } else {
        10 * digits_value(s.drop_last()) + ((s.last() as int) - ('0' as int)) as nat
    }
}

/// Whether every character of `s` is a digit.
pub open spec fn all_digits(s: Seq<char>) -> bool {
    forall|i: int| 0 <= i < s.len() ==> is_digit(#[trigger] s[i])
}

/// The unsigned decimal number `t`: digits, optionally a `.` and more
/// digits, with at least one digit; `None` where `t` is not one or its
/// digits make a number past `u64::MAX`.
pub open spec fn unsigned_number(t: Seq<char>, negative: bool) -> Option<CssNumber> {
    let dot = first_dot(t);
    let whole = t.take(dot);
    let fraction = if dot < t.len() {
        t.skip(dot + 1)
    } else {
        Seq::empty()
    };
    if all_digits(whole) && all_digits(fraction) && whole.len() + fraction.len() > 0
        && digits_value(whole + fraction) <= u64::MAX && fraction.len() <= u32::MAX {
        Some(
            CssNumber {
                negative,
                mantissa: digits_value(whole + fraction) as u64,
                scale: fraction.len() as u32,
            },
        )
    } else {
        None
    }
}

/// The index of the first `.` of `t`, or its length.
pub open spec fn first_dot(t: Seq<char>) -> int
    decreases t.len(),
{
    if t.len() == 0 {
        0
    } else if t[0] == '.' {
        0
    } else {
        1 + first_dot(t.drop_first())
    }
}

/// The decimal number `t`: an optional `-` and an unsigned number.
pub open spec fn number_spec(t: Seq<char>) -> Option<CssNumber> {
    if t.len() > 0 && t[0] == '-' {
        unsigned_number(t.drop_first(), true)
    } else {
        unsigned_number(t, false)
    }
}

/// Whether `n` is at least zero.
pub open spec fn non_negative(n: CssNumber) -> bool {
    !n.negative || n.mantissa == 0
}


proof fn lemma_first_dot(t: Seq<char>, k: int)
    requires
        0 <= k <= t.len(),
        forall|j: int| 0 <= j < k ==> #[trigger] t[j] != '.',
        k == t.len() || t[k] == '.',
    ensures
        first_dot(t) == k,
    decreases k,
{
    if k > 0 {
        lemma_first_dot(t.drop_first(), k - 1);
    }
}

proof fn lemma_first_dot_at_least(t: Seq<char>, k: int)
    requires
        0 <= k <= t.len(),
        forall|j: int| 0 <= j < k ==> #[trigger] t[j] != '.',
    ensures
        k <= first_dot(t) <= t.len(),
    decreases t.len(),
{
    if t.len() > 0 && t[0] != '.' {
        if k > 0 {
            lemma_first_dot_at_least(t.drop_first(), k - 1);
        } else {
            lemma_first_dot_at_least(t.drop_first(), 0);
        }
    }
}

/// A prefix of digits is worth no more than the whole.
proof fn lemma_digits_prefix(d: Seq<char>, k: int)
    requires
        all_digits(d),
        0 <= k <= d.len(),
    ensures
        digits_value(d.take(k)) <= digits_value(d),
    decreases d.len() - k,
{
    if k < d.len() {
        lemma_digits_prefix(d.drop_last(), k);
        assert(d.drop_last().take(k) =~= d.take(k));
        assert(is_digit(d[d.len() - 1]));
    } else {
        assert(d.take(k) =~= d);
    }
}

/// Reads the unsigned decimal number `t[start..end]`.
fn parse_unsigned(t: &Vec<char>, start: usize, end: usize, negative: bool) -> (r: Option<CssNumber>)
    requires
        start <= end <= t@.len(),
    ensures
        r == unsigned_number(t@.subrange(start as int, end as int), negative),
{
    let ghost sub = t@.subrange(start as int, end as int);
    let mut mantissa: u64 = 0;
    let mut seen_dot = false;
    let ghost mut dot: int = 0;
    let mut digits: usize = 0;
    let mut fraction: u32 = 0;
    let mut j: usize = start;
    while j < end
        invariant
            start <= j <= end <= t@.len(),
            sub == t@.subrange(start as int, end as int),
            !seen_dot ==> {
                &&& forall|i: int| 0 <= i < j - start ==> #[trigger] sub[i] != '.'
                &&& all_digits(sub.take(j - start))
                &&& mantissa == digits_value(sub.take(j - start))
                &&& digits == j - start
                &&& fraction == 0
            },
            seen_dot ==> {
                &&& 0 <= dot < j - start
                &&& first_dot(sub) == dot
                &&& all_digits(sub.take(dot))
                &&& all_digits(sub.subrange(dot + 1, j - start))
                &&& mantissa == digits_value(sub.take(dot) + sub.subrange(dot + 1, j - start))
                &&& digits == j - start - 1
                &&& fraction == j - start - dot - 1
            },
        decreases end - j,
    {
        let ghost k: int = j - start;
        let c = t[j];
        assert(sub[k] == c);
        if '0' <= c && c <= '9' {
            let d = (c as u32 - '0' as u32) as u64;
            let ghost prefix = if seen_dot {
                sub.take(dot) + sub.subrange(dot + 1, k)
            } else {
                sub.take(k)
            };
            proof {
                assert(prefix.push(c).drop_last() =~= prefix);
                assert(digits_value(prefix.push(c)) == 10 * mantissa + d);
            }
            if mantissa > (u64::MAX - d) / 10 {
                proof {
                    assert(10 * mantissa + d > u64::MAX) by (nonlinear_arith)
                        requires
                            mantissa > (u64::MAX - d) / 10,
                            d <= 9,
                    ;
                    let whole = sub.take(first_dot(sub));
                    let frac = if first_dot(sub) < sub.len() {
                        sub.skip(first_dot(sub) + 1)
                    } else {
                        Seq::empty()
                    };
                    if all_digits(whole) && all_digits(frac) {
                        let full = whole + frac;
                        if seen_dot {
                            assert(full.take(prefix.len() as int + 1) =~= prefix.push(c)) by {
                                assert(whole =~= sub.take(dot));
                                assert(frac =~= sub.skip(dot + 1));
                            }
                        } else {
                            lemma_first_dot_at_least(sub, k + 1);
                            assert(full.take(k + 1) =~= prefix.push(c));
                        }
                        lemma_digits_prefix(full, prefix.len() as int + 1);
                    }
                }
                return None;
            }
            mantissa = mantissa * 10 + d;
            digits = digits + 1;
            if seen_dot {
                if fraction == u32::MAX {
                    proof {
                        assert(sub.skip(dot + 1).len() > u32::MAX);
                    }
                    return None;
                }
                fraction = fraction + 1;
                proof {
                    assert(sub.subrange(dot + 1, k + 1) =~= sub.subrange(dot + 1, k).push(c));
                    assert(sub.take(dot) + sub.subrange(dot + 1, k + 1) =~= prefix.push(c));
                    assert(all_digits(sub.subrange(dot + 1, k + 1))) by {
                        assert forall|i: int| 0 <= i < sub.subrange(dot + 1, k + 1).len() implies is_digit(
                            #[trigger] sub.subrange(dot + 1, k + 1)[i],
                        ) by {
                            if i < k - dot - 1 {
                                assert(sub.subrange(dot + 1, k + 1)[i] == sub.subrange(dot + 1, k)[i]);
                            }
                        }
                    }
                }
            } else {
                proof {
                    assert(sub.take(k + 1) =~= prefix.push(c));
                    assert(all_digits(sub.take(k + 1))) by {
                        assert forall|i: int| 0 <= i < k + 1 implies is_digit(#[trigger] sub.take(k + 1)[i]) by {
                            if i < k {
                                assert(sub.take(k + 1)[i] == sub.take(k)[i]);
                            }
                        }
                    }
                }
            }
        } else if c == '.' && !seen_dot {
            proof {
                lemma_first_dot(sub, k);
                dot = k;
                assert(sub.subrange(dot + 1, k + 1) =~= Seq::<char>::empty());
                assert(sub.take(dot) + sub.subrange(dot + 1, k + 1) =~= sub.take(k));
            }
            seen_dot = true;
        } else {
            proof {
                if seen_dot {
                    let frac = sub.skip(dot + 1);
                    assert(frac[k - dot - 1] == c);
                    assert(!is_digit(frac[k - dot - 1]));
                } else {
                    lemma_first_dot_at_least(sub, k + 1);
                    let whole = sub.take(first_dot(sub));
                    assert(whole[k] == c);
                    assert(!is_digit(whole[k]));
                }
            }
            return None;
        }
        j = j + 1;
    }
    proof {
        let n = sub.len() as int;
        assert(j - start == n);
        if !seen_dot {
            lemma_first_dot(sub, n);
            assert(sub.take(n) =~= sub);
            assert(sub.take(first_dot(sub)) =~= sub);
            assert(sub + Seq::<char>::empty() =~= sub);
        } else {
            assert(sub.subrange(dot + 1, n) =~= sub.skip(dot + 1));
        }
    }
    if digits == 0 {
        return None;
    }
    Some(CssNumber { negative, mantissa, scale: fraction })
}

/// Reads the decimal number `t[start..end]`.
pub(crate) fn parse_number(t: &Vec<char>, start: usize, end: usize) -> (r: Option<CssNumber>)
    requires
        start <= end <= t@.len(),
    ensures
        r == number_spec(t@.subrange(start as int, end as int)),
{
    if start < end && t[start] == '-' {
        proof {
            assert(t@.subrange(start as int, end as int).drop_first() =~= t@.subrange(
                start + 1,
                end as int,
            ));
        }
        parse_unsigned(t, start + 1, end, true)
    } else {
        parse_unsigned(t, start, end, false)
    }
}

/// `n` as a fraction of a hundred: `n%`, where the scale still fits.
pub open spec fn percent_of(n: CssNumber) -> Option<CssNumber> {
    if n.scale <= u32::MAX - 2 {
        Some(CssNumber { scale: (n.scale + 2) as u32, ..n })
    } else {
        None
    }
}

/// A length, or with a trailing `%` a percentage; with `auto_allowed`,
/// also `auto`.
pub open spec fn dimension_spec(t: Seq<char>, auto_allowed: bool) -> Option<CssDimension> {
    if auto_allowed && t == "auto"@ {
        Some(CssDimension::Auto)
    } else if t.len() > 0 && t.last() == '%' {
        match number_spec(t.drop_last()) {
            Some(n) => match percent_of(n) {
                Some(p) => Some(CssDimension::Percent(p)),
                None => None,
            },
            None => None,
        }
    } else {
        match number_spec(t) {
            Some(n) => Some(CssDimension::Length(n)),
            None => None,
        }
    }
}

/// A number, or with a trailing `%` that number of hundredths.
pub open spec fn amount_spec(t: Seq<char>) -> Option<CssNumber> {
    if t.len() > 0 && t.last() == '%' {
        match number_spec(t.drop_last()) {
            Some(n) => percent_of(n),
            None => None,
        }
    } else {
        number_spec(t)
    }
}

/// The value of an integral number, where it is one.
pub open spec fn integer_value(n: CssNumber) -> int {
    if n.negative {
        -(n.mantissa as int)
    } else {
        n.mantissa as int
    }
}

/// `auto`, or an integer that fits in `i32`.
pub open spec fn z_index_spec(t: Seq<char>) -> Option<CssZIndex> {
    if t == "auto"@ {
        Some(CssZIndex::Auto)
    } else {
        match number_spec(t) {
            Some(n) => if n.scale == 0 && i32::MIN <= integer_value(n) <= i32::MAX {
                Some(CssZIndex::Integer(integer_value(n) as i32))
            } else {
                None
            },
            None => None,
        }
    }
}

fn percent(n: CssNumber) -> (r: Option<CssNumber>)
    ensures
        r == percent_of(n),
{
    if n.scale <= u32::MAX - 2 {
        Some(CssNumber { scale: n.scale + 2, ..n })
    } else {
        None
    }
}

fn dimension_of(t: &Vec<char>, auto_allowed: bool) -> (r: Option<CssDimension>)
    ensures
        r == dimension_spec(t@, auto_allowed),
{
    let n = t.len();
    proof {
        assert(t@.subrange(0, n as int) =~= t@);
    }
    if auto_allowed && chars_are(t, "auto") {
        Some(CssDimension::Auto)
    } else if n > 0 && t[n - 1] == '%' {
        proof {
            assert(t@.subrange(0, n - 1) =~= t@.drop_last());
        }
        match parse_number(t, 0, n - 1) {
            Some(v) => match percent(v) {
                Some(p) => Some(CssDimension::Percent(p)),
                None => None,
            },
            None => None,
        }
    } else {
        match parse_number(t, 0, n) {
            Some(v) => Some(CssDimension::Length(v)),
            None => None,
        }
    }
}

fn amount_of(t: &Vec<char>) -> (r: Option<CssNumber>)
    ensures
        r == amount_spec(t@),
{
    let n = t.len();
    proof {
        assert(t@.subrange(0, n as int) =~= t@);
    }
    if n > 0 && t[n - 1] == '%' {
        proof {
            assert(t@.subrange(0, n - 1) =~= t@.drop_last());
        }
        match parse_number(t, 0, n - 1) {
            Some(v) => percent(v),
            None => None,
        }
    } else {
        parse_number(t, 0, n)
    }
}

fn z_index_of(t: &Vec<char>) -> (r: Option<CssZIndex>)
    ensures
        r == z_index_spec(t@),
{
    let n = t.len();
    proof {
        assert(t@.subrange(0, n as int) =~= t@);
    }
    if chars_are(t, "auto") {
        return Some(CssZIndex::Auto);
    }
    match parse_number(t, 0, n) {
        Some(v) => {
            if v.scale != 0 {
                None
            } else if v.negative {
                if v.mantissa <= 2147483648 {
                    let m = v.mantissa as i64;
                    Some(CssZIndex::Integer((0 - m) as i32))
                } else {
                    None
                }
            } else if v.mantissa <= 2147483647 {
                Some(CssZIndex::Integer(v.mantissa as i32))
            } else {
                None
            }
        },
        None => None,
    }
}

/// `d`, or `auto` where there is none.
pub open spec fn dimension_or_auto(d: Option<CssDimension>) -> CssDimension {
    match d {
        Some(v) => v,
        None => CssDimension::Auto,
    }
}

/// One to four lengths (with `auto_allowed`, also `auto`) for the top,
/// right, bottom and left sides: one for all; two for top and bottom, then
/// right and left; three for top, right and left, bottom; four in order.
pub open spec fn sides_spec(ws: Seq<Seq<char>>, auto_allowed: bool) -> Option<StyleValue> {
    if 1 <= ws.len() <= 4 && (forall|i: int| 0 <= i < ws.len() ==> (#[trigger] dimension_spec(ws[i], auto_allowed)) is Some) {
        let a = dimension_or_auto(dimension_spec(ws[0], auto_allowed));
        let b = dimension_or_auto(dimension_spec(ws[1], auto_allowed));
        let c = dimension_or_auto(dimension_spec(ws[2], auto_allowed));
        let d = dimension_or_auto(dimension_spec(ws[3], auto_allowed));
        Some(
            if ws.len() == 1 {
                StyleValue::Sides(a, a, a, a)
            } else if ws.len() == 2 {
                StyleValue::Sides(a, b, a, b)
            } else if ws.len() == 3 {
                StyleValue::Sides(a, b, c, b)
            } else {
                StyleValue::Sides(a, b, c, d)
            },
        )
    } else {
        None
    }
}

/// One length for both gaps, or a row gap and a column gap.
pub open spec fn gap_spec(ws: Seq<Seq<char>>) -> Option<StyleValue> {
    if ws.len() == 1 {
        match dimension_spec(ws[0], false) {
            Some(a) => Some(StyleValue::Gap(a, a)),
            None => None,
        }
    } else if ws.len() == 2 {
        match (dimension_spec(ws[0], false), dimension_spec(ws[1], false)) {
            (Some(a), Some(b)) => Some(StyleValue::Gap(a, b)),
            _ => None,
        }
    } else {
        None
    }
}

/// A direction, a wrap, or both in either order; what is left out is `row`
/// or `nowrap`.
pub open spec fn flex_flow_spec(ws: Seq<Seq<char>>) -> Option<StyleValue> {
    if ws.len() == 1 {
        match flex_direction_named(ws[0]) {
            Some(d) => Some(StyleValue::FlexFlow(d, FlexWrap::NoWrap)),
            None => match flex_wrap_named(ws[0]) {
                Some(w) => Some(StyleValue::FlexFlow(FlexDirection::Row, w)),
                None => None,
            },
        }
    } else if ws.len() == 2 {
        match (flex_direction_named(ws[0]), flex_wrap_named(ws[1])) {
            (Some(d), Some(w)) => Some(StyleValue::FlexFlow(d, w)),
            _ => match (flex_wrap_named(ws[0]), flex_direction_named(ws[1])) {
                (Some(w), Some(d)) => Some(StyleValue::FlexFlow(d, w)),
                _ => None,
            },
        }
    } else {
        None
    }
}

/// A non-negative number, as a grow or shrink factor.
pub open spec fn factor_spec(w: Seq<char>) -> Option<CssNumber> {
    match number_spec(w) {
        Some(n) => if non_negative(n) {
            Some(n)
        } else {
            None
        },
        None => None,
    }
}

/// The whole number `n`.
pub open spec fn whole(n: u64) -> CssNumber {
    CssNumber { negative: false, mantissa: n, scale: 0 }
}

/// The `flex` shorthand: `none` (0 0 auto), `auto` (1 1 auto), a grow
/// factor (shrink 1, basis 0%), a basis (grow and shrink 1), a grow factor
/// with a shrink factor (basis 0%) or with a basis (shrink 1), or all three.
pub open spec fn flex_spec(ws: Seq<Seq<char>>) -> Option<StyleValue> {
    let zero_basis = CssDimension::Percent(whole(0));
    if ws.len() == 1 {
        if ws[0] == "none"@ {
            Some(StyleValue::Flex(whole(0), whole(0), CssDimension::Auto))
        } else if ws[0] == "auto"@ {
            Some(StyleValue::Flex(whole(1), whole(1), CssDimension::Auto))
        } else {
            match factor_spec(ws[0]) {
                Some(g) => Some(StyleValue::Flex(g, whole(1), zero_basis)),
                None => match dimension_spec(ws[0], true) {
                    Some(b) => Some(StyleValue::Flex(whole(1), whole(1), b)),
                    None => None,
                },
            }
        }
    } else if ws.len() == 2 {
        match factor_spec(ws[0]) {
            Some(g) => match factor_spec(ws[1]) {
                Some(sh) => Some(StyleValue::Flex(g, sh, zero_basis)),
                None => match dimension_spec(ws[1], true) {
                    Some(b) => Some(StyleValue::Flex(g, whole(1), b)),
                    None => None,
                },
            },
            None => None,
        }
    } else if ws.len() == 3 {
        match (factor_spec(ws[0]), factor_spec(ws[1]), dimension_spec(ws[2], true)) {
            (Some(g), Some(sh), Some(b)) => Some(StyleValue::Flex(g, sh, b)),
            _ => None,
        }
    } else {
        None
    }
}

/// `auto`, or a thumb colour and a track colour.
pub open spec fn scrollbar_colour_spec(t: Seq<char>) -> Option<StyleValue> {
    if t == "auto"@ {
        Some(StyleValue::ScrollbarColour(ScrollbarColours::Auto))
    } else {
        let ws = words(t);
        if ws.len() == 2 {
            match (colour_spec(ws[0]), colour_spec(ws[1])) {
                (Some(thumb), Some(track)) => Some(
                    StyleValue::ScrollbarColour(ScrollbarColours::Colours { thumb, track }),
                ),
                _ => None,
            }
        } else {
            None
        }
    }
}

fn sides_of(ws: &Vec<Vec<char>>, auto_allowed: bool) -> (r: Option<StyleValue>)
    ensures
        r == sides_spec(word_views(ws@), auto_allowed),
{
    let ghost v = word_views(ws@);
    let n = ws.len();
    if n < 1 || n > 4 {
        return None;
    }
    let mut ds: Vec<CssDimension> = Vec::new();
    let mut i: usize = 0;
    while i < n
        invariant
            n == ws@.len(),
            v == word_views(ws@),
            i <= n,
            ds@.len() == i,
            forall|j: int| 0 <= j < i ==> dimension_spec(#[trigger] v[j], auto_allowed) == Some(ds@[j]),
        decreases n - i,
    {
        match dimension_of(&ws[i], auto_allowed) {
            Some(d) => ds.push(d),
            None => {
                assert(v[i as int] == ws@[i as int]@);
                return None;
            },
        }
        assert(v[i as int] == ws@[i as int]@);
        i = i + 1;
    }
    let a = ds[0];
    let value = if n == 1 {
        StyleValue::Sides(a, a, a, a)
    } else if n == 2 {
        StyleValue::Sides(a, ds[1], a, ds[1])
    } else if n == 3 {
        StyleValue::Sides(a, ds[1], ds[2], ds[1])
    } else {
        StyleValue::Sides(a, ds[1], ds[2], ds[3])
    };
    Some(value)
}

fn gap_of(ws: &Vec<Vec<char>>) -> (r: Option<StyleValue>)
    ensures
        r == gap_spec(word_views(ws@)),
{
    let ghost v = word_views(ws@);
    if ws.len() == 1 {
        assert(v[0] == ws@[0]@);
        match dimension_of(&ws[0], false) {
            Some(a) => Some(StyleValue::Gap(a, a)),
            None => None,
        }
    } else if ws.len() == 2 {
        assert(v[0] == ws@[0]@);
        assert(v[1] == ws@[1]@);
        match (dimension_of(&ws[0], false), dimension_of(&ws[1], false)) {
            (Some(a), Some(b)) => Some(StyleValue::Gap(a, b)),
            _ => None,
        }
    } else {
        None
    }
}

fn flex_flow_of(ws: &Vec<Vec<char>>) -> (r: Option<StyleValue>)
    ensures
        r == flex_flow_spec(word_views(ws@)),
{
    let ghost v = word_views(ws@);
    if ws.len() == 1 {
        assert(v[0] == ws@[0]@);
        match flex_direction_of(&ws[0]) {
            Some(d) => Some(StyleValue::FlexFlow(d, FlexWrap::NoWrap)),
            None => match flex_wrap_of(&ws[0]) {
                Some(w) => Some(StyleValue::FlexFlow(FlexDirection::Row, w)),
                None => None,
            },
        }
    } else if ws.len() == 2 {
        assert(v[0] == ws@[0]@);
        assert(v[1] == ws@[1]@);
        match (flex_direction_of(&ws[0]), flex_wrap_of(&ws[1])) {
            (Some(d), Some(w)) => Some(StyleValue::FlexFlow(d, w)),
            _ => match (flex_wrap_of(&ws[0]), flex_direction_of(&ws[1])) {
                (Some(w), Some(d)) => Some(StyleValue::FlexFlow(d, w)),
                _ => None,
            },
        }
    } else {
        None
    }
}

fn factor_of(w: &Vec<char>) -> (r: Option<CssNumber>)
    ensures
        r == factor_spec(w@),
{
    let n = w.len();
    proof {
        assert(w@.subrange(0, n as int) =~= w@);
    }
    match parse_number(w, 0, n) {
        Some(v) => if !v.negative || v.mantissa == 0 {
            Some(v)
        } else {
            None
        },
        None => None,
    }
}

fn flex_of(ws: &Vec<Vec<char>>) -> (r: Option<StyleValue>)
    ensures
        r == flex_spec(word_views(ws@)),
{
    let ghost v = word_views(ws@);
    let one = CssNumber { negative: false, mantissa: 1, scale: 0 };
    let zero = CssNumber { negative: false, mantissa: 0, scale: 0 };
    let zero_basis = CssDimension::Percent(zero);
    if ws.len() == 1 {
        assert(v[0] == ws@[0]@);
        if chars_are(&ws[0], "none") {
            Some(StyleValue::Flex(zero, zero, CssDimension::Auto))
        } else if chars_are(&ws[0], "auto") {
            Some(StyleValue::Flex(one, one, CssDimension::Auto))
        } else {
            match factor_of(&ws[0]) {
                Some(g) => Some(StyleValue::Flex(g, one, zero_basis)),
                None => match dimension_of(&ws[0], true) {
                    Some(b) => Some(StyleValue::Flex(one, one, b)),
                    None => None,
                },
            }
        }
    } else if ws.len() == 2 {
        assert(v[0] == ws@[0]@);
        assert(v[1] == ws@[1]@);
        match factor_of(&ws[0]) {
            Some(g) => match factor_of(&ws[1]) {
                Some(sh) => Some(StyleValue::Flex(g, sh, zero_basis)),
                None => match dimension_of(&ws[1], true) {
                    Some(b) => Some(StyleValue::Flex(g, one, b)),
                    None => None,
                },
            },
            None => None,
        }
    } else if ws.len() == 3 {
        assert(v[0] == ws@[0]@);
        assert(v[1] == ws@[1]@);
        assert(v[2] == ws@[2]@);
        match (factor_of(&ws[0]), factor_of(&ws[1]), dimension_of(&ws[2], true)) {
            (Some(g), Some(sh), Some(b)) => Some(StyleValue::Flex(g, sh, b)),
            _ => None,
        }
    } else {
        None
    }
}

fn scrollbar_colour_of(t: &Vec<char>) -> (r: Option<StyleValue>)
    ensures
        r == scrollbar_colour_spec(t@),
{
    if chars_are(t, "auto") {
        return Some(StyleValue::ScrollbarColour(ScrollbarColours::Auto));
    }
    let ws = split_words(t);
    let ghost v = word_views(ws@);
    if ws.len() == 2 {
        assert(v[0] == ws@[0]@);
        assert(v[1] == ws@[1]@);
        match (colour_of(&ws[0]), colour_of(&ws[1])) {
            (Some(thumb), Some(track)) => Some(
                StyleValue::ScrollbarColour(ScrollbarColours::Colours { thumb, track }),
            ),
            _ => None,
        }
    } else {
        None
    }
}

/// The grammar a property's value is read by.
#[derive(Clone, Copy, Debug, PartialEq, Eq, Structural)]
pub enum ValueGrammar {
    Display,
    Position,
    Visibility,
    Overflow,
    ZIndex,
    WhiteSpace,
    Border,
    DimensionOrAuto,
    Dimension,
    Amount,
    NonNegativeNumber,
    FlexDirection,
    FlexWrap,
    FlexFlow,
    JustifyContent,
    AlignItems,
    FontWeight,
    FontStyle,
    TextDecoration,
    ScrollbarGutter,
    Colour,
    ScrollbarColour,
    Padding,
    Margin,
    Gap,
    Flex,
    Text,
}

/// The grammar of `p`'s values.
pub open spec fn grammar_of(p: StyleProperty) -> ValueGrammar {
    match p {
        StyleProperty::Display => ValueGrammar::Display,
        StyleProperty::Position => ValueGrammar::Position,
        StyleProperty::Visibility => ValueGrammar::Visibility,
        StyleProperty::Overflow | StyleProperty::OverflowX | StyleProperty::OverflowY => ValueGrammar::Overflow,
        StyleProperty::ZIndex => ValueGrammar::ZIndex,
        StyleProperty::WhiteSpace => ValueGrammar::WhiteSpace,
        StyleProperty::Border | StyleProperty::BorderTop | StyleProperty::BorderRight
        | StyleProperty::BorderBottom | StyleProperty::BorderLeft => ValueGrammar::Border,
        StyleProperty::Top | StyleProperty::Right | StyleProperty::Bottom | StyleProperty::Left
        | StyleProperty::Width | StyleProperty::Height | StyleProperty::MinWidth
        | StyleProperty::MaxWidth | StyleProperty::MinHeight | StyleProperty::MaxHeight
        | StyleProperty::FlexBasis | StyleProperty::MarginTop | StyleProperty::MarginRight
        | StyleProperty::MarginBottom | StyleProperty::MarginLeft => ValueGrammar::DimensionOrAuto,
        StyleProperty::PaddingTop | StyleProperty::PaddingRight | StyleProperty::PaddingBottom
        | StyleProperty::PaddingLeft | StyleProperty::RowGap | StyleProperty::ColumnGap => ValueGrammar::Dimension,
        StyleProperty::Opacity => ValueGrammar::Amount,
        StyleProperty::FlexGrow | StyleProperty::FlexShrink => ValueGrammar::NonNegativeNumber,
        StyleProperty::FlexDirection => ValueGrammar::FlexDirection,
        StyleProperty::FlexWrap => ValueGrammar::FlexWrap,
        StyleProperty::FlexFlow => ValueGrammar::FlexFlow,
        StyleProperty::JustifyContent | StyleProperty::AlignContent => ValueGrammar::JustifyContent,
        StyleProperty::AlignItems | StyleProperty::AlignSelf | StyleProperty::JustifyItems
        | StyleProperty::JustifySelf => ValueGrammar::AlignItems,
        StyleProperty::FontWeight => ValueGrammar::FontWeight,
        StyleProperty::FontStyle => ValueGrammar::FontStyle,
        StyleProperty::TextDecorationLine => ValueGrammar::TextDecoration,
        StyleProperty::ScrollbarGutter => ValueGrammar::ScrollbarGutter,
        StyleProperty::Color | StyleProperty::Background | StyleProperty::BorderColor
        | StyleProperty::PlaceholderColor | StyleProperty::SelectionBackground => ValueGrammar::Colour,
        StyleProperty::ScrollbarColor => ValueGrammar::ScrollbarColour,
        StyleProperty::Padding => ValueGrammar::Padding,
        StyleProperty::Margin => ValueGrammar::Margin,
        StyleProperty::Gap => ValueGrammar::Gap,
        StyleProperty::Flex => ValueGrammar::Flex,
        _ => ValueGrammar::Text,
    }
}

fn grammar(p: StyleProperty) -> (r: ValueGrammar)
    ensures
        r == grammar_of(p),
{
    match p {
        StyleProperty::Display => ValueGrammar::Display,
        StyleProperty::Position => ValueGrammar::Position,
        StyleProperty::Visibility => ValueGrammar::Visibility,
        StyleProperty::Overflow | StyleProperty::OverflowX | StyleProperty::OverflowY => ValueGrammar::Overflow,
        StyleProperty::ZIndex => ValueGrammar::ZIndex,
        StyleProperty::WhiteSpace => ValueGrammar::WhiteSpace,
        StyleProperty::Border | StyleProperty::BorderTop | StyleProperty::BorderRight
        | StyleProperty::BorderBottom | StyleProperty::BorderLeft => ValueGrammar::Border,
        StyleProperty::Top | StyleProperty::Right | StyleProperty::Bottom | StyleProperty::Left
        | StyleProperty::Width | StyleProperty::Height | StyleProperty::MinWidth
        | StyleProperty::MaxWidth | StyleProperty::MinHeight | StyleProperty::MaxHeight
        | StyleProperty::FlexBasis | StyleProperty::MarginTop | StyleProperty::MarginRight
        | StyleProperty::MarginBottom | StyleProperty::MarginLeft => ValueGrammar::DimensionOrAuto,
        StyleProperty::PaddingTop | StyleProperty::PaddingRight | StyleProperty::PaddingBottom
        | StyleProperty::PaddingLeft | StyleProperty::RowGap | StyleProperty::ColumnGap => ValueGrammar::Dimension,
        StyleProperty::Opacity => ValueGrammar::Amount,
        StyleProperty::FlexGrow | StyleProperty::FlexShrink => ValueGrammar::NonNegativeNumber,
        StyleProperty::FlexDirection => ValueGrammar::FlexDirection,
        StyleProperty::FlexWrap => ValueGrammar::FlexWrap,
        StyleProperty::FlexFlow => ValueGrammar::FlexFlow,
        StyleProperty::JustifyContent | StyleProperty::AlignContent => ValueGrammar::JustifyContent,
        StyleProperty::AlignItems | StyleProperty::AlignSelf | StyleProperty::JustifyItems
        | StyleProperty::JustifySelf => ValueGrammar::AlignItems,
        StyleProperty::FontWeight => ValueGrammar::FontWeight,
        StyleProperty::FontStyle => ValueGrammar::FontStyle,
        StyleProperty::TextDecorationLine => ValueGrammar::TextDecoration,
        StyleProperty::ScrollbarGutter => ValueGrammar::ScrollbarGutter,
        StyleProperty::Color | StyleProperty::Background | StyleProperty::BorderColor
        | StyleProperty::PlaceholderColor | StyleProperty::SelectionBackground => ValueGrammar::Colour,
        StyleProperty::ScrollbarColor => ValueGrammar::ScrollbarColour,
        StyleProperty::Padding => ValueGrammar::Padding,
        StyleProperty::Margin => ValueGrammar::Margin,
        StyleProperty::Gap => ValueGrammar::Gap,
        StyleProperty::Flex => ValueGrammar::Flex,
        _ => ValueGrammar::Text,
    }
}

/// The value the text `t` gives under grammar `g`, if it fits it.
pub open spec fn wrapped_value(g: ValueGrammar, t: Seq<char>) -> Option<StyleValue> {
    match g {
        ValueGrammar::Display => match display_named(t) {
            Some(v) => Some(StyleValue::Display(v)),
            None => None,
        },
        ValueGrammar::Position => match position_named(t) {
            Some(v) => Some(StyleValue::Position(v)),
            None => None,
        },
        ValueGrammar::Visibility => match visibility_named(t) {
            Some(v) => Some(StyleValue::Visibility(v)),
            None => None,
        },
        ValueGrammar::Overflow => match overflow_named(t) {
            Some(v) => Some(StyleValue::Overflow(v)),
            None => None,
        },
        ValueGrammar::ZIndex => match z_index_spec(t) {
            Some(v) => Some(StyleValue::ZIndex(v)),
            None => None,
        },
        ValueGrammar::WhiteSpace => match white_space_named(t) {
            Some(v) => Some(StyleValue::WhiteSpace(v)),
            None => None,
        },
        ValueGrammar::Border => match border_named(t) {
            Some(v) => Some(StyleValue::Border(v)),
            None => None,
        },
        ValueGrammar::DimensionOrAuto => match dimension_spec(t, true) {
            Some(v) => Some(StyleValue::Dimension(v)),
            None => None,
        },
        ValueGrammar::Dimension => match dimension_spec(t, false) {
            Some(v) => Some(StyleValue::Dimension(v)),
            None => None,
        },
        ValueGrammar::Amount => match amount_spec(t) {
            Some(v) => Some(StyleValue::Number(v)),
            None => None,
        },
        ValueGrammar::NonNegativeNumber => match number_spec(t) {
            Some(v) => if non_negative(v) {
                Some(StyleValue::Number(v))
            } else {
                None
            },
            None => None,
        },
        ValueGrammar::FlexDirection => match flex_direction_named(t) {
            Some(v) => Some(StyleValue::FlexDirection(v)),
            None => None,
        },
        ValueGrammar::FlexWrap => match flex_wrap_named(t) {
            Some(v) => Some(StyleValue::FlexWrap(v)),
            None => None,
        },
        ValueGrammar::JustifyContent => match justify_content_named(t) {
            Some(v) => Some(StyleValue::JustifyContent(v)),
            None => None,
        },
        ValueGrammar::AlignItems => match align_items_named(t) {
            Some(v) => Some(StyleValue::AlignItems(v)),
            None => None,
        },
        ValueGrammar::FontWeight => match font_weight_named(t) {
            Some(v) => Some(StyleValue::FontWeight(v)),
            None => None,
        },
        ValueGrammar::FontStyle => match font_style_named(t) {
            Some(v) => Some(StyleValue::FontStyle(v)),
            None => None,
        },
        ValueGrammar::TextDecoration => match text_decoration_line_named(t) {
            Some(v) => Some(StyleValue::TextDecoration(v)),
            None => None,
        },
        ValueGrammar::ScrollbarGutter => match scrollbar_gutter_named(t) {
            Some(v) => Some(StyleValue::ScrollbarGutter(v)),
            None => None,
        },
        ValueGrammar::Colour => match colour_spec(t) {
            Some(v) => Some(StyleValue::Colour(v)),
            None => None,
        },
        ValueGrammar::ScrollbarColour => scrollbar_colour_spec(t),
        ValueGrammar::FlexFlow => flex_flow_spec(words(t)),
        ValueGrammar::Padding => sides_spec(words(t), false),
        ValueGrammar::Margin => sides_spec(words(t), true),
        ValueGrammar::Gap => gap_spec(words(t)),
        ValueGrammar::Flex => flex_spec(words(t)),
        ValueGrammar::Text => None,
    }
}

/// The value `raw` sets on `p`: read by `p`'s grammar from the text without
/// surrounding whitespace, or kept as written where this module holds no
/// grammar for `p`; `None` where the text does not fit the grammar.
pub open spec fn style_value_spec(p: StyleProperty, raw: String) -> Option<StyleValue> {
    if grammar_of(p) == ValueGrammar::Text {
        Some(StyleValue::Text(raw))
    } else {
        wrapped_value(grammar_of(p), trimmed(raw@))
    }
}

/// Reads the value `raw` sets on `p`; gives `raw` back where it does not
/// fit `p`'s grammar.
pub fn parse_style_value(p: StyleProperty, raw: String) -> (r: Result<StyleValue, String>)
    ensures
        style_value_spec(p, raw) matches Some(v) ==> r == Ok::<StyleValue, String>(v),
        style_value_spec(p, raw) is None ==> r == Err::<StyleValue, String>(raw),
{
    let g = grammar(p);
    if g == ValueGrammar::Text {
        return Ok(StyleValue::Text(raw));
    }
    let t = trimmed_chars(raw.as_str());
    let parsed = match g {
        ValueGrammar::Display => match display_of(&t) {
            Some(v) => Some(StyleValue::Display(v)),
            None => None,
        },
        ValueGrammar::Position => match position_of(&t) {
            Some(v) => Some(StyleValue::Position(v)),
            None => None,
        },
        ValueGrammar::Visibility => match visibility_of(&t) {
            Some(v) => Some(StyleValue::Visibility(v)),
            None => None,
        },
        ValueGrammar::Overflow => match overflow_of(&t) {
            Some(v) => Some(StyleValue::Overflow(v)),
            None => None,
        },
        ValueGrammar::ZIndex => match z_index_of(&t) {
            Some(v) => Some(StyleValue::ZIndex(v)),
            None => None,
        },
        ValueGrammar::WhiteSpace => match white_space_of(&t) {
            Some(v) => Some(StyleValue::WhiteSpace(v)),
            None => None,
        },
        ValueGrammar::Border => match border_of(&t) {
            Some(v) => Some(StyleValue::Border(v)),
            None => None,
        },
        ValueGrammar::DimensionOrAuto => match dimension_of(&t, true) {
            Some(v) => Some(StyleValue::Dimension(v)),
            None => None,
        },
        ValueGrammar::Dimension => match dimension_of(&t, false) {
            Some(v) => Some(StyleValue::Dimension(v)),
            None => None,
        },
        ValueGrammar::Amount => match amount_of(&t) {
            Some(v) => Some(StyleValue::Number(v)),
            None => None,
        },
        ValueGrammar::NonNegativeNumber => {
            let n = t.len();
            proof {
                assert(t@.subrange(0, n as int) =~= t@);
            }
            match parse_number(&t, 0, n) {
                Some(v) => if !v.negative || v.mantissa == 0 {
                    Some(StyleValue::Number(v))
                } else {
                    None
                },
                None => None,
            }
        },
        ValueGrammar::FlexDirection => match flex_direction_of(&t) {
            Some(v) => Some(StyleValue::FlexDirection(v)),
            None => None,
        },
        ValueGrammar::FlexWrap => match flex_wrap_of(&t) {
            Some(v) => Some(StyleValue::FlexWrap(v)),
            None => None,
        },
        ValueGrammar::JustifyContent => match justify_content_of(&t) {
            Some(v) => Some(StyleValue::JustifyContent(v)),
            None => None,
        },
        ValueGrammar::AlignItems => match align_items_of(&t) {
            Some(v) => Some(StyleValue::AlignItems(v)),
            None => None,
        },
        ValueGrammar::FontWeight => match font_weight_of(&t) {
            Some(v) => Some(StyleValue::FontWeight(v)),
            None => None,
        },
        ValueGrammar::FontStyle => match font_style_of(&t) {
            Some(v) => Some(StyleValue::FontStyle(v)),
            None => None,
        },
        ValueGrammar::TextDecoration => match text_decoration_line_of(&t) {
            Some(v) => Some(StyleValue::TextDecoration(v)),
            None => None,
        },
        ValueGrammar::ScrollbarGutter => match scrollbar_gutter_of(&t) {
            Some(v) => Some(StyleValue::ScrollbarGutter(v)),
            None => None,
        },
        ValueGrammar::Colour => match colour_of(&t) {
            Some(v) => Some(StyleValue::Colour(v)),
            None => None,
        },
        ValueGrammar::ScrollbarColour => scrollbar_colour_of(&t),
        ValueGrammar::FlexFlow => flex_flow_of(&split_words(&t)),
        ValueGrammar::Padding => sides_of(&split_words(&t), false),
        ValueGrammar::Margin => sides_of(&split_words(&t), true),
        ValueGrammar::Gap => gap_of(&split_words(&t)),
        ValueGrammar::Flex => flex_of(&split_words(&t)),
        ValueGrammar::Text => None,
    };
    match parsed {
        Some(v) => Ok(v),
        None => Err(raw),
    }
}

} // verus!
