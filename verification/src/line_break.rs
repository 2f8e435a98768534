//! Where a run of text may wrap: before which characters a soft line break
//! and a grapheme boundary fall, under the CSS `word-break` modes.
//!
//! The Unicode line breaking algorithm and grapheme segmentation are those of
//! the `unicode-linebreak` and `unicode-segmentation` crates; this module maps
//! their byte offsets to character positions and applies `word-break`.

use vstd::prelude::*;
use unicode_linebreak::{break_property, linebreaks, BreakOpportunity};
use unicode_segmentation::UnicodeSegmentation;
use crate::style::CssWordBreak;
use crate::text::string_from_chars;

verus! {

/// The byte offsets at which `text` may or must break, in order, each with
/// whether the break is mandatory, as `unicode_linebreak::linebreaks` gives
/// them.
pub uninterp spec fn line_break_opportunities(text: Seq<char>) -> Seq<(usize, bool)>;

/// The byte offsets at which the extended grapheme clusters of `text`
/// start, in order, as `unicode_segmentation` gives them.
pub uninterp spec fn grapheme_start_offsets(text: Seq<char>) -> Seq<usize>;

/// The Unicode line breaking class of `c`, by its number in
/// `unicode_linebreak::BreakClass`.
pub uninterp spec fn line_break_class(c: char) -> u8;

/// Calls `unicode_linebreak::linebreaks`: the byte offsets of the break
/// opportunities of `text` in order, each with whether it is mandatory.
/// Claimed: the result is a function of the text alone.
#[verifier::external_body]
fn break_opportunities(text: &str) -> (r: Vec<(usize, bool)>)
    ensures
        r@ == line_break_opportunities(text@),
{
    linebreaks(text).map(|(index, opportunity)| (index, matches!(opportunity, BreakOpportunity::Mandatory))).collect()
}

/// Calls `UnicodeSegmentation::grapheme_indices` with extended clusters:
/// the byte offsets at which the clusters of `text` start, in order.
/// Claimed: the result is a function of the text alone.
#[verifier::external_body]
fn grapheme_starts(text: &str) -> (r: Vec<usize>)
    ensures
        r@ == grapheme_start_offsets(text@),
{
    text.grapheme_indices(true).map(|(index, _)| index).collect()
}

/// Calls `unicode_linebreak::break_property` on the code point of `c` and
/// gives the class's number. Claimed: the result is a function of `c` alone.
#[verifier::external_body]
fn break_class(c: char) -> (r: u8)
    ensures
        r == line_break_class(c),
{
    break_property(c as u32) as u8
}

/// Class numbers of `unicode_linebreak::BreakClass`.
pub const NUMERIC: u8 = 24;
pub const AMBIGUOUS: u8 = 28;
pub const ALPHABETIC: u8 = 29;
pub const HANGUL_LV_SYLLABLE: u8 = 33;
pub const HANGUL_LVT_SYLLABLE: u8 = 34;
pub const HEBREW_LETTER: u8 = 35;
pub const IDEOGRAPHIC: u8 = 36;
pub const HANGUL_L_JAMO: u8 = 37;
pub const HANGUL_V_JAMO: u8 = 38;
pub const HANGUL_T_JAMO: u8 = 39;

/// Whether a line breaking class is one of the letters, numbers and
/// ideographs between which `word-break: keep-all` forbids breaks.
pub open spec fn is_keep_all_class(class: u8) -> bool {
    class == ALPHABETIC || class == AMBIGUOUS || class == HEBREW_LETTER || class == IDEOGRAPHIC
        || class == NUMERIC || class == HANGUL_L_JAMO || class == HANGUL_V_JAMO || class
        == HANGUL_T_JAMO || class == HANGUL_LV_SYLLABLE || class == HANGUL_LVT_SYLLABLE
}

/// Whether `word-break: keep-all` forbids breaks between `c` and a neighbour
/// of its kind.
pub fn is_keep_all_unit(c: char) -> (r: bool)
    ensures
        r == is_keep_all_class(line_break_class(c)),
{
    let class = break_class(c);
    class == ALPHABETIC || class == AMBIGUOUS || class == HEBREW_LETTER || class == IDEOGRAPHIC
        || class == NUMERIC || class == HANGUL_L_JAMO || class == HANGUL_V_JAMO || class
        == HANGUL_T_JAMO || class == HANGUL_LV_SYLLABLE || class == HANGUL_LVT_SYLLABLE
}

/// The number of bytes of `c` in UTF-8.
pub open spec fn utf8_len(c: char) -> int {
    if (c as u32) < 0x80 {
        1
    } else if (c as u32) < 0x800 {
        2
    } else if (c as u32) < 0x10000 {
        3
    } else {
        4
    }
}

fn char_utf8_len(c: char) -> (r: usize)
    ensures
        r == utf8_len(c),
{
    let value = c as u32;
    if value < 0x80 {
        1
    } else if value < 0x800 {
        2
    } else if value < 0x10000 {
        3
    } else {
        4
    }
}

/// The byte offset, in UTF-8, of the character at position `i` of `chars`
/// (the byte length of the text where `i` is its length).
pub open spec fn byte_offset(chars: Seq<char>, i: int) -> int
    decreases i,
{
    if i <= 0 {
        0
    } else {
        byte_offset(chars, i - 1) + utf8_len(chars[i - 1])
    }
}

proof fn lemma_byte_offset_increases(chars: Seq<char>, i: int, j: int)
    requires
        0 <= i < j,
    ensures
        byte_offset(chars, i) < byte_offset(chars, j),
        byte_offset(chars, i) + 1 <= byte_offset(chars, i + 1),
    decreases j - i,
{
    if j > i + 1 {
        lemma_byte_offset_increases(chars, i, j - 1);
        lemma_byte_offset_increases(chars, j - 1, j);
    }
}

proof fn lemma_byte_offset_nonnegative(chars: Seq<char>, i: int)
    ensures
        byte_offset(chars, i) >= 0,
        byte_offset(chars, i) >= i,
    decreases i,
{
    if i > 0 {
        lemma_byte_offset_nonnegative(chars, i - 1);
    }
}

/// For each byte offset of the UTF-8 form of `chars` (and the offset just
/// past its end), the position of the character that starts there, if one
/// does.
pub fn byte_to_character_indices(chars: &[char]) -> (r: Vec<Option<usize>>)
    requires
        byte_offset(chars@, chars@.len() as int) < usize::MAX,
    ensures
        r@.len() == byte_offset(chars@, chars@.len() as int) + 1,
        forall|i: int|
            0 <= i <= chars@.len() ==> r@[#[trigger] byte_offset(chars@, i)] == Some(i as usize),
        forall|b: int|
            0 <= b < r@.len() ==> (#[trigger] r@[b] matches Some(i) ==> i <= chars@.len()
                && byte_offset(chars@, i as int) == b),
{
    let n = chars.len();
    let mut total: usize = 0;
    let mut i: usize = 0;
    while i < n
        invariant
            n == chars@.len(),
            i <= n,
            total == byte_offset(chars@, i as int),
            byte_offset(chars@, n as int) < usize::MAX,
        decreases n - i,
    {
        proof {
            lemma_byte_offset_increases(chars@, i as int + 1, n as int + 1);
            if i + 1 < n {
                lemma_byte_offset_increases(chars@, i as int + 1, n as int);
            }
        }
        total = total + char_utf8_len(chars[i]);
        i = i + 1;
    }
    let mut indices: Vec<Option<usize>> = Vec::new();
    let mut b: usize = 0;
    while b <= total
        invariant
            b <= total + 1,
            total < usize::MAX,
            indices@.len() == b,
            forall|k: int| 0 <= k < b ==> indices@[k] is None,
        decreases total + 1 - b,
    {
        indices.push(None);
        b = b + 1;
    }
    let mut offset: usize = 0;
    let mut i: usize = 0;
    while i < n
        invariant
            n == chars@.len(),
            i <= n,
            offset == byte_offset(chars@, i as int),
            total == byte_offset(chars@, n as int),
            indices@.len() == total + 1,
            forall|k: int|
                0 <= k < i ==> indices@[#[trigger] byte_offset(chars@, k)] == Some(k as usize),
            forall|c: int|
                0 <= c < indices@.len() ==> (#[trigger] indices@[c] matches Some(k) ==> k < i
                    && byte_offset(chars@, k as int) == c),
        decreases n - i,
    {
        proof {
            lemma_byte_offset_increases(chars@, i as int, n as int);
            lemma_byte_offset_nonnegative(chars@, i as int);
            assert forall|k: int| 0 <= k < i implies byte_offset(chars@, k) < byte_offset(
                chars@,
                i as int,
            ) && byte_offset(chars@, k) >= 0 by {
                lemma_byte_offset_increases(chars@, k, i as int);
                lemma_byte_offset_nonnegative(chars@, k);
            }
        }
        indices.set(offset, Some(i));
        proof {
            if i + 1 < n {
                lemma_byte_offset_increases(chars@, i as int + 1, n as int);
            }
        }
        offset = offset + char_utf8_len(chars[i]);
        i = i + 1;
    }
    proof {
        assert forall|k: int| 0 <= k < n implies byte_offset(chars@, k) < byte_offset(
            chars@,
            n as int,
        ) by {
            lemma_byte_offset_increases(chars@, k, n as int);
        }
    }
    let ghost before = indices@;
    indices.set(total, Some(n));
    proof {
        assert forall|k: int| 0 <= k <= n implies indices@[#[trigger] byte_offset(chars@, k)]
            == Some(k as usize) by {
            if k < n {
                lemma_byte_offset_nonnegative(chars@, k);
                assert(indices@[byte_offset(chars@, k)] == before[byte_offset(chars@, k)]);
            }
        }
    }
    indices
}

/// The character position whose UTF-8 offset is `b`, among `0..=chars.len()`.
pub open spec fn starts_at(chars: Seq<char>, i: int, b: int) -> bool {
    0 <= i <= chars.len() && byte_offset(chars, i) == b
}

/// Whether a grapheme cluster starts at character position `i`; one is
/// taken to start just past the end.
pub open spec fn spec_grapheme_before(chars: Seq<char>, i: int) -> bool {
    grapheme_before_in(chars, grapheme_start_offsets(chars), i)
}

/// Whether a cluster starts at character position `i`, where `starts` are
/// the byte offsets at which the clusters of `chars` start.
pub open spec fn grapheme_before_in(chars: Seq<char>, starts: Seq<usize>, i: int) -> bool {
    i == chars.len() || exists|k: int| 0 <= k < starts.len() && #[trigger] starts[k] == byte_offset(chars, i)
}

/// Whether `opportunities` hold a break before character position `i`.
pub open spec fn unicode_break_before_in(chars: Seq<char>, opportunities: Seq<(usize, bool)>, i: int) -> bool {
    exists|k: int| 0 <= k < opportunities.len() && (#[trigger] opportunities[k]).0 == byte_offset(chars, i)
}

/// Whether a line may wrap before position `i` under `word_break`, where
/// `opportunities` are the Unicode break opportunities of `chars` and
/// `starts` the starts of its grapheme clusters.
pub open spec fn soft_before_in(
    chars: Seq<char>,
    opportunities: Seq<(usize, bool)>,
    starts: Seq<usize>,
    word_break: CssWordBreak,
    i: int,
) -> bool {
    i != 0 && match word_break {
        CssWordBreak::BreakAll => grapheme_before_in(chars, starts, i),
        CssWordBreak::KeepAll => unicode_break_before_in(chars, opportunities, i)
            && !keep_all_suppresses(chars, i),
        _ => unicode_break_before_in(chars, opportunities, i),
    }
}

/// Whether the Unicode line breaking algorithm allows or demands a break
/// before character position `i`.
pub open spec fn spec_unicode_break_before(chars: Seq<char>, i: int) -> bool {
    unicode_break_before_in(chars, line_break_opportunities(chars), i)
}

/// Whether `word-break: keep-all` suppresses the break before position `i`:
/// it falls between two letters, numbers or ideographs.
pub open spec fn keep_all_suppresses(chars: Seq<char>, i: int) -> bool {
    1 <= i < chars.len() && is_keep_all_class(line_break_class(chars[i - 1]))
        && is_keep_all_class(line_break_class(chars[i]))
}

/// Whether a line may wrap before character position `i` under `word_break`:
/// never at the start; at every grapheme boundary under `break-all`; else
/// where the Unicode algorithm allows, except between letters, numbers and
/// ideographs under `keep-all`.
pub open spec fn spec_soft_before(chars: Seq<char>, word_break: CssWordBreak, i: int) -> bool {
    i != 0 && match word_break {
        CssWordBreak::BreakAll => spec_grapheme_before(chars, i),
        CssWordBreak::KeepAll => spec_unicode_break_before(chars, i) && !keep_all_suppresses(
            chars,
            i,
        ),
        _ => spec_unicode_break_before(chars, i),
    }
}

/// Where the lines of a run of characters may wrap.
pub struct LineBreakPlan {
    soft_before: Vec<bool>,
    grapheme_before: Vec<bool>,
}

impl LineBreakPlan {
    /// Whether a line may wrap before each position, past the end included.
    pub closed spec fn soft(&self) -> Seq<bool> {
        self.soft_before@
    }

    /// Whether a grapheme cluster starts at each position, past the end
    /// included.
    pub closed spec fn graphemes(&self) -> Seq<bool> {
        self.grapheme_before@
    }

    /// The plan for `characters` under `word_break`, from the Unicode
    /// segmentation of their text.
    pub fn new(characters: &[char], word_break: CssWordBreak) -> (r: Self)
        requires
            byte_offset(characters@, characters@.len() as int) < usize::MAX,
        ensures
            r.soft().len() == characters@.len() + 1,
            r.graphemes().len() == characters@.len() + 1,
            forall|i: int|
                0 <= i <= characters@.len() ==> #[trigger] r.graphemes()[i]
                    == spec_grapheme_before(characters@, i),
            forall|i: int|
                0 <= i <= characters@.len() ==> #[trigger] r.soft()[i] == spec_soft_before(
                    characters@,
                    word_break,
                    i,
                ),
    {
        let text = string_from_chars(characters);
        let starts = grapheme_starts(text.as_str());
        let opportunities = break_opportunities(text.as_str());
        Self::from_segmentation(characters, word_break, &starts, &opportunities)
    }

    /// The plan for `characters` under `word_break`, where `starts` are the
    /// byte offsets at which the grapheme clusters of their text start and
    /// `opportunities` the byte offsets of its Unicode break opportunities.
    pub fn from_segmentation(
        characters: &[char],
        word_break: CssWordBreak,
        starts: &Vec<usize>,
        opportunities: &Vec<(usize, bool)>,
    ) -> (r: Self)
        requires
            byte_offset(characters@, characters@.len() as int) < usize::MAX,
        ensures
            r.soft().len() == characters@.len() + 1,
            r.graphemes().len() == characters@.len() + 1,
            forall|i: int|
                0 <= i <= characters@.len() ==> #[trigger] r.graphemes()[i]
                    == grapheme_before_in(characters@, starts@, i),
            forall|i: int|
                0 <= i <= characters@.len() ==> #[trigger] r.soft()[i] == soft_before_in(
                    characters@,
                    opportunities@,
                    starts@,
                    word_break,
                    i,
                ),
    {
        let ghost chars = characters@;
        let n = characters.len();
        let byte_to_character = byte_to_character_indices(characters);
        proof {
            lemma_byte_offset_nonnegative(chars, n as int);
        }
        let mut grapheme_before: Vec<bool> = Vec::new();
        let mut i: usize = 0;
        while i <= n
            invariant
                n == chars.len(),
                n < usize::MAX,
                i <= n + 1,
                grapheme_before@.len() == i,
                forall|k: int| 0 <= k < i ==> !grapheme_before@[k],
            decreases n + 1 - i,
        {
            grapheme_before.push(false);
            i = i + 1;
        }
        let mut soft_before = grapheme_before.clone();
        let mut k: usize = 0;
        while k < starts.len()
            invariant
                n == chars.len(),
                byte_to_character@.len() == byte_offset(chars, n as int) + 1,
                forall|i: int|
                    0 <= i <= n ==> byte_to_character@[#[trigger] byte_offset(chars, i)] == Some(
                        i as usize,
                    ),
                forall|b: int|
                    0 <= b < byte_to_character@.len() ==> (#[trigger] byte_to_character@[b] matches Some(
                        i,
                    ) ==> i <= n && byte_offset(chars, i as int) == b),
                grapheme_before@.len() == n + 1,
                k <= starts@.len(),
                forall|i: int|
                    0 <= i <= n ==> #[trigger] grapheme_before@[i] == exists|j: int|
                        0 <= j < k && #[trigger] starts@[j] == byte_offset(chars, i),
            decreases starts.len() - k,
        {
            let byte_index = starts[k];
            if byte_index < byte_to_character.len() {
                match byte_to_character[byte_index] {
                    Some(character_index) => {
                        grapheme_before.set(character_index, true);
                    },
                    None => {},
                }
            }
            proof {
                assert forall|i: int| 0 <= i <= n implies #[trigger] grapheme_before@[i] == exists|
                    j: int,
                |
                    0 <= j < k + 1 && #[trigger] starts@[j] == byte_offset(chars, i) by {
                    if starts@[k as int] == byte_offset(chars, i) {
                        lemma_byte_offset_nonnegative(chars, i);
                        if i < n {
                            lemma_byte_offset_increases(chars, i, n as int);
                        }
                        assert(byte_to_character@[byte_offset(chars, i)] == Some(i as usize));
                    }
                }
            }
            k = k + 1;
        }
        grapheme_before.set(n, true);
        proof {
            assert forall|i: int| 0 <= i <= n implies #[trigger] grapheme_before@[i]
                == grapheme_before_in(chars, starts@, i) by {
                if i < n {
                    if grapheme_before@[i] {
                        let j = choose|j: int|
                            0 <= j < starts@.len() && #[trigger] starts@[j] == byte_offset(
                                chars,
                                i,
                            );
                        assert(starts@[j] == byte_offset(chars, i));
                    }
                }
            }
        }
        let mut k: usize = 0;
        while k < opportunities.len()
            invariant
                n == chars.len(),
                byte_to_character@.len() == byte_offset(chars, n as int) + 1,
                forall|i: int|
                    0 <= i <= n ==> byte_to_character@[#[trigger] byte_offset(chars, i)] == Some(
                        i as usize,
                    ),
                forall|b: int|
                    0 <= b < byte_to_character@.len() ==> (#[trigger] byte_to_character@[b] matches Some(
                        i,
                    ) ==> i <= n && byte_offset(chars, i as int) == b),
                soft_before@.len() == n + 1,
                k <= opportunities@.len(),
                forall|i: int|
                    0 <= i <= n ==> #[trigger] soft_before@[i] == exists|j: int|
                        0 <= j < k && (#[trigger] opportunities@[j]).0 == byte_offset(chars, i),
            decreases opportunities.len() - k,
        {
            let (byte_index, _mandatory) = opportunities[k];
            if byte_index < byte_to_character.len() {
                match byte_to_character[byte_index] {
                    Some(character_index) => {
                        soft_before.set(character_index, true);
                    },
                    None => {},
                }
            }
            proof {
                assert forall|i: int| 0 <= i <= n implies #[trigger] soft_before@[i] == exists|
                    j: int,
                |
                    0 <= j < k + 1 && (#[trigger] opportunities@[j]).0 == byte_offset(chars, i) by {
                    if opportunities@[k as int].0 == byte_offset(chars, i) {
                        lemma_byte_offset_nonnegative(chars, i);
                        if i < n {
                            lemma_byte_offset_increases(chars, i, n as int);
                        }
                        assert(byte_to_character@[byte_offset(chars, i)] == Some(i as usize));
                    }
                }
            }
            k = k + 1;
        }
        proof {
            assert forall|i: int| 0 <= i <= n implies #[trigger] soft_before@[i]
                == unicode_break_before_in(chars, opportunities@, i) by {
                if soft_before@[i] {
                    let j = choose|j: int|
                        0 <= j < opportunities@.len() && (#[trigger] opportunities@[j]).0
                            == byte_offset(chars, i);
                    assert(opportunities@[j].0 == byte_offset(chars, i));
                }
            }
        }
        match word_break {
            CssWordBreak::BreakAll => {
                soft_before = grapheme_before.clone();
            },
            CssWordBreak::KeepAll => {
                let mut index: usize = 1;
                while index < n
                    invariant
                        n == chars.len(),
                        characters@ == chars,
                        1 <= index,
                        soft_before@.len() == n + 1,
                        forall|i: int|
                            0 <= i <= n ==> #[trigger] soft_before@[i] == (unicode_break_before_in(
                                chars,
                                opportunities@,
                                i,
                            ) && !(i < index && keep_all_suppresses(chars, i))),
                    decreases n - index,
                {
                    if is_keep_all_unit(characters[index - 1]) && is_keep_all_unit(
                        characters[index],
                    ) {
                        soft_before.set(index, false);
                    }
                    index = index + 1;
                }
            },
            _ => {},
        }
        soft_before.set(0, false);
        LineBreakPlan { soft_before, grapheme_before }
    }

    /// Whether a line may wrap before position `index`; never past the plan.
    pub fn is_soft_break_before(&self, index: usize) -> (r: bool)
        ensures
            r == (index < self.soft().len() && self.soft()[index as int]),
    {
        if index < self.soft_before.len() {
            self.soft_before[index]
        } else {
            false
        }
    }

    /// Whether a grapheme cluster starts at position `index`; never past the
    /// plan.
    pub fn is_grapheme_break_before(&self, index: usize) -> (r: bool)
        ensures
            r == (index < self.graphemes().len() && self.graphemes()[index as int]),
    {
        if index < self.grapheme_before.len() {
            self.grapheme_before[index]
        } else {
            false
        }
    }

    /// The first position after `start` before which a line may wrap or at
    /// which a line ends (`\r`, `\n`); the end of `characters` where there
    /// is none.
    pub fn next_soft_break(&self, characters: &[char], start: usize) -> (r: usize)
        requires
            start < usize::MAX,
        ensures
            r == characters@.len() || (start < r < characters@.len() && self.breaks_before(
                characters@,
                r as int,
            )),
            forall|i: int| start < i < r ==> !self.breaks_before(characters@, i),
    {
        let mut index = start + 1;
        while index < characters.len()
            invariant
                start < index,
                forall|i: int| start < i < index ==> !self.breaks_before(characters@, i),
            decreases characters.len() - index,
        {
            if self.is_soft_break_before(index) || characters[index] == '\r' || characters[index]
                == '\n' {
                return index;
            }
            index = index + 1;
        }
        characters.len()
    }

    /// Whether a line breaks before position `i` of `characters`: softly by
    /// the plan, or at a line ending.
    pub open spec fn breaks_before(&self, characters: Seq<char>, i: int) -> bool {
        (0 <= i < self.soft().len() && self.soft()[i]) || (0 <= i < characters.len() && (
        characters[i] == '\r' || characters[i] == '\n'))
    }
}

/// Whether a class number of `unicode_linebreak::BreakClass` is a letter,
/// number or ideograph class: numeric (NU, 24), ambiguous (AI, 28),
/// alphabetic (AL, 29), Hangul LV and LVT syllables (H2, H3: 33, 34),
/// Hebrew letter (HL, 35), ideographic (ID, 36) and the Hangul jamo
/// (JL, JV, JT: 37 to 39).
pub open spec fn is_letter_like_class(class: u8) -> bool {
    class == 24 || class == 28 || class == 29 || (33 <= class && class <= 39)
}

/// Under `word-break: keep-all` no line wraps between two letters, numbers,
/// ideographs or Hangul characters; wherever one of the two neighbours is
/// something else, keep-all breaks exactly where `normal` does.
pub proof fn lemma_keep_all_keeps_words_whole(chars: Seq<char>, i: int)
    requires
        0 <= i <= chars.len(),
    ensures
        (1 <= i < chars.len() && is_letter_like_class(line_break_class(chars[i - 1]))
            && is_letter_like_class(line_break_class(chars[i]))) ==> !spec_soft_before(
            chars,
            CssWordBreak::KeepAll,
            i,
        ),
        !(1 <= i < chars.len() && is_letter_like_class(line_break_class(chars[i - 1]))
            && is_letter_like_class(line_break_class(chars[i]))) ==> (spec_soft_before(
            chars,
            CssWordBreak::KeepAll,
            i,
        ) == spec_soft_before(chars, CssWordBreak::Normal, i)),
{
}

/// The same holds of a plan built from given segmentation results.
pub proof fn lemma_keep_all_keeps_words_whole_in(
    chars: Seq<char>,
    opportunities: Seq<(usize, bool)>,
    starts: Seq<usize>,
    i: int,
)
    requires
        1 <= i < chars.len(),
        is_letter_like_class(line_break_class(chars[i - 1])),
        is_letter_like_class(line_break_class(chars[i])),
    ensures
        !soft_before_in(chars, opportunities, starts, CssWordBreak::KeepAll, i),
{
}

} // verus!
