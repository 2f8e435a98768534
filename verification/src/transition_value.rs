//! The `transition` style value: which properties animate, and for how long.

use vstd::prelude::*;
use crate::style::TransitionProperty;
use crate::style_value::{
    chars_are, number_spec, parse_number, split_words, word_views, words, CssNumber,
};

verus! {

/// One property that animates, and for how many milliseconds.
#[derive(Clone, Copy, Debug, PartialEq, Eq, Structural)]
pub struct TransitionSpec {
    pub property: TransitionProperty,
    pub duration_ms: u64,
}

/// Where the item of `t` that starts at `i` ends: the next comma at or
/// after `i`, or the end.
pub open spec fn item_end(t: Seq<char>, i: int) -> int
    decreases t.len() - i,
{
    if i < 0 || i >= t.len() || t[i] == ',' {
        i
    } else {
        item_end(t, i + 1)
    }
}

/// The item that starts at `i` ends at the next comma.
pub proof fn lemma_item_end(t: Seq<char>, i: int)
    requires
        0 <= i <= t.len(),
    ensures
        i <= item_end(t, i) <= t.len(),
        forall|j: int| i <= j < item_end(t, i) ==> #[trigger] t[j] != ',',
        item_end(t, i) == t.len() || t[item_end(t, i)] == ',',
    decreases t.len() - i,
{
    if i < t.len() && t[i] != ',' {
        lemma_item_end(t, i + 1);
    }
}

/// The comma-separated items of `t` from position `i` on.
pub open spec fn items_from(t: Seq<char>, i: int) -> Seq<Seq<char>>
    decreases t.len() + 1 - i,
{
    if i < 0 || i > t.len() {
        Seq::empty()
    } else {
        let j = item_end(t, i);
        proof {
            lemma_item_end(t, i);
        }
        seq![t.subrange(i, j)] + items_from(t, j + 1)
    }
}

/// The properties a transition item names: one of the colour properties or
/// `opacity`, or `all` of them.
pub open spec fn transition_properties(w: Seq<char>) -> Seq<TransitionProperty> {
    if w == "color"@ {
        seq![TransitionProperty::Color]
    } else if w == "background-color"@ || w == "background"@ {
        seq![TransitionProperty::BackgroundColor]
    } else if w == "border-color"@ {
        seq![TransitionProperty::BorderColor]
    } else if w == "opacity"@ {
        seq![TransitionProperty::Opacity]
    } else if w == "all"@ {
        seq![
            TransitionProperty::Color,
            TransitionProperty::BackgroundColor,
            TransitionProperty::BorderColor,
            TransitionProperty::Opacity,
        ]
    } else {
        Seq::empty()
    }
}

/// `10` to the power `n`.
pub open spec fn pow10(n: nat) -> nat
    decreases n,
{
    if n == 0 {
        1
    } else {
        10 * pow10((n - 1) as nat)
    }
}

/// The milliseconds of `n` times `unit_ms`, rounded down, where they fit.
pub open spec fn scaled_ms(n: CssNumber, unit_ms: nat) -> Option<u64> {
    if !n.negative || n.mantissa == 0 {
        let ms = ((n.mantissa as int) * (unit_ms as int)) / (pow10(n.scale as nat) as int);
        if ms <= u64::MAX {
            Some(ms as u64)
        } else {
            None
        }
    } else {
        None
    }
}

/// A duration: a non-negative number of milliseconds (`ms`) or seconds
/// (`s`), in whole milliseconds.
pub open spec fn duration_spec(w: Seq<char>) -> Option<u64> {
    if w.len() >= 2 && w[w.len() - 2] == 'm' && w[w.len() - 1] == 's' {
        match number_spec(w.subrange(0, w.len() - 2)) {
            Some(n) => scaled_ms(n, 1),
            None => None,
        }
    } else if w.len() >= 1 && w[w.len() - 1] == 's' {
        match number_spec(w.subrange(0, w.len() - 1)) {
            Some(n) => scaled_ms(n, 1000),
            None => None,
        }
    } else {
        None
    }
}

/// What one item gives: each property it names with its duration, where it
/// starts with a property and a duration (further words, such as a timing
/// function, are left aside); nothing otherwise.
pub open spec fn item_specs(item: Seq<char>) -> Seq<TransitionSpec> {
    let ws = words(item);
    if ws.len() >= 2 {
        match duration_spec(ws[1]) {
            Some(d) => transition_properties(ws[0]).map_values(
                |p: TransitionProperty| TransitionSpec { property: p, duration_ms: d },
            ),
            None => Seq::empty(),
        }
    } else {
        Seq::empty()
    }
}

/// What the items `items` give, in order.
pub open spec fn items_specs(items: Seq<Seq<char>>) -> Seq<TransitionSpec>
    decreases items.len(),
{
    if items.len() == 0 {
        Seq::empty()
    } else {
        items_specs(items.drop_last()) + item_specs(items.last())
    }
}

/// The transitions a `transition` value sets: those of its comma-separated
/// items, in order.
pub open spec fn transitions_spec(t: Seq<char>) -> Seq<TransitionSpec> {
    items_specs(items_from(t, 0))
}

fn properties_of(w: &Vec<char>) -> (r: Vec<TransitionProperty>)
    ensures
        r@ == transition_properties(w@),
{
    if chars_are(w, "color") {
        vec![TransitionProperty::Color]
    } else if chars_are(w, "background-color") || chars_are(w, "background") {
        vec![TransitionProperty::BackgroundColor]
    } else if chars_are(w, "border-color") {
        vec![TransitionProperty::BorderColor]
    } else if chars_are(w, "opacity") {
        vec![TransitionProperty::Opacity]
    } else if chars_are(w, "all") {
        let r = vec![
            TransitionProperty::Color,
            TransitionProperty::BackgroundColor,
            TransitionProperty::BorderColor,
            TransitionProperty::Opacity,
        ];
        assert(r@ =~= transition_properties(w@));
        r
    } else {
        Vec::new()
    }
}

proof fn lemma_pow10_grows(n: nat)
    ensures
        pow10(n) >= 1,
        n >= 23 ==> pow10(n) >= 100000000000000000000000,
    decreases n,
{
    if n > 0 {
        lemma_pow10_grows((n - 1) as nat);
    }
    if n == 23 {
        reveal_with_fuel(pow10, 3);
        assert(pow10(22) == 10 * pow10(21));
        assert(pow10(21) == 1000000000000000000000) by {
            lemma_pow10_exact21();
        }
    }
}

fn scaled(n: CssNumber, unit_ms: u64) -> (r: Option<u64>)
    requires
        unit_ms == 1 || unit_ms == 1000,
    ensures
        r == scaled_ms(n, unit_ms as nat),
{
    if n.negative && n.mantissa != 0 {
        return None;
    }
    let m: u128 = n.mantissa as u128 * unit_ms as u128;
    proof {
        assert(m <= 18446744073709551615000) by (nonlinear_arith)
            requires
                m == n.mantissa as u128 * unit_ms as u128,
                n.mantissa <= u64::MAX,
                unit_ms <= 1000,
        ;
        lemma_pow10_grows(n.scale as nat);
    }
    let q: u128 = if n.scale >= 23 {
        proof {
            assert((m as int) / (pow10(n.scale as nat) as int) == 0) by (nonlinear_arith)
                requires
                    m <= 18446744073709551615000,
                    pow10(n.scale as nat) >= 100000000000000000000000,
            ;
        }
        0
    } else {
        let mut p: u128 = 1;
        let mut i: u32 = 0;
        while i < n.scale
            invariant
                i <= n.scale < 23,
                p == pow10(i as nat),
                p <= 10000000000000000000000,
            decreases n.scale - i,
        {
            proof {
                lemma_pow10_bound(i as nat);
            }
            p = p * 10;
            i = i + 1;
        }
        m / p
    };
    if q > u64::MAX as u128 {
        None
    } else {
        Some(q as u64)
    }
}

proof fn lemma_pow10_exact21()
    ensures
        pow10(21) == 1000000000000000000000,
{
    reveal_with_fuel(pow10, 22);
}

proof fn lemma_pow10_monotone(i: nat, j: nat)
    requires
        i <= j,
    ensures
        pow10(i) <= pow10(j),
    decreases j,
{
    if i < j {
        lemma_pow10_monotone(i, (j - 1) as nat);
        lemma_pow10_grows((j - 1) as nat);
    }
}

proof fn lemma_pow10_bound(i: nat)
    requires
        i < 22,
    ensures
        pow10(i) <= 1000000000000000000000,
{
    lemma_pow10_monotone(i, 21);
    lemma_pow10_exact21();
}

fn duration_of(w: &Vec<char>) -> (r: Option<u64>)
    ensures
        r == duration_spec(w@),
{
    let n = w.len();
    if n >= 2 && w[n - 2] == 'm' && w[n - 1] == 's' {
        match parse_number(w, 0, n - 2) {
            Some(v) => scaled(v, 1),
            None => None,
        }
    } else if n >= 1 && w[n - 1] == 's' {
        match parse_number(w, 0, n - 1) {
            Some(v) => scaled(v, 1000),
            None => None,
        }
    } else {
        None
    }
}

fn item_specs_of(item: &Vec<char>) -> (r: Vec<TransitionSpec>)
    ensures
        r@ == item_specs(item@),
{
    let ws = split_words(item);
    let ghost v = word_views(ws@);
    if ws.len() < 2 {
        return Vec::new();
    }
    assert(v[0] == ws@[0]@);
    assert(v[1] == ws@[1]@);
    match duration_of(&ws[1]) {
        Some(d) => {
            let props = properties_of(&ws[0]);
            let mut r: Vec<TransitionSpec> = Vec::new();
            let mut i: usize = 0;
            while i < props.len()
                invariant
                    i <= props.len(),
                    r@ == props@.take(i as int).map_values(
                        |p: TransitionProperty| TransitionSpec { property: p, duration_ms: d },
                    ),
                decreases props.len() - i,
            {
                r.push(TransitionSpec { property: props[i], duration_ms: d });
                proof {
                    assert(props@.take(i as int + 1) =~= props@.take(i as int).push(props@[i as int]));
                    assert(r@ =~= props@.take(i as int + 1).map_values(
                        |p: TransitionProperty| TransitionSpec { property: p, duration_ms: d },
                    ));
                }
                i = i + 1;
            }
            assert(props@.take(i as int) =~= props@);
            r
        },
        None => Vec::new(),
    }
}

/// Reads a `transition` value: the transitions of its comma-separated
/// items, in order.
pub fn parse_transition(value: &str) -> (r: Vec<TransitionSpec>)
    ensures
        r@ == transitions_spec(value@),
{
    let n = value.unicode_len();
    let ghost t = value@;
    let mut r: Vec<TransitionSpec> = Vec::new();
    let mut i: usize = 0;
    let ghost mut done: Seq<Seq<char>> = Seq::empty();
    loop
        invariant
            n == t.len(),
            t == value@,
            i <= n,
            items_from(t, 0) == done + items_from(t, i as int),
            r@ == items_specs(done),
        decreases n - i,
    {
        let mut j: usize = i;
        let mut item: Vec<char> = Vec::new();
        while j < n && value.get_char(j) != ','
            invariant
                n == t.len(),
                t == value@,
                i <= j <= n,
                item@ == t.subrange(i as int, j as int),
                item_end(t, i as int) == item_end(t, j as int),
            decreases n - j,
        {
            proof {
                assert(t.subrange(i as int, j + 1) =~= item@.push(t[j as int]));
            }
            item.push(value.get_char(j));
            j = j + 1;
        }
        proof {
            assert(item_end(t, j as int) == j);
            lemma_item_end(t, i as int);
        }
        let specs = item_specs_of(&item);
        let ghost before = r@;
        let mut k: usize = 0;
        while k < specs.len()
            invariant
                k <= specs.len(),
                r@ == before + specs@.take(k as int),
            decreases specs.len() - k,
        {
            r.push(specs[k]);
            proof {
                assert(specs@.take(k as int + 1) =~= specs@.take(k as int).push(specs@[k as int]));
                assert(r@ =~= before + specs@.take(k as int + 1));
            }
            k = k + 1;
        }
        proof {
            assert(specs@.take(k as int) =~= specs@);
            assert(items_from(t, i as int) == seq![item@] + items_from(t, j + 1));
            assert(items_specs(done.push(item@)) == items_specs(done) + item_specs(item@)) by {
                assert(done.push(item@).drop_last() =~= done);
            }
            done = done.push(item@);
            assert(items_from(t, 0) =~= done + items_from(t, j + 1));
        }
        if j >= n {
            proof {
                assert(items_from(t, j + 1) =~= Seq::<Seq<char>>::empty());
                assert(done + items_from(t, j + 1) =~= done);
            }
            return r;
        }
        i = j + 1;
    }
}

} // verus!
