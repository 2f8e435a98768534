use paintcannon::line_break::{byte_to_character_indices, is_keep_all_unit, LineBreakPlan};
use paintcannon::style::CssWordBreak;

#[test]
fn normal_uses_unicode_breaks_and_keep_all_suppresses_cjk_breaks() {
    let hyphenated = "ab-cd".chars().collect::<Vec<_>>();
    let normal = LineBreakPlan::new(&hyphenated, CssWordBreak::Normal);
    assert!(normal.is_soft_break_before(3));

    let cjk = "你好".chars().collect::<Vec<_>>();
    assert!(LineBreakPlan::new(&cjk, CssWordBreak::Normal).is_soft_break_before(1));
    assert!(!LineBreakPlan::new(&cjk, CssWordBreak::KeepAll).is_soft_break_before(1));
}

#[test]
fn break_all_uses_grapheme_boundaries() {
    let characters = "a\u{0301}b".chars().collect::<Vec<_>>();
    let plan = LineBreakPlan::new(&characters, CssWordBreak::BreakAll);

    assert!(!plan.is_soft_break_before(1));
    assert!(plan.is_soft_break_before(2));
}

#[test]
fn byte_offsets_map_to_character_positions() {
    let characters = "aé你😀".chars().collect::<Vec<_>>();
    let map = byte_to_character_indices(&characters);
    assert_eq!(map.len(), 1 + 2 + 3 + 4 + 1);
    assert_eq!(map[0], Some(0));
    assert_eq!(map[1], Some(1));
    assert_eq!(map[2], None);
    assert_eq!(map[3], Some(2));
    assert_eq!(map[6], Some(3));
    assert_eq!(map[10], Some(4));
}

#[test]
fn soft_breaks_follow_spaces_never_at_the_start() {
    let characters = "hi there".chars().collect::<Vec<_>>();
    let plan = LineBreakPlan::new(&characters, CssWordBreak::Normal);
    assert!(!plan.is_soft_break_before(0));
    assert!(plan.is_soft_break_before(3));
    assert!(!plan.is_soft_break_before(4));
    assert!(!plan.is_soft_break_before(100));
    assert!(plan.is_grapheme_break_before(8));
    assert!(!plan.is_grapheme_break_before(9));
    assert_eq!(plan.next_soft_break(&characters, 0), 3);
    assert_eq!(plan.next_soft_break(&characters, 3), 8);
}

#[test]
fn line_endings_end_the_search_for_a_break() {
    let characters = "ab\ncd".chars().collect::<Vec<_>>();
    let plan = LineBreakPlan::new(&characters, CssWordBreak::KeepAll);
    assert_eq!(plan.next_soft_break(&characters, 0), 2);
}

#[test]
fn letters_and_ideographs_keep_together_under_keep_all() {
    assert!(is_keep_all_unit('a'));
    assert!(is_keep_all_unit('你'));
    assert!(is_keep_all_unit('7'));
    assert!(!is_keep_all_unit(' '));
    assert!(!is_keep_all_unit('-'));
}

#[test]
fn plan_from_given_segmentation_marks_the_given_offsets() {
    let chars: Vec<char> = "ab cd".chars().collect();
    let plan = paintcannon::line_break::LineBreakPlan::from_segmentation(
        &chars,
        paintcannon::style::CssWordBreak::Normal,
        &vec![0, 1, 2, 3, 4],
        &vec![(3, false), (5, true)],
    );
    assert!(!plan.is_soft_break_before(0));
    assert!(plan.is_soft_break_before(3));
    assert!(!plan.is_soft_break_before(1));
    assert!(plan.is_soft_break_before(5));
    assert!(plan.is_grapheme_break_before(2));
}
