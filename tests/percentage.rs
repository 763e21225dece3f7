use dod_shell::percentage::Percentage;
use dod_shell::snapshot::{disk_usage, memory_usage};
use dod_shell::text::{int_to_text, parse_bounded, text_equals};

#[test]
fn new_percentages() {
    assert_eq!(Percentage::new(1, 10).get_value(), (1, 10));
    assert_eq!(Percentage::from_percent(1).get_value(), (1, 100));
    assert_eq!(Percentage::new(1, 10).get_value(), (1, 10));
    assert_eq!(Percentage::new(1, 10).rounded(), 10);
}

#[test]
fn whole_percent_renders_as_itself() {
    for p in 0..=100u8 {
        assert_eq!(Percentage::from_percent(p).render(), format!("{}%", p));
    }
}

#[test]
fn render_rounds_to_nearest() {
    assert_eq!(Percentage::new(1, 3).render(), "33%");
    assert_eq!(Percentage::new(2, 3).render(), "67%");
    assert_eq!(Percentage::new(1, 200).render(), "1%");
    assert_eq!(Percentage::new(-1, 200).render(), "-1%");
    assert_eq!(Percentage::new(3, 2).render(), "150%");
    assert_eq!(Percentage::zero().render(), "0%");
}

#[test]
fn mute_marker_is_kept_and_distinct() {
    let m = Percentage::muted();
    assert_eq!(m.get_value(), (-1, 100));
    assert!(m.is_muted());
    assert!(!Percentage::zero().is_muted());
    assert!(!Percentage::from_percent(0).is_muted());
    assert_ne!(m, Percentage::zero());
    assert_eq!(m.render(), "-1%");
    assert_eq!(Percentage::zero().render(), "0%");
}

#[test]
fn memory_usage_is_used_over_total() {
    assert_eq!(memory_usage(1, 4).get_value(), (1, 4));
    assert_eq!(memory_usage(1, 4).render(), "25%");
    assert_eq!(memory_usage(8, 8).render(), "100%");
    assert_eq!(memory_usage(5, 0).get_value(), (0, 1));
    assert_eq!(memory_usage(u64::MAX, u64::MAX).render(), "100%");
}

#[test]
fn disk_usage_is_used_over_size() {
    assert_eq!(disk_usage(100, 25).get_value(), (75, 100));
    assert_eq!(disk_usage(100, 25).render(), "75%");
    assert_eq!(disk_usage(0, 0).get_value(), (0, 1));
}

#[test]
fn integers_render_in_decimal() {
    assert_eq!(int_to_text(0), "0");
    assert_eq!(int_to_text(42), "42");
    assert_eq!(int_to_text(-7), "-7");
    assert_eq!(int_to_text(i128::MIN), i128::MIN.to_string());
    assert_eq!(int_to_text(i128::MAX), i128::MAX.to_string());
}

#[test]
fn decimal_numbers_parse_within_bound() {
    assert_eq!(parse_bounded("57", 255), Some(57));
    assert_eq!(parse_bounded("+8", 255), Some(8));
    assert_eq!(parse_bounded("007", 255), Some(7));
    assert_eq!(parse_bounded("255", 255), Some(255));
    assert_eq!(parse_bounded("256", 255), None);
    assert_eq!(parse_bounded("99999999999999999999999", 255), None);
    assert_eq!(parse_bounded("", 255), None);
    assert_eq!(parse_bounded("+", 255), None);
    assert_eq!(parse_bounded("-1", 255), None);
    assert_eq!(parse_bounded("1a", 255), None);
    assert_eq!(parse_bounded("4294967295", 4294967295), Some(4294967295));
}

#[test]
fn texts_compare_by_characters() {
    assert!(text_equals("abc", "abc"));
    assert!(!text_equals("abc", "abd"));
    assert!(!text_equals("abc", "ab"));
    assert!(text_equals("", ""));
}
