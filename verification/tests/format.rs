//! Tests of the fixed-point arithmetic and the formatting helpers.

use layout_evaluation::fixed::{fx_mul, to_percentage, UNIT};
use layout_evaluation::format_utils::{
    fmt_fixed1, fmt_fixed2, format_percentage, format_percentages, visualize_whitespace,
};

#[test]
fn fixed_point_products_scale_back() {
    assert_eq!(fx_mul(2 * UNIT, 3 * UNIT), 6 * UNIT);
    assert_eq!(fx_mul(UNIT / 2, UNIT / 2), UNIT / 4);
    assert_eq!(fx_mul(10 * UNIT, 0), 0);
    // Saturation at the top of the range.
    assert_eq!(fx_mul(u64::MAX, u64::MAX), u64::MAX);
}

#[test]
fn percentages_divide_exactly() {
    assert_eq!(to_percentage(UNIT, 4 * UNIT), 25 * UNIT);
    assert_eq!(to_percentage(UNIT, 3 * UNIT), 33_333_333);
    assert_eq!(to_percentage(5 * UNIT, 0), 0);
}

#[test]
fn one_digit_rendering_truncates() {
    assert_eq!(fmt_fixed1(27 * UNIT + UNIT / 2), "27.5");
    assert_eq!(fmt_fixed1(0), "0.0");
    assert_eq!(fmt_fixed1(99_999_999), "99.9");
}

#[test]
fn two_digit_rendering_truncates() {
    assert_eq!(fmt_fixed2(UNIT / 20), "0.05");
    assert_eq!(fmt_fixed2(100 * UNIT), "100.00");
    assert_eq!(fmt_fixed2(12_345_678), "12.34");
}

#[test]
fn trimmed_rendering_strips_zeros() {
    assert_eq!(format_percentage(12 * UNIT + 3 * UNIT / 10), "12.3");
    assert_eq!(format_percentage(5 * UNIT), "5");
    assert_eq!(format_percentage(UNIT / 4), "0.25");
    assert_eq!(format_percentage(0), "0");
}

#[test]
fn percentages_render_side_by_side() {
    assert_eq!(
        format_percentages(27 * UNIT + UNIT / 2, UNIT / 20),
        "27.5%|0.05%"
    );
}

#[test]
fn whitespace_becomes_visible() {
    assert_eq!(visualize_whitespace("a b"), "a\u{2423}b");
    assert_eq!(visualize_whitespace("  "), "\u{2423}\u{2423}");
    assert_eq!(visualize_whitespace("ab"), "ab");
    assert_eq!(visualize_whitespace(""), "");
}
