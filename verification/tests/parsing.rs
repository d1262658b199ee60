//! Tokenization and number parsing for the asset text formats.
use spatial_core::fx::FX_ONE;
use spatial_core::parse::{
    bytes_eq, obj_lines, parse_fx, parse_point_2, parse_point_3, parse_transform,
};
use spatial_core::vector::{Vector2, Vector3};

fn toks(line: &[&str]) -> Vec<Vec<u8>> {
    line.iter().map(|t| t.as_bytes().to_vec()).collect()
}

#[test]
fn obj_lines_splits_tokens() {
    let r = obj_lines("v 1 2 3\nf 1 2\n");
    assert_eq!(r.len(), 2);
    assert_eq!(r[0], toks(&["v", "1", "2", "3"]));
    assert_eq!(r[1], toks(&["f", "1", "2"]));
}

#[test]
fn obj_lines_skips_comments_and_blanks() {
    let r = obj_lines("# header\n\n   \nb root\n# tail");
    assert_eq!(r.len(), 1);
    assert_eq!(r[0], toks(&["b", "root"]));
}

#[test]
fn obj_lines_collapses_repeated_spaces() {
    let r = obj_lines("b   root   extra");
    assert_eq!(r.len(), 1);
    assert_eq!(r[0], toks(&["b", "root", "extra"]));
}

#[test]
fn obj_lines_strips_carriage_returns() {
    let r = obj_lines("b one\r\nb two\r\n");
    assert_eq!(r.len(), 2);
    assert_eq!(r[0], toks(&["b", "one"]));
    assert_eq!(r[1], toks(&["b", "two"]));
}

#[test]
fn obj_lines_of_empty_text_is_empty() {
    assert_eq!(obj_lines("").len(), 0);
}

#[test]
fn numbers_parse_to_fixed_point() {
    assert_eq!(parse_fx(b"0"), Some(0));
    assert_eq!(parse_fx(b"1"), Some(FX_ONE));
    assert_eq!(parse_fx(b"-1"), Some(-FX_ONE));
    assert_eq!(parse_fx(b"0.2"), Some(200_000));
    assert_eq!(parse_fx(b"-0.15"), Some(-150_000));
    assert_eq!(parse_fx(b"3.25"), Some(3_250_000));
    assert_eq!(parse_fx(b"12.000001"), Some(12_000_001));
    assert_eq!(parse_fx(b"007"), Some(7_000_000));
}

#[test]
fn malformed_numbers_are_rejected() {
    assert_eq!(parse_fx(b""), None);
    assert_eq!(parse_fx(b"-"), None);
    assert_eq!(parse_fx(b"."), None);
    assert_eq!(parse_fx(b"1."), None);
    assert_eq!(parse_fx(b".5"), None);
    assert_eq!(parse_fx(b"1.2345678"), None);
    assert_eq!(parse_fx(b"1e5"), None);
    assert_eq!(parse_fx(b"1-2"), None);
    assert_eq!(parse_fx(b"--1"), None);
    assert_eq!(parse_fx(b"99999999999999999999"), None);
}

#[test]
fn number_range_boundary() {
    // The largest whole part that still fits the fixed-point range.
    assert_eq!(parse_fx(b"9223372036854"), Some(9_223_372_036_854_000_000));
    assert_eq!(parse_fx(b"9223372036855"), None);
}

#[test]
fn points_parse_in_order() {
    let t = toks(&["1", "2.5", "-3"]);
    assert_eq!(
        parse_point_3(&t, 0),
        Some(Vector3::from_xyz(FX_ONE, 2_500_000, -3 * FX_ONE))
    );
    let t = toks(&["x", "1", "2.5", "-3"]);
    assert_eq!(
        parse_point_3(&t, 1),
        Some(Vector3::from_xyz(FX_ONE, 2_500_000, -3 * FX_ONE))
    );
    assert_eq!(parse_point_3(&toks(&["1", "2"]), 0), None);
    assert_eq!(parse_point_3(&toks(&["1", "2", "oops"]), 0), None);
}

#[test]
fn texture_points_flip_the_second_coordinate() {
    let t = toks(&["0.25", "0.25"]);
    assert_eq!(parse_point_2(&t, 0), Some(Vector2::from_xy(250_000, 750_000)));
}

#[test]
fn transforms_parse_as_rotations() {
    let t = toks(&["0.1", "0.2", "0.3"]);
    let r = parse_transform(&t, 0).unwrap();
    assert_eq!(r.rotation, Vector3::from_xyz(100_000, 200_000, 300_000));
    assert_eq!(r.position, Vector3::zero());
    assert_eq!(r.scale, FX_ONE);
    assert_eq!(parse_transform(&toks(&["0.1", "0.2"]), 0), None);
    assert_eq!(parse_transform(&toks(&["1", "2", "3", "4"]), 0), None);
}

#[test]
fn byte_strings_compare_by_content() {
    assert!(bytes_eq(&b"abc".to_vec(), &b"abc".to_vec()));
    assert!(!bytes_eq(&b"abc".to_vec(), &b"abd".to_vec()));
    assert!(!bytes_eq(&b"abc".to_vec(), &b"ab".to_vec()));
}
