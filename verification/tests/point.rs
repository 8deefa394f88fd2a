use btxc::BitcoinError;
use btxc::Point;
use btxc::parse_point_i64;

#[test]
fn point_parse_success() {
    let p = parse_point_i64("(3,4)").unwrap();
    assert_eq!(p, Point::new(3, 4));
}

#[test]
fn point_parse_failure_without_parentheses() {
    let e = parse_point_i64("3,4").unwrap_err();
    assert_eq!(e, BitcoinError::ParseError("Error parsing values".to_string()));
    assert_eq!(e.message(), "Parse error: Error parsing values");
}

#[test]
fn point_parse_failure_without_comma() {
    let e = parse_point_i64("(34)").unwrap_err();
    assert_eq!(e, BitcoinError::ParseError("Error parsing values".to_string()));
}

#[test]
fn point_parse_empty_interior() {
    let e = parse_point_i64("()").unwrap_err();
    assert_eq!(e, BitcoinError::ParseError("Error parsing values".to_string()));
}

#[test]
fn point_parse_bad_x() {
    let e = parse_point_i64("(a,4)").unwrap_err();
    assert_eq!(e, BitcoinError::ParseError("Could not parse x value".to_string()));
}

#[test]
fn point_parse_bad_y() {
    let e = parse_point_i64("(3,)").unwrap_err();
    assert_eq!(e, BitcoinError::ParseError("Could not parse y value".to_string()));
}

#[test]
fn point_parse_no_whitespace_trimming() {
    let e = parse_point_i64("(3, 4)").unwrap_err();
    assert_eq!(e, BitcoinError::ParseError("Could not parse y value".to_string()));
}

#[test]
fn point_parse_splits_at_first_comma() {
    let e = parse_point_i64("(1,2,3)").unwrap_err();
    assert_eq!(e, BitcoinError::ParseError("Could not parse y value".to_string()));
}

#[test]
fn point_parse_signs() {
    let p = parse_point_i64("(-5,+7)").unwrap();
    assert_eq!(p, Point::new(-5, 7));
}

#[test]
fn point_parse_extreme_values() {
    let p = parse_point_i64("(9223372036854775807,-9223372036854775808)").unwrap();
    assert_eq!(p, Point::new(i64::MAX, i64::MIN));
}

#[test]
fn point_parse_overflow_is_rejected() {
    let e = parse_point_i64("(9223372036854775808,0)").unwrap_err();
    assert_eq!(e, BitcoinError::ParseError("Could not parse x value".to_string()));
    let e = parse_point_i64("(0,-9223372036854775809)").unwrap_err();
    assert_eq!(e, BitcoinError::ParseError("Could not parse y value".to_string()));
}

#[test]
fn point_parses_through_from_str() {
    let p: Point<i64> = "(10,-20)".parse().unwrap();
    assert_eq!(p, Point::new(10, -20));
    let e = "(x,1)".parse::<Point<i64>>().unwrap_err();
    assert_eq!(e, BitcoinError::ParseError("Could not parse x value".to_string()));
}

#[test]
fn point_new_keeps_coordinates() {
    let p = Point::new("a", "b");
    assert_eq!(p.x, "a");
    assert_eq!(p.y, "b");
}
