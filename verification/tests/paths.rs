use advent_input::digits::u32_to_decimal;
use advent_input::path::resolve_path;

#[test]
fn decimal_zero() {
    assert_eq!(u32_to_decimal(0), "0");
}

#[test]
fn decimal_single_digit() {
    assert_eq!(u32_to_decimal(7), "7");
}

#[test]
fn decimal_two_digits() {
    assert_eq!(u32_to_decimal(10), "10");
}

#[test]
fn decimal_several_digits() {
    assert_eq!(u32_to_decimal(2023), "2023");
}

#[test]
fn decimal_largest() {
    assert_eq!(u32_to_decimal(u32::MAX), "4294967295");
}

#[test]
fn default_path_small_day() {
    let p = resolve_path(None, 2023, 5);
    assert_eq!(p, "input/year2023/day5.txt");
}

#[test]
fn default_path_two_digit_day() {
    let p = resolve_path(None, 2015, 25);
    assert_eq!(p, "input/year2015/day25.txt");
}

#[test]
fn override_path_used_verbatim() {
    let p = resolve_path(Some(String::from("somewhere/else.dat")), 2023, 5);
    assert_eq!(p, "somewhere/else.dat");
}

#[test]
fn override_path_ignores_year_and_day() {
    let a = resolve_path(Some(String::from("fixed.txt")), 2015, 1);
    let b = resolve_path(Some(String::from("fixed.txt")), 2024, 25);
    assert_eq!(a, b);
    assert_eq!(a, "fixed.txt");
}
