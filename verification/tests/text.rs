use blang_config::text::append_decimal;
use blang_config::token::TokenPos;

fn decimal_of(n: usize) -> String {
    let mut out = String::new();
    append_decimal(&mut out, n);
    out
}

#[test]
fn decimal_of_zero_is_one_digit() {
    assert_eq!(decimal_of(0), "0");
}

#[test]
fn decimal_of_single_digits() {
    assert_eq!(decimal_of(1), "1");
    assert_eq!(decimal_of(7), "7");
    assert_eq!(decimal_of(9), "9");
}

#[test]
fn decimal_of_ten_has_no_leading_zero() {
    assert_eq!(decimal_of(10), "10");
    assert_eq!(decimal_of(100), "100");
    assert_eq!(decimal_of(1005), "1005");
}

#[test]
fn decimal_of_many_digits() {
    assert_eq!(decimal_of(12345), "12345");
    assert_eq!(decimal_of(9_876_543_210), "9876543210");
}

#[test]
fn decimal_of_largest_number_matches_std() {
    assert_eq!(decimal_of(usize::MAX), format!("{}", usize::MAX));
}

#[test]
fn decimal_reads_back_as_the_number() {
    for n in [0usize, 5, 10, 99, 100, 4096, 65535, 1_000_000] {
        assert_eq!(decimal_of(n).parse::<usize>(), Ok(n));
    }
}

#[test]
fn append_decimal_keeps_what_was_there() {
    let mut out = String::from("line ");
    append_decimal(&mut out, 42);
    assert_eq!(out, "line 42");
    append_decimal(&mut out, 0);
    assert_eq!(out, "line 420");
}

#[test]
fn position_renders_line_then_column() {
    let pos = TokenPos { line: 3, column: 14 };
    assert_eq!(pos.render(), "3:14");
}

#[test]
fn position_append_keeps_prefix() {
    let pos = TokenPos { line: 120, column: 0 };
    let mut out = String::from("at ");
    pos.append_to(&mut out);
    assert_eq!(out, "at 120:0");
}

#[test]
fn positions_are_ordered_by_line_then_column() {
    let a = TokenPos { line: 1, column: 9 };
    let b = TokenPos { line: 2, column: 1 };
    let c = TokenPos { line: 2, column: 5 };
    assert!(a < b);
    assert!(b < c);
    assert!(a < c);
    assert_eq!(b, TokenPos { line: 2, column: 1 });
    let copy = a;
    assert_eq!(copy, a);
}
