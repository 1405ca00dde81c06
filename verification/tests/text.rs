use fdp_sui_bench::text::{append_decimal, append_fixed1, decimal_string};

#[test]
fn decimal_string_writes_numbers_without_leading_zeros() {
    assert_eq!(decimal_string(0), "0");
    assert_eq!(decimal_string(7), "7");
    assert_eq!(decimal_string(10), "10");
    assert_eq!(decimal_string(1234567890), "1234567890");
    assert_eq!(decimal_string(u128::MAX), u128::MAX.to_string());
}

#[test]
fn append_decimal_writes_behind_what_is_there() {
    let mut out = String::from("n=");
    append_decimal(&mut out, 405);
    append_decimal(&mut out, 0);
    assert_eq!(out, "n=4050");
}

#[test]
fn append_fixed1_writes_tenths_with_one_place() {
    let mut out = String::new();
    append_fixed1(&mut out, 0);
    out.push(' ');
    append_fixed1(&mut out, 9);
    out.push(' ');
    append_fixed1(&mut out, 10);
    out.push(' ');
    append_fixed1(&mut out, 12345);
    assert_eq!(out, "0.0 0.9 1.0 1234.5");
}
