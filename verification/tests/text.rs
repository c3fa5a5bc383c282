use termfmt::text::{decimal, join, spaces, zero_padded};

#[test]
fn decimal_of_zero_is_one_digit() {
    assert_eq!(decimal(0), "0");
}

#[test]
fn decimal_has_no_leading_zeros() {
    assert_eq!(decimal(7), "7");
    assert_eq!(decimal(10), "10");
    assert_eq!(decimal(42), "42");
    assert_eq!(decimal(1000), "1000");
    assert_eq!(decimal(90210), "90210");
}

#[test]
fn decimal_of_the_largest_number() {
    assert_eq!(decimal(u64::MAX), "18446744073709551615");
    assert_eq!(decimal(u64::MAX), u64::MAX.to_string());
}

#[test]
fn decimal_agrees_with_the_standard_library() {
    let mut n: u64 = 1;
    for _ in 0..19 {
        assert_eq!(decimal(n), n.to_string());
        assert_eq!(decimal(n - 1), (n - 1).to_string());
        n *= 10;
    }
}

#[test]
fn zero_padded_fills_up_to_the_width() {
    assert_eq!(zero_padded(5, 2), "05");
    assert_eq!(zero_padded(0, 2), "00");
    assert_eq!(zero_padded(0, 3), "000");
    assert_eq!(zero_padded(7, 3), "007");
    assert_eq!(zero_padded(42, 3), "042");
}

#[test]
fn zero_padded_keeps_a_number_that_fills_the_width() {
    assert_eq!(zero_padded(59, 2), "59");
    assert_eq!(zero_padded(999, 3), "999");
}

#[test]
fn zero_padded_keeps_all_digits_of_a_wider_number() {
    assert_eq!(zero_padded(123, 2), "123");
    assert_eq!(zero_padded(5, 0), "5");
    assert_eq!(zero_padded(0, 0), "0");
}

#[test]
fn spaces_gives_the_number_asked_for() {
    assert_eq!(spaces(0), "");
    assert_eq!(spaces(1), " ");
    assert_eq!(spaces(3), "   ");
    assert_eq!(spaces(50), " ".repeat(50));
}

#[test]
fn join_of_nothing_is_empty() {
    let items: Vec<String> = Vec::new();
    assert_eq!(join(&items, ", "), "");
}

#[test]
fn join_of_one_item_has_no_separator() {
    let items = vec![String::from("alone")];
    assert_eq!(join(&items, ", "), "alone");
}

#[test]
fn join_puts_the_separator_between_neighbours() {
    let items = vec![String::from("a"), String::from("b"), String::from("c")];
    assert_eq!(join(&items, ", "), "a, b, c");
    assert_eq!(join(&items, ""), "abc");
}

#[test]
fn join_keeps_empty_items() {
    let items = vec![String::new(), String::from("x"), String::new()];
    assert_eq!(join(&items, "-"), "-x-");
}
