use magistratures::numeral::{push_decimal, push_marker};

fn decimal_of(n: usize) -> String {
    let mut text = String::new();
    push_decimal(&mut text, n);
    text
}

#[test]
fn single_digits() {
    assert_eq!(decimal_of(0), "0");
    assert_eq!(decimal_of(1), "1");
    assert_eq!(decimal_of(9), "9");
}

#[test]
fn several_digits() {
    assert_eq!(decimal_of(10), "10");
    assert_eq!(decimal_of(99), "99");
    assert_eq!(decimal_of(100), "100");
    assert_eq!(decimal_of(1234567890), "1234567890");
}

#[test]
fn largest_number() {
    assert_eq!(decimal_of(usize::MAX), usize::MAX.to_string());
}

#[test]
fn decimal_is_appended_to_what_is_there() {
    let mut text = "n=".to_string();
    push_decimal(&mut text, 42);
    assert_eq!(text, "n=42");
}

#[test]
fn marker_is_the_number_in_square_brackets() {
    let mut text = "see".to_string();
    push_marker(&mut text, 1);
    push_marker(&mut text, 27);
    assert_eq!(text, "see[1][27]");
}

#[test]
fn decimal_agrees_with_std_formatting() {
    for n in 0..2000usize {
        assert_eq!(decimal_of(n), n.to_string());
    }
}
