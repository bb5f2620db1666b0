use swim_idle::text::{
    append_decimal, append_one_decimal_place, append_signed_decimal, digit_text, repeat_text,
};

fn decimal_of(n: u128) -> String {
    let mut text = String::new();
    append_decimal(&mut text, n);
    text
}

fn signed_of(i: i128) -> String {
    let mut text = String::new();
    append_signed_decimal(&mut text, i);
    text
}

fn tenths_of(n: u128) -> String {
    let mut text = String::new();
    append_one_decimal_place(&mut text, n);
    text
}

#[test]
fn digit_text_gives_each_digit() {
    let digits = ["0", "1", "2", "3", "4", "5", "6", "7", "8", "9"];
    for d in 0u8..10 {
        assert_eq!(digit_text(d), digits[d as usize]);
    }
}

#[test]
fn decimal_numerals() {
    assert_eq!(decimal_of(0), "0");
    assert_eq!(decimal_of(7), "7");
    assert_eq!(decimal_of(10), "10");
    assert_eq!(decimal_of(909), "909");
    assert_eq!(decimal_of(12_345), "12345");
    assert_eq!(decimal_of(u128::MAX), u128::MAX.to_string());
    for n in 0u128..3000 {
        assert_eq!(decimal_of(n), n.to_string());
    }
}

#[test]
fn signed_decimal_numerals() {
    assert_eq!(signed_of(0), "0");
    assert_eq!(signed_of(-1), "-1");
    assert_eq!(signed_of(25), "25");
    assert_eq!(signed_of(-20), "-20");
    assert_eq!(signed_of(i128::MAX), i128::MAX.to_string());
    assert_eq!(signed_of(i128::MIN), i128::MIN.to_string());
}

#[test]
fn append_keeps_what_is_there() {
    let mut text = String::from("Need ");
    append_signed_decimal(&mut text, -3);
    append_decimal(&mut text, 40);
    append_one_decimal_place(&mut text, 5);
    assert_eq!(text, "Need -3400.5");
}

#[test]
fn one_decimal_place() {
    assert_eq!(tenths_of(0), "0.0");
    assert_eq!(tenths_of(7), "0.7");
    assert_eq!(tenths_of(10), "1.0");
    assert_eq!(tenths_of(127), "12.7");
}

#[test]
fn repeat_text_copies_the_unit() {
    assert_eq!(repeat_text("~", 0), "");
    assert_eq!(repeat_text("~", 4), "~~~~");
    assert_eq!(repeat_text("─", 3), "───");
    assert_eq!(repeat_text("· ", 3), "· · · ");
    assert_eq!(repeat_text("", 5), "");
}
