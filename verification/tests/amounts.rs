use cashu_client::text::{amount_text, parse_amount, same_text};

#[test]
fn amounts_are_written_in_decimal() {
    assert_eq!(amount_text(0), "0");
    assert_eq!(amount_text(7), "7");
    assert_eq!(amount_text(10), "10");
    assert_eq!(amount_text(1000), "1000");
    assert_eq!(amount_text(1_234_567_890), "1234567890");
    assert_eq!(amount_text(u64::MAX), "18446744073709551615");
}

#[test]
fn amounts_in_decimal_are_read() {
    assert_eq!(parse_amount("0"), Some(0));
    assert_eq!(parse_amount("9"), Some(9));
    assert_eq!(parse_amount("64"), Some(64));
    assert_eq!(parse_amount("1000"), Some(1000));
    assert_eq!(parse_amount("18446744073709551615"), Some(u64::MAX));
}

#[test]
fn anything_but_an_amount_in_decimal_is_refused() {
    assert_eq!(parse_amount(""), None);
    assert_eq!(parse_amount("00"), None);
    assert_eq!(parse_amount("01"), None);
    assert_eq!(parse_amount("+1"), None);
    assert_eq!(parse_amount("-1"), None);
    assert_eq!(parse_amount("1 "), None);
    assert_eq!(parse_amount(" 1"), None);
    assert_eq!(parse_amount("1.0"), None);
    assert_eq!(parse_amount("1e3"), None);
    assert_eq!(parse_amount("0x10"), None);
    assert_eq!(parse_amount("12a"), None);
    assert_eq!(parse_amount("\u{0661}\u{0662}"), None);
    assert_eq!(parse_amount("18446744073709551616"), None);
    assert_eq!(parse_amount("99999999999999999999999999"), None);
}

#[test]
fn writing_and_reading_an_amount_gives_it_back() {
    for amount in [0, 1, 9, 10, 11, 99, 100, 12345, u64::MAX - 1, u64::MAX] {
        assert_eq!(parse_amount(&amount_text(amount)), Some(amount));
    }
}

#[test]
fn texts_are_the_same_when_their_characters_are() {
    assert!(same_text("", ""));
    assert!(same_text("amount", "amount"));
    assert!(same_text("\u{e9}t\u{e9}", "\u{e9}t\u{e9}"));
    assert!(!same_text("amount", "amounts"));
    assert!(!same_text("amount", "Amount"));
    assert!(!same_text("", " "));
    assert!(!same_text("e\u{301}", "\u{e9}"));
}
