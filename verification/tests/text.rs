use bbc_news_cli::text::decimal;
use bbc_news_cli::text::lower_hex;
use bbc_news_cli::text::text_eq;

#[test]
fn text_equality() {
    assert!(text_eq("", ""));
    assert!(text_eq("item", "item"));
    assert!(!text_eq("item", "items"));
    assert!(!text_eq("item", "Item"));
    assert!(text_eq("\u{e9}t\u{e9}", "\u{e9}t\u{e9}"));
    assert!(!text_eq("\u{e9}", "e"));
}

#[test]
fn decimal_notation() {
    assert_eq!(decimal(0), "0");
    assert_eq!(decimal(7), "7");
    assert_eq!(decimal(10), "10");
    assert_eq!(decimal(1234567890), "1234567890");
    assert_eq!(decimal(u128::MAX), "340282366920938463463374607431768211455");
}

#[test]
fn hexadecimal_notation() {
    assert_eq!(lower_hex(0), "0");
    assert_eq!(lower_hex(15), "f");
    assert_eq!(lower_hex(16), "10");
    assert_eq!(lower_hex(0xdead_beef), "deadbeef");
    assert_eq!(lower_hex(u64::MAX), "ffffffffffffffff");
}
