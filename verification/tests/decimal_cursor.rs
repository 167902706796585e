use wechat_session::cursor::{parse_cursor, parse_entry, render_entry, sync_key_text, SyncKey};
use wechat_session::decimal::{parse_decimal, parse_digits, render_i64, render_u64};
use wechat_session::text::find_char;

fn key(key: i64, val: i64) -> SyncKey {
    SyncKey { key, val }
}

#[test]
fn render_u64_writes_base_ten() {
    assert_eq!(render_u64(0), "0");
    assert_eq!(render_u64(7), "7");
    assert_eq!(render_u64(10), "10");
    assert_eq!(render_u64(1487767062), "1487767062");
    assert_eq!(render_u64(u64::MAX), "18446744073709551615");
}

#[test]
fn render_i64_writes_sign_and_digits() {
    assert_eq!(render_i64(0), "0");
    assert_eq!(render_i64(-1), "-1");
    assert_eq!(render_i64(42), "42");
    assert_eq!(render_i64(i64::MAX), "9223372036854775807");
    assert_eq!(render_i64(i64::MIN), "-9223372036854775808");
}

#[test]
fn render_i64_agrees_with_std_formatting() {
    for x in [0i64, 1, -1, 9, 10, -10, 99, 100, 635_000_000_123, -77_000_000_001] {
        assert_eq!(render_i64(x), format!("{}", x));
    }
}

#[test]
fn parse_digits_reads_unsigned() {
    assert_eq!(parse_digits("0"), Some(0));
    assert_eq!(parse_digits("007"), Some(7));
    assert_eq!(parse_digits("18446744073709551615"), Some(u64::MAX));
    assert_eq!(parse_digits("18446744073709551616"), None);
    assert_eq!(parse_digits("99999999999999999999999999"), None);
    assert_eq!(parse_digits(""), None);
    assert_eq!(parse_digits("12a"), None);
    assert_eq!(parse_digits("-1"), None);
}

#[test]
fn parse_decimal_reads_signed() {
    assert_eq!(parse_decimal("0"), Some(0));
    assert_eq!(parse_decimal("-0"), Some(0));
    assert_eq!(parse_decimal("1100"), Some(1100));
    assert_eq!(parse_decimal("-15"), Some(-15));
    assert_eq!(parse_decimal("9223372036854775807"), Some(i64::MAX));
    assert_eq!(parse_decimal("-9223372036854775808"), Some(i64::MIN));
}

#[test]
fn parse_decimal_rejects_what_is_no_number() {
    assert_eq!(parse_decimal(""), None);
    assert_eq!(parse_decimal("-"), None);
    assert_eq!(parse_decimal("+1"), None);
    assert_eq!(parse_decimal("1 "), None);
    assert_eq!(parse_decimal("--1"), None);
    assert_eq!(parse_decimal("9223372036854775808"), None);
    assert_eq!(parse_decimal("-9223372036854775809"), None);
}

#[test]
fn parse_decimal_undoes_render() {
    for x in [0i64, 5, -5, 1000, i64::MAX, i64::MIN, -1, 123456789012] {
        assert_eq!(parse_decimal(&render_i64(x)), Some(x));
    }
}

#[test]
fn find_char_gives_first_index_or_length() {
    assert_eq!(find_char("a=1; path=/; x", 0, ';'), 3);
    assert_eq!(find_char("a=1; path=/; x", 4, ';'), 11);
    assert_eq!(find_char("a=1", 0, ';'), 3);
    assert_eq!(find_char("", 0, ';'), 0);
    assert_eq!(find_char(";", 0, ';'), 0);
}

#[test]
fn entry_is_key_underscore_value() {
    assert_eq!(render_entry(&key(1, 635)), "1_635");
    assert_eq!(render_entry(&key(-2, -3)), "-2_-3");
    assert_eq!(parse_entry("1_635"), Some(key(1, 635)));
    assert_eq!(parse_entry("-2_-3"), Some(key(-2, -3)));
    assert_eq!(parse_entry("1635"), None);
    assert_eq!(parse_entry("1_2_3"), None);
    assert_eq!(parse_entry("_2"), None);
    assert_eq!(parse_entry("1_"), None);
}

#[test]
fn cursor_text_joins_with_bars() {
    let list = vec![key(1, 654705913), key(2, 654706172), key(3, 654706121), key(1000, 1487767062)];
    assert_eq!(sync_key_text(&list), "1_654705913|2_654706172|3_654706121|1000_1487767062");
    assert_eq!(sync_key_text(&vec![key(11, 22)]), "11_22");
    assert_eq!(sync_key_text(&Vec::new()), "");
}

#[test]
fn cursor_round_trip_keeps_pairs_and_order() {
    let lists = vec![
        Vec::new(),
        vec![key(1, 2)],
        vec![key(3, 1), key(1, 3), key(2, 2)],
        vec![key(i64::MIN, i64::MAX), key(0, 0), key(-1, 1), key(0, 0)],
    ];
    for list in lists {
        let text = sync_key_text(&list);
        assert_eq!(parse_cursor(&text), Some(list));
    }
}

#[test]
fn parse_cursor_rejects_malformed_text() {
    assert_eq!(parse_cursor("1_2|"), None);
    assert_eq!(parse_cursor("|1_2"), None);
    assert_eq!(parse_cursor("1_2||3_4"), None);
    assert_eq!(parse_cursor("1-2"), None);
    assert_eq!(parse_cursor("a_b"), None);
    assert_eq!(parse_cursor("1_99999999999999999999"), None);
    assert_eq!(parse_cursor(""), Some(Vec::new()));
    assert_eq!(parse_cursor("01_002"), Some(vec![key(1, 2)]));
}
