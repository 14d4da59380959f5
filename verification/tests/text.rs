use gifdeck::text::{
    blank, parse_count, push_decimal, push_zero_padded, same, to_ascii_lowercase, trim,
};

#[test]
fn trim_takes_white_space_off_both_ends() {
    assert_eq!(trim("  a b\t\n"), "a b");
    assert_eq!(trim("\u{2003}x\u{85}"), "x");
    assert_eq!(trim(" \u{3000} "), "");
    assert_eq!(trim(""), "");
    // A zero-width space is no white space.
    assert_eq!(trim("\u{200b}"), "\u{200b}");
}

#[test]
fn trim_agrees_with_the_standard_library() {
    for c in (0..0x3100u32).filter_map(char::from_u32) {
        let s = format!("{c}x{c}");
        assert_eq!(trim(&s), s.trim(), "{:x}", c as u32);
        assert_eq!(blank(&c.to_string()), c.to_string().trim().is_empty());
    }
}

#[test]
fn blank_is_trimming_to_nothing() {
    assert!(blank(""));
    assert!(blank(" \t\r\n"));
    assert!(!blank(" x "));
}

#[test]
fn ascii_lower_case_leaves_other_letters() {
    assert_eq!(to_ascii_lowercase("GiF-Ä@[Z"), "gif-Ä@[z");
}

#[test]
fn same_compares_texts() {
    assert!(same("äx", "äx"));
    assert!(!same("äx", "äy"));
    assert!(!same("a", "ab"));
}

#[test]
fn numbers_in_digits() {
    let mut s = String::from("n=");
    push_decimal(&mut s, 0);
    push_decimal(&mut s, 907);
    assert_eq!(s, "n=0907");
    let mut s = String::new();
    push_decimal(&mut s, u128::MAX);
    assert_eq!(s, u128::MAX.to_string());
    let mut s = String::new();
    push_zero_padded(&mut s, 7, 4);
    push_zero_padded(&mut s, 12345, 4);
    assert_eq!(s, "000712345");
}

#[test]
fn counts_are_read_like_numbers() {
    assert_eq!(parse_count("137"), Some(137));
    assert_eq!(parse_count("+5"), Some(5));
    assert_eq!(parse_count("007"), Some(7));
    assert_eq!(parse_count(""), None);
    assert_eq!(parse_count("+"), None);
    assert_eq!(parse_count("-1"), None);
    assert_eq!(parse_count("1 "), None);
    assert_eq!(parse_count("12a"), None);
    assert_eq!(parse_count(&usize::MAX.to_string()), Some(usize::MAX));
    assert_eq!(parse_count("18446744073709551616"), "18446744073709551616".parse().ok());
    assert_eq!(parse_count("99999999999999999999999999"), None);
}
