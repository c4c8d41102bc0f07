use wg_tui::text::{lines_of, parse_i32, split_fields, str_contains, white_space};

fn texts(v: Vec<String>) -> Vec<String> {
    v
}

#[test]
fn white_space_set() {
    assert!(white_space(' '));
    assert!(white_space('\t'));
    assert!(white_space('\u{85}'));
    assert!(white_space('\u{2028}'));
    assert!(!white_space('x'));
    assert!(!white_space('\u{200b}'));
}

#[test]
fn lines_split_like_str_lines() {
    assert_eq!(texts(lines_of("a\r\nb\n\nc\n")), vec!["a", "b", "", "c"]);
    assert_eq!(texts(lines_of("")), Vec::<String>::new());
    assert_eq!(texts(lines_of("x\r")), vec!["x\r"]);
    assert_eq!(texts(lines_of("\n")), vec![""]);
    assert_eq!(texts(lines_of("one")), vec!["one"]);
}

#[test]
fn fields_split_at_colons() {
    assert_eq!(split_fields("wg0:wireguard"), Some(("wg0".to_string(), "wireguard".to_string())));
    assert_eq!(split_fields("a:b:c"), Some(("a".to_string(), "b".to_string())));
    assert_eq!(split_fields("a:"), Some(("a".to_string(), "".to_string())));
    assert_eq!(split_fields("no-colon"), None);
}

#[test]
fn parse_i32_cases() {
    assert_eq!(parse_i32("100"), Some(100));
    assert_eq!(parse_i32("+5"), Some(5));
    assert_eq!(parse_i32("-42"), Some(-42));
    assert_eq!(parse_i32("0042"), Some(42));
    assert_eq!(parse_i32("2147483647"), Some(i32::MAX));
    assert_eq!(parse_i32("-2147483648"), Some(i32::MIN));
    assert_eq!(parse_i32("2147483648"), None);
    assert_eq!(parse_i32("99999999999999999999"), None);
    assert_eq!(parse_i32(""), None);
    assert_eq!(parse_i32("-"), None);
    assert_eq!(parse_i32("12a"), None);
    assert_eq!(parse_i32(" 1"), None);
    assert_eq!(parse_i32("+-1"), None);
}

#[test]
fn contains_cases() {
    assert!(str_contains("wireguard", "guard"));
    assert!(str_contains("vpn", "vpn"));
    assert!(str_contains("anything", ""));
    assert!(!str_contains("vp", "vpn"));
    assert!(!str_contains("802-3-ethernet", "vpn"));
}
