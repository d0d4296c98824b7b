use ui::text::{
    chars_lt, chars_of, contains_str, decimal_string, signed_decimal_string, str_eq, strip_prefix, trim,
};

#[test]
fn decimal_renders_base_ten() {
    assert_eq!(decimal_string(0), "0");
    assert_eq!(decimal_string(7), "7");
    assert_eq!(decimal_string(1234567890), "1234567890");
    assert_eq!(decimal_string(u64::MAX), u64::MAX.to_string());
}

#[test]
fn signed_decimal_renders_sign() {
    assert_eq!(signed_decimal_string(-5), "-5");
    assert_eq!(signed_decimal_string(42), "42");
    assert_eq!(signed_decimal_string(i64::MIN), i64::MIN.to_string());
    assert_eq!(signed_decimal_string(i64::MAX), i64::MAX.to_string());
}

#[test]
fn substring_search() {
    assert!(contains_str("dota 2", "ta"));
    assert!(contains_str("abc", ""));
    assert!(!contains_str("abc", "abcd"));
    assert!(!contains_str("abc", "ac"));
}

#[test]
fn string_equality() {
    assert!(str_eq("zh-CN", "zh-CN"));
    assert!(!str_eq("zh-CN", "zh-cn"));
    assert!(!str_eq("en", "eng"));
}

#[test]
fn code_point_order() {
    let a = chars_of("Axe");
    let b = chars_of("axe");
    let c = chars_of("Ax");
    assert!(chars_lt(&a, &b));
    assert!(!chars_lt(&b, &a));
    assert!(chars_lt(&c, &a));
    assert!(!chars_lt(&a, &a));
}

#[test]
fn trim_drops_outer_white_space() {
    assert_eq!(trim("  7656119 \t\n"), "7656119");
    assert_eq!(trim(" a b "), "a b");
    assert_eq!(trim("   "), "");
}

#[test]
fn strip_prefix_as_std() {
    assert_eq!(strip_prefix("npc_dota_hero_axe", "npc_dota_hero_"), Some("axe".to_string()));
    assert_eq!(strip_prefix("axe", "npc_dota_hero_"), None);
    assert_eq!(strip_prefix("abc", ""), Some("abc".to_string()));
    assert_eq!(strip_prefix("abc", "abc"), Some(String::new()));
    assert_eq!(strip_prefix("abd", "abc"), None);
}
