use cargo_runner::helpers::{
    decimal_string, is_all_caps, is_caps_or_no_letter, is_valid_env_var_name, join, same_text,
};

#[test]
fn env_names_follow_the_naming_rule() {
    assert!(is_valid_env_var_name("RUSTFLAGS"));
    assert!(!is_valid_env_var_name("rustflags"));
    assert!(!is_valid_env_var_name("MY-VAR"));
    assert!(!is_valid_env_var_name(""));
}

#[test]
fn env_names_edge_cases() {
    assert!(is_valid_env_var_name("A"));
    assert!(is_valid_env_var_name("MY_CUSTOM_VAR_1"));
    assert!(is_valid_env_var_name("A9_"));
    assert!(!is_valid_env_var_name("1ABC"));
    assert!(!is_valid_env_var_name("_ABC"));
    assert!(!is_valid_env_var_name("a"));
    assert!(!is_valid_env_var_name("Ab"));
    assert!(!is_valid_env_var_name("AB C"));
    assert!(!is_valid_env_var_name("ÀB"));
    assert!(!is_valid_env_var_name("AÉ"));
}

#[test]
fn all_caps_looks_at_letters_only() {
    assert!(is_all_caps("APP_NAME"));
    assert!(is_all_caps("MY_CUSTOM_VAR_1"));
    assert!(is_all_caps(""));
    assert!(is_all_caps("123-_"));
    assert!(is_all_caps("ÀÉ"));
    assert!(!is_all_caps("App"));
    assert!(!is_all_caps("APP_name"));
    assert!(!is_all_caps("é"));
}

#[test]
fn caps_or_no_letter_table() {
    assert!(is_caps_or_no_letter(false, false));
    assert!(is_caps_or_no_letter(false, true));
    assert!(is_caps_or_no_letter(true, true));
    assert!(!is_caps_or_no_letter(true, false));
}

#[test]
fn same_text_compares_characters() {
    assert!(same_text("", ""));
    assert!(same_text("run", "run"));
    assert!(same_text("héllo", "héllo"));
    assert!(!same_text("run", "runs"));
    assert!(!same_text("run", "ruN"));
    assert!(!same_text("a", ""));
}

#[test]
fn join_puts_the_separator_between() {
    assert_eq!(join(&vec![], ","), "");
    assert_eq!(join(&vec!["a".to_string()], ","), "a");
    assert_eq!(join(&vec!["a".to_string(), "b".to_string(), "c".to_string()], ","), "a,b,c");
    assert_eq!(join(&vec!["".to_string(), "".to_string()], ", "), ", ");
}

#[test]
fn decimal_string_writes_numerals() {
    assert_eq!(decimal_string(0), "0");
    assert_eq!(decimal_string(7), "7");
    assert_eq!(decimal_string(10), "10");
    assert_eq!(decimal_string(109), "109");
    assert_eq!(decimal_string(u64::MAX), "18446744073709551615");
}
