use star_setup::cli::resolve_bool;
use star_setup::text::{split_words, trim};

#[test]
fn words_split_at_whitespace() {
    assert_eq!(split_words("  a b\t\tc\n"), vec!["a".to_string(), "b".to_string(), "c".to_string()]);
    assert!(split_words("   ").is_empty());
    assert_eq!(split_words("one"), vec!["one".to_string()]);
    for w in split_words(" x\u{3000}y  z ") {
        assert!(!w.is_empty());
        assert!(!w.chars().any(char::is_whitespace));
    }
}

#[test]
fn trimming() {
    assert_eq!(trim("\t hi there \n"), "hi there");
    assert_eq!(trim("   "), "");
}

#[test]
fn flag_priority() {
    assert!(!resolve_bool(true, true, Some(true), true));
    assert!(resolve_bool(true, false, Some(false), false));
    assert!(!resolve_bool(false, false, Some(false), true));
    assert!(resolve_bool(false, false, None, true));
}
