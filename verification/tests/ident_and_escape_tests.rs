use strenum::escape::escape;
use strenum::ident::check_ident;

#[test]
fn accepts_plain_identifiers() {
    assert!(check_ident("Order"));
    assert!(check_ident("from_text"));
    assert!(check_ident("_leading"));
    assert!(check_ident("x9"));
    assert!(check_ident("__impl_Order"));
}

#[test]
fn rejects_malformed_identifiers() {
    assert!(!check_ident(""));
    assert!(!check_ident("_"));
    assert!(!check_ident("9lives"));
    assert!(!check_ident("with-dash"));
    assert!(!check_ident("with space"));
    assert!(!check_ident("r#type"));
}

#[test]
fn escape_leaves_plain_text_alone() {
    assert_eq!(escape("full"), "full");
    assert_eq!(escape(""), "");
}

#[test]
fn escape_guards_quotes_and_backslashes() {
    assert_eq!(escape("a\"b"), "a\\\"b");
    assert_eq!(escape("a\\b"), "a\\\\b");
    assert_eq!(escape("\\\""), "\\\\\\\"");
}
