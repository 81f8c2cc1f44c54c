use rileyviewer::auth::token_valid;
use rileyviewer::text::{decimal, same_text};

#[test]
fn open_server_admits_everyone() {
    assert!(token_valid(&None, None));
    assert!(token_valid(&None, Some("")));
    assert!(token_valid(&None, Some("anything")));
}

#[test]
fn protected_server_wants_the_exact_token() {
    let expected = Some("abc".to_string());
    assert!(token_valid(&expected, Some("abc")));
    assert!(!token_valid(&expected, None));
    assert!(!token_valid(&expected, Some("")));
    assert!(!token_valid(&expected, Some("ab")));
    assert!(!token_valid(&expected, Some("abcd")));
    assert!(!token_valid(&expected, Some("ABC")));
    assert!(!token_valid(&expected, Some(" abc")));
}

#[test]
fn token_of_many_characters_is_compared_whole() {
    let token = "0123456789abcdef0123456789abcdef".to_string();
    let expected = Some(token.clone());
    assert!(token_valid(&expected, Some(token.as_str())));
    assert!(!token_valid(&expected, Some("0123456789abcdef0123456789abcdee")));
}

#[test]
fn same_text_compares_characters() {
    assert!(same_text("", ""));
    assert!(same_text("héllo", "héllo"));
    assert!(!same_text("hello", "hellO"));
    assert!(!same_text("a", ""));
}

#[test]
fn decimal_numerals() {
    assert_eq!(decimal(0), "0");
    assert_eq!(decimal(7), "7");
    assert_eq!(decimal(10), "10");
    assert_eq!(decimal(7878), "7878");
    assert_eq!(decimal(1234567890), "1234567890");
    assert_eq!(decimal(u64::MAX), "18446744073709551615");
}
