use secure_chat::models::User;
use secure_chat::text::{join3, parse_count, same_text};

#[test]
fn counts_are_decimal() {
    assert_eq!(parse_count("0"), Some(0));
    assert_eq!(parse_count("42"), Some(42));
    assert_eq!(parse_count("+42"), Some(42));
    assert_eq!(parse_count("0042"), Some(42));
    assert_eq!(parse_count(""), None);
    assert_eq!(parse_count("+"), None);
    assert_eq!(parse_count("-1"), None);
    assert_eq!(parse_count("++1"), None);
    assert_eq!(parse_count("4 2"), None);
    assert_eq!(parse_count(" 42"), None);
    assert_eq!(parse_count("42x"), None);
    assert_eq!(parse_count("4_2"), None);
    assert_eq!(parse_count("\u{664}"), None);
}

#[test]
fn counts_agree_with_std() {
    let max = usize::MAX.to_string();
    assert_eq!(parse_count(&max), Some(usize::MAX));
    let mut over = max.clone();
    over.push('0');
    assert_eq!(parse_count(&over), None);
    let next = (usize::MAX as u128 + 1).to_string();
    assert_eq!(parse_count(&next), None);
    for text in ["7", "+7", "007", "", "+", "-7", "7a", "18446744073709551616"] {
        assert_eq!(parse_count(text), text.parse::<usize>().ok());
    }
}

#[test]
fn texts_are_compared_by_characters() {
    assert!(same_text("Login", "Login"));
    assert!(same_text("", ""));
    assert!(!same_text("Login", "Logout"));
    assert!(!same_text("Login", "login"));
    assert!(!same_text("Ok", "Ok "));
    assert!(same_text("caf\u{e9}", "caf\u{e9}"));
    assert!(!same_text("caf\u{e9}", "cafe"));
}

#[test]
fn texts_are_joined_in_order() {
    assert_eq!(join3("a", "", "bc"), "abc");
    assert_eq!(join3("127.0.0.1", ":", "80"), "127.0.0.1:80");
}

#[test]
fn users_with_different_usernames_have_different_keys() {
    let a = User::full(String::from("Same"), String::from("alice"), String::from("pw"));
    let b = User::full(String::from("Same"), String::from("bob"), String::from("pw"));
    let (key_a, fields_a) = a.get_hash();
    let (key_b, fields_b) = b.get_hash();
    assert_ne!(key_a, key_b);
    assert_eq!(key_a, fields_a[1].1);
    assert_eq!(key_b, fields_b[1].1);
    assert_eq!(User::simple(String::from("u"), String::from("p")).name, "");
}
