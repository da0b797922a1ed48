use openlibrary_api::text::{join_with, str_eq, usize_to_string};

#[test]
fn decimal_rendering_exact_values() {
    assert_eq!(usize_to_string(0), "0");
    assert_eq!(usize_to_string(7), "7");
    assert_eq!(usize_to_string(10), "10");
    assert_eq!(usize_to_string(40), "40");
    assert_eq!(usize_to_string(1990), "1990");
    assert_eq!(usize_to_string(123456789), "123456789");
    assert_eq!(usize_to_string(usize::MAX), "18446744073709551615");
}

#[test]
fn string_equality_is_character_wise() {
    assert!(str_eq("", ""));
    assert!(str_eq("alpha", "alpha"));
    assert!(!str_eq("alpha", "alphA"));
    assert!(!str_eq("alpha", "alpha "));
    assert!(!str_eq("alpha", "alph"));
    assert!(str_eq("héllo", "héllo"));
    assert!(!str_eq("héllo", "hello"));
}

#[test]
fn joining_with_a_separator() {
    let none: Vec<String> = vec![];
    assert_eq!(join_with(" AND ", &none), "");
    let one = vec!["a".to_string()];
    assert_eq!(join_with(" AND ", &one), "a");
    let three = vec!["a".to_string(), "b".to_string(), "c".to_string()];
    assert_eq!(join_with(" OR ", &three), "a OR b OR c");
}
