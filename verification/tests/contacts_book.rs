//! The contact book: a name maps to one key, insertion order means nothing.

use qr_encrypt::contacts::ContactBook;

#[test]
fn insert_then_get() {
    let mut book = ContactBook::new();
    book.insert("alice".to_string(), "age1alice".to_string());
    book.insert("bob".to_string(), "age1bob".to_string());
    assert_eq!(book.get("alice").map(String::as_str), Some("age1alice"));
    assert_eq!(book.get("bob").map(String::as_str), Some("age1bob"));
    assert_eq!(book.get("carol"), None);
    assert_eq!(book.len(), 2);
}

#[test]
fn insert_overwrites_an_existing_name() {
    let mut book = ContactBook::new();
    book.insert("alice".to_string(), "age1old".to_string());
    book.insert("alice".to_string(), "age1new".to_string());
    assert_eq!(book.get("alice").map(String::as_str), Some("age1new"));
    assert_eq!(book.len(), 1);
}

#[test]
fn remove_unfiles_only_that_name() {
    let mut book = ContactBook::new();
    book.insert("alice".to_string(), "age1alice".to_string());
    book.insert("bob".to_string(), "age1bob".to_string());
    book.remove("alice");
    assert!(!book.contains("alice"));
    assert!(book.contains("bob"));
    assert_eq!(book.len(), 1);
    // Removing a name never filed changes nothing.
    book.remove("carol");
    assert_eq!(book.len(), 1);
}
