use exiftool_rs_wrapper::types::{binary_text, bool_word, list_text};
use exiftool_rs_wrapper::TagId;

#[test]
fn test_tag_id() {
    assert_eq!(TagId::new("Make").name(), "Make");
    assert_eq!(TagId::new("Model").name(), "Model");
}

#[test]
fn value_texts() {
    assert_eq!(bool_word("Yes"), Some(true));
    assert_eq!(bool_word("OFF"), Some(false));
    assert_eq!(bool_word("0"), Some(false));
    assert_eq!(bool_word("maybe"), None);
    assert_eq!(list_text(&vec!["1".to_string(), "a".to_string()]), "[1, a]");
    assert_eq!(list_text(&vec![]), "[]");
    assert_eq!(binary_text(12), "[binary: 12 bytes]");
}
