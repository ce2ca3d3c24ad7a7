//! Driver tests: single-expression and sentence-mode normalization.

use nemo_text_processing::{normalize, normalize_sentence};

#[test]
fn test_basic_cardinal() {
    assert_eq!(normalize("one"), "1");
    assert_eq!(normalize("twenty one"), "21");
    assert_eq!(normalize("one hundred"), "100");
}

#[test]
fn test_basic_money() {
    assert_eq!(normalize("five dollars"), "$5");
}

#[test]
fn test_passthrough() {
    assert_eq!(normalize("hello world"), "hello world");
}

#[test]
fn test_sentence_cardinal() {
    assert_eq!(normalize_sentence("I have twenty one apples"), "I have 21 apples");
}

#[test]
fn test_sentence_money() {
    assert_eq!(
        normalize_sentence("five dollars and fifty cents for the coffee"),
        "$5.50 for the coffee"
    );
}

#[test]
fn lib_test_sentence_passthrough() {
    assert_eq!(normalize_sentence("hello world"), "hello world");
    assert_eq!(normalize_sentence("the quick brown fox"), "the quick brown fox");
}

#[test]
fn test_sentence_mixed() {
    assert_eq!(
        normalize_sentence("I paid five dollars for twenty three items"),
        "I paid $5 for 23 items"
    );
}

#[test]
fn test_sentence_empty() {
    assert_eq!(normalize_sentence(""), "");
    assert_eq!(normalize_sentence("   "), "");
}

#[test]
fn test_sentence_single_number() {
    assert_eq!(normalize_sentence("forty two"), "42");
}

#[test]
fn test_punctuation() {
    assert_eq!(normalize("period"), ".");
    assert_eq!(normalize("comma"), ",");
    assert_eq!(normalize("question mark"), "?");
    assert_eq!(normalize("exclamation point"), "!");
}

#[test]
fn test_sentence_punctuation() {
    assert_eq!(normalize_sentence("hello period"), "hello .");
    assert_eq!(normalize_sentence("yes comma I agree"), "yes , I agree");
    assert_eq!(normalize_sentence("really question mark"), "really ?");
}
