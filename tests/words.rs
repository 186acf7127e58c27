use rust_basics::words::first_word;

#[test]
fn test_empty() {
    assert_eq!(first_word(""), "");
}

#[test]
fn test_single_word() {
    assert_eq!(first_word("Hello"), "Hello");
}

#[test]
fn test_multiple_words() {
    assert_eq!(first_word("Hello World"), "Hello");
}

#[test]
fn first_word_of_leading_space_is_empty() {
    assert_eq!(first_word(" Hello"), "");
    assert_eq!(first_word("héllo wörld"), "héllo");
}
