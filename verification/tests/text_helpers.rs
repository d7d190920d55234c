use gallifreyan::text::{
    byte_len_up_to_three, is_white_space_char, join_strings, quoted_message, split_on_char,
    split_whitespace,
};

#[test]
fn whitespace_splits_into_words() {
    assert_eq!(split_whitespace("  a bc\t\nd  "), vec!["a", "bc", "d"]);
    assert!(split_whitespace("   ").is_empty());
    assert_eq!(split_whitespace("x\u{3000}y"), vec!["x", "y"]);
}

#[test]
fn a_character_splits_into_pieces() {
    assert_eq!(split_on_char("a,,b", ','), vec!["a", "", "b"]);
    assert_eq!(split_on_char("", ','), vec![""]);
    assert_eq!(split_on_char("a,", ','), vec!["a", ""]);
}

#[test]
fn joining_puts_the_separator_between() {
    let parts = vec!["a".to_string(), "b".to_string(), "c".to_string()];
    assert_eq!(join_strings(&parts, ", "), "a, b, c");
    assert_eq!(join_strings(&Vec::new(), ","), "");
}

#[test]
fn byte_lengths_are_counted_up_to_three() {
    assert_eq!(byte_len_up_to_three(""), 0);
    assert_eq!(byte_len_up_to_three("a"), 1);
    assert_eq!(byte_len_up_to_three("ä"), 2);
    assert_eq!(byte_len_up_to_three("ab"), 2);
    assert_eq!(byte_len_up_to_three("aä"), 3);
    assert_eq!(byte_len_up_to_three("€"), 3);
    assert_eq!(byte_len_up_to_three("abcd"), 3);
}

#[test]
fn white_space_is_that_of_unicode() {
    assert!(is_white_space_char(' '));
    assert!(is_white_space_char('\u{85}'));
    assert!(!is_white_space_char('a'));
    assert!(!is_white_space_char('\u{200B}'));
}

#[test]
fn messages_quote_their_value() {
    assert_eq!(quoted_message("x", "' is bad"), "'x' is bad");
}
