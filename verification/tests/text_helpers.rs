use calendar_cli::text::{char_to_byte, num_chars};

#[test]
fn char_to_byte_counts_bytes_before_a_character() {
    assert_eq!(char_to_byte("hello", 0), 0);
    assert_eq!(char_to_byte("hello", 3), 3);
    assert_eq!(char_to_byte("héllo", 2), 3);
    assert_eq!(char_to_byte("שלום", 1), 2);
}

#[test]
fn char_to_byte_past_the_end_is_the_length() {
    assert_eq!(char_to_byte("hello", 5), 5);
    assert_eq!(char_to_byte("hello", 99), 5);
    assert_eq!(char_to_byte("שלום", 4), 8);
    assert_eq!(char_to_byte("", 0), 0);
}

#[test]
fn num_chars_counts_characters_not_bytes() {
    assert_eq!(num_chars(""), 0);
    assert_eq!(num_chars("abc"), 3);
    assert_eq!(num_chars("שלום"), 4);
    assert_eq!(num_chars("a😀b"), 3);
}

#[test]
fn byte_offsets_grow_with_the_character_index() {
    let s = "aשb😀c";
    let offsets: Vec<usize> = (0..7).map(|i| char_to_byte(s, i)).collect();
    assert_eq!(offsets, vec![0, 1, 3, 4, 8, 9, 9]);
}

#[test]
fn a_text_splits_at_a_character_index() {
    assert_eq!(calendar_cli::text::cursor_parts("aשb", 1), ("a".to_string(), Some('ש'), "b".to_string()));
    assert_eq!(calendar_cli::text::cursor_parts("ab", 0), (String::new(), Some('a'), "b".to_string()));
    assert_eq!(calendar_cli::text::cursor_parts("ab", 2), ("ab".to_string(), None, String::new()));
    assert_eq!(calendar_cli::text::cursor_parts("ab", 9), ("ab".to_string(), None, String::new()));
}
