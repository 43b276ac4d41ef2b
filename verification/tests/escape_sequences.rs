use cpplumber::information_leak::escape::process_escape_sequences;

#[test]
fn information_leak_process_escape_sequences_no_escape_sequence() {
    assert_eq!(
        process_escape_sequences("hello world!").expect("Failed to escape string"),
        "hello world!"
    );
}

#[test]
fn information_leak_process_escape_sequences_invalid_escape_sequence() {
    assert!(process_escape_sequences(r"invalid\").is_none());
}

#[test]
fn information_leak_process_escape_sequences_char_escape_sequences() {
    assert_eq!(
        process_escape_sequences(r"\a\b\t\n\v\f\r\ \\").expect("Failed to escape string"),
        "\x07\x08\t\n\x0B\x0C\r \\"
    );
}

#[test]
fn information_leak_process_escape_sequences_octal_escape_sequences() {
    assert_eq!(
        process_escape_sequences(r"\0\1\2\3\4\5\6\7\10\100").expect("Failed to escape string"),
        "\x00\x01\x02\x03\x04\x05\x06\x07\x08\x40"
    );
}

#[test]
fn potential_leak_process_escape_sequences_no_escape_sequence() {
    assert_eq!(
        process_escape_sequences("hello world!").expect("Failed to escape string"),
        "hello world!"
    );
}

#[test]
fn potential_leak_process_escape_sequences_invalid_escape_sequence() {
    assert!(process_escape_sequences(r"invalid\").is_none());
}

#[test]
fn potential_leak_process_escape_sequences_char_escape_sequences() {
    assert_eq!(
        process_escape_sequences(r"\a\b\t\n\v\f\r\ \\").expect("Failed to escape string"),
        "\x07\x08\t\n\x0B\x0C\r \\"
    );
}

#[test]
fn potential_leak_process_escape_sequences_octal_escape_sequences() {
    assert_eq!(
        process_escape_sequences(r"\0\1\2\3\4\5\6\7\10\100").expect("Failed to escape string"),
        "\x00\x01\x02\x03\x04\x05\x06\x07\x08\x40"
    );
}

#[test]
fn octal_escape_stops_after_three_digits() {
    assert_eq!(process_escape_sequences(r"\1014").unwrap(), "A4");
}

#[test]
fn octal_escape_stops_at_first_other_character() {
    assert_eq!(process_escape_sequences(r"\18").unwrap(), "\x018");
    assert_eq!(process_escape_sequences(r"\101x").unwrap(), "Ax");
}

#[test]
fn octal_escape_above_255_is_an_error() {
    assert!(process_escape_sequences(r"\400").is_none());
    assert!(process_escape_sequences(r"ab\777cd").is_none());
    assert_eq!(process_escape_sequences(r"\377").unwrap(), "\u{ff}");
}

#[test]
fn escape_after_characters_beyond_ascii() {
    assert_eq!(process_escape_sequences("\u{e9}\\101").unwrap(), "\u{e9}A");
    assert_eq!(process_escape_sequences("\u{1f602}\\n!").unwrap(), "\u{1f602}\n!");
}

#[test]
fn unknown_escapes_stand_for_the_escaped_character() {
    assert_eq!(process_escape_sequences("\\\"\\'\\?\\x").unwrap(), "\"'?x");
}

#[test]
fn payload_without_backslash_is_borrowed() {
    assert!(matches!(
        process_escape_sequences("plain"),
        Some(std::borrow::Cow::Borrowed("plain"))
    ));
    assert!(matches!(
        process_escape_sequences(r"a\tb"),
        Some(std::borrow::Cow::Owned(_))
    ));
    assert_eq!(process_escape_sequences("").unwrap(), "");
}
