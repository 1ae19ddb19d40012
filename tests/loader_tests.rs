use std::io::ErrorKind;

use story_loader::{load_error_from_kind, render_display, story_output, LoadError, StoryText};

#[test]
fn example_story_is_shown_under_game_start() {
    let bytes = b"Once upon a time.".to_vec();
    let out = story_output("GAME START!", Ok(bytes));
    assert_eq!(out, Ok(String::from("GAME START!\nOnce upon a time.")));
}

#[test]
fn missing_file_is_not_found_and_shows_nothing() {
    let out = story_output("X", Err(ErrorKind::NotFound));
    assert_eq!(out, Err(LoadError::NotFound));
}

#[test]
fn refused_file_is_permission_denied() {
    let out = story_output("GAME START!", Err(ErrorKind::PermissionDenied));
    assert_eq!(out, Err(LoadError::PermissionDenied));
}

#[test]
fn invalid_bytes_are_invalid_encoding() {
    let out = story_output("GAME START!", Ok(vec![0x4f, 0xff, 0xfe]));
    assert_eq!(out, Err(LoadError::InvalidEncoding));
}

#[test]
fn overlong_encoding_is_rejected() {
    let out = story_output("B", Ok(vec![0xc0, 0x80]));
    assert_eq!(out, Err(LoadError::InvalidEncoding));
}

#[test]
fn encoded_surrogate_is_rejected() {
    let out = story_output("B", Ok(vec![0xed, 0xa0, 0x80]));
    assert_eq!(out, Err(LoadError::InvalidEncoding));
}

#[test]
fn truncated_multibyte_char_is_rejected() {
    let out = story_output("B", Ok(vec![0x61, 0xe2, 0x82]));
    assert_eq!(out, Err(LoadError::InvalidEncoding));
}

#[test]
fn other_read_failures_are_io() {
    assert_eq!(story_output("B", Err(ErrorKind::TimedOut)), Err(LoadError::Io));
    assert_eq!(story_output("B", Err(ErrorKind::UnexpectedEof)), Err(LoadError::Io));
    assert_eq!(story_output("B", Err(ErrorKind::Other)), Err(LoadError::Io));
}

#[test]
fn invalid_data_read_failure_is_invalid_encoding() {
    assert_eq!(story_output("B", Err(ErrorKind::InvalidData)), Err(LoadError::InvalidEncoding));
}

#[test]
fn error_kinds_are_classified() {
    assert_eq!(load_error_from_kind(ErrorKind::NotFound), LoadError::NotFound);
    assert_eq!(load_error_from_kind(ErrorKind::PermissionDenied), LoadError::PermissionDenied);
    assert_eq!(load_error_from_kind(ErrorKind::InvalidData), LoadError::InvalidEncoding);
    assert_eq!(load_error_from_kind(ErrorKind::Interrupted), LoadError::Io);
}

#[test]
fn valid_file_output_is_banner_line_feed_and_bytes() {
    let content = "Il était une fois… 🐉\nfin";
    let bytes = content.as_bytes().to_vec();
    let out = story_output("Début", Ok(bytes.clone())).unwrap();
    let mut expected: Vec<u8> = "Début".as_bytes().to_vec();
    expected.push(0x0a);
    expected.extend_from_slice(&bytes);
    assert_eq!(out.as_bytes(), &expected[..]);
}

#[test]
fn empty_file_shows_banner_and_line_break() {
    assert_eq!(story_output("B", Ok(Vec::new())), Ok(String::from("B\n")));
}

#[test]
fn empty_banner_shows_line_break_then_text() {
    assert_eq!(story_output("", Ok(b"t".to_vec())), Ok(String::from("\nt")));
}

#[test]
fn text_with_trailing_newline_is_kept_as_is() {
    let out = story_output("With text:", Ok(b"line one\nline two\n".to_vec()));
    assert_eq!(out, Ok(String::from("With text:\nline one\nline two\n")));
}

#[test]
fn repeated_load_gives_identical_output() {
    let bytes = b"Once upon a time.".to_vec();
    let first = story_output("GAME START!", Ok(bytes.clone()));
    let second = story_output("GAME START!", Ok(bytes));
    assert_eq!(first, second);
}

#[test]
fn render_display_joins_with_line_break() {
    assert_eq!(render_display("GAME START!", "Once"), "GAME START!\nOnce");
    assert_eq!(render_display("", ""), "\n");
}

#[test]
fn story_text_decodes_non_ascii_bytes() {
    let story = StoryText::from_bytes(vec![0x63, 0x61, 0x66, 0xc3, 0xa9]).unwrap();
    assert_eq!(story.as_str(), "café");
    assert_eq!(story.display("Menu"), "Menu\ncafé");
}

#[test]
fn story_text_rejects_invalid_bytes() {
    assert!(matches!(StoryText::from_bytes(vec![0x80]), Err(LoadError::InvalidEncoding)));
}
