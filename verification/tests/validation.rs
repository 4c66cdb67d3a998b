use gitmoji_prompts::config::{
    emoji_format_default_index, emoji_format_display, emoji_format_from_index, EmojiFormat,
};
use gitmoji_prompts::emoji::Emoji;
use gitmoji_prompts::validate::{
    contains_backtick, validate_issue, validate_message, validate_scope, validate_title,
};

#[test]
fn backtick_detection() {
    assert!(contains_backtick("`"));
    assert!(contains_backtick("a`b"));
    assert!(contains_backtick("ends with `"));
    assert!(!contains_backtick(""));
    assert!(!contains_backtick("no backtick here"));
}

#[test]
fn scope_rejects_backtick_accepts_rest() {
    assert!(!validate_scope("bad`scope"));
    assert!(!validate_scope("`"));
    assert!(validate_scope("parser"));
    assert!(validate_scope(""));
}

#[test]
fn message_rejects_backtick_accepts_rest() {
    assert!(!validate_message("code `inline`"));
    assert!(validate_message("plain message"));
    assert!(validate_message(""));
}

#[test]
fn title_rejects_empty_and_backtick() {
    assert!(!validate_title(""));
    assert!(!validate_title("fix `bug`"));
    assert!(validate_title("Fix crash"));
}

#[test]
fn issue_rejects_empty_and_backtick() {
    assert!(!validate_issue(""));
    assert!(!validate_issue("#12`"));
    assert!(validate_issue("#12"));
}

#[test]
fn emoji_display_line() {
    let e = Emoji::new(
        ":bug:".to_string(),
        "Fix a bug".to_string(),
        "🐛".to_string(),
        "bug".to_string(),
    );
    assert_eq!(e.display_line(), "🐛 - Fix a bug");
}

#[test]
fn format_index_round_trip() {
    assert_eq!(emoji_format_default_index(EmojiFormat::CODE), 0);
    assert_eq!(emoji_format_default_index(EmojiFormat::EMOJI), 1);
    assert_eq!(emoji_format_from_index(0), EmojiFormat::CODE);
    assert_eq!(emoji_format_from_index(1), EmojiFormat::EMOJI);
}

#[test]
fn format_display_texts() {
    assert_eq!(emoji_format_display(EmojiFormat::CODE), ":smile:");
    assert_eq!(emoji_format_display(EmojiFormat::EMOJI), "😄");
}
