use voiceclip::delivery::{clipboard_text, notification_urgency, Urgency, APP_NAME};

#[test]
fn append_joins_with_one_space() {
    assert_eq!(clipboard_text(Some("foo"), "bar", true), "foo bar");
}

#[test]
fn append_to_empty_clipboard_gives_the_new_text() {
    assert_eq!(clipboard_text(Some(""), "bar", true), "bar");
}

#[test]
fn append_to_blank_clipboard_gives_the_new_text() {
    assert_eq!(clipboard_text(Some(" \n\t"), "bar", true), "bar");
}

#[test]
fn append_trims_the_existing_text() {
    assert_eq!(clipboard_text(Some("  foo \n"), "bar", true), "foo bar");
    assert_eq!(clipboard_text(Some("foo"), " bar ", true), "foo  bar ");
}

#[test]
fn append_to_unreadable_clipboard_gives_the_new_text() {
    assert_eq!(clipboard_text(None, "bar", true), "bar");
}

#[test]
fn replace_mode_ignores_the_clipboard() {
    assert_eq!(clipboard_text(Some("foo"), "bar", false), "bar");
    assert_eq!(clipboard_text(None, "bar", false), "bar");
}

#[test]
fn errors_are_critical() {
    assert_eq!(notification_urgency(true), Urgency::Critical);
    assert_eq!(notification_urgency(false), Urgency::Normal);
    assert_eq!(APP_NAME, "VoiceClip");
}
