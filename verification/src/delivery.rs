//! What is handed to the delivery sinks: the clipboard and the desktop
//! notification.

use vstd::prelude::*;
use vstd::string::StringExecFns;
use crate::text::{chars_of, lemma_trimmed_ends, trim_bounds, trimmed};

verus! {

/// The application name under which notifications are shown.
pub const APP_NAME: &'static str = "VoiceClip";

/// The text that ends up on the clipboard.
///
/// In append mode, where the clipboard could be read and holds more than
/// white space, the new text follows the trimmed clipboard text after one
/// space. In every other case the new text replaces what was there.
pub open spec fn clipboard_content(
    current: Option<Seq<char>>,
    text: Seq<char>,
    append_mode: bool,
) -> Seq<char> {
    match current {
        Some(existing) if append_mode && trimmed(existing).len() > 0 => trimmed(existing)
            + seq![' '] + text,
        _ => text,
    }
}

/// Computes the text to write to the clipboard. `current` is what the
/// clipboard holds now, `None` where it could not be read.
pub fn clipboard_text(current: Option<&str>, text: &str, append_mode: bool) -> (content: String)
    ensures
        content@ == clipboard_content(
            match current {
                Some(existing) => Some(existing@),
                None => None,
            },
            text@,
            append_mode,
        ),
{
    if append_mode {
        if let Some(existing) = current {
            let chars = chars_of(existing);
            let (from, to) = trim_bounds(&chars);
            if from < to {
                let kept = existing.substring_char(from, to);
                let mut content = String::from_str(kept);
                content.append(" ");
                content.append(text);
                proof {
                    reveal_strlit(" ");
                    assert(" "@ =~= seq![' ']);
                }
                return content;
            }
        }
    }
    String::from_str(text)
}

/// In append mode, a clipboard that holds only white space counts as
/// empty, and new text is never joined to white space: the content starts
/// with the new text or with a character that is not white space.
pub proof fn lemma_clipboard_content(current: Option<Seq<char>>, text: Seq<char>, append_mode: bool)
    ensures
        !append_mode ==> clipboard_content(current, text, append_mode) == text,
        current is None ==> clipboard_content(current, text, append_mode) == text,
        current matches Some(existing) && crate::text::is_blank(existing) ==> clipboard_content(
            current,
            text,
            append_mode,
        ) == text,
        clipboard_content(current, text, append_mode).len() >= text.len(),
        clipboard_content(current, text, append_mode).skip(
            clipboard_content(current, text, append_mode).len() - text.len(),
        ) == text,
{
    let content = clipboard_content(current, text, append_mode);
    if let Some(existing) = current {
        lemma_trimmed_ends(existing);
    }
    assert(content.skip(content.len() - text.len()) =~= text);
}

/// How urgent a notification is.
#[derive(Debug, Clone, Copy, PartialEq, Eq, Structural)]
pub enum Urgency {
    Normal,
    Critical,
}

/// An error notification is critical, every other one normal.
pub fn notification_urgency(is_error: bool) -> (urgency: Urgency)
    ensures
        urgency == (if is_error {
            Urgency::Critical
        } else {
            Urgency::Normal
        }),
{
    if is_error {
        Urgency::Critical
    } else {
        Urgency::Normal
    }
}

} // verus!
