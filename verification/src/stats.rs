//! Texts of the statistics window: how a stored session is shown.

use vstd::prelude::*;
use vstd::string::StringExecFns;
use crate::calendar::{date_of_day, days_to_date};
use crate::session::{option_text, SessionRow};

verus! {

/// The number of characters of a transcript or an error that a row shows.
pub const ROW_TEXT_LIMIT: usize = 80;

/// The number of sessions that the statistics window lists.
pub const RECENT_SESSIONS_LIMIT: u32 = 50;

/// `s` cut to its first `max_chars` characters, with three dots in place of
/// what was cut. A text that is short enough stays as it is.
pub open spec fn truncated(s: Seq<char>, max_chars: nat) -> Seq<char> {
    if s.len() <= max_chars {
        s
    } else {
        s.take(max_chars as int) + "..."@
    }
}

/// Cuts `s` to at most `max_chars` characters and marks the cut.
pub fn truncate_str(s: &str, max_chars: usize) -> (short: String)
    ensures
        short@ == truncated(s@, max_chars as nat),
{
    let length = s.unicode_len();
    if length <= max_chars {
        String::from_str(s)
    } else {
        let head = s.substring_char(0, max_chars);
        String::from_str(head).concat("...")
    }
}

/// The text below the headline of a row: the error of a failed session
/// after the words `Error: `, else the transcript; either cut to
/// [`ROW_TEXT_LIMIT`] characters.
pub open spec fn row_text(transcription: Seq<char>, error: Option<Seq<char>>) -> Seq<char> {
    match error {
        Some(description) => "Error: "@ + truncated(description, ROW_TEXT_LIMIT as nat),
        None => truncated(transcription, ROW_TEXT_LIMIT as nat),
    }
}

/// The text below the headline of the row of `session`.
pub fn session_body(session: &SessionRow) -> (body: String)
    ensures
        body@ == row_text(session.transcription@, option_text(session.error)),
{
    match &session.error {
        Some(description) => {
            let short = truncate_str(description.as_str(), ROW_TEXT_LIMIT);
            String::from_str("Error: ").concat(short.as_str())
        },
        None => truncate_str(session.transcription.as_str(), ROW_TEXT_LIMIT),
    }
}

/// Whether the row of `session` is shown as a failure.
pub fn session_failed(session: &SessionRow) -> (failed: bool)
    ensures
        failed == session.error.is_some(),
{
    session.error.is_some()
}

/// The character of a decimal digit.
pub open spec fn digit_char(digit: int) -> char {
    (0x30 + digit) as char
}

/// The decimal digits of `n`, without leading zeros.
pub open spec fn decimal(n: nat) -> Seq<char>
    decreases n,
{
    if n < 10 {
        seq![digit_char(n as int)]
    } else {
        decimal(n / 10).push(digit_char((n % 10) as int))
    }
}

/// `count` zeros.
pub open spec fn zeros(count: int) -> Seq<char> {
    Seq::new(
        if count > 0 {
            count as nat
        } else {
            0
        },
        |i: int| '0',
    )
}

/// The decimal form of `value`, filled with zeros after the sign up to
/// `width` characters. A longer number is not cut.
pub open spec fn zero_padded(value: int, width: int) -> Seq<char> {
    if value < 0 {
        seq!['-'] + zeros(width - 1 - decimal((-value) as nat).len()) + decimal((-value) as nat)
    } else {
        zeros(width - decimal(value as nat).len()) + decimal(value as nat)
    }
}

/// The quotient of a division that rounds toward zero.
pub open spec fn quotient_toward_zero(a: int, b: int) -> int {
    if a >= 0 {
        a / b
    } else {
        -((-a) / b)
    }
}

/// The remainder of a division that rounds toward zero. It has the sign
/// of `a`.
pub open spec fn remainder_toward_zero(a: int, b: int) -> int {
    a - b * quotient_toward_zero(a, b)
}

/// A timestamp as date and time of day, in the form `2024-05-17 08:03:59`.
///
/// Days, hours, minutes and seconds are split off by divisions that round
/// toward zero, so for a time before 1970 the fields of the time of day
/// are zero or negative.
pub open spec fn timestamp_text(ts: int) -> Seq<char> {
    let date = date_of_day(quotient_toward_zero(ts, 86400));
    zero_padded(date.0, 4) + seq!['-'] + zero_padded(date.1, 2) + seq!['-'] + zero_padded(
        date.2,
        2,
    ) + seq![' '] + zero_padded(remainder_toward_zero(quotient_toward_zero(ts, 3600), 24), 2)
        + seq![':'] + zero_padded(remainder_toward_zero(quotient_toward_zero(ts, 60), 60), 2)
        + seq![':'] + zero_padded(remainder_toward_zero(ts, 60), 2)
}

fn digit_text(digit: u64) -> (text: &'static str)
    requires
        digit < 10,
    ensures
        text@ == seq![digit_char(digit as int)],
{
    proof {
        reveal_strlit("0");
        reveal_strlit("1");
        reveal_strlit("2");
        reveal_strlit("3");
        reveal_strlit("4");
        reveal_strlit("5");
        reveal_strlit("6");
        reveal_strlit("7");
        reveal_strlit("8");
        reveal_strlit("9");
    }
    let text = if digit == 0 {
        "0"
    } else if digit == 1 {
        "1"
    } else if digit == 2 {
        "2"
    } else if digit == 3 {
        "3"
    } else if digit == 4 {
        "4"
    } else if digit == 5 {
        "5"
    } else if digit == 6 {
        "6"
    } else if digit == 7 {
        "7"
    } else if digit == 8 {
        "8"
    } else {
        "9"
    };
    assert(text@ =~= seq![digit_char(digit as int)]);
    text
}

/// Appends the decimal digits of `n` to `out`.
pub fn push_decimal(out: &mut String, n: u64)
    ensures
        final(out)@ == old(out)@ + decimal(n as nat),
    decreases n,
{
    if n >= 10 {
        push_decimal(out, n / 10);
    }
    out.append(digit_text(n % 10));
    proof {
        if n >= 10 {
            assert(final(out)@ =~= old(out)@ + decimal(n as nat));
        } else {
            assert(final(out)@ =~= old(out)@ + decimal(n as nat));
        }
    }
}

fn decimal_len(n: u64) -> (len: usize)
    ensures
        len == decimal(n as nat).len(),
        1 <= len <= 20,
{
    let mut len: usize = 1;
    let mut rest: u64 = n;
    proof {
        lemma_decimal_len(n as nat);
    }
    while rest >= 10
        invariant
            1 <= len,
            decimal(n as nat).len() <= 20,
            len + decimal(rest as nat).len() == decimal(n as nat).len() + 1,
            decimal(rest as nat).len() >= 1,
        decreases rest,
    {
        rest = rest / 10;
        len += 1;
    }
    len
}

proof fn lemma_decimal_len(n: nat)
    ensures
        decimal(n).len() >= 1,
        n < 10 ==> decimal(n).len() == 1,
        n <= u64::MAX ==> decimal(n).len() <= 20,
{
    reveal_with_fuel(decimal, 22);
}

/// Appends `value` to `out`, filled with zeros after the sign up to
/// `width` characters.
pub fn push_zero_padded(out: &mut String, value: i64, width: usize)
    ensures
        final(out)@ == old(out)@ + zero_padded(value as int, width as int),
{
    let magnitude: u64 = if value < 0 {
        (-(value as i128)) as u64
    } else {
        value as u64
    };
    let mut used: usize = decimal_len(magnitude);
    if value < 0 {
        out.append("-");
        used += 1;
        proof {
            reveal_strlit("-");
            assert("-"@ =~= seq!['-']);
        }
    }
    let ghost signed = out@;
    let ghost fill = width - used;
    let mut filled: usize = used;
    while filled < width
        invariant
            used <= filled,
            used <= width ==> filled <= width,
            used > width ==> filled == used,
            out@ == signed + zeros(filled - used),
        decreases width - filled,
    {
        out.append("0");
        proof {
            reveal_strlit("0");
            assert("0"@ =~= seq!['0']);
            assert(out@ =~= signed + zeros(filled + 1 - used));
        }
        filled += 1;
    }
    proof {
        if used <= width {
            assert(filled - used == fill);
        } else {
            assert(filled == used);
            assert(zeros(0) =~= zeros(fill));
        }
    }
    push_decimal(out, magnitude);
    proof {
        assert(final(out)@ =~= old(out)@ + zero_padded(value as int, width as int));
    }
}

/// Writes a timestamp as date and time of day.
pub fn format_timestamp(ts: i64) -> (text: String)
    ensures
        text@ == timestamp_text(ts as int),
{
    let secs = ts % 60;
    let mins = (ts / 60) % 60;
    let hours = (ts / 3600) % 24;
    let days = ts / 86400;
    let (year, month, day) = days_to_date(days);
    let mut text = String::new();
    push_zero_padded(&mut text, year, 4);
    text.append("-");
    push_zero_padded(&mut text, month, 2);
    text.append("-");
    push_zero_padded(&mut text, day, 2);
    text.append(" ");
    push_zero_padded(&mut text, hours, 2);
    text.append(":");
    push_zero_padded(&mut text, mins, 2);
    text.append(":");
    push_zero_padded(&mut text, secs, 2);
    proof {
        reveal_strlit("-");
        reveal_strlit(" ");
        reveal_strlit(":");
        assert("-"@ =~= seq!['-']);
        assert(" "@ =~= seq![' ']);
        assert(":"@ =~= seq![':']);
        assert(days == quotient_toward_zero(ts as int, 86400));
        assert(secs == remainder_toward_zero(ts as int, 60));
        assert(mins == remainder_toward_zero(quotient_toward_zero(ts as int, 60), 60));
        assert(hours == remainder_toward_zero(quotient_toward_zero(ts as int, 3600), 24));
        assert(text@ =~= timestamp_text(ts as int));
    }
    text
}

/// The headline of a row: when the session started, how long it lasted,
/// how many words it gave and how long the transcription took.
pub open spec fn row_headline(
    started_at: int,
    duration_secs: nat,
    word_count: nat,
    latency_ms: nat,
) -> Seq<char> {
    timestamp_text(started_at) + " | "@ + decimal(duration_secs) + "s | "@ + decimal(word_count)
        + " words | "@ + decimal(latency_ms) + "ms latency"@
}

/// The headline of the row of `session`.
pub fn session_headline(session: &SessionRow) -> (headline: String)
    ensures
        headline@ == row_headline(
            session.started_at as int,
            session.duration_secs as nat,
            session.word_count as nat,
            session.latency_ms as nat,
        ),
{
    let mut headline = format_timestamp(session.started_at);
    headline.append(" | ");
    push_decimal(&mut headline, session.duration_secs as u64);
    headline.append("s | ");
    push_decimal(&mut headline, session.word_count as u64);
    headline.append(" words | ");
    push_decimal(&mut headline, session.latency_ms as u64);
    headline.append("ms latency");
    headline
}

/// The label of the number of recordings in the summary.
pub fn total_recordings_label(total_recordings: u32) -> (label: String)
    ensures
        label@ == "Total Recordings\n"@ + decimal(total_recordings as nat),
{
    let mut label = String::from_str("Total Recordings\n");
    push_decimal(&mut label, total_recordings as u64);
    label
}

} // verus!
