//! Session records and the clock readings they are assembled from.

use vstd::prelude::*;

verus! {

/// The outcome of one recording session, as it is handed to the session store.
#[derive(Debug, Clone, PartialEq, Eq)]
pub struct SessionRecord {
    /// Seconds since the Unix epoch at which recording started.
    pub started_at: i64,
    pub duration_secs: u32,
    pub word_count: u32,
    pub model_used: String,
    /// Empty when the session failed.
    pub transcription: String,
    pub latency_ms: u32,
    pub error: Option<String>,
}

/// Mathematical value of a [`SessionRecord`].
pub struct SessionRecordView {
    pub started_at: int,
    pub duration_secs: nat,
    pub word_count: nat,
    pub model_used: Seq<char>,
    pub transcription: Seq<char>,
    pub latency_ms: nat,
    pub error: Option<Seq<char>>,
}

/// The characters of an optional string.
pub open spec fn option_text(s: Option<String>) -> Option<Seq<char>> {
    match s {
        Some(t) => Some(t@),
        None => None,
    }
}

impl View for SessionRecord {
    type V = SessionRecordView;

    open spec fn view(&self) -> SessionRecordView {
        SessionRecordView {
            started_at: self.started_at as int,
            duration_secs: self.duration_secs as nat,
            word_count: self.word_count as nat,
            model_used: self.model_used@,
            transcription: self.transcription@,
            latency_ms: self.latency_ms as nat,
            error: option_text(self.error),
        }
    }
}

/// One stored session, as the session store hands it back for display.
#[derive(Debug, Clone, PartialEq, Eq)]
pub struct SessionRow {
    pub id: i64,
    pub started_at: i64,
    pub duration_secs: u32,
    pub word_count: u32,
    pub transcription: String,
    pub latency_ms: u32,
    pub error: Option<String>,
}

/// Two to the power of 32: the number of values of a 32-bit counter.
pub open spec fn counter_range() -> int {
    0x1_0000_0000
}

/// Seconds between two clock readings, as a 32-bit counter holds them:
/// the difference reduced modulo two to the power of 32.
pub open spec fn elapsed_secs(started_at: int, now: int) -> int {
    (now - started_at) % counter_range()
}

/// Milliseconds of a measured interval, as a 32-bit counter holds them.
pub open spec fn latency_of(elapsed_ms: int) -> int {
    elapsed_ms % counter_range()
}

/// The timestamp that stands for a reading of the clock. `None` is a clock
/// set before the epoch and reads as zero; seconds beyond the signed range
/// wrap around.
pub open spec fn timestamp_of(reading: Option<u64>) -> int {
    match reading {
        None => 0,
        Some(secs) => if secs <= i64::MAX {
            secs as int
        } else {
            secs - 0x1_0000_0000_0000_0000
        },
    }
}

/// Duration of a session that started at `started_at` and ended at `now`.
pub fn session_duration(started_at: i64, now: i64) -> (secs: u32)
    ensures
        secs == elapsed_secs(started_at as int, now as int),
        0 <= now - started_at <= u32::MAX ==> secs == now - started_at,
{
    let diff: i128 = now as i128 - started_at as i128;
    if diff >= 0 {
        let r: i128 = diff % 0x1_0000_0000i128;
        assert(0 <= now - started_at <= u32::MAX ==> r == diff) by {
            if 0 <= diff <= u32::MAX {
                vstd::arithmetic::div_mod::lemma_small_mod(diff as nat, 0x1_0000_0000nat);
            }
        }
        r as u32
    } else {
        let back: i128 = (-diff) % 0x1_0000_0000i128;
        proof {
            lemma_mod_of_negation(diff as int, back as int);
        }
        if back == 0 {
            0
        } else {
            (0x1_0000_0000i128 - back) as u32
        }
    }
}

/// For a negative `d`, the remainder of `d` follows from the remainder of `-d`.
proof fn lemma_mod_of_negation(d: int, back: int)
    requires
        d < 0,
        back == (-d) % counter_range(),
    ensures
        d % counter_range() == (if back == 0 { 0 } else { counter_range() - back }),
{
    let m = counter_range();
    let q = (-d) / m;
    vstd::arithmetic::div_mod::lemma_fundamental_div_mod(-d, m);
    assert(-d == m * q + back);
    if back == 0 {
        assert(d == m * (-q)) by (nonlinear_arith)
            requires -d == m * q + back, back == 0;
        vstd::arithmetic::div_mod::lemma_mod_multiples_basic(-q, m);
    } else {
        assert(d == m * (-q - 1) + (m - back)) by (nonlinear_arith)
            requires -d == m * q + back;
        vstd::arithmetic::div_mod::lemma_fundamental_div_mod_converse(d, m, -q - 1, m - back);
    }
}

/// Latency of a transcription that took `elapsed_ms` milliseconds.
pub fn latency_from_millis(elapsed_ms: u128) -> (ms: u32)
    ensures
        ms == latency_of(elapsed_ms as int),
        elapsed_ms <= u32::MAX ==> ms == elapsed_ms,
{
    let r: u128 = elapsed_ms % 0x1_0000_0000u128;
    assert(elapsed_ms <= u32::MAX ==> r == elapsed_ms) by {
        if elapsed_ms <= u32::MAX {
            vstd::arithmetic::div_mod::lemma_small_mod(elapsed_ms as nat, 0x1_0000_0000nat);
        }
    }
    r as u32
}

/// Turns a reading of the clock into a timestamp.
pub fn timestamp_from_reading(reading: Option<u64>) -> (ts: i64)
    ensures
        ts == timestamp_of(reading),
{
    match reading {
        None => 0,
        Some(secs) => {
            if secs <= 0x7fff_ffff_ffff_ffffu64 {
                secs as i64
            } else {
                let high: u64 = secs - 0x8000_0000_0000_0000u64;
                let h: i64 = high as i64;
                h + i64::MIN
            }
        },
    }
}

/// Reads the system clock with `std::time::SystemTime::elapsed` on
/// `UNIX_EPOCH`: whole seconds since the epoch, or `None` where the clock is
/// set before it. Nothing is claimed of the value: it depends on when the
/// call is made.
#[verifier::external_body]
fn seconds_since_epoch() -> Option<u64> {
    match std::time::UNIX_EPOCH.elapsed() {
        Ok(elapsed) => Some(elapsed.as_secs()),
        Err(_) => None,
    }
}

/// The current time in seconds since the Unix epoch.
///
/// The result is [`timestamp_from_reading`] of one reading of the clock.
/// Which reading, only the moment of the call decides, so nothing is
/// promised of the value here.
pub fn current_timestamp() -> i64 {
    timestamp_from_reading(seconds_since_epoch())
}

} // verus!
