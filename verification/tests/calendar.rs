use voiceclip::calendar::days_to_date;
use voiceclip::session::SessionRow;
use voiceclip::stats::{
    format_timestamp, push_decimal, push_zero_padded, session_headline, total_recordings_label,
};

fn leap(year: i64) -> bool {
    year % 4 == 0 && (year % 100 != 0 || year % 400 == 0)
}

fn month_length(year: i64, month: i64) -> i64 {
    match month {
        2 => {
            if leap(year) {
                29
            } else {
                28
            }
        }
        4 | 6 | 9 | 11 => 30,
        _ => 31,
    }
}

#[test]
fn epoch_is_first_of_january_1970() {
    assert_eq!(days_to_date(0), (1970, 1, 1));
}

#[test]
fn known_dates() {
    assert_eq!(days_to_date(-1), (1969, 12, 31));
    assert_eq!(days_to_date(59), (1970, 3, 1));
    assert_eq!(days_to_date(11016), (2000, 2, 29));
    assert_eq!(days_to_date(11017), (2000, 3, 1));
    assert_eq!(days_to_date(19723), (2024, 1, 1));
    assert_eq!(days_to_date(19782), (2024, 2, 29));
    assert_eq!(days_to_date(47540), (2100, 2, 28));
    assert_eq!(days_to_date(47541), (2100, 3, 1));
    assert_eq!(days_to_date(-719468), (0, 3, 1));
    assert_eq!(days_to_date(-719528), (0, 1, 1));
    assert_eq!(days_to_date(-719529), (-1, 12, 31));
}

#[test]
fn consecutive_days_walk_through_the_calendar() {
    let (mut year, mut month, mut day) = (1600i64, 1i64, 1i64);
    let first = -135140;
    assert_eq!(days_to_date(first), (year, month, day));
    for n in first..first + 400 * 366 {
        assert_eq!(days_to_date(n), (year, month, day), "day {}", n);
        day += 1;
        if day > month_length(year, month) {
            day = 1;
            month += 1;
            if month > 12 {
                month = 1;
                year += 1;
            }
        }
    }
}

#[test]
fn extreme_days_are_dates() {
    for n in [i64::MIN, i64::MIN + 1, i64::MAX - 1, i64::MAX] {
        let (year, month, day) = days_to_date(n);
        assert!((1..=12).contains(&month));
        assert!(1 <= day && day <= month_length(year, month));
    }
}

#[test]
fn timestamps_are_written_as_date_and_time() {
    assert_eq!(format_timestamp(0), "1970-01-01 00:00:00");
    assert_eq!(format_timestamp(1_700_000_000), "2023-11-14 22:13:20");
    assert_eq!(format_timestamp(951_868_799), "2000-02-29 23:59:59");
    assert_eq!(format_timestamp(253_402_300_800), "10000-01-01 00:00:00");
}

#[test]
fn timestamps_before_the_epoch_keep_truncated_fields() {
    assert_eq!(format_timestamp(-1), "1970-01-01 00:00:-1");
    assert_eq!(format_timestamp(-86_400), "1969-12-31 00:00:00");
    assert_eq!(format_timestamp(-90_061), "1969-12-31 -1:-1:-1");
}

#[test]
fn timestamps_match_the_field_formula() {
    for ts in [0i64, 59, 60, 3599, 3600, 86_399, 86_400, 1_234_567_890, -59, -3601, i64::MAX, i64::MIN] {
        let (year, month, day) = days_to_date(ts / 86_400);
        let expected = format!(
            "{:04}-{:02}-{:02} {:02}:{:02}:{:02}",
            year,
            month,
            day,
            (ts / 3600) % 24,
            (ts / 60) % 60,
            ts % 60
        );
        assert_eq!(format_timestamp(ts), expected, "{}", ts);
    }
}

#[test]
fn zero_padding_matches_the_standard_format() {
    for value in [0i64, 5, -5, 42, -42, 999, 1000, -999, -1000, 12345, i64::MAX, i64::MIN] {
        for width in [0usize, 1, 2, 4, 7] {
            let mut out = String::from("x");
            push_zero_padded(&mut out, value, width);
            assert_eq!(out, format!("x{:0width$}", value, width = width));
        }
    }
}

#[test]
fn decimal_digits() {
    for n in [0u64, 7, 10, 99, 100, 1_000_000, u64::MAX] {
        let mut out = String::from("n=");
        push_decimal(&mut out, n);
        assert_eq!(out, format!("n={}", n));
    }
}

#[test]
fn headline_lists_the_figures_of_a_session() {
    let row = SessionRow {
        id: 9,
        started_at: 1_700_000_000,
        duration_secs: 12,
        word_count: 3,
        transcription: "hello there friend".to_string(),
        latency_ms: 1234,
        error: None,
    };
    assert_eq!(session_headline(&row), "2023-11-14 22:13:20 | 12s | 3 words | 1234ms latency");
    assert_eq!(total_recordings_label(0), "Total Recordings\n0");
    assert_eq!(total_recordings_label(17), "Total Recordings\n17");
}
