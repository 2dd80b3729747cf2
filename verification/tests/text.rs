use voiceclip::text::{
    char_is_whitespace, chars_of, eq_ignore_ascii_case, to_ascii_lower, to_ascii_upper, trim,
    trim_bounds, word_count,
};

#[test]
fn whitespace_is_what_std_calls_whitespace() {
    for code in 0..=0x10ffffu32 {
        if let Some(c) = char::from_u32(code) {
            assert_eq!(char_is_whitespace(c), c.is_whitespace(), "U+{:04X}", code);
        }
    }
}

#[test]
fn ascii_case_is_what_std_computes() {
    for code in 0..=0x10ffffu32 {
        if let Some(c) = char::from_u32(code) {
            assert_eq!(to_ascii_lower(c), c.to_ascii_lowercase());
            assert_eq!(to_ascii_upper(c), c.to_ascii_uppercase());
        }
    }
}

#[test]
fn word_count_of_three_words() {
    assert_eq!(word_count("hello there friend"), 3);
}

#[test]
fn word_count_of_empty_text() {
    assert_eq!(word_count(""), 0);
}

#[test]
fn word_count_matches_split_whitespace() {
    let samples = [
        " ",
        "a",
        "  a  ",
        "a\tb\nc",
        "\u{a0}x\u{2003}y\u{3000}",
        "one  two   three ",
        "\n\n",
        "caf\u{e9} na\u{ef}ve",
        "a\u{200b}b",
    ];
    for sample in samples {
        assert_eq!(word_count(sample) as usize, sample.split_whitespace().count(), "{:?}", sample);
    }
}

#[test]
fn trim_matches_std() {
    let samples = ["", " ", "foo", "  foo", "foo  ", " f o o \n", "\u{2028}x\u{85}", "\t \n", "a b"];
    for sample in samples {
        assert_eq!(trim(sample), sample.trim(), "{:?}", sample);
    }
}

#[test]
fn trim_bounds_give_the_kept_range() {
    let chars: Vec<char> = "  ab c ".chars().collect();
    assert_eq!(trim_bounds(&chars), (2, 6));
    let blank: Vec<char> = "   ".chars().collect();
    let (from, to) = trim_bounds(&blank);
    assert_eq!(from, to);
    assert_eq!(trim_bounds(&Vec::new()), (0, 0));
}

#[test]
fn chars_of_lists_every_character() {
    assert_eq!(chars_of("a\u{e9}\u{1f600}"), vec!['a', '\u{e9}', '\u{1f600}']);
    assert!(chars_of("").is_empty());
}

#[test]
fn comparison_ignores_ascii_case_only() {
    assert!(eq_ignore_ascii_case("None", "none"));
    assert!(eq_ignore_ascii_case("NONE", "nOnE"));
    assert!(eq_ignore_ascii_case("", ""));
    assert!(!eq_ignore_ascii_case("none", "non"));
    assert!(!eq_ignore_ascii_case("none", "nine"));
    assert!(!eq_ignore_ascii_case("\u{c9}", "\u{e9}"));
    assert!(!eq_ignore_ascii_case("[", "{"));
    assert!(!eq_ignore_ascii_case("@", "`"));
}
