//! Character classes and the small text routines the rest of the library
//! is built on: white space, trimming, word counting and ASCII case.

use vstd::prelude::*;

verus! {

/// Whether `c` carries the Unicode `White_Space` property.
pub open spec fn is_whitespace(c: char) -> bool {
    ||| c == ' '
    ||| '\u{9}' <= c <= '\u{d}'
    ||| c == '\u{85}'
    ||| c == '\u{a0}'
    ||| c == '\u{1680}'
    ||| '\u{2000}' <= c <= '\u{200a}'
    ||| c == '\u{2028}'
    ||| c == '\u{2029}'
    ||| c == '\u{202f}'
    ||| c == '\u{205f}'
    ||| c == '\u{3000}'
}

/// Decides whether `c` is white space.
pub fn char_is_whitespace(c: char) -> (b: bool)
    ensures
        b == is_whitespace(c),
{
    c == ' ' || ('\u{9}' <= c && c <= '\u{d}') || c == '\u{85}' || c == '\u{a0}' || c == '\u{1680}'
        || ('\u{2000}' <= c && c <= '\u{200a}') || c == '\u{2028}' || c == '\u{2029}' || c
        == '\u{202f}' || c == '\u{205f}' || c == '\u{3000}'
}

/// `c` with an ASCII capital letter replaced by its small letter.
pub open spec fn ascii_lower(c: char) -> char {
    if 'A' <= c <= 'Z' {
        ((c as u8) + 32) as char
    } else {
        c
    }
}

/// `c` with an ASCII small letter replaced by its capital letter.
pub open spec fn ascii_upper(c: char) -> char {
    if 'a' <= c <= 'z' {
        ((c as u8) - 32) as char
    } else {
        c
    }
}

/// Lowers one character, ASCII letters only.
pub fn to_ascii_lower(c: char) -> (r: char)
    ensures
        r == ascii_lower(c),
{
    if 'A' <= c && c <= 'Z' {
        let b: u8 = c as u8;
        (b + 32) as char
    } else {
        c
    }
}

/// Raises one character, ASCII letters only.
pub fn to_ascii_upper(c: char) -> (r: char)
    ensures
        r == ascii_upper(c),
{
    if 'a' <= c && c <= 'z' {
        let b: u8 = c as u8;
        (b - 32) as char
    } else {
        c
    }
}

/// The characters of `s`, one element each.
pub fn chars_of(s: &str) -> (v: Vec<char>)
    ensures
        v@ == s@,
{
    let mut v: Vec<char> = Vec::new();
    for c in it: s.chars()
        invariant
            it.seq() == s@,
            v@ == s@.take(it.index()),
    {
        v.push(c);
    }
    v
}

/// `s` without its leading and trailing white space.
pub open spec fn trimmed(s: Seq<char>) -> Seq<char>
    decreases s.len(),
{
    if s.len() == 0 {
        s
    } else if is_whitespace(s.first()) {
        trimmed(s.drop_first())
    } else if is_whitespace(s.last()) {
        trimmed(s.drop_last())
    } else {
        s
    }
}

/// Whether `s` holds nothing but white space.
pub open spec fn is_blank(s: Seq<char>) -> bool {
    forall|i: int| 0 <= i < s.len() ==> is_whitespace(#[trigger] s[i])
}

/// Whether `[from, to)` is `s` with exactly its surrounding white space cut off.
pub open spec fn bounds_of_trimmed(s: Seq<char>, from: int, to: int) -> bool {
    &&& 0 <= from <= to <= s.len()
    &&& forall|i: int| 0 <= i < from ==> is_whitespace(#[trigger] s[i])
    &&& forall|i: int| to <= i < s.len() ==> is_whitespace(#[trigger] s[i])
    &&& from < to ==> !is_whitespace(s[from]) && !is_whitespace(s[to - 1])
}

/// A range that cuts off exactly the surrounding white space is the trimmed text.
pub proof fn lemma_trimmed_by_bounds(s: Seq<char>, from: int, to: int)
    requires
        bounds_of_trimmed(s, from, to),
    ensures
        trimmed(s) == s.subrange(from, to),
    decreases s.len(),
{
    if s.len() == 0 {
        assert(s.subrange(from, to) =~= s);
    } else if is_whitespace(s.first()) {
        let rest = s.drop_first();
        if from == 0 {
            assert(to == 0);
            assert forall|i: int| 0 <= i < rest.len() implies is_whitespace(#[trigger] rest[i]) by {
                assert(rest[i] == s[i + 1]);
            }
            lemma_trimmed_by_bounds(rest, 0, 0);
            assert(rest.subrange(0, 0) =~= s.subrange(from, to));
        } else {
            assert forall|i: int| 0 <= i < from - 1 implies is_whitespace(#[trigger] rest[i]) by {
                assert(rest[i] == s[i + 1]);
            }
            assert forall|i: int| to - 1 <= i < rest.len() implies is_whitespace(
                #[trigger] rest[i],
            ) by {
                assert(rest[i] == s[i + 1]);
            }
            lemma_trimmed_by_bounds(rest, from - 1, to - 1);
            assert(rest.subrange(from - 1, to - 1) =~= s.subrange(from, to));
        }
    } else if is_whitespace(s.last()) {
        let rest = s.drop_last();
        assert(from == 0) by {
            if from > 0 {
                assert(is_whitespace(s[0]));
            }
        }
        assert(to < s.len()) by {
            if to == s.len() {
                assert(from < to);
            }
        }
        assert forall|i: int| to <= i < rest.len() implies is_whitespace(#[trigger] rest[i]) by {
            assert(rest[i] == s[i]);
        }
        lemma_trimmed_by_bounds(rest, from, to);
        assert(rest.subrange(from, to) =~= s.subrange(from, to));
    } else {
        assert(from == 0) by {
            if from > 0 {
                assert(is_whitespace(s[0]));
            }
        }
        assert(to == s.len()) by {
            if to < s.len() {
                assert(is_whitespace(s[s.len() - 1]));
            }
        }
        assert(s.subrange(from, to) =~= s);
    }
}

/// Trimmed text has no white space at either end.
pub proof fn lemma_trimmed_ends(s: Seq<char>)
    ensures
        trimmed(s).len() <= s.len(),
        trimmed(s).len() > 0 ==> !is_whitespace(trimmed(s).first()) && !is_whitespace(
            trimmed(s).last(),
        ),
        is_blank(s) <==> trimmed(s).len() == 0,
    decreases s.len(),
{
    if s.len() == 0 {
    } else if is_whitespace(s.first()) {
        let rest = s.drop_first();
        lemma_trimmed_ends(rest);
        if is_blank(s) {
            assert forall|i: int| 0 <= i < rest.len() implies is_whitespace(#[trigger] rest[i]) by {
                assert(rest[i] == s[i + 1]);
            }
        }
        if is_blank(rest) {
            assert forall|i: int| 0 <= i < s.len() implies is_whitespace(#[trigger] s[i]) by {
                if i > 0 {
                    assert(s[i] == rest[i - 1]);
                }
            }
        }
    } else if is_whitespace(s.last()) {
        lemma_trimmed_ends(s.drop_last());
        assert(!is_whitespace(s[0]));
        assert(s.drop_last()[0] == s[0]);
        assert(!is_blank(s.drop_last()));
    } else {
        assert(!is_whitespace(s[0]));
    }
}

/// The range of `v` that is left when the surrounding white space is cut off.
pub fn trim_bounds(v: &Vec<char>) -> (r: (usize, usize))
    ensures
        bounds_of_trimmed(v@, r.0 as int, r.1 as int),
        v@.subrange(r.0 as int, r.1 as int) == trimmed(v@),
{
    let mut from: usize = 0;
    while from < v.len() && char_is_whitespace(v[from])
        invariant
            from <= v.len(),
            forall|i: int| 0 <= i < from ==> is_whitespace(#[trigger] v@[i]),
        decreases v.len() - from,
    {
        from += 1;
    }
    let mut to: usize = v.len();
    while to > from && char_is_whitespace(v[to - 1])
        invariant
            from <= to <= v.len(),
            forall|i: int| to <= i < v.len() ==> is_whitespace(#[trigger] v@[i]),
        decreases to,
    {
        to -= 1;
    }
    proof {
        lemma_trimmed_by_bounds(v@, from as int, to as int);
    }
    (from, to)
}

/// Cuts the leading and trailing white space off `s`.
pub fn trim(s: &str) -> (r: &str)
    ensures
        r@ == trimmed(s@),
{
    let v = chars_of(s);
    let (from, to) = trim_bounds(&v);
    s.substring_char(from, to)
}

/// Whether a word starts at position `i` of `s`: a character that is not
/// white space, at the start of the text or after white space.
pub open spec fn starts_word(s: Seq<char>, i: int) -> bool {
    !is_whitespace(s[i]) && (i == 0 || is_whitespace(s[i - 1]))
}

/// The number of words in `s`, a word being a longest run of characters
/// that are not white space.
pub open spec fn count_words(s: Seq<char>) -> nat
    decreases s.len(),
{
    if s.len() == 0 {
        0
    } else {
        count_words(s.drop_last()) + if starts_word(s, s.len() - 1) {
            1nat
        } else {
            0nat
        }
    }
}

/// A text has at most as many words as characters, and a text of nothing
/// but white space, the empty text among them, has no words.
pub proof fn lemma_count_words_bound(s: Seq<char>)
    ensures
        count_words(s) <= s.len(),
        is_blank(s) ==> count_words(s) == 0,
    decreases s.len(),
{
    if s.len() > 0 {
        lemma_count_words_bound(s.drop_last());
        if is_blank(s) {
            assert(is_whitespace(s[s.len() - 1]));
            assert forall|i: int| 0 <= i < s.drop_last().len() implies is_whitespace(
                #[trigger] s.drop_last()[i],
            ) by {
                assert(s.drop_last()[i] == s[i]);
            }
        }
    }
}

/// A text without white space that is not empty is one word.
pub proof fn lemma_single_word(s: Seq<char>)
    requires
        s.len() > 0,
        forall|i: int| 0 <= i < s.len() ==> !is_whitespace(#[trigger] s[i]),
    ensures
        count_words(s) == 1,
    decreases s.len(),
{
    if s.len() > 1 {
        assert forall|i: int| 0 <= i < s.drop_last().len() implies !is_whitespace(
            #[trigger] s.drop_last()[i],
        ) by {
            assert(s.drop_last()[i] == s[i]);
        }
        lemma_single_word(s.drop_last());
        assert(!is_whitespace(s[s.len() - 2]));
    } else {
        assert(!is_whitespace(s[0]));
        assert(count_words(s.drop_last()) == 0);
    }
}

/// Words are what white space separates: the words of two texts joined by
/// a white space character are the words of the one and the words of the
/// other.
pub proof fn lemma_words_add_up(a: Seq<char>, space: char, b: Seq<char>)
    requires
        is_whitespace(space),
    ensures
        count_words(a.push(space) + b) == count_words(a) + count_words(b),
    decreases b.len(),
{
    let head = a.push(space);
    if b.len() == 0 {
        assert(head + b =~= head);
        assert(head.drop_last() =~= a);
    } else {
        let all = head + b;
        assert(all.drop_last() =~= head + b.drop_last());
        lemma_words_add_up(a, space, b.drop_last());
        assert(all[all.len() - 1] == b[b.len() - 1]);
        if b.len() == 1 {
            assert(all[all.len() - 2] == space);
        } else {
            assert(all[all.len() - 2] == b[b.len() - 2]);
        }
    }
}

/// Counts the words of `s`, split at white space. The count is kept in 32
/// bits: a count beyond that range is reduced modulo two to the power of 32.
pub fn word_count(s: &str) -> (n: u32)
    ensures
        n == count_words(s@) % 0x1_0000_0000,
        count_words(s@) <= u32::MAX ==> n == count_words(s@),
{
    let v = chars_of(s);
    let mut words: usize = 0;
    let mut after_space = true;
    let mut i: usize = 0;
    while i < v.len()
        invariant
            i <= v.len(),
            words == count_words(v@.take(i as int)),
            words <= i,
            after_space == (i == 0 || is_whitespace(v@[i - 1])),
        decreases v.len() - i,
    {
        let space = char_is_whitespace(v[i]);
        proof {
            let next = v@.take(i + 1);
            assert(next.drop_last() =~= v@.take(i as int));
            assert(next[i as int] == v@[i as int]);
            if i > 0 {
                assert(next[i - 1] == v@[i - 1]);
            }
        }
        if !space && after_space {
            words += 1;
        }
        after_space = space;
        i += 1;
    }
    proof {
        assert(v@.take(i as int) =~= v@);
    }
    let wide: u64 = words as u64;
    let low: u64 = wide % 0x1_0000_0000u64;
    proof {
        if wide <= u32::MAX {
            vstd::arithmetic::div_mod::lemma_small_mod(wide as nat, 0x1_0000_0000nat);
        }
    }
    low as u32
}

/// Whether `a` and `b` are the same text once ASCII letters are lowered.
pub open spec fn same_ignoring_ascii_case(a: Seq<char>, b: Seq<char>) -> bool {
    &&& a.len() == b.len()
    &&& forall|i: int| 0 <= i < a.len() ==> ascii_lower(#[trigger] a[i]) == ascii_lower(b[i])
}

/// Compares two texts without regard to the case of ASCII letters.
pub fn chars_eq_ignore_ascii_case(a: &Vec<char>, b: &Vec<char>) -> (same: bool)
    ensures
        same == same_ignoring_ascii_case(a@, b@),
{
    if a.len() != b.len() {
        return false;
    }
    let mut i: usize = 0;
    while i < a.len()
        invariant
            i <= a.len(),
            a.len() == b.len(),
            forall|j: int| 0 <= j < i ==> ascii_lower(#[trigger] a@[j]) == ascii_lower(b@[j]),
        decreases a.len() - i,
    {
        if to_ascii_lower(a[i]) != to_ascii_lower(b[i]) {
            return false;
        }
        i += 1;
    }
    true
}

/// Compares two strings without regard to the case of ASCII letters.
pub fn eq_ignore_ascii_case(a: &str, b: &str) -> (same: bool)
    ensures
        same == same_ignoring_ascii_case(a@, b@),
{
    let x = chars_of(a);
    let y = chars_of(b);
    chars_eq_ignore_ascii_case(&x, &y)
}

} // verus!
