//! The global hotkey: reading its description from the configuration, and
//! recognising it in a stream of key events.
//!
//! A hotkey is written as names joined by `+`, such as `Super+Alt+V`: any
//! number of modifiers, then one trigger key. Names are matched without
//! regard to ASCII case and to surrounding white space.

use vstd::prelude::*;
use std::collections::HashSet;
use crate::text::{
    ascii_upper, chars_eq_ignore_ascii_case, chars_of, same_ignoring_ascii_case, to_ascii_upper,
    trim_bounds, trimmed,
};

verus! {

broadcast use vstd::std_specs::hash::group_hash_axioms;

/// A key that can trigger the hotkey.
#[derive(Debug, Clone, Copy, PartialEq, Eq, Structural)]
pub enum Key {
    /// A letter key: 0 for `A` up to 25 for `Z`.
    Letter(u8),
    /// A digit key of the main block: 0 to 9.
    Digit(u8),
    /// A function key: 1 for `F1` up to 12 for `F12`.
    Function(u8),
}

impl Key {
    /// Whether the key exists.
    pub open spec fn valid(self) -> bool {
        match self {
            Key::Letter(n) => n < 26,
            Key::Digit(n) => n < 10,
            Key::Function(n) => 1 <= n <= 12,
        }
    }

    /// Decides whether the key exists.
    pub fn is_valid(self) -> (valid: bool)
        ensures
            valid == self.valid(),
    {
        match self {
            Key::Letter(n) => n < 26,
            Key::Digit(n) => n < 10,
            Key::Function(n) => 1 <= n && n <= 12,
        }
    }
}

/// A modifier of the hotkey. Either of the two keys that carry the
/// modifier, the left and the right one, satisfies it.
#[derive(Debug, Clone, Copy, PartialEq, Eq, Structural)]
pub enum Modifier {
    Super,
    Shift,
    Alt,
    Control,
}

/// `s` with every ASCII small letter replaced by its capital letter.
pub open spec fn uppercased(s: Seq<char>) -> Seq<char> {
    s.map_values(|c: char| ascii_upper(c))
}

/// The key that an upper-case name stands for: `A` to `Z`, `0` to `9`,
/// `F1` to `F12`.
pub open spec fn plain_key(upper: Seq<char>) -> Option<Key> {
    if upper.len() == 1 && 'A' <= upper[0] <= 'Z' {
        Some(Key::Letter((upper[0] as int - 0x41) as u8))
    } else if upper.len() == 1 && '0' <= upper[0] <= '9' {
        Some(Key::Digit((upper[0] as int - 0x30) as u8))
    } else if upper.len() == 2 && upper[0] == 'F' && '1' <= upper[1] <= '9' {
        Some(Key::Function((upper[1] as int - 0x30) as u8))
    } else if upper.len() == 3 && upper[0] == 'F' && upper[1] == '1' && '0' <= upper[2] <= '2' {
        Some(Key::Function((upper[2] as int - 0x30 + 10) as u8))
    } else {
        None
    }
}

/// The digit key that a long upper-case name stands for: `DIGIT0` to `DIGIT9`.
pub open spec fn long_digit_key(upper: Seq<char>) -> Option<Key> {
    if upper.len() == 6 && upper.take(5) == "DIGIT"@ && '0' <= upper[5] <= '9' {
        Some(Key::Digit((upper[5] as int - 0x30) as u8))
    } else {
        None
    }
}

/// The key that `name` stands for. The long digit names count only where
/// `long_digits` says so.
pub open spec fn key_named(name: Seq<char>, long_digits: bool) -> Option<Key> {
    match plain_key(uppercased(name)) {
        Some(key) => Some(key),
        None => if long_digits {
            long_digit_key(uppercased(name))
        } else {
            None
        },
    }
}

/// The modifier that `name` stands for.
pub open spec fn modifier_named(name: Seq<char>) -> Option<Modifier> {
    if same_ignoring_ascii_case(name, "super"@) || same_ignoring_ascii_case(name, "win"@)
        || same_ignoring_ascii_case(name, "meta"@) {
        Some(Modifier::Super)
    } else if same_ignoring_ascii_case(name, "shift"@) {
        Some(Modifier::Shift)
    } else if same_ignoring_ascii_case(name, "alt"@) {
        Some(Modifier::Alt)
    } else if same_ignoring_ascii_case(name, "ctrl"@) || same_ignoring_ascii_case(
        name,
        "control"@,
    ) {
        Some(Modifier::Control)
    } else {
        None
    }
}

/// The pieces of `s` between the occurrences of `sep`. There is always at
/// least one piece; a piece may be empty.
pub open spec fn split(s: Seq<char>, sep: char) -> Seq<Seq<char>>
    decreases s.len(),
{
    if s.len() == 0 {
        seq![Seq::empty()]
    } else if s.last() == sep {
        split(s.drop_last(), sep).push(Seq::empty())
    } else {
        let before = split(s.drop_last(), sep);
        before.drop_last().push(before.last().push(s.last()))
    }
}

/// Every piece of a split is free of the separator, and the pieces joined
/// by the separator give the text back.
pub proof fn lemma_split(s: Seq<char>, sep: char)
    ensures
        split(s, sep).len() >= 1,
        forall|i: int, j: int|
            0 <= i < split(s, sep).len() && 0 <= j < split(s, sep)[i].len() ==> split(
                s,
                sep,
            )[i][j] != sep,
        joined(split(s, sep), sep) == s,
    decreases s.len(),
{
    if s.len() == 0 {
        assert(split(s, sep).drop_last() =~= Seq::<Seq<char>>::empty());
        assert(joined(split(s, sep), sep) =~= s);
    } else {
        lemma_split(s.drop_last(), sep);
        let before = split(s.drop_last(), sep);
        if s.last() == sep {
            assert(split(s, sep).drop_last() =~= before);
            assert(joined(split(s, sep), sep) =~= s);
        } else {
            let now = split(s, sep);
            assert(now.drop_last() =~= before.drop_last());
            assert(now.last() == before.last().push(s.last()));
            assert(s =~= s.drop_last().push(s.last()));
            if before.len() == 1 {
                assert(joined(now, sep) =~= s);
            } else {
                let head = joined(before.drop_last(), sep).push(sep);
                assert(joined(before, sep) == head + before.last());
                assert(joined(now, sep) == head + before.last().push(s.last()));
                assert(head + before.last().push(s.last()) =~= (head + before.last()).push(
                    s.last(),
                ));
            }
        }
    }
}

/// The pieces joined by the separator.
pub open spec fn joined(pieces: Seq<Seq<char>>, sep: char) -> Seq<char>
    decreases pieces.len(),
{
    if pieces.len() == 0 {
        Seq::empty()
    } else if pieces.len() == 1 {
        pieces.last()
    } else {
        joined(pieces.drop_last(), sep).push(sep) + pieces.last()
    }
}

/// A hotkey: the modifiers in the order in which they were written, and
/// the trigger key.
#[derive(Debug, Clone, PartialEq, Eq)]
pub struct ParsedHotkey {
    pub modifiers: Vec<Modifier>,
    pub trigger: Key,
}

/// Mathematical value of a [`ParsedHotkey`].
pub struct ParsedHotkeyView {
    pub modifiers: Seq<Modifier>,
    pub trigger: Key,
}

impl View for ParsedHotkey {
    type V = ParsedHotkeyView;

    open spec fn view(&self) -> ParsedHotkeyView {
        ParsedHotkeyView { modifiers: self.modifiers@, trigger: self.trigger }
    }
}

/// The modifiers that a list of names stands for, if each name is one.
pub open spec fn modifiers_named(names: Seq<Seq<char>>) -> Option<Seq<Modifier>>
    decreases names.len(),
{
    if names.len() == 0 {
        Some(Seq::empty())
    } else {
        match (modifiers_named(names.drop_last()), modifier_named(names.last())) {
            (Some(before), Some(modifier)) => Some(before.push(modifier)),
            _ => None,
        }
    }
}

/// Each piece without its surrounding white space.
pub open spec fn trimmed_each(pieces: Seq<Seq<char>>) -> Seq<Seq<char>> {
    Seq::new(pieces.len(), |i: int| trimmed(pieces[i]))
}

/// The trimmed pieces of a hotkey description.
pub open spec fn hotkey_names(s: Seq<char>) -> Seq<Seq<char>> {
    trimmed_each(split(s, '+'))
}

/// The hotkey that `s` describes: the last name is the trigger key, every
/// name before it a modifier. There is none if any name is unknown.
pub open spec fn hotkey_described(s: Seq<char>, long_digits: bool) -> Option<ParsedHotkeyView> {
    let names = hotkey_names(s);
    match (key_named(names.last(), long_digits), modifiers_named(names.drop_last())) {
        (Some(trigger), Some(modifiers)) => Some(ParsedHotkeyView { modifiers, trigger }),
        _ => None,
    }
}

fn uppercase(name: &Vec<char>) -> (upper: Vec<char>)
    ensures
        upper@ == uppercased(name@),
{
    let mut upper: Vec<char> = Vec::new();
    let mut i: usize = 0;
    while i < name.len()
        invariant
            i <= name.len(),
            upper@ == uppercased(name@.take(i as int)),
        decreases name.len() - i,
    {
        upper.push(to_ascii_upper(name[i]));
        proof {
            assert(upper@ =~= uppercased(name@.take(i + 1)));
        }
        i += 1;
    }
    proof {
        assert(name@.take(i as int) =~= name@);
    }
    upper
}

fn digit_value(c: char) -> (n: u8)
    requires
        '0' <= c <= '9',
    ensures
        n == c as int - 0x30,
        n < 10,
{
    let code: u8 = c as u8;
    code - 0x30
}

fn key_from_name(name: &Vec<char>, long_digits: bool) -> (key: Option<Key>)
    ensures
        key == key_named(name@, long_digits),
        key matches Some(k) ==> k.valid(),
{
    let upper = uppercase(name);
    let n = upper.len();
    if n == 1 && 'A' <= upper[0] && upper[0] <= 'Z' {
        let code: u8 = upper[0] as u8;
        Some(Key::Letter(code - 0x41))
    } else if n == 1 && '0' <= upper[0] && upper[0] <= '9' {
        Some(Key::Digit(digit_value(upper[0])))
    } else if n == 2 && upper[0] == 'F' && '1' <= upper[1] && upper[1] <= '9' {
        Some(Key::Function(digit_value(upper[1])))
    } else if n == 3 && upper[0] == 'F' && upper[1] == '1' && '0' <= upper[2] && upper[2] <= '2' {
        Some(Key::Function(digit_value(upper[2]) + 10))
    } else if long_digits && n == 6 && upper[0] == 'D' && upper[1] == 'I' && upper[2] == 'G'
        && upper[3] == 'I' && upper[4] == 'T' && '0' <= upper[5] && upper[5] <= '9' {
        proof {
            reveal_strlit("DIGIT");
            assert(upper@.take(5) =~= "DIGIT"@);
        }
        Some(Key::Digit(digit_value(upper[5])))
    } else {
        proof {
            reveal_strlit("DIGIT");
            if n == 6 && upper@.take(5) == "DIGIT"@ {
                assert(upper@.take(5)[0] == 'D');
                assert(upper@.take(5)[1] == 'I');
                assert(upper@.take(5)[2] == 'G');
                assert(upper@.take(5)[3] == 'I');
                assert(upper@.take(5)[4] == 'T');
            }
        }
        None
    }
}

fn name_is(name: &Vec<char>, word: &str) -> (same: bool)
    ensures
        same == same_ignoring_ascii_case(name@, word@),
{
    let letters = chars_of(word);
    chars_eq_ignore_ascii_case(name, &letters)
}

fn modifier_from_name(name: &Vec<char>) -> (modifier: Option<Modifier>)
    ensures
        modifier == modifier_named(name@),
{
    if name_is(name, "super") || name_is(name, "win") || name_is(name, "meta") {
        Some(Modifier::Super)
    } else if name_is(name, "shift") {
        Some(Modifier::Shift)
    } else if name_is(name, "alt") {
        Some(Modifier::Alt)
    } else if name_is(name, "ctrl") || name_is(name, "control") {
        Some(Modifier::Control)
    } else {
        None
    }
}

/// The characters of each piece of a list.
pub open spec fn pieces(list: Seq<Vec<char>>) -> Seq<Seq<char>> {
    Seq::new(list.len(), |i: int| list[i]@)
}

fn trimmed_copy(piece: &Vec<char>) -> (copy: Vec<char>)
    ensures
        copy@ == trimmed(piece@),
{
    let (from, to) = trim_bounds(piece);
    let mut copy: Vec<char> = Vec::new();
    let mut i: usize = from;
    while i < to
        invariant
            from <= i <= to <= piece.len(),
            copy@ == piece@.subrange(from as int, i as int),
        decreases to - i,
    {
        copy.push(piece[i]);
        proof {
            assert(copy@ =~= piece@.subrange(from as int, i + 1));
        }
        i += 1;
    }
    copy
}

/// Splits a hotkey description at `+` and trims each piece.
pub fn split_hotkey(s: &str) -> (names: Vec<Vec<char>>)
    ensures
        pieces(names@) == hotkey_names(s@),
        names.len() >= 1,
{
    let chars = chars_of(s);
    let mut names: Vec<Vec<char>> = Vec::new();
    let mut current: Vec<char> = Vec::new();
    let mut i: usize = 0;
    proof {
        assert(split(chars@.take(0), '+').len() == 1);
        assert(pieces(names@) =~= trimmed_each(split(chars@.take(0), '+').drop_last()));
        assert(current@ =~= split(chars@.take(0), '+').last());
    }
    while i < chars.len()
        invariant
            i <= chars.len(),
            split(chars@.take(i as int), '+').len() == names.len() + 1,
            pieces(names@) == trimmed_each(split(chars@.take(i as int), '+').drop_last()),
            current@ == split(chars@.take(i as int), '+').last(),
        decreases chars.len() - i,
    {
        let c = chars[i];
        proof {
            assert(chars@.take(i + 1).drop_last() =~= chars@.take(i as int));
            assert(chars@.take(i + 1).last() == c);
        }
        let ghost before = split(chars@.take(i as int), '+');
        let ghost after = split(chars@.take(i + 1), '+');
        proof {
            lemma_split(chars@.take(i as int), '+');
        }
        let ghost old_names = names@;
        if c == '+' {
            let done = trimmed_copy(&current);
            names.push(done);
            current = Vec::new();
            proof {
                assert(after == before.push(Seq::empty()));
                assert(after.drop_last() =~= before);
                assert forall|k: int| 0 <= k < before.len() implies pieces(names@)[k] == trimmed(
                    before[k],
                ) by {
                    if k < before.len() - 1 {
                        assert(pieces(names@)[k] == pieces(old_names)[k]);
                        assert(before.drop_last()[k] == before[k]);
                    }
                }
                assert(pieces(names@) =~= trimmed_each(after.drop_last()));
            }
        } else {
            current.push(c);
            proof {
                assert(after == before.drop_last().push(before.last().push(c)));
                assert(after.drop_last() =~= before.drop_last());
            }
        }
        i += 1;
    }
    proof {
        assert(chars@.take(i as int) =~= chars@);
    }
    let ghost all = split(s@, '+');
    let ghost finished = names@;
    let last = trimmed_copy(&current);
    names.push(last);
    proof {
        assert forall|k: int| 0 <= k < all.len() implies pieces(names@)[k] == trimmed(all[k]) by {
            if k < all.len() - 1 {
                assert(pieces(names@)[k] == pieces(finished)[k]);
                assert(all.drop_last()[k] == all[k]);
            }
        }
        assert(pieces(names@) =~= hotkey_names(s@));
    }
    names
}

fn parse(s: &str, long_digits: bool) -> (hotkey: Option<ParsedHotkey>)
    ensures
        (match hotkey {
            Some(parsed) => Some(parsed@),
            None => None,
        }) == hotkey_described(s@, long_digits),
        hotkey matches Some(parsed) ==> parsed.trigger.valid(),
{
    let names = split_hotkey(s);
    let count = names.len();
    let ghost all = hotkey_names(s@);
    proof {
        assert(all.last() == names@[count - 1]@);
    }
    let trigger = match key_from_name(&names[count - 1], long_digits) {
        Some(key) => key,
        None => {
            return None;
        },
    };
    let mut modifiers: Vec<Modifier> = Vec::new();
    let mut i: usize = 0;
    while i < count - 1
        invariant
            i <= count - 1,
            count == names.len(),
            pieces(names@) == all,
            all == hotkey_names(s@),
            key_named(all.last(), long_digits) == Some(trigger),
            trigger.valid(),
            modifiers_named(all.drop_last().take(i as int)) == Some(modifiers@),
        decreases count - i,
    {
        proof {
            assert(all.drop_last().take(i + 1).drop_last() =~= all.drop_last().take(i as int));
            assert(all[i as int] == names@[i as int]@);
            assert(all.drop_last()[i as int] == names@[i as int]@);
            assert(all.drop_last().take(i + 1).last() == names@[i as int]@);
        }
        match modifier_from_name(&names[i]) {
            Some(modifier) => {
                modifiers.push(modifier);
            },
            None => {
                proof {
                    lemma_unknown_modifier(all.drop_last(), i as int);
                }
                return None;
            },
        }
        i += 1;
    }
    proof {
        assert(all.drop_last().take(i as int) =~= all.drop_last());
    }
    Some(ParsedHotkey { modifiers, trigger })
}

proof fn lemma_unknown_modifier(names: Seq<Seq<char>>, i: int)
    requires
        0 <= i < names.len(),
        modifier_named(names[i]) is None,
    ensures
        modifiers_named(names) is None,
    decreases names.len(),
{
    if i < names.len() - 1 {
        lemma_unknown_modifier(names.drop_last(), i);
    }
}

/// Reads a hotkey description for the key-event listener.
///
/// Returns the hotkey exactly where the last name is one of `A` to `Z`,
/// `0` to `9`, `F1` to `F12` and every name before it is a modifier
/// (`super`, `win`, `meta`, `shift`, `alt`, `ctrl`, `control`).
pub fn parse_hotkey_evdev(s: &str) -> (hotkey: Option<ParsedHotkey>)
    ensures
        (match hotkey {
            Some(parsed) => Some(parsed@),
            None => None,
        }) == hotkey_described(s@, false),
        hotkey matches Some(parsed) ==> parsed.trigger.valid(),
{
    parse(s, false)
}

/// Reads a hotkey description for the hotkey manager of the window
/// system, which knows the digit keys also as `DIGIT0` to `DIGIT9`.
pub fn parse_hotkey(s: &str) -> (hotkey: Option<ParsedHotkey>)
    ensures
        (match hotkey {
            Some(parsed) => Some(parsed@),
            None => None,
        }) == hotkey_described(s@, true),
        hotkey matches Some(parsed) ==> parsed.trigger.valid(),
{
    parse(s, true)
}

/// The key that `name` stands for to the key-event listener.
pub fn key_name_to_evdev(name: &str) -> (key: Option<Key>)
    ensures
        key == key_named(name@, false),
        key matches Some(k) ==> k.valid(),
{
    let chars = chars_of(name);
    key_from_name(&chars, false)
}

/// The key that `name` stands for to the hotkey manager of the window system.
pub fn key_name_to_code(name: &str) -> (key: Option<Key>)
    ensures
        key == key_named(name@, true),
        key matches Some(k) ==> k.valid(),
{
    let chars = chars_of(name);
    key_from_name(&chars, true)
}

/// The modifier that `name` stands for.
pub fn modifier_name_to_evdev_pair(name: &str) -> (modifier: Option<Modifier>)
    ensures
        modifier == modifier_named(name@),
{
    let chars = chars_of(name);
    modifier_from_name(&chars)
}

/// What the configuration says about the hotkey.
#[derive(Debug, Clone, PartialEq, Eq)]
pub enum HotkeySetting {
    /// The user has switched the hotkey off.
    Disabled,
    /// The description names no hotkey. The hotkey stays off.
    Unreadable,
    Enabled(ParsedHotkey),
}

/// Mathematical value of a [`HotkeySetting`].
pub enum HotkeySettingView {
    Disabled,
    Unreadable,
    Enabled(ParsedHotkeyView),
}

impl View for HotkeySetting {
    type V = HotkeySettingView;

    open spec fn view(&self) -> HotkeySettingView {
        match self {
            HotkeySetting::Disabled => HotkeySettingView::Disabled,
            HotkeySetting::Unreadable => HotkeySettingView::Unreadable,
            HotkeySetting::Enabled(hotkey) => HotkeySettingView::Enabled(hotkey@),
        }
    }
}

/// The meaning of the configured hotkey text: nothing but white space, or
/// the word `none` in any case, switches the hotkey off; anything else is
/// read as a hotkey description.
pub open spec fn hotkey_configured(configured: Seq<char>, long_digits: bool) -> HotkeySettingView {
    let description = trimmed(configured);
    if description.len() == 0 || same_ignoring_ascii_case(description, "none"@) {
        HotkeySettingView::Disabled
    } else {
        match hotkey_described(description, long_digits) {
            Some(hotkey) => HotkeySettingView::Enabled(hotkey),
            None => HotkeySettingView::Unreadable,
        }
    }
}

/// Reads the configured hotkey text.
pub fn hotkey_setting(configured: &str, long_digits: bool) -> (setting: HotkeySetting)
    ensures
        setting@ == hotkey_configured(configured@, long_digits),
        setting matches HotkeySetting::Enabled(hotkey) ==> hotkey.trigger.valid(),
{
    let description = crate::text::trim(configured);
    if description.is_empty() || crate::text::eq_ignore_ascii_case(description, "none") {
        HotkeySetting::Disabled
    } else {
        match parse(description, long_digits) {
            Some(hotkey) => HotkeySetting::Enabled(hotkey),
            None => HotkeySetting::Unreadable,
        }
    }
}

/// The value of a key event that reports a key going down.
pub const KEY_PRESSED: i32 = 1;

/// The value of a key event that reports a key going up.
pub const KEY_RELEASED: i32 = 0;

/// Mathematical value of a [`HotkeyMatcher`].
pub struct MatcherView {
    /// For each modifier the codes of its two keys.
    pub modifiers: Seq<(u16, u16)>,
    /// The code of the trigger key.
    pub trigger: u16,
    /// The codes of the keys that are down.
    pub pressed: Set<u16>,
}

/// The keys that are down after a key event: a press adds the key, a
/// release removes it, any other event (a repeat) changes nothing.
pub open spec fn pressed_after(pressed: Set<u16>, code: u16, value: i32) -> Set<u16> {
    if value == KEY_PRESSED {
        pressed.insert(code)
    } else if value == KEY_RELEASED {
        pressed.remove(code)
    } else {
        pressed
    }
}

/// Whether for every modifier one of its two keys is down.
pub open spec fn modifiers_held(modifiers: Seq<(u16, u16)>, pressed: Set<u16>) -> bool {
    forall|i: int|
        0 <= i < modifiers.len() ==> pressed.contains((#[trigger] modifiers[i]).0)
            || pressed.contains(modifiers[i].1)
}

/// Whether a key event completes the hotkey: it is the press of the trigger
/// key while every modifier is held.
pub open spec fn completes_hotkey(m: MatcherView, code: u16, value: i32) -> bool {
    value == KEY_PRESSED && code == m.trigger && modifiers_held(
        m.modifiers,
        pressed_after(m.pressed, code, value),
    )
}

/// Follows the keys of one input device and recognises the hotkey.
pub struct HotkeyMatcher {
    modifiers: Vec<(u16, u16)>,
    trigger: u16,
    pressed: HashSet<u16>,
}

impl View for HotkeyMatcher {
    type V = MatcherView;

    closed spec fn view(&self) -> MatcherView {
        MatcherView { modifiers: self.modifiers@, trigger: self.trigger, pressed: self.pressed@ }
    }
}

impl HotkeyMatcher {
    /// A matcher for the hotkey with these key codes, no key being down.
    pub fn new(modifiers: Vec<(u16, u16)>, trigger: u16) -> (matcher: HotkeyMatcher)
        ensures
            matcher@ == (MatcherView { modifiers: modifiers@, trigger, pressed: Set::empty() }),
    {
        HotkeyMatcher { modifiers, trigger, pressed: HashSet::new() }
    }

    /// Takes the next key event of the device and says whether it completes
    /// the hotkey, in which case a toggle signal is due.
    pub fn on_key_event(&mut self, code: u16, value: i32) -> (toggle: bool)
        ensures
            final(self)@ == (MatcherView {
                pressed: pressed_after(old(self)@.pressed, code, value),
                ..old(self)@
            }),
            toggle == completes_hotkey(old(self)@, code, value),
    {
        if value == KEY_PRESSED {
            self.pressed.insert(code);
        } else if value == KEY_RELEASED {
            self.pressed.remove(&code);
        }
        let mut held = true;
        let mut i: usize = 0;
        while i < self.modifiers.len()
            invariant
                i <= self.modifiers.len(),
                held == modifiers_held(self.modifiers@.take(i as int), self.pressed@),
            decreases self.modifiers.len() - i,
        {
            let pair = self.modifiers[i];
            let down = self.pressed.contains(&pair.0) || self.pressed.contains(&pair.1);
            proof {
                let before = self.modifiers@.take(i as int);
                let now = self.modifiers@.take(i + 1);
                assert(now[i as int] == pair);
                assert forall|k: int| 0 <= k < before.len() implies before[k] == now[k] by {}
                if held && down {
                    assert forall|k: int| 0 <= k < now.len() implies self.pressed@.contains(
                        (#[trigger] now[k]).0,
                    ) || self.pressed@.contains(now[k].1) by {
                        if k < i {
                            assert(before[k] == now[k]);
                        }
                    }
                } else if !held {
                    let k = choose|k: int|
                        0 <= k < before.len() && !(self.pressed@.contains(
                            (#[trigger] before[k]).0,
                        ) || self.pressed@.contains(before[k].1));
                    assert(now[k] == before[k]);
                }
            }
            held = held && down;
            i += 1;
        }
        proof {
            assert(self.modifiers@.take(i as int) =~= self.modifiers@);
        }
        held && value == KEY_PRESSED && code == self.trigger
    }
}

/// A release never completes the hotkey, nor does the press of any key but
/// the trigger; and the trigger key counts as down once it is pressed.
pub proof fn lemma_hotkey_needs_trigger_press(m: MatcherView, code: u16, value: i32)
    ensures
        completes_hotkey(m, code, value) ==> value == KEY_PRESSED && code == m.trigger
            && pressed_after(m.pressed, code, value).contains(m.trigger),
        m.modifiers.len() == 0 ==> (completes_hotkey(m, code, value) <==> value == KEY_PRESSED
            && code == m.trigger),
{
}

} // verus!
