use voiceclip::hotkey::{
    hotkey_setting, key_name_to_code, key_name_to_evdev, modifier_name_to_evdev_pair,
    parse_hotkey, parse_hotkey_evdev, split_hotkey, HotkeyMatcher, HotkeySetting, Key, Modifier,
    ParsedHotkey,
};

fn names(s: &str) -> Vec<String> {
    split_hotkey(s).into_iter().map(|piece| piece.into_iter().collect()).collect()
}

#[test]
fn default_hotkey_parses() {
    assert_eq!(
        parse_hotkey_evdev("Super+Alt+V"),
        Some(ParsedHotkey {
            modifiers: vec![Modifier::Super, Modifier::Alt],
            trigger: Key::Letter(21),
        })
    );
}

#[test]
fn names_ignore_case_and_surrounding_space() {
    assert_eq!(
        parse_hotkey_evdev(" ctrl + SHIFT +  r "),
        Some(ParsedHotkey {
            modifiers: vec![Modifier::Control, Modifier::Shift],
            trigger: Key::Letter(17),
        })
    );
    assert_eq!(
        parse_hotkey_evdev("win+meta+control+f12"),
        Some(ParsedHotkey {
            modifiers: vec![Modifier::Super, Modifier::Super, Modifier::Control],
            trigger: Key::Function(12),
        })
    );
}

#[test]
fn trigger_alone_is_a_hotkey() {
    assert_eq!(
        parse_hotkey_evdev("F5"),
        Some(ParsedHotkey { modifiers: vec![], trigger: Key::Function(5) })
    );
    assert_eq!(
        parse_hotkey_evdev("1"),
        Some(ParsedHotkey { modifiers: vec![], trigger: Key::Digit(1) })
    );
}

#[test]
fn unknown_names_give_no_hotkey() {
    for s in ["", "+", "Super+", "+V", "Super+Alt", "Hyper+V", "Super+VV", "Super++V", "F13",
        "F0", "F01", "Super+\u{e9}", "Super Alt V", "Digit1"]
    {
        assert_eq!(parse_hotkey_evdev(s), None, "{:?}", s);
    }
}

#[test]
fn key_names() {
    for (i, c) in ('A'..='Z').enumerate() {
        assert_eq!(key_name_to_evdev(&c.to_string()), Some(Key::Letter(i as u8)));
        assert_eq!(key_name_to_evdev(&c.to_ascii_lowercase().to_string()), Some(Key::Letter(i as u8)));
        assert_eq!(key_name_to_code(&c.to_string()), Some(Key::Letter(i as u8)));
    }
    for d in 0..10u8 {
        assert_eq!(key_name_to_evdev(&d.to_string()), Some(Key::Digit(d)));
        assert_eq!(key_name_to_code(&d.to_string()), Some(Key::Digit(d)));
        assert_eq!(key_name_to_code(&format!("Digit{}", d)), Some(Key::Digit(d)));
        assert_eq!(key_name_to_code(&format!("DIGIT{}", d)), Some(Key::Digit(d)));
        assert_eq!(key_name_to_evdev(&format!("Digit{}", d)), None);
    }
    for n in 1..=12u8 {
        assert_eq!(key_name_to_evdev(&format!("F{}", n)), Some(Key::Function(n)));
        assert_eq!(key_name_to_evdev(&format!("f{}", n)), Some(Key::Function(n)));
        assert_eq!(key_name_to_code(&format!("F{}", n)), Some(Key::Function(n)));
    }
    for name in ["", " ", "AA", "FF", "F13", "F20", "F1 ", "Digit", "Digit10", "Digi1", "\u{17f}",
        "[", "@", "`", "{", "/", ":"]
    {
        assert_eq!(key_name_to_evdev(name), None, "{:?}", name);
        assert_eq!(key_name_to_code(name), None, "{:?}", name);
    }
}

#[test]
fn modifier_names() {
    for name in ["super", "Super", "WIN", "meta"] {
        assert_eq!(modifier_name_to_evdev_pair(name), Some(Modifier::Super));
    }
    assert_eq!(modifier_name_to_evdev_pair("Shift"), Some(Modifier::Shift));
    assert_eq!(modifier_name_to_evdev_pair("ALT"), Some(Modifier::Alt));
    assert_eq!(modifier_name_to_evdev_pair("ctrl"), Some(Modifier::Control));
    assert_eq!(modifier_name_to_evdev_pair("Control"), Some(Modifier::Control));
    for name in ["", "cmd", "super ", "altgr", "V"] {
        assert_eq!(modifier_name_to_evdev_pair(name), None, "{:?}", name);
    }
}

#[test]
fn window_system_knows_long_digit_names() {
    assert_eq!(
        parse_hotkey("Super+Shift+Digit1"),
        Some(ParsedHotkey {
            modifiers: vec![Modifier::Super, Modifier::Shift],
            trigger: Key::Digit(1),
        })
    );
    assert_eq!(parse_hotkey_evdev("Super+Shift+Digit1"), None);
    assert_eq!(parse_hotkey("Super+Shift+1"), parse_hotkey_evdev("Super+Shift+1"));
}

#[test]
fn split_matches_std_split_and_trim() {
    for s in ["", "+", "a", "a+b", " a + b ", "++", "a+", "+a", "Super+Alt+V", " \t+x+ "] {
        let expected: Vec<String> = s.split('+').map(|p| p.trim().to_string()).collect();
        assert_eq!(names(s), expected, "{:?}", s);
    }
}

#[test]
fn setting_none_or_blank_disables() {
    for s in ["", "  ", "none", "None", " NONE \n"] {
        assert_eq!(hotkey_setting(s, false), HotkeySetting::Disabled, "{:?}", s);
        assert_eq!(hotkey_setting(s, true), HotkeySetting::Disabled, "{:?}", s);
    }
}

#[test]
fn setting_reads_the_description() {
    assert_eq!(
        hotkey_setting("  Super+Alt+V\n", false),
        HotkeySetting::Enabled(ParsedHotkey {
            modifiers: vec![Modifier::Super, Modifier::Alt],
            trigger: Key::Letter(21),
        })
    );
    assert_eq!(hotkey_setting("Super+Alt", false), HotkeySetting::Unreadable);
    assert_eq!(hotkey_setting("nones", false), HotkeySetting::Unreadable);
    assert_eq!(hotkey_setting("Alt+Digit3", false), HotkeySetting::Unreadable);
    assert_eq!(
        hotkey_setting("Alt+Digit3", true),
        HotkeySetting::Enabled(ParsedHotkey { modifiers: vec![Modifier::Alt], trigger: Key::Digit(3) })
    );
}

const LEFT_META: u16 = 125;
const RIGHT_META: u16 = 126;
const LEFT_ALT: u16 = 56;
const RIGHT_ALT: u16 = 100;
const KEY_V: u16 = 47;
const KEY_B: u16 = 48;

fn matcher() -> HotkeyMatcher {
    HotkeyMatcher::new(vec![(LEFT_META, RIGHT_META), (LEFT_ALT, RIGHT_ALT)], KEY_V)
}

#[test]
fn hotkey_fires_on_trigger_press_with_modifiers_held() {
    let mut m = matcher();
    assert!(!m.on_key_event(LEFT_META, 1));
    assert!(!m.on_key_event(RIGHT_ALT, 1));
    assert!(m.on_key_event(KEY_V, 1));
}

#[test]
fn repeat_and_release_do_not_fire() {
    let mut m = matcher();
    m.on_key_event(LEFT_META, 1);
    m.on_key_event(LEFT_ALT, 1);
    assert!(m.on_key_event(KEY_V, 1));
    assert!(!m.on_key_event(KEY_V, 2));
    assert!(!m.on_key_event(KEY_V, 0));
    assert!(m.on_key_event(KEY_V, 1));
}

#[test]
fn missing_modifier_does_not_fire() {
    let mut m = matcher();
    m.on_key_event(LEFT_META, 1);
    assert!(!m.on_key_event(KEY_V, 1));
    m.on_key_event(KEY_V, 0);
    m.on_key_event(LEFT_ALT, 1);
    m.on_key_event(LEFT_META, 0);
    assert!(!m.on_key_event(KEY_V, 1));
    m.on_key_event(KEY_V, 0);
    m.on_key_event(RIGHT_META, 1);
    assert!(m.on_key_event(KEY_V, 1));
}

#[test]
fn other_keys_do_not_fire() {
    let mut m = matcher();
    m.on_key_event(LEFT_META, 1);
    m.on_key_event(LEFT_ALT, 1);
    assert!(!m.on_key_event(KEY_B, 1));
    m.on_key_event(KEY_V, 1);
    // The trigger is held; pressing a modifier again is no trigger press.
    assert!(!m.on_key_event(RIGHT_ALT, 1));
}

#[test]
fn hotkey_without_modifiers_fires_on_every_press() {
    let mut m = HotkeyMatcher::new(vec![], KEY_V);
    assert!(m.on_key_event(KEY_V, 1));
    assert!(!m.on_key_event(KEY_V, 0));
    assert!(!m.on_key_event(KEY_B, 1));
    assert!(m.on_key_event(KEY_V, 1));
}

#[test]
fn parsed_keys_exist() {
    assert!(Key::Letter(25).is_valid());
    assert!(!Key::Letter(26).is_valid());
    assert!(Key::Digit(9).is_valid());
    assert!(!Key::Digit(10).is_valid());
    assert!(Key::Function(1).is_valid());
    assert!(Key::Function(12).is_valid());
    assert!(!Key::Function(0).is_valid());
    assert!(!Key::Function(13).is_valid());
    for s in ["Super+Alt+V", "F12", "ctrl+9"] {
        assert!(parse_hotkey_evdev(s).unwrap().trigger.is_valid());
    }
}
