use voiceclip::config::{save_status, Config, SaveOutcome, DEFAULT_BADGE_OPACITY_BITS};

#[test]
fn default_configuration() {
    let config = Config::default();
    assert_eq!(config.model_name, "base.en");
    assert_eq!(config.hotkey, "Super+Alt+V");
    assert_eq!(f32::from_bits(config.badge_opacity_bits), 0.8f32);
    assert_eq!(config.badge_opacity_bits, DEFAULT_BADGE_OPACITY_BITS);
    assert_eq!(config.max_recording_duration, 120);
    assert!(!config.append_mode);
    assert_eq!(config.microphone, None);
    assert!(config.always_on_top);
    assert_eq!(config.badge_x, None);
    assert_eq!(config.badge_y, None);
}

#[test]
fn badge_position_is_recorded() {
    let mut config = Config::default();
    config.set_badge_position(-40, 512);
    let mut expected = Config::default();
    expected.badge_x = Some(-40);
    expected.badge_y = Some(512);
    assert_eq!(config, expected);
}

#[test]
fn hotkey_is_replaced() {
    let mut config = Config::default();
    config.set_hotkey("Ctrl+Shift+R".to_string());
    let mut expected = Config::default();
    expected.hotkey = "Ctrl+Shift+R".to_string();
    assert_eq!(config, expected);
}

#[test]
fn settings_report_names_the_failure() {
    assert_eq!(save_status(&SaveOutcome::Saved), "Saved! Restart VoiceClip to apply.");
    assert_eq!(
        save_status(&SaveOutcome::SaveFailed("disk full".to_string())),
        "Error saving: disk full"
    );
    assert_eq!(
        save_status(&SaveOutcome::LoadFailed("bad file".to_string())),
        "Error loading config: bad file"
    );
}
