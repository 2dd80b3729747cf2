use voiceclip::badge::{
    all_badge_states, click_action, BadgeState, ClickAction, MouseButton, BADGE_RESET_DELAY_SECS,
};

#[test]
fn badge_names() {
    assert_eq!(BadgeState::Idle.name(), "idle");
    assert_eq!(BadgeState::Recording.name(), "recording");
    assert_eq!(BadgeState::Processing.name(), "processing");
    assert_eq!(BadgeState::Success.name(), "success");
    assert_eq!(BadgeState::Error.name(), "error");
}

#[test]
fn pulses_decay() {
    assert!(BadgeState::Success.is_pulse());
    assert!(BadgeState::Error.is_pulse());
    assert!(!BadgeState::Idle.is_pulse());
    assert!(!BadgeState::Recording.is_pulse());
    assert!(!BadgeState::Processing.is_pulse());
    assert_eq!(BADGE_RESET_DELAY_SECS, 3);
}

#[test]
fn all_states_in_order() {
    assert_eq!(
        all_badge_states(),
        vec![
            BadgeState::Idle,
            BadgeState::Recording,
            BadgeState::Processing,
            BadgeState::Success,
            BadgeState::Error
        ]
    );
}

#[test]
fn single_clicks_act() {
    assert_eq!(click_action(1, MouseButton::Primary), ClickAction::Toggle);
    assert_eq!(click_action(1, MouseButton::Secondary), ClickAction::ShowMenu);
    assert_eq!(click_action(1, MouseButton::Other), ClickAction::Nothing);
    assert_eq!(click_action(2, MouseButton::Primary), ClickAction::Nothing);
    assert_eq!(click_action(0, MouseButton::Secondary), ClickAction::Nothing);
    assert_eq!(click_action(-1, MouseButton::Primary), ClickAction::Nothing);
}
