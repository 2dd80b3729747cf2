//! The badge: the indicator through which the user sees what the recorder does.

use vstd::prelude::*;

verus! {

/// What the badge shows. `Success` and `Error` are pulses that decay to
/// `Idle` after [`BADGE_RESET_DELAY_SECS`].
#[derive(Debug, Clone, Copy, PartialEq, Eq, Structural)]
pub enum BadgeState {
    Idle,
    Recording,
    Processing,
    Success,
    Error,
}

/// Seconds after which a `Success` or `Error` badge falls back to `Idle`.
pub const BADGE_RESET_DELAY_SECS: u64 = 3;

/// The name under which a badge state is published and styled.
pub open spec fn badge_name(state: BadgeState) -> Seq<char> {
    match state {
        BadgeState::Idle => "idle"@,
        BadgeState::Recording => "recording"@,
        BadgeState::Processing => "processing"@,
        BadgeState::Success => "success"@,
        BadgeState::Error => "error"@,
    }
}

impl BadgeState {
    /// The name under which this state is published and styled.
    pub fn name(self) -> (name: &'static str)
        ensures
            name@ == badge_name(self),
    {
        match self {
            BadgeState::Idle => "idle",
            BadgeState::Recording => "recording",
            BadgeState::Processing => "processing",
            BadgeState::Success => "success",
            BadgeState::Error => "error",
        }
    }

    /// Whether this state is a pulse that decays to `Idle`.
    pub fn is_pulse(self) -> (pulse: bool)
        ensures
            pulse == (self == BadgeState::Success || self == BadgeState::Error),
    {
        match self {
            BadgeState::Success | BadgeState::Error => true,
            _ => false,
        }
    }
}

/// The names of all badge states, in declaration order: the style classes a
/// display clears before it sets the current one.
pub fn all_badge_states() -> (states: Vec<BadgeState>)
    ensures
        states@ == seq![
            BadgeState::Idle,
            BadgeState::Recording,
            BadgeState::Processing,
            BadgeState::Success,
            BadgeState::Error,
        ],
{
    vec![
        BadgeState::Idle,
        BadgeState::Recording,
        BadgeState::Processing,
        BadgeState::Success,
        BadgeState::Error,
    ]
}

/// A mouse button, as far as the badge tells buttons apart.
#[derive(Debug, Clone, Copy, PartialEq, Eq, Structural)]
pub enum MouseButton {
    Primary,
    Secondary,
    Other,
}

/// What a press on the badge asks for.
#[derive(Debug, Clone, Copy, PartialEq, Eq, Structural)]
pub enum ClickAction {
    /// Start or stop recording.
    Toggle,
    /// Open the context menu at the pointer.
    ShowMenu,
    Nothing,
}

/// What a press on the badge means: a single press of the primary button
/// toggles recording, a single press of the secondary button opens the menu.
pub open spec fn click_meaning(presses: int, button: MouseButton) -> ClickAction {
    if presses != 1 {
        ClickAction::Nothing
    } else {
        match button {
            MouseButton::Primary => ClickAction::Toggle,
            MouseButton::Secondary => ClickAction::ShowMenu,
            MouseButton::Other => ClickAction::Nothing,
        }
    }
}

/// Decides what the `presses`-th press of `button` on the badge asks for.
pub fn click_action(presses: i32, button: MouseButton) -> (action: ClickAction)
    ensures
        action == click_meaning(presses as int, button),
{
    if presses != 1 {
        ClickAction::Nothing
    } else {
        match button {
            MouseButton::Primary => ClickAction::Toggle,
            MouseButton::Secondary => ClickAction::ShowMenu,
            MouseButton::Other => ClickAction::Nothing,
        }
    }
}

} // verus!
