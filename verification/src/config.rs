//! The user's configuration.

use vstd::prelude::*;
use vstd::string::StringExecFns;

verus! {

/// The configuration as the library reads it.
///
/// The badge opacity is a single-precision number that the library only
/// carries along; it is held as its IEEE 754 bit pattern.
#[derive(Debug, Clone, PartialEq, Eq)]
pub struct Config {
    pub model_name: String,
    pub hotkey: String,
    pub badge_opacity_bits: u32,
    /// Seconds. Kept for the settings file; the session flow does not read it.
    pub max_recording_duration: u32,
    pub append_mode: bool,
    pub microphone: Option<String>,
    pub always_on_top: bool,
    pub badge_x: Option<i32>,
    pub badge_y: Option<i32>,
}

/// Mathematical value of a [`Config`].
pub struct ConfigView {
    pub model_name: Seq<char>,
    pub hotkey: Seq<char>,
    pub badge_opacity_bits: u32,
    pub max_recording_duration: u32,
    pub append_mode: bool,
    pub microphone: Option<Seq<char>>,
    pub always_on_top: bool,
    pub badge_x: Option<i32>,
    pub badge_y: Option<i32>,
}

/// The name under which the program keeps its directories.
pub const PROJECT_NAME: &'static str = "voiceclip";

/// The file of the configuration directory that holds the configuration.
pub const CONFIG_FILE_NAME: &'static str = "config.toml";

/// The file of the data directory that holds the session store.
pub const DATABASE_FILE_NAME: &'static str = "voiceclip.db";

/// The directory, next to the executable or in the data directory, that
/// holds the transcription models.
pub const MODELS_DIR_NAME: &'static str = "models";

/// Bit pattern of the single-precision number nearest to 0.8.
pub const DEFAULT_BADGE_OPACITY_BITS: u32 = 0x3f4c_cccd;

/// The configuration of a fresh installation.
pub open spec fn default_config() -> ConfigView {
    ConfigView {
        model_name: "base.en"@,
        hotkey: "Super+Alt+V"@,
        badge_opacity_bits: DEFAULT_BADGE_OPACITY_BITS,
        max_recording_duration: 120,
        append_mode: false,
        microphone: None,
        always_on_top: true,
        badge_x: None,
        badge_y: None,
    }
}

impl View for Config {
    type V = ConfigView;

    open spec fn view(&self) -> ConfigView {
        ConfigView {
            model_name: self.model_name@,
            hotkey: self.hotkey@,
            badge_opacity_bits: self.badge_opacity_bits,
            max_recording_duration: self.max_recording_duration,
            append_mode: self.append_mode,
            microphone: match self.microphone {
                Some(name) => Some(name@),
                None => None,
            },
            always_on_top: self.always_on_top,
            badge_x: self.badge_x,
            badge_y: self.badge_y,
        }
    }
}

impl Default for Config {
    fn default() -> (config: Config)
        ensures
            config@ == default_config(),
    {
        Config {
            model_name: String::from_str("base.en"),
            hotkey: String::from_str("Super+Alt+V"),
            badge_opacity_bits: DEFAULT_BADGE_OPACITY_BITS,
            max_recording_duration: 120,
            append_mode: false,
            microphone: None,
            always_on_top: true,
            badge_x: None,
            badge_y: None,
        }
    }
}

impl Config {
    /// Records where the badge was dropped; nothing else changes.
    pub fn set_badge_position(&mut self, x: i32, y: i32)
        ensures
            final(self)@ == (ConfigView { badge_x: Some(x), badge_y: Some(y), ..old(self)@ }),
    {
        self.badge_x = Some(x);
        self.badge_y = Some(y);
    }

    /// Replaces the hotkey; nothing else changes.
    pub fn set_hotkey(&mut self, hotkey: String)
        ensures
            final(self)@ == (ConfigView { hotkey: hotkey@, ..old(self)@ }),
    {
        self.hotkey = hotkey;
    }
}

/// How an attempt to store a changed setting ended.
#[derive(Debug, Clone, PartialEq, Eq)]
pub enum SaveOutcome {
    Saved,
    /// The configuration could not be written; the reason is given.
    SaveFailed(String),
    /// The configuration could not be read first; the reason is given.
    LoadFailed(String),
}

/// What the settings window reports after an attempt to store a setting.
pub open spec fn save_report(outcome: SaveOutcome) -> Seq<char> {
    match outcome {
        SaveOutcome::Saved => "Saved! Restart VoiceClip to apply."@,
        SaveOutcome::SaveFailed(reason) => "Error saving: "@ + reason@,
        SaveOutcome::LoadFailed(reason) => "Error loading config: "@ + reason@,
    }
}

/// Words the report of the settings window.
pub fn save_status(outcome: &SaveOutcome) -> (status: String)
    ensures
        status@ == save_report(*outcome),
{
    match outcome {
        SaveOutcome::Saved => String::from_str("Saved! Restart VoiceClip to apply."),
        SaveOutcome::SaveFailed(reason) => String::from_str("Error saving: ").concat(
            reason.as_str(),
        ),
        SaveOutcome::LoadFailed(reason) => String::from_str("Error loading config: ").concat(
            reason.as_str(),
        ),
    }
}

} // verus!
