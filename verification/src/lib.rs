//! Verified core of a voice-capture-to-clipboard utility.
//!
//! A hotkey or a click toggles audio recording. When a recording stops, the
//! captured audio is transcribed, the text is delivered to the clipboard and
//! to a desktop notification, and a record of the session is stored. This
//! crate holds the decisions of that program: the state machine that
//! sequences a recording session, the command protocol of the audio worker,
//! and the text rules around them. Devices, processes, windows and files are
//! left to the program that drives the library.
//!
//! - [`orchestrator`]: the recording session state machine.
//! - [`traces`]: what holds of every run of that machine.
//! - [`audio`]: the commands to the audio worker and the worker's decisions.
//! - [`system`]: orchestrator and worker together; captures never overlap.
//! - [`session`]: session records, durations and timestamps.
//! - [`delivery`]: the clipboard text and the urgency of notifications.
//! - [`whisper`]: arguments and outcome of the transcription engine.
//! - [`hotkey`]: reading a hotkey description and recognising the hotkey.
//! - [`badge`]: badge states and clicks on the badge.
//! - [`config`]: the configuration and its defaults.
//! - [`stats`], [`calendar`]: how a stored session is shown.
//! - [`text`]: white space, trimming, words and ASCII case.

pub mod audio;
pub mod badge;
pub mod calendar;
pub mod config;
pub mod delivery;
pub mod hotkey;
pub mod orchestrator;
pub mod session;
pub mod stats;
pub mod system;
pub mod text;
pub mod traces;
pub mod whisper;
