//! The recording session orchestrator: the state machine that sequences
//! audio capture, transcription, delivery and persistence.
//!
//! The machine does no work of its own. Each input (a toggle signal, the
//! reply of the audio worker, the end of a transcription, ...) moves it to
//! its next state and yields the actions that the driving program must
//! perform, in order. Toggle signals that arrive while a session is being
//! processed are buffered and dispatched, in order, once the machine is idle
//! again, so two recordings never overlap.

use vstd::prelude::*;
use vstd::string::StringExecFns;
use crate::audio::{AudioCommand, AudioCommandView};
use crate::badge::{BadgeState, BADGE_RESET_DELAY_SECS};
use crate::config::Config;
use crate::session::{
    elapsed_secs, latency_from_millis, latency_of, option_text, session_duration, SessionRecord,
    SessionRecordView,
};
use crate::text::{count_words, word_count};

verus! {

/// Milliseconds between two amplitude polls while recording.
pub const LEVEL_POLL_INTERVAL_MS: u64 = 33;

/// The recording state that the orchestrator is in.
#[derive(Debug, Clone, Copy, PartialEq, Eq, Structural)]
pub enum RecordingState {
    Idle,
    Recording,
    Processing,
}

impl RecordingState {
    /// The state that follows this one in a toggle cycle.
    pub open spec fn next(self) -> RecordingState {
        match self {
            RecordingState::Idle => RecordingState::Recording,
            RecordingState::Recording => RecordingState::Processing,
            RecordingState::Processing => RecordingState::Idle,
        }
    }
}

/// A signal from the event source.
#[derive(Debug, Clone, Copy, PartialEq, Eq, Structural)]
pub enum AppEvent {
    ToggleRecording,
    ShowStats,
    ShowSettings,
    QuitApp,
}

/// Something the driving program must do for the orchestrator.
#[derive(Debug, Clone, PartialEq, Eq)]
pub enum Action {
    /// Send a command to the audio worker.
    SendAudio(AudioCommand),
    /// Start the periodic amplitude poll.
    StartLevelPolling { interval_ms: u64 },
    /// Cancel the periodic amplitude poll before anything else happens.
    CancelLevelPolling,
    /// Publish a badge state to the observers.
    PublishBadge(BadgeState),
    /// Publish an amplitude sample, given as its bit pattern.
    PublishLevel { level_bits: u32 },
    /// Run the transcription service on a saved recording.
    Transcribe { audio_path: String, model_path: String },
    /// Write text to the clipboard.
    CopyToClipboard { text: String, append_mode: bool },
    /// Show a desktop notification.
    Notify { title: String, body: String, is_error: bool },
    /// Append a record to the session store.
    Persist(SessionRecord),
    /// Report back with a badge reset once the delay has passed.
    ScheduleBadgeReset { delay_secs: u64 },
    /// Open the statistics window.
    ShowStats,
    /// End the program.
    Quit,
}

/// Mathematical value of an [`Action`].
pub enum ActionView {
    SendAudio(AudioCommandView),
    StartLevelPolling { interval_ms: u64 },
    CancelLevelPolling,
    PublishBadge(BadgeState),
    PublishLevel { level_bits: u32 },
    Transcribe { audio_path: Seq<char>, model_path: Seq<char> },
    CopyToClipboard { text: Seq<char>, append_mode: bool },
    Notify { title: Seq<char>, body: Seq<char>, is_error: bool },
    Persist(SessionRecordView),
    ScheduleBadgeReset { delay_secs: u64 },
    ShowStats,
    Quit,
}

impl View for Action {
    type V = ActionView;

    open spec fn view(&self) -> ActionView {
        match self {
            Action::SendAudio(command) => ActionView::SendAudio(command@),
            Action::StartLevelPolling { interval_ms } => ActionView::StartLevelPolling {
                interval_ms: *interval_ms,
            },
            Action::CancelLevelPolling => ActionView::CancelLevelPolling,
            Action::PublishBadge(state) => ActionView::PublishBadge(*state),
            Action::PublishLevel { level_bits } => ActionView::PublishLevel {
                level_bits: *level_bits,
            },
            Action::Transcribe { audio_path, model_path } => ActionView::Transcribe {
                audio_path: audio_path@,
                model_path: model_path@,
            },
            Action::CopyToClipboard { text, append_mode } => ActionView::CopyToClipboard {
                text: text@,
                append_mode: *append_mode,
            },
            Action::Notify { title, body, is_error } => ActionView::Notify {
                title: title@,
                body: body@,
                is_error: *is_error,
            },
            Action::Persist(record) => ActionView::Persist(record@),
            Action::ScheduleBadgeReset { delay_secs } => ActionView::ScheduleBadgeReset {
                delay_secs: *delay_secs,
            },
            Action::ShowStats => ActionView::ShowStats,
            Action::Quit => ActionView::Quit,
        }
    }
}

/// The values of a list of actions, in order.
pub open spec fn action_views(actions: Seq<Action>) -> Seq<ActionView> {
    actions.map_values(|a: Action| a@)
}

/// Where the orchestrator stands within a toggle cycle.
pub enum PhaseView {
    Idle,
    Recording { started_at: int },
    /// Waiting for the audio worker to reply to `StopAndSave`.
    Stopping { started_at: int },
    /// Waiting for the transcription service.
    Transcribing { started_at: int, model_path: Seq<char> },
    /// Waiting for the delivery sinks.
    Delivering {
        started_at: int,
        model_path: Seq<char>,
        latency_ms: nat,
        outcome: Result<Seq<char>, Seq<char>>,
    },
}

impl PhaseView {
    /// The recording state that a phase belongs to.
    pub open spec fn state(self) -> RecordingState {
        match self {
            PhaseView::Idle => RecordingState::Idle,
            PhaseView::Recording { .. } => RecordingState::Recording,
            _ => RecordingState::Processing,
        }
    }
}

/// Mathematical value of an [`Orchestrator`].
pub struct OrchestratorView {
    pub phase: PhaseView,
    pub badge: BadgeState,
    /// Toggle signals that have arrived and are not yet dispatched.
    pub pending_toggles: nat,
    /// Where every recording is saved.
    pub audio_path: Seq<char>,
}

impl OrchestratorView {
    /// The recording state.
    pub open spec fn state(self) -> RecordingState {
        self.phase.state()
    }
}

/// An input to the orchestrator.
pub enum Input {
    /// A toggle signal arrives.
    Toggle { now: int, microphone: Option<Seq<char>> },
    /// The driving program offers to dispatch a buffered toggle signal.
    DispatchPending { now: int, microphone: Option<Seq<char>> },
    /// The audio worker has replied to `StopAndSave`.
    StopFinished { reply: Result<(), Seq<char>>, model_path: Seq<char> },
    /// The transcription service has returned.
    TranscriptionFinished {
        result: Result<Seq<char>, Seq<char>>,
        elapsed_ms: int,
        append_mode: bool,
    },
    /// The delivery sinks have returned, whether they succeeded or not.
    DeliveryFinished { now: int },
    /// The amplitude poll timer has fired.
    LevelTick,
    /// The audio worker has replied to `GetLevel`.
    LevelSample { level_bits: u32 },
    /// The delay of a scheduled badge reset has passed.
    BadgeResetElapsed,
    ShowStats,
    ShowSettings,
    Quit,
}

/// The title of the notification that carries a transcript.
pub open spec fn success_title() -> Seq<char> {
    "VoiceClip Success"@
}

/// The title of the notification that reports a failure.
pub open spec fn error_title() -> Seq<char> {
    "VoiceClip Error"@
}

/// The text of the notification that reports a failed transcription.
pub open spec fn transcription_failed_body() -> Seq<char> {
    "Failed to transcribe audio"@
}

/// The record of a session that was transcribed.
pub open spec fn success_record(
    started_at: int,
    now: int,
    model_path: Seq<char>,
    latency_ms: nat,
    text: Seq<char>,
) -> SessionRecordView {
    SessionRecordView {
        started_at,
        duration_secs: elapsed_secs(started_at, now) as nat,
        word_count: (count_words(text) % 0x1_0000_0000) as nat,
        model_used: model_path,
        transcription: text,
        latency_ms,
        error: None,
    }
}

/// The record of a session that failed: no transcript, no words, and the
/// description of the failure.
pub open spec fn failure_record(
    started_at: int,
    duration_secs: nat,
    model_path: Seq<char>,
    latency_ms: nat,
    error: Seq<char>,
) -> SessionRecordView {
    SessionRecordView {
        started_at,
        duration_secs,
        word_count: 0,
        model_used: model_path,
        transcription: Seq::empty(),
        latency_ms,
        error: Some(error),
    }
}

/// Dispatches the oldest buffered toggle signal, if there is one and the
/// machine is not processing a session.
pub open spec fn dispatch(m: OrchestratorView, now: int, microphone: Option<Seq<char>>) -> (
    OrchestratorView,
    Seq<ActionView>,
) {
    if m.pending_toggles == 0 {
        (m, Seq::empty())
    } else {
        match m.phase {
            PhaseView::Idle => (
                OrchestratorView {
                    phase: PhaseView::Recording { started_at: now },
                    badge: BadgeState::Recording,
                    pending_toggles: (m.pending_toggles - 1) as nat,
                    ..m
                },
                seq![
                    ActionView::SendAudio(AudioCommandView::Start(microphone)),
                    ActionView::PublishBadge(BadgeState::Recording),
                    ActionView::StartLevelPolling { interval_ms: LEVEL_POLL_INTERVAL_MS },
                ],
            ),
            PhaseView::Recording { started_at } => (
                OrchestratorView {
                    phase: PhaseView::Stopping { started_at },
                    badge: BadgeState::Processing,
                    pending_toggles: (m.pending_toggles - 1) as nat,
                    ..m
                },
                seq![
                    ActionView::CancelLevelPolling,
                    ActionView::PublishBadge(BadgeState::Processing),
                    ActionView::SendAudio(AudioCommandView::StopAndSave(m.audio_path)),
                ],
            ),
            _ => (m, Seq::empty()),
        }
    }
}

/// The transition function: the state after `input`, and the actions that
/// `input` asks for, in the order in which they must be performed. An input
/// that the current phase does not wait for changes nothing and asks for
/// nothing.
pub open spec fn step(m: OrchestratorView, input: Input) -> (OrchestratorView, Seq<ActionView>) {
    match input {
        Input::Toggle { now, microphone } => dispatch(
            OrchestratorView { pending_toggles: m.pending_toggles + 1, ..m },
            now,
            microphone,
        ),
        Input::DispatchPending { now, microphone } => dispatch(m, now, microphone),
        Input::StopFinished { reply, model_path } => match m.phase {
            PhaseView::Stopping { started_at } => match reply {
                Ok(_) => (
                    OrchestratorView {
                        phase: PhaseView::Transcribing { started_at, model_path },
                        ..m
                    },
                    seq![ActionView::Transcribe { audio_path: m.audio_path, model_path }],
                ),
                Err(error) => (
                    OrchestratorView { phase: PhaseView::Idle, badge: BadgeState::Error, ..m },
                    seq![
                        ActionView::PublishBadge(BadgeState::Error),
                        ActionView::Persist(failure_record(started_at, 0, model_path, 0, error)),
                        ActionView::ScheduleBadgeReset { delay_secs: BADGE_RESET_DELAY_SECS },
                    ],
                ),
            },
            _ => (m, Seq::empty()),
        },
        Input::TranscriptionFinished { result, elapsed_ms, append_mode } => match m.phase {
            PhaseView::Transcribing { started_at, model_path } => (
                OrchestratorView {
                    phase: PhaseView::Delivering {
                        started_at,
                        model_path,
                        latency_ms: latency_of(elapsed_ms) as nat,
                        outcome: result,
                    },
                    ..m
                },
                match result {
                    Ok(text) => seq![
                        ActionView::CopyToClipboard { text, append_mode },
                        ActionView::Notify { title: success_title(), body: text, is_error: false },
                    ],
                    Err(_) => seq![
                        ActionView::Notify {
                            title: error_title(),
                            body: transcription_failed_body(),
                            is_error: true,
                        },
                    ],
                },
            ),
            _ => (m, Seq::empty()),
        },
        Input::DeliveryFinished { now } => match m.phase {
            PhaseView::Delivering { started_at, model_path, latency_ms, outcome } => match outcome {
                Ok(text) => (
                    OrchestratorView { phase: PhaseView::Idle, badge: BadgeState::Success, ..m },
                    seq![
                        ActionView::Persist(
                            success_record(started_at, now, model_path, latency_ms, text),
                        ),
                        ActionView::PublishBadge(BadgeState::Success),
                        ActionView::ScheduleBadgeReset { delay_secs: BADGE_RESET_DELAY_SECS },
                    ],
                ),
                Err(error) => (
                    OrchestratorView { phase: PhaseView::Idle, badge: BadgeState::Error, ..m },
                    seq![
                        ActionView::Persist(
                            failure_record(
                                started_at,
                                elapsed_secs(started_at, now) as nat,
                                model_path,
                                latency_ms,
                                error,
                            ),
                        ),
                        ActionView::PublishBadge(BadgeState::Error),
                        ActionView::ScheduleBadgeReset { delay_secs: BADGE_RESET_DELAY_SECS },
                    ],
                ),
            },
            _ => (m, Seq::empty()),
        },
        Input::LevelTick => (
            m,
            if m.state() == RecordingState::Recording {
                seq![ActionView::SendAudio(AudioCommandView::GetLevel)]
            } else {
                Seq::empty()
            },
        ),
        Input::LevelSample { level_bits } => (
            m,
            if m.state() == RecordingState::Recording {
                seq![ActionView::PublishLevel { level_bits }]
            } else {
                Seq::empty()
            },
        ),
        Input::BadgeResetElapsed => (
            OrchestratorView { badge: BadgeState::Idle, ..m },
            seq![ActionView::PublishBadge(BadgeState::Idle)],
        ),
        Input::ShowStats => (m, seq![ActionView::ShowStats]),
        Input::ShowSettings => (m, Seq::empty()),
        Input::Quit => (m, seq![ActionView::Quit]),
    }
}

/// The characters of a result that holds text either way.
pub open spec fn result_text(r: Result<String, String>) -> Result<Seq<char>, Seq<char>> {
    match r {
        Ok(text) => Ok(text@),
        Err(error) => Err(error@),
    }
}

/// The value of a reply to `StopAndSave`.
pub open spec fn reply_text(r: Result<(), String>) -> Result<(), Seq<char>> {
    match r {
        Ok(_) => Ok(()),
        Err(error) => Err(error@),
    }
}

enum Phase {
    Idle,
    Recording { started_at: i64 },
    Stopping { started_at: i64 },
    Transcribing { started_at: i64, model_path: String },
    Delivering {
        started_at: i64,
        model_path: String,
        latency_ms: u32,
        outcome: Result<String, String>,
    },
}

impl View for Phase {
    type V = PhaseView;

    closed spec fn view(&self) -> PhaseView {
        match self {
            Phase::Idle => PhaseView::Idle,
            Phase::Recording { started_at } => PhaseView::Recording { started_at: *started_at as int },
            Phase::Stopping { started_at } => PhaseView::Stopping { started_at: *started_at as int },
            Phase::Transcribing { started_at, model_path } => PhaseView::Transcribing {
                started_at: *started_at as int,
                model_path: model_path@,
            },
            Phase::Delivering { started_at, model_path, latency_ms, outcome } => {
                PhaseView::Delivering {
                    started_at: *started_at as int,
                    model_path: model_path@,
                    latency_ms: *latency_ms as nat,
                    outcome: result_text(*outcome),
                }
            },
        }
    }
}

/// The recording session orchestrator.
pub struct Orchestrator {
    phase: Phase,
    badge: BadgeState,
    pending_toggles: u64,
    audio_path: String,
}

impl View for Orchestrator {
    type V = OrchestratorView;

    closed spec fn view(&self) -> OrchestratorView {
        OrchestratorView {
            phase: self.phase@,
            badge: self.badge,
            pending_toggles: self.pending_toggles as nat,
            audio_path: self.audio_path@,
        }
    }
}

/// The orchestrator at program start: idle, nothing buffered.
pub open spec fn initial(audio_path: Seq<char>) -> OrchestratorView {
    OrchestratorView {
        phase: PhaseView::Idle,
        badge: BadgeState::Idle,
        pending_toggles: 0,
        audio_path,
    }
}

fn clone_optional(text: &Option<String>) -> (copy: Option<String>)
    ensures
        option_text(copy) == option_text(*text),
{
    match text {
        Some(t) => Some(t.clone()),
        None => None,
    }
}

impl Orchestrator {
    /// An idle orchestrator that saves every recording at `audio_path`.
    pub fn new(audio_path: String) -> (orchestrator: Orchestrator)
        ensures
            orchestrator@ == initial(audio_path@),
    {
        Orchestrator { phase: Phase::Idle, badge: BadgeState::Idle, pending_toggles: 0, audio_path }
    }

    /// The recording state.
    pub fn state(&self) -> (state: RecordingState)
        ensures
            state == self@.state(),
    {
        match &self.phase {
            Phase::Idle => RecordingState::Idle,
            Phase::Recording { .. } => RecordingState::Recording,
            _ => RecordingState::Processing,
        }
    }

    /// The badge state that was published last.
    pub fn badge(&self) -> (badge: BadgeState)
        ensures
            badge == self@.badge,
    {
        self.badge
    }

    /// The number of toggle signals that wait to be dispatched.
    pub fn pending_toggles(&self) -> (pending: u64)
        ensures
            pending == self@.pending_toggles,
    {
        self.pending_toggles
    }

    /// Whether [`Orchestrator::dispatch_pending`] would dispatch a toggle
    /// signal now.
    pub fn can_dispatch(&self) -> (ready: bool)
        ensures
            ready == (self@.pending_toggles > 0 && self@.state() != RecordingState::Processing),
    {
        self.pending_toggles > 0 && match &self.phase {
            Phase::Idle => true,
            Phase::Recording { .. } => true,
            _ => false,
        }
    }

    fn dispatch(&mut self, config: &Config, now: i64) -> (actions: Vec<Action>)
        ensures
            final(self)@ == dispatch(old(self)@, now as int, config@.microphone).0,
            action_views(actions@) == dispatch(old(self)@, now as int, config@.microphone).1,
    {
        if self.pending_toggles == 0 {
            let actions: Vec<Action> = Vec::new();
            assert(action_views(actions@) =~= Seq::empty());
            return actions;
        }
        let started = match &self.phase {
            Phase::Idle => None,
            Phase::Recording { started_at } => Some(*started_at),
            _ => {
                let actions: Vec<Action> = Vec::new();
                assert(action_views(actions@) =~= Seq::empty());
                return actions;
            },
        };
        self.pending_toggles = self.pending_toggles - 1;
        match started {
            None => {
                self.phase = Phase::Recording { started_at: now };
                self.badge = BadgeState::Recording;
                let actions = vec![
                    Action::SendAudio(AudioCommand::Start(clone_optional(&config.microphone))),
                    Action::PublishBadge(BadgeState::Recording),
                    Action::StartLevelPolling { interval_ms: LEVEL_POLL_INTERVAL_MS },
                ];
                assert(action_views(actions@) =~= dispatch(
                    old(self)@,
                    now as int,
                    config@.microphone,
                ).1);
                actions
            },
            Some(started_at) => {
                self.phase = Phase::Stopping { started_at };
                self.badge = BadgeState::Processing;
                let actions = vec![
                    Action::CancelLevelPolling,
                    Action::PublishBadge(BadgeState::Processing),
                    Action::SendAudio(AudioCommand::StopAndSave(self.audio_path.clone())),
                ];
                assert(action_views(actions@) =~= dispatch(
                    old(self)@,
                    now as int,
                    config@.microphone,
                ).1);
                actions
            },
        }
    }

    /// A toggle signal arrives at time `now`.
    ///
    /// The signal joins the buffered ones and the oldest is dispatched if the
    /// machine is idle or recording: from `Idle` a recording starts with the
    /// configured microphone, from `Recording` it is stopped and saved.
    /// While a session is processed the signal only waits.
    pub fn toggle(&mut self, config: &Config, now: i64) -> (actions: Vec<Action>)
        requires
            old(self)@.pending_toggles < u64::MAX,
        ensures
            final(self)@ == step(
                old(self)@,
                Input::Toggle { now: now as int, microphone: config@.microphone },
            ).0,
            action_views(actions@) == step(
                old(self)@,
                Input::Toggle { now: now as int, microphone: config@.microphone },
            ).1,
    {
        self.pending_toggles = self.pending_toggles + 1;
        self.dispatch(config, now)
    }

    /// Dispatches the oldest buffered toggle signal, if there is one and no
    /// session is being processed. The driving program calls this whenever
    /// the machine has returned to `Idle`.
    pub fn dispatch_pending(&mut self, config: &Config, now: i64) -> (actions: Vec<Action>)
        ensures
            final(self)@ == step(
                old(self)@,
                Input::DispatchPending { now: now as int, microphone: config@.microphone },
            ).0,
            action_views(actions@) == step(
                old(self)@,
                Input::DispatchPending { now: now as int, microphone: config@.microphone },
            ).1,
    {
        self.dispatch(config, now)
    }

    /// The audio worker has replied to `StopAndSave`. `model_path` names the
    /// model that the transcription is to use.
    ///
    /// On success the saved recording goes to the transcription service. On
    /// failure the session ends here: the badge shows the error, a failed
    /// record of zero duration is stored, and the machine is idle again.
    pub fn stop_finished(&mut self, reply: Result<(), String>, model_path: String) -> (actions:
        Vec<Action>)
        ensures
            final(self)@ == step(
                old(self)@,
                Input::StopFinished { reply: reply_text(reply), model_path: model_path@ },
            ).0,
            action_views(actions@) == step(
                old(self)@,
                Input::StopFinished { reply: reply_text(reply), model_path: model_path@ },
            ).1,
    {
        let started_at = match &self.phase {
            Phase::Stopping { started_at } => *started_at,
            _ => {
                let actions: Vec<Action> = Vec::new();
                assert(action_views(actions@) =~= Seq::empty());
                return actions;
            },
        };
        let ghost expected = step(
            old(self)@,
            Input::StopFinished { reply: reply_text(reply), model_path: model_path@ },
        ).1;
        match reply {
            Ok(_) => {
                let actions = vec![
                    Action::Transcribe {
                        audio_path: self.audio_path.clone(),
                        model_path: model_path.clone(),
                    },
                ];
                self.phase = Phase::Transcribing { started_at, model_path };
                assert(action_views(actions@) =~= expected);
                actions
            },
            Err(error) => {
                let record = SessionRecord {
                    started_at,
                    duration_secs: 0,
                    word_count: 0,
                    model_used: model_path,
                    transcription: String::new(),
                    latency_ms: 0,
                    error: Some(error),
                };
                self.phase = Phase::Idle;
                self.badge = BadgeState::Error;
                let actions = vec![
                    Action::PublishBadge(BadgeState::Error),
                    Action::Persist(record),
                    Action::ScheduleBadgeReset { delay_secs: BADGE_RESET_DELAY_SECS },
                ];
                assert(action_views(actions@) =~= expected);
                actions
            },
        }
    }

    /// The transcription service has returned after `elapsed_ms` milliseconds.
    ///
    /// Recognised text goes to the clipboard, in the configured append mode,
    /// and into a notification; a failure goes into an error notification.
    /// Either way the machine then waits for the delivery to end.
    pub fn transcription_finished(
        &mut self,
        result: Result<String, String>,
        elapsed_ms: u128,
        config: &Config,
    ) -> (actions: Vec<Action>)
        ensures
            final(self)@ == step(
                old(self)@,
                Input::TranscriptionFinished {
                    result: result_text(result),
                    elapsed_ms: elapsed_ms as int,
                    append_mode: config@.append_mode,
                },
            ).0,
            action_views(actions@) == step(
                old(self)@,
                Input::TranscriptionFinished {
                    result: result_text(result),
                    elapsed_ms: elapsed_ms as int,
                    append_mode: config@.append_mode,
                },
            ).1,
    {
        let (started_at, model_path) = match &self.phase {
            Phase::Transcribing { started_at, model_path } => (*started_at, model_path.clone()),
            _ => {
                let actions: Vec<Action> = Vec::new();
                assert(action_views(actions@) =~= Seq::empty());
                return actions;
            },
        };
        let ghost expected = step(
            old(self)@,
            Input::TranscriptionFinished {
                result: result_text(result),
                elapsed_ms: elapsed_ms as int,
                append_mode: config@.append_mode,
            },
        ).1;
        let latency_ms = latency_from_millis(elapsed_ms);
        let actions = match &result {
            Ok(text) => {
                let actions = vec![
                    Action::CopyToClipboard { text: text.clone(), append_mode: config.append_mode },
                    Action::Notify {
                        title: String::from_str("VoiceClip Success"),
                        body: text.clone(),
                        is_error: false,
                    },
                ];
                assert(action_views(actions@) =~= expected);
                actions
            },
            Err(_) => {
                let actions = vec![
                    Action::Notify {
                        title: String::from_str("VoiceClip Error"),
                        body: String::from_str("Failed to transcribe audio"),
                        is_error: true,
                    },
                ];
                assert(action_views(actions@) =~= expected);
                actions
            },
        };
        self.phase = Phase::Delivering { started_at, model_path, latency_ms, outcome: result };
        actions
    }

    /// The delivery sinks have returned at time `now`. Whether they
    /// succeeded does not matter: the session is stored, the badge shows the
    /// outcome, a badge reset is scheduled and the machine is idle again.
    pub fn delivery_finished(&mut self, now: i64) -> (actions: Vec<Action>)
        ensures
            final(self)@ == step(old(self)@, Input::DeliveryFinished { now: now as int }).0,
            action_views(actions@) == step(
                old(self)@,
                Input::DeliveryFinished { now: now as int },
            ).1,
    {
        let (started_at, model_path, latency_ms, outcome) = match &self.phase {
            Phase::Delivering { started_at, model_path, latency_ms, outcome } => (
                *started_at,
                model_path.clone(),
                *latency_ms,
                match outcome {
                    Ok(text) => Ok(text.clone()),
                    Err(error) => Err(error.clone()),
                },
            ),
            _ => {
                let actions: Vec<Action> = Vec::new();
                assert(action_views(actions@) =~= Seq::empty());
                return actions;
            },
        };
        let ghost expected = step(old(self)@, Input::DeliveryFinished { now: now as int }).1;
        let duration_secs = session_duration(started_at, now);
        self.phase = Phase::Idle;
        match outcome {
            Ok(text) => {
                let record = SessionRecord {
                    started_at,
                    duration_secs,
                    word_count: word_count(text.as_str()),
                    model_used: model_path,
                    transcription: text,
                    latency_ms,
                    error: None,
                };
                self.badge = BadgeState::Success;
                let actions = vec![
                    Action::Persist(record),
                    Action::PublishBadge(BadgeState::Success),
                    Action::ScheduleBadgeReset { delay_secs: BADGE_RESET_DELAY_SECS },
                ];
                assert(action_views(actions@) =~= expected);
                actions
            },
            Err(error) => {
                let record = SessionRecord {
                    started_at,
                    duration_secs,
                    word_count: 0,
                    model_used: model_path,
                    transcription: String::new(),
                    latency_ms,
                    error: Some(error),
                };
                self.badge = BadgeState::Error;
                let actions = vec![
                    Action::Persist(record),
                    Action::PublishBadge(BadgeState::Error),
                    Action::ScheduleBadgeReset { delay_secs: BADGE_RESET_DELAY_SECS },
                ];
                assert(action_views(actions@) =~= expected);
                actions
            },
        }
    }

    /// The amplitude poll timer has fired: while recording, the audio worker
    /// is asked for the level; otherwise nothing happens.
    pub fn level_tick(&self) -> (actions: Vec<Action>)
        ensures
            action_views(actions@) == step(self@, Input::LevelTick).1,
    {
        match &self.phase {
            Phase::Recording { .. } => {
                let actions = vec![Action::SendAudio(AudioCommand::GetLevel)];
                assert(action_views(actions@) =~= step(self@, Input::LevelTick).1);
                actions
            },
            _ => {
                let actions: Vec<Action> = Vec::new();
                assert(action_views(actions@) =~= Seq::empty());
                actions
            },
        }
    }

    /// The audio worker has reported an amplitude: while recording it is
    /// published; a sample that arrives later is dropped.
    pub fn level_sample(&self, level_bits: u32) -> (actions: Vec<Action>)
        ensures
            action_views(actions@) == step(self@, Input::LevelSample { level_bits }).1,
    {
        match &self.phase {
            Phase::Recording { .. } => {
                let actions = vec![Action::PublishLevel { level_bits }];
                assert(action_views(actions@) =~= step(
                    self@,
                    Input::LevelSample { level_bits },
                ).1);
                actions
            },
            _ => {
                let actions: Vec<Action> = Vec::new();
                assert(action_views(actions@) =~= Seq::empty());
                actions
            },
        }
    }

    /// The delay of a scheduled badge reset has passed: the badge falls back
    /// to `Idle`, whatever has happened since the reset was scheduled.
    pub fn badge_reset_elapsed(&mut self) -> (actions: Vec<Action>)
        ensures
            final(self)@ == step(old(self)@, Input::BadgeResetElapsed).0,
            action_views(actions@) == step(old(self)@, Input::BadgeResetElapsed).1,
    {
        self.badge = BadgeState::Idle;
        let actions = vec![Action::PublishBadge(BadgeState::Idle)];
        assert(action_views(actions@) =~= step(old(self)@, Input::BadgeResetElapsed).1);
        actions
    }

    /// Handles a signal from the event source at time `now`.
    pub fn handle_event(&mut self, event: AppEvent, config: &Config, now: i64) -> (actions: Vec<
        Action,
    >)
        requires
            event == AppEvent::ToggleRecording ==> old(self)@.pending_toggles < u64::MAX,
        ensures
            final(self)@ == step(old(self)@, input_of_event(event, now as int, config@.microphone)).0,
            action_views(actions@) == step(
                old(self)@,
                input_of_event(event, now as int, config@.microphone),
            ).1,
    {
        match event {
            AppEvent::ToggleRecording => self.toggle(config, now),
            AppEvent::ShowStats => {
                let actions = vec![Action::ShowStats];
                assert(action_views(actions@) =~= seq![ActionView::ShowStats]);
                actions
            },
            AppEvent::ShowSettings => {
                let actions: Vec<Action> = Vec::new();
                assert(action_views(actions@) =~= Seq::empty());
                actions
            },
            AppEvent::QuitApp => {
                let actions = vec![Action::Quit];
                assert(action_views(actions@) =~= seq![ActionView::Quit]);
                actions
            },
        }
    }
}

/// Something that happens to the orchestrator, with what the driving
/// program knows of it.
#[derive(Debug, PartialEq, Eq)]
pub enum Event {
    /// A toggle signal arrives at time `now`.
    Toggle { now: i64 },
    /// The driving program offers, at time `now`, to dispatch a buffered
    /// toggle signal.
    DispatchPending { now: i64 },
    /// The audio worker has replied to `StopAndSave`; `model_path` names
    /// the model that the transcription is to use.
    StopFinished { reply: Result<(), String>, model_path: String },
    /// The transcription service has returned after `elapsed_ms` milliseconds.
    TranscriptionFinished { result: Result<String, String>, elapsed_ms: u128 },
    /// The delivery sinks have returned at time `now`.
    DeliveryFinished { now: i64 },
    /// The amplitude poll timer has fired.
    LevelTick,
    /// The audio worker has replied to `GetLevel`.
    LevelSample { level_bits: u32 },
    /// The delay of a scheduled badge reset has passed.
    BadgeResetElapsed,
    ShowStats,
    ShowSettings,
    Quit,
}

/// The input that an event stands for under a configuration: the
/// microphone preference and the append mode are read when the event is
/// taken.
pub open spec fn input_of(event: Event, config: crate::config::ConfigView) -> Input {
    match event {
        Event::Toggle { now } => Input::Toggle { now: now as int, microphone: config.microphone },
        Event::DispatchPending { now } => Input::DispatchPending {
            now: now as int,
            microphone: config.microphone,
        },
        Event::StopFinished { reply, model_path } => Input::StopFinished {
            reply: reply_text(reply),
            model_path: model_path@,
        },
        Event::TranscriptionFinished { result, elapsed_ms } => Input::TranscriptionFinished {
            result: result_text(result),
            elapsed_ms: elapsed_ms as int,
            append_mode: config.append_mode,
        },
        Event::DeliveryFinished { now } => Input::DeliveryFinished { now: now as int },
        Event::LevelTick => Input::LevelTick,
        Event::LevelSample { level_bits } => Input::LevelSample { level_bits },
        Event::BadgeResetElapsed => Input::BadgeResetElapsed,
        Event::ShowStats => Input::ShowStats,
        Event::ShowSettings => Input::ShowSettings,
        Event::Quit => Input::Quit,
    }
}

impl Orchestrator {
    /// Takes one event: moves to the next state and returns the actions
    /// that the event asks for, in the order in which they must be
    /// performed.
    pub fn step(&mut self, event: Event, config: &Config) -> (actions: Vec<Action>)
        requires
            event is Toggle ==> old(self)@.pending_toggles < u64::MAX,
        ensures
            final(self)@ == step(old(self)@, input_of(event, config@)).0,
            action_views(actions@) == step(old(self)@, input_of(event, config@)).1,
    {
        match event {
            Event::Toggle { now } => self.toggle(config, now),
            Event::DispatchPending { now } => self.dispatch_pending(config, now),
            Event::StopFinished { reply, model_path } => self.stop_finished(reply, model_path),
            Event::TranscriptionFinished { result, elapsed_ms } => self.transcription_finished(
                result,
                elapsed_ms,
                config,
            ),
            Event::DeliveryFinished { now } => self.delivery_finished(now),
            Event::LevelTick => self.level_tick(),
            Event::LevelSample { level_bits } => self.level_sample(level_bits),
            Event::BadgeResetElapsed => self.badge_reset_elapsed(),
            Event::ShowStats => self.handle_event(AppEvent::ShowStats, config, 0),
            Event::ShowSettings => self.handle_event(AppEvent::ShowSettings, config, 0),
            Event::Quit => self.handle_event(AppEvent::QuitApp, config, 0),
        }
    }
}

/// The input that a signal from the event source stands for.
pub open spec fn input_of_event(event: AppEvent, now: int, microphone: Option<Seq<char>>) -> Input {
    match event {
        AppEvent::ToggleRecording => Input::Toggle { now, microphone },
        AppEvent::ShowStats => Input::ShowStats,
        AppEvent::ShowSettings => Input::ShowSettings,
        AppEvent::QuitApp => Input::Quit,
    }
}

} // verus!
