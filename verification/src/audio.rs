//! The command protocol of the audio worker: the single consumer that owns
//! the only audio input stream.

use vstd::prelude::*;
use vstd::string::StringExecFns;

verus! {

/// A command to the audio worker.
#[derive(Debug, Clone, PartialEq, Eq)]
pub enum AudioCommand {
    /// Begin capturing from the preferred device, or from the default one.
    /// No reply. A capture already in progress is left untouched.
    Start(Option<String>),
    /// Halt the capture and write it to the given path. One reply.
    StopAndSave(String),
    /// Report the current amplitude. One reply.
    GetLevel,
}

/// Mathematical value of an [`AudioCommand`].
pub enum AudioCommandView {
    Start(Option<Seq<char>>),
    StopAndSave(Seq<char>),
    GetLevel,
}

impl View for AudioCommand {
    type V = AudioCommandView;

    open spec fn view(&self) -> AudioCommandView {
        match self {
            AudioCommand::Start(device) => AudioCommandView::Start(
                match device {
                    Some(name) => Some(name@),
                    None => None,
                },
            ),
            AudioCommand::StopAndSave(path) => AudioCommandView::StopAndSave(path@),
            AudioCommand::GetLevel => AudioCommandView::GetLevel,
        }
    }
}

/// The file of the temporary directory to which every recording is saved.
pub const RECORDING_FILE_NAME: &'static str = "voiceclip_audio.wav";

/// The error that stands for a reply that never came because the worker
/// is gone.
pub const WORKER_GONE: &'static str = "Audio thread died";

/// Channels of a saved recording.
pub const RECORDING_CHANNELS: u16 = 1;

/// Samples per second of a saved recording.
pub const RECORDING_SAMPLE_RATE: u32 = 16000;

/// Bits per sample of a saved recording.
pub const RECORDING_BITS_PER_SAMPLE: u16 = 16;

/// Whether the worker holds a capture handle.
#[derive(Debug, Clone, Copy, PartialEq, Eq, Structural)]
pub enum WorkerState {
    /// No capture handle exists.
    Idle,
    /// The worker has been told to open a capture and has not yet said how
    /// that went. No capture handle exists yet.
    Opening,
    /// Exactly one capture handle exists.
    Capturing,
}

/// What the worker thread must do for a command.
#[derive(Debug, Clone, PartialEq, Eq)]
pub enum WorkerAction {
    /// Nothing, and no reply.
    Nothing,
    /// Open a capture on the device and report with
    /// [`AudioWorker::capture_opened`]. No reply.
    OpenCapture { device: Option<String> },
    /// Halt the capture, write it to `path`, drop the handle and reply with
    /// the result of writing.
    CloseAndSave { path: String },
    /// Reply to `StopAndSave` with this error.
    ReplyStopFailed { error: String },
    /// Reply to `GetLevel` with the amplitude of the running capture.
    ReplyCurrentLevel,
    /// Reply to `GetLevel` with this amplitude, given as its bit pattern.
    ReplyLevel { level_bits: u32 },
}

/// Mathematical value of a [`WorkerAction`].
pub enum WorkerActionView {
    Nothing,
    OpenCapture { device: Option<Seq<char>> },
    CloseAndSave { path: Seq<char> },
    ReplyStopFailed { error: Seq<char> },
    ReplyCurrentLevel,
    ReplyLevel { level_bits: u32 },
}

impl View for WorkerAction {
    type V = WorkerActionView;

    open spec fn view(&self) -> WorkerActionView {
        match self {
            WorkerAction::Nothing => WorkerActionView::Nothing,
            WorkerAction::OpenCapture { device } => WorkerActionView::OpenCapture {
                device: match device {
                    Some(name) => Some(name@),
                    None => None,
                },
            },
            WorkerAction::CloseAndSave { path } => WorkerActionView::CloseAndSave { path: path@ },
            WorkerAction::ReplyStopFailed { error } => WorkerActionView::ReplyStopFailed {
                error: error@,
            },
            WorkerAction::ReplyCurrentLevel => WorkerActionView::ReplyCurrentLevel,
            WorkerAction::ReplyLevel { level_bits } => WorkerActionView::ReplyLevel {
                level_bits: *level_bits,
            },
        }
    }
}

impl WorkerActionView {
    /// Whether the action sends a reply to the requester.
    pub open spec fn replies(self) -> bool {
        self is CloseAndSave || self is ReplyStopFailed || self is ReplyCurrentLevel
            || self is ReplyLevel
    }
}

/// The error with which `StopAndSave` is answered when nothing is captured.
pub open spec fn not_recording() -> Seq<char> {
    "not recording"@
}

/// Bit pattern of the amplitude zero, the level of a worker that captures
/// nothing.
pub const SILENCE_BITS: u32 = 0;

/// The number of capture handles that exist in a state.
pub open spec fn capture_handles(state: WorkerState) -> nat {
    if state == WorkerState::Capturing {
        1
    } else {
        0
    }
}

/// The worker's transition on a command: the next state and the one thing
/// the worker thread must do.
pub open spec fn worker_step(state: WorkerState, command: AudioCommandView) -> (
    WorkerState,
    WorkerActionView,
) {
    match command {
        AudioCommandView::Start(device) => if state == WorkerState::Idle {
            (WorkerState::Opening, WorkerActionView::OpenCapture { device })
        } else {
            (state, WorkerActionView::Nothing)
        },
        AudioCommandView::StopAndSave(path) => if state == WorkerState::Capturing {
            (WorkerState::Idle, WorkerActionView::CloseAndSave { path })
        } else {
            (state, WorkerActionView::ReplyStopFailed { error: not_recording() })
        },
        AudioCommandView::GetLevel => if state == WorkerState::Capturing {
            (state, WorkerActionView::ReplyCurrentLevel)
        } else {
            (state, WorkerActionView::ReplyLevel { level_bits: SILENCE_BITS })
        },
    }
}

/// The worker's state once an attempt to open a capture has ended. Outside
/// `Opening` there is no attempt and nothing changes.
pub open spec fn worker_opened(state: WorkerState, succeeded: bool) -> WorkerState {
    if state == WorkerState::Opening {
        if succeeded {
            WorkerState::Capturing
        } else {
            WorkerState::Idle
        }
    } else {
        state
    }
}

/// The decisions of the audio worker.
pub struct AudioWorker {
    state: WorkerState,
}

impl View for AudioWorker {
    type V = WorkerState;

    closed spec fn view(&self) -> WorkerState {
        self.state
    }
}

fn clone_device(device: &Option<String>) -> (copy: Option<String>)
    ensures
        AudioCommand::Start(copy)@ == AudioCommand::Start(*device)@,
{
    match device {
        Some(name) => Some(name.clone()),
        None => None,
    }
}

impl AudioWorker {
    /// A worker that captures nothing.
    pub fn new() -> (worker: AudioWorker)
        ensures
            worker@ == WorkerState::Idle,
    {
        AudioWorker { state: WorkerState::Idle }
    }

    /// Whether the worker holds a capture.
    pub fn state(&self) -> (state: WorkerState)
        ensures
            state == self@,
    {
        self.state
    }

    /// Takes the next command from the queue.
    ///
    /// `Start` opens a capture unless one exists or is being opened.
    /// `StopAndSave` closes the capture, or is answered with
    /// `"not recording"` where there is none. `GetLevel` is answered with
    /// the capture's amplitude, or with zero where there is none.
    pub fn on_command(&mut self, command: &AudioCommand) -> (action: WorkerAction)
        ensures
            final(self)@ == worker_step(old(self)@, command@).0,
            action@ == worker_step(old(self)@, command@).1,
    {
        match command {
            AudioCommand::Start(device) => {
                if self.state == WorkerState::Idle {
                    self.state = WorkerState::Opening;
                    WorkerAction::OpenCapture { device: clone_device(device) }
                } else {
                    WorkerAction::Nothing
                }
            },
            AudioCommand::StopAndSave(path) => {
                if self.state == WorkerState::Capturing {
                    self.state = WorkerState::Idle;
                    WorkerAction::CloseAndSave { path: path.clone() }
                } else {
                    WorkerAction::ReplyStopFailed { error: String::from_str("not recording") }
                }
            },
            AudioCommand::GetLevel => {
                if self.state == WorkerState::Capturing {
                    WorkerAction::ReplyCurrentLevel
                } else {
                    WorkerAction::ReplyLevel { level_bits: SILENCE_BITS }
                }
            },
        }
    }

    /// Reports how the attempt to open a capture ended. A failure leaves the
    /// worker without a capture; the recording simply does not begin.
    pub fn capture_opened(&mut self, succeeded: bool)
        ensures
            final(self)@ == worker_opened(old(self)@, succeeded),
    {
        if self.state == WorkerState::Opening {
            if succeeded {
                self.state = WorkerState::Capturing;
            } else {
                self.state = WorkerState::Idle;
            }
        }
    }
}

/// The worker opens a capture only while no handle exists, never holds more
/// than one, and answers `StopAndSave` and `GetLevel` exactly once while it
/// never answers `Start`.
pub proof fn lemma_worker_protocol(state: WorkerState, command: AudioCommandView)
    ensures
        capture_handles(state) <= 1,
        capture_handles(worker_step(state, command).0) <= capture_handles(state),
        worker_step(state, command).1 is OpenCapture ==> capture_handles(state) == 0
            && command is Start,
        worker_step(state, command).1.replies() <==> !(command is Start),
        command is GetLevel ==> worker_step(state, command).0 == state,
        command is Start && state != WorkerState::Idle ==> worker_step(state, command) == (
            state,
            WorkerActionView::Nothing,
        ),
{
}

} // verus!
