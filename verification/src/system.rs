//! The orchestrator and the audio worker together, joined by the queue of
//! commands between them: why two captures never exist at once.
//!
//! The orchestrator and the worker run in different threads. Here their
//! steps are interleaved in any order: the orchestrator takes an input from
//! outside, or the worker takes the oldest command from the queue and, where
//! the command asks for a reply, the orchestrator takes that reply.

use vstd::prelude::*;
use crate::audio::{
    capture_handles, worker_opened, worker_step, AudioCommandView, WorkerActionView, WorkerState,
};
use crate::orchestrator::{initial, step, ActionView, Input, OrchestratorView, PhaseView};

verus! {

/// The orchestrator, the worker and the commands under way between them.
pub struct SystemView {
    pub orchestrator: OrchestratorView,
    pub worker: WorkerState,
    /// The commands that were sent and not yet taken, oldest first.
    pub queue: Seq<AudioCommandView>,
}

/// The system at program start.
pub open spec fn system_start(audio_path: Seq<char>) -> SystemView {
    SystemView { orchestrator: initial(audio_path), worker: WorkerState::Idle, queue: Seq::empty() }
}

/// The command that an action sends to the worker, if it sends one.
pub open spec fn command_of(action: ActionView) -> Seq<AudioCommandView> {
    match action {
        ActionView::SendAudio(command) => seq![command],
        _ => Seq::empty(),
    }
}

/// The commands that `actions` send to the worker, in order.
pub open spec fn commands_in(actions: Seq<ActionView>) -> Seq<AudioCommandView>
    decreases actions.len(),
{
    if actions.len() == 0 {
        Seq::empty()
    } else {
        commands_in(actions.drop_last()) + command_of(actions.last())
    }
}

/// One step of the system.
pub enum SystemStep {
    /// The orchestrator takes an input that does not come from the worker.
    Outside(Input),
    /// The worker takes the oldest command, if there is one. The fields say
    /// how the world answers, whichever answer the command needs: whether
    /// the capture opens, what writing the file gives, what the capture
    /// measures, and which model the transcription is to use.
    WorkerTakes { opens: bool, saved: Result<(), Seq<char>>, level_bits: u32, model_path: Seq<char> },
}

/// Whether a step can happen: the replies of the worker reach the
/// orchestrator only through the worker.
pub open spec fn possible(step: SystemStep) -> bool {
    match step {
        SystemStep::Outside(input) => !(input is StopFinished) && !(input is LevelSample),
        SystemStep::WorkerTakes { .. } => true,
    }
}

/// The orchestrator takes `input`; the commands it sends join the queue.
pub open spec fn orchestrator_takes(s: SystemView, input: Input) -> SystemView {
    SystemView {
        orchestrator: step(s.orchestrator, input).0,
        queue: s.queue + commands_in(step(s.orchestrator, input).1),
        ..s
    }
}

/// The state of the system after one step.
pub open spec fn system_step(s: SystemView, taken: SystemStep) -> SystemView {
    match taken {
        SystemStep::Outside(input) => orchestrator_takes(s, input),
        SystemStep::WorkerTakes { opens, saved, level_bits, model_path } => {
            if s.queue.len() == 0 {
                s
            } else {
                let (worker, action) = worker_step(s.worker, s.queue.first());
                let after = SystemView { worker, queue: s.queue.drop_first(), ..s };
                match action {
                    WorkerActionView::Nothing => after,
                    WorkerActionView::OpenCapture { .. } => SystemView {
                        worker: worker_opened(worker, opens),
                        ..after
                    },
                    WorkerActionView::CloseAndSave { .. } => orchestrator_takes(
                        after,
                        Input::StopFinished { reply: saved, model_path },
                    ),
                    WorkerActionView::ReplyStopFailed { error } => orchestrator_takes(
                        after,
                        Input::StopFinished { reply: Err(error), model_path },
                    ),
                    WorkerActionView::ReplyCurrentLevel => orchestrator_takes(
                        after,
                        Input::LevelSample { level_bits },
                    ),
                    WorkerActionView::ReplyLevel { level_bits: silence } => orchestrator_takes(
                        after,
                        Input::LevelSample { level_bits: silence },
                    ),
                }
            }
        },
    }
}

/// The state of the system after a sequence of steps.
pub open spec fn system_run(s: SystemView, steps: Seq<SystemStep>) -> SystemView
    decreases steps.len(),
{
    if steps.len() == 0 {
        s
    } else {
        system_step(system_run(s, steps.drop_last()), steps.last())
    }
}

/// Whether the first `upto` commands of the queue are requests for the
/// level, but for a `Start` at the head that the worker will meet without
/// a capture.
pub open spec fn only_polls(queue: Seq<AudioCommandView>, worker: WorkerState, upto: int) -> bool {
    forall|i: int|
        0 <= i < upto ==> (#[trigger] queue[i]) is GetLevel || (i == 0 && queue[0] is Start
            && worker == WorkerState::Idle)
}

/// What holds of every state that the system reaches.
///
/// While the orchestrator is idle, transcribing or delivering, no command
/// is under way and the worker holds no capture. While it is recording,
/// only requests for the level are under way, after the one `Start` if the
/// worker has not taken it yet. While it waits for the capture to stop, the
/// same holds before the one `StopAndSave`, which is the newest command.
pub open spec fn consistent(s: SystemView) -> bool {
    &&& s.worker != WorkerState::Opening
    &&& match s.orchestrator.phase {
        PhaseView::Recording { .. } => only_polls(s.queue, s.worker, s.queue.len() as int),
        PhaseView::Stopping { .. } => {
            &&& s.queue.len() >= 1
            &&& s.queue.last() is StopAndSave
            &&& only_polls(s.queue, s.worker, s.queue.len() - 1)
        },
        _ => s.queue.len() == 0 && s.worker == WorkerState::Idle,
    }
}

proof fn lemma_commands_of_step(m: OrchestratorView, input: Input)
    ensures
        commands_in(step(m, input).1).len() <= 1,
        input is StopFinished || input is LevelSample ==> commands_in(step(m, input).1).len() == 0,
        commands_in(step(m, input).1).len() == 1 ==> {
            let command = commands_in(step(m, input).1)[0];
            ||| (command is Start && m.phase is Idle && step(m, input).0.phase is Recording)
            ||| (command is StopAndSave && m.phase is Recording && step(m, input).0.phase
                is Stopping)
            ||| (command is GetLevel && m.phase is Recording && step(m, input).0 == m)
        },
        commands_in(step(m, input).1).len() == 0 ==> {
            ||| step(m, input).0.phase == m.phase
            ||| (m.phase is Stopping && (step(m, input).0.phase is Transcribing || step(
                m,
                input,
            ).0.phase is Idle) && input is StopFinished)
            ||| (m.phase is Transcribing && step(m, input).0.phase is Delivering)
            ||| (m.phase is Delivering && step(m, input).0.phase is Idle)
        },
{
    let actions = step(m, input).1;
    lemma_commands_in_short(actions);
}

proof fn lemma_commands_in_short(actions: Seq<ActionView>)
    requires
        actions.len() <= 3,
    ensures
        actions.len() == 0 ==> commands_in(actions) == Seq::<AudioCommandView>::empty(),
        actions.len() == 1 ==> commands_in(actions) == command_of(actions[0]),
        actions.len() == 2 ==> commands_in(actions) == command_of(actions[0]) + command_of(
            actions[1],
        ),
        actions.len() == 3 ==> commands_in(actions) == command_of(actions[0]) + command_of(
            actions[1],
        ) + command_of(actions[2]),
    decreases actions.len(),
{
    if actions.len() > 0 {
        lemma_commands_in_short(actions.drop_last());
        if actions.len() == 1 {
            assert(commands_in(actions) =~= command_of(actions[0]));
        }
    }
}

/// Every step keeps the system consistent.
pub proof fn lemma_step_keeps_consistent(s: SystemView, taken: SystemStep)
    requires
        consistent(s),
        possible(taken),
    ensures
        consistent(system_step(s, taken)),
{
    match taken {
        SystemStep::Outside(input) => {
            lemma_orchestrator_keeps_consistent(s, input);
        },
        SystemStep::WorkerTakes { opens, saved, level_bits, model_path } => {
            if s.queue.len() > 0 {
                let (worker, action) = worker_step(s.worker, s.queue.first());
                let rest = s.queue.drop_first();
                let after = SystemView { worker, queue: rest, ..s };
                assert forall|i: int| 0 <= i < rest.len() implies rest[i] == s.queue[i + 1] by {}
                assert(s.queue[0] == s.queue.first());
                match s.orchestrator.phase {
                    PhaseView::Recording { .. } => {
                        assert(s.queue[0] is GetLevel || s.queue[0] is Start);
                        assert forall|i: int| 0 <= i < rest.len() implies (#[trigger] rest[i])
                            is GetLevel by {
                            assert(s.queue[i + 1] is GetLevel);
                        }
                    },
                    PhaseView::Stopping { .. } => {
                        if s.queue.len() == 1 {
                            assert(s.queue[0] == s.queue.last());
                        } else {
                            assert(s.queue[0] is GetLevel || s.queue[0] is Start);
                            assert(rest.last() == s.queue.last());
                            assert forall|i: int| 0 <= i < rest.len() - 1 implies (
                            #[trigger] rest[i]) is GetLevel by {
                                assert(s.queue[i + 1] is GetLevel);
                            }
                        }
                    },
                    _ => {},
                }
                match action {
                    WorkerActionView::CloseAndSave { .. } => {
                        let input = Input::StopFinished { reply: saved, model_path };
                        lemma_commands_of_step(after.orchestrator, input);
                        assert(rest + commands_in(step(after.orchestrator, input).1) =~= rest);
                    },
                    WorkerActionView::ReplyStopFailed { error } => {
                        let input = Input::StopFinished { reply: Err(error), model_path };
                        lemma_commands_of_step(after.orchestrator, input);
                        assert(rest + commands_in(step(after.orchestrator, input).1) =~= rest);
                    },
                    WorkerActionView::ReplyCurrentLevel => {
                        let input = Input::LevelSample { level_bits };
                        lemma_commands_of_step(after.orchestrator, input);
                        assert(rest + commands_in(step(after.orchestrator, input).1) =~= rest);
                    },
                    WorkerActionView::ReplyLevel { level_bits: silence } => {
                        let input = Input::LevelSample { level_bits: silence };
                        lemma_commands_of_step(after.orchestrator, input);
                        assert(rest + commands_in(step(after.orchestrator, input).1) =~= rest);
                    },
                    _ => {},
                }
            }
        },
    }
}

proof fn lemma_orchestrator_keeps_consistent(s: SystemView, input: Input)
    requires
        consistent(s),
        !(input is StopFinished),
        !(input is LevelSample),
    ensures
        consistent(orchestrator_takes(s, input)),
{
    let sent = commands_in(step(s.orchestrator, input).1);
    let after = orchestrator_takes(s, input);
    lemma_commands_of_step(s.orchestrator, input);
    if sent.len() == 0 {
        assert(after.queue =~= s.queue);
    } else {
        assert(after.queue =~= s.queue.push(sent[0]));
        assert forall|i: int| 0 <= i < s.queue.len() implies after.queue[i] == s.queue[i] by {}
        assert(after.queue.last() == sent[0]);
    }
}

/// Every state that the system reaches from its start is consistent.
pub proof fn lemma_reached_states_are_consistent(audio_path: Seq<char>, steps: Seq<SystemStep>)
    requires
        forall|k: int| 0 <= k < steps.len() ==> possible(#[trigger] steps[k]),
    ensures
        consistent(system_run(system_start(audio_path), steps)),
    decreases steps.len(),
{
    if steps.len() > 0 {
        assert forall|k: int| 0 <= k < steps.drop_last().len() implies possible(
            #[trigger] steps.drop_last()[k],
        ) by {
            assert(steps.drop_last()[k] == steps[k]);
        }
        lemma_reached_states_are_consistent(audio_path, steps.drop_last());
        lemma_step_keeps_consistent(
            system_run(system_start(audio_path), steps.drop_last()),
            steps.last(),
        );
    }
}

/// In a consistent system two captures never overlap.
///
/// The orchestrator sends `Start` only when no command is under way and the
/// worker holds no capture, and the worker meets every `Start` that it
/// takes without a capture: it opens one, and never a second.
pub proof fn lemma_captures_never_overlap(s: SystemView, taken: SystemStep)
    requires
        consistent(s),
        possible(taken),
    ensures
        capture_handles(s.worker) <= 1,
        taken matches SystemStep::Outside(input) && commands_in(step(s.orchestrator, input).1).len()
            == 1 && commands_in(step(s.orchestrator, input).1)[0] is Start ==> s.queue.len() == 0
            && capture_handles(s.worker) == 0,
        taken is WorkerTakes && s.queue.len() > 0 && s.queue.first() is Start ==> capture_handles(
            s.worker,
        ) == 0 && worker_step(s.worker, s.queue.first()).1 is OpenCapture,
{
    match taken {
        SystemStep::Outside(input) => {
            lemma_commands_of_step(s.orchestrator, input);
        },
        SystemStep::WorkerTakes { .. } => {
            if s.queue.len() > 0 && s.queue.first() is Start {
                assert(s.queue[0] == s.queue.first());
                if s.orchestrator.phase is Stopping && s.queue.len() == 1 {
                    assert(s.queue.last() == s.queue[0]);
                }
            }
        },
    }
}

} // verus!
