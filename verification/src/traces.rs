//! Runs of the orchestrator over whole sequences of inputs, and what holds
//! of every run.

use vstd::prelude::*;
use crate::orchestrator::{step, ActionView, Input, OrchestratorView, RecordingState};

verus! {

/// The state that the machine reaches from `m` through `inputs`.
pub open spec fn run(m: OrchestratorView, inputs: Seq<Input>) -> OrchestratorView
    decreases inputs.len(),
{
    if inputs.len() == 0 {
        m
    } else {
        step(run(m, inputs.drop_last()), inputs.last()).0
    }
}

/// All actions that the machine asks for on its way from `m` through
/// `inputs`, in order.
pub open spec fn emitted(m: OrchestratorView, inputs: Seq<Input>) -> Seq<ActionView>
    decreases inputs.len(),
{
    if inputs.len() == 0 {
        Seq::empty()
    } else {
        emitted(m, inputs.drop_last()) + step(run(m, inputs.drop_last()), inputs.last()).1
    }
}

/// The recording state before the `k`-th input of a run.
pub open spec fn state_at(m: OrchestratorView, inputs: Seq<Input>, k: int) -> RecordingState {
    run(m, inputs.take(k)).state()
}

/// The actions that the `k`-th input of a run asks for.
pub open spec fn actions_at(m: OrchestratorView, inputs: Seq<Input>, k: int) -> Seq<ActionView> {
    step(run(m, inputs.take(k)), inputs[k]).1
}

/// The number of session records among `actions`.
pub open spec fn records_in(actions: Seq<ActionView>) -> nat
    decreases actions.len(),
{
    if actions.len() == 0 {
        0
    } else {
        records_in(actions.drop_last()) + if actions.last() is Persist {
            1nat
        } else {
            0nat
        }
    }
}

/// Whether `input` ends a toggle cycle in state `m`: the machine was
/// processing a session and is idle afterwards.
pub open spec fn completes_cycle(m: OrchestratorView, input: Input) -> bool {
    m.state() == RecordingState::Processing && step(m, input).0.state() == RecordingState::Idle
}

/// The number of toggle cycles that end during a run.
pub open spec fn completed_cycles(m: OrchestratorView, inputs: Seq<Input>) -> nat
    decreases inputs.len(),
{
    if inputs.len() == 0 {
        0
    } else {
        completed_cycles(m, inputs.drop_last()) + if completes_cycle(
            run(m, inputs.drop_last()),
            inputs.last(),
        ) {
            1nat
        } else {
            0nat
        }
    }
}

/// Whether an amplitude sample is published among `actions`.
pub open spec fn publishes_level(actions: Seq<ActionView>) -> bool {
    exists|i: int| 0 <= i < actions.len() && #[trigger] actions[i] is PublishLevel
}

/// Whether a `Start` command goes to the audio worker among `actions`.
pub open spec fn starts_capture(actions: Seq<ActionView>) -> bool {
    exists|i: int|
        0 <= i < actions.len() && (#[trigger] actions[i] matches ActionView::SendAudio(command)
            && command is Start)
}

proof fn lemma_records_in_concat(a: Seq<ActionView>, b: Seq<ActionView>)
    ensures
        records_in(a + b) == records_in(a) + records_in(b),
    decreases b.len(),
{
    if b.len() == 0 {
        assert(a + b =~= a);
    } else {
        assert((a + b).drop_last() =~= a + b.drop_last());
        assert((a + b).last() == b.last());
        lemma_records_in_concat(a, b.drop_last());
    }
}

proof fn lemma_records_in_short(actions: Seq<ActionView>)
    requires
        actions.len() <= 3,
    ensures
        actions.len() == 0 ==> records_in(actions) == 0,
        actions.len() == 1 ==> records_in(actions) == (if actions[0] is Persist {
            1nat
        } else {
            0nat
        }),
        actions.len() == 2 ==> records_in(actions) == (if actions[0] is Persist {
            1nat
        } else {
            0nat
        }) + (if actions[1] is Persist {
            1nat
        } else {
            0nat
        }),
        actions.len() == 3 ==> records_in(actions) == (if actions[0] is Persist {
            1nat
        } else {
            0nat
        }) + (if actions[1] is Persist {
            1nat
        } else {
            0nat
        }) + (if actions[2] is Persist {
            1nat
        } else {
            0nat
        }),
    decreases actions.len(),
{
    if actions.len() > 0 {
        lemma_records_in_short(actions.drop_last());
    }
}

/// One step leaves the recording state where it is or moves it to the next
/// state of the cycle `Idle`, `Recording`, `Processing`, `Idle`.
pub proof fn lemma_step_follows_cycle(m: OrchestratorView, input: Input)
    ensures
        step(m, input).0.state() == m.state() || step(m, input).0.state() == m.state().next(),
{
}

/// One step stores exactly one session record if it ends a toggle cycle,
/// and none otherwise.
pub proof fn lemma_step_records(m: OrchestratorView, input: Input)
    ensures
        records_in(step(m, input).1) == (if completes_cycle(m, input) {
            1nat
        } else {
            0nat
        }),
{
    lemma_records_in_short(step(m, input).1);
}

/// One step publishes an amplitude sample only while the machine is
/// recording, and sends `Start` to the audio worker only from `Idle`.
pub proof fn lemma_step_levels_and_starts(m: OrchestratorView, input: Input)
    ensures
        m.state() != RecordingState::Recording ==> !publishes_level(step(m, input).1),
        m.state() != RecordingState::Idle ==> !starts_capture(step(m, input).1),
        m.state() == RecordingState::Recording && step(m, input).0.state()
            == RecordingState::Processing ==> step(m, input).1.len() > 0 && step(m, input).1[0]
            == ActionView::CancelLevelPolling,
{
}

/// In every run, from any state and for any interleaving of inputs, the
/// recording state visits `Idle`, `Recording`, `Processing`, `Idle`, ... in
/// this order: each input leaves it where it is or moves it one state on.
pub proof fn lemma_states_follow_cycle(m: OrchestratorView, inputs: Seq<Input>, k: int)
    requires
        0 <= k < inputs.len(),
    ensures
        state_at(m, inputs, k + 1) == state_at(m, inputs, k) || state_at(m, inputs, k + 1)
            == state_at(m, inputs, k).next(),
{
    assert(inputs.take(k + 1).drop_last() =~= inputs.take(k));
    assert(inputs.take(k + 1).last() == inputs[k]);
    lemma_step_follows_cycle(run(m, inputs.take(k)), inputs[k]);
}

/// In every run, a machine that is recording at one point and idle at a
/// later one has been processing in between: `Processing` is never skipped.
pub proof fn lemma_processing_is_not_skipped(
    m: OrchestratorView,
    inputs: Seq<Input>,
    i: int,
    j: int,
)
    requires
        0 <= i <= j <= inputs.len(),
        state_at(m, inputs, i) == RecordingState::Recording,
        state_at(m, inputs, j) == RecordingState::Idle,
    ensures
        exists|l: int| i < l < j && state_at(m, inputs, l) == RecordingState::Processing,
    decreases j - i,
{
    lemma_states_follow_cycle(m, inputs, j - 1);
    if state_at(m, inputs, j - 1) == RecordingState::Idle {
        lemma_processing_is_not_skipped(m, inputs, i, j - 1);
        let l = choose|l: int|
            i < l < j - 1 && state_at(m, inputs, l) == RecordingState::Processing;
        assert(i < l < j && state_at(m, inputs, l) == RecordingState::Processing);
    } else {
        assert(state_at(m, inputs, j - 1) == RecordingState::Processing);
        assert(i < j - 1 < j);
    }
}

/// In every run, a machine that is recording at two points and not
/// recording somewhere in between has been idle in between: `Recording` is
/// never entered twice without an intervening `Idle`.
pub proof fn lemma_recording_is_not_reentered(
    m: OrchestratorView,
    inputs: Seq<Input>,
    i: int,
    k: int,
    j: int,
)
    requires
        0 <= i < k < j <= inputs.len(),
        state_at(m, inputs, i) == RecordingState::Recording,
        state_at(m, inputs, k) != RecordingState::Recording,
        state_at(m, inputs, j) == RecordingState::Recording,
    ensures
        exists|l: int| i < l < j && state_at(m, inputs, l) == RecordingState::Idle,
    decreases j - k,
{
    if state_at(m, inputs, k) == RecordingState::Idle {
        assert(i < k < j);
    } else {
        lemma_states_follow_cycle(m, inputs, k);
        assert(k + 1 < j);
        lemma_recording_is_not_reentered(m, inputs, i, k + 1, j);
    }
}

/// In every run, exactly one session record is stored for each toggle cycle
/// that ends, whichever branch the cycle took.
pub proof fn lemma_one_record_per_cycle(m: OrchestratorView, inputs: Seq<Input>)
    ensures
        records_in(emitted(m, inputs)) == completed_cycles(m, inputs),
    decreases inputs.len(),
{
    if inputs.len() > 0 {
        let before = run(m, inputs.drop_last());
        lemma_one_record_per_cycle(m, inputs.drop_last());
        lemma_step_records(before, inputs.last());
        lemma_records_in_concat(emitted(m, inputs.drop_last()), step(before, inputs.last()).1);
    }
}

/// In every run, once the amplitude poll is cancelled at the step from
/// `Recording` to `Processing`, no amplitude sample is published until the
/// machine records again.
pub proof fn lemma_cancelled_poll_is_silent(
    m: OrchestratorView,
    inputs: Seq<Input>,
    i: int,
    k: int,
)
    requires
        0 <= i < k < inputs.len(),
        state_at(m, inputs, i) == RecordingState::Recording,
        state_at(m, inputs, i + 1) == RecordingState::Processing,
        forall|l: int| i < l <= k ==> state_at(m, inputs, l) != RecordingState::Recording,
    ensures
        actions_at(m, inputs, i).len() > 0,
        actions_at(m, inputs, i)[0] == ActionView::CancelLevelPolling,
        !publishes_level(actions_at(m, inputs, i)),
        !publishes_level(actions_at(m, inputs, k)),
{
    assert(inputs.take(i + 1).drop_last() =~= inputs.take(i));
    assert(inputs.take(i + 1).last() == inputs[i]);
    lemma_step_levels_and_starts(run(m, inputs.take(i)), inputs[i]);
    lemma_step_levels_and_starts(run(m, inputs.take(k)), inputs[k]);
    assert(state_at(m, inputs, k) != RecordingState::Recording);
}

/// In every run, `Start` goes to the audio worker only when the machine is
/// idle: never while a session is recorded or processed.
pub proof fn lemma_start_only_from_idle(m: OrchestratorView, inputs: Seq<Input>, k: int)
    requires
        0 <= k < inputs.len(),
        starts_capture(actions_at(m, inputs, k)),
    ensures
        state_at(m, inputs, k) == RecordingState::Idle,
        state_at(m, inputs, k + 1) == RecordingState::Recording,
{
    assert(inputs.take(k + 1).drop_last() =~= inputs.take(k));
    assert(inputs.take(k + 1).last() == inputs[k]);
    lemma_step_levels_and_starts(run(m, inputs.take(k)), inputs[k]);
}

/// Whether `input` is a toggle signal that arrives.
pub open spec fn arrives(input: Input) -> bool {
    input is Toggle
}

/// Whether `input` dispatches a toggle signal in state `m`: it starts a
/// recording or stops one.
pub open spec fn dispatches(m: OrchestratorView, input: Input) -> bool {
    m.state() != RecordingState::Processing && step(m, input).0.state() == m.state().next()
}

/// The number of toggle signals that arrive during a run.
pub open spec fn arrived(inputs: Seq<Input>) -> nat
    decreases inputs.len(),
{
    if inputs.len() == 0 {
        0
    } else {
        arrived(inputs.drop_last()) + if arrives(inputs.last()) {
            1nat
        } else {
            0nat
        }
    }
}

/// The number of toggle signals that are dispatched during a run.
pub open spec fn dispatched(m: OrchestratorView, inputs: Seq<Input>) -> nat
    decreases inputs.len(),
{
    if inputs.len() == 0 {
        0
    } else {
        dispatched(m, inputs.drop_last()) + if dispatches(
            run(m, inputs.drop_last()),
            inputs.last(),
        ) {
            1nat
        } else {
            0nat
        }
    }
}

/// In every run, no toggle signal is lost and none is made up: the signals
/// that wait at the end are those that waited at the start and those that
/// arrived, less those that were dispatched.
pub proof fn lemma_toggles_are_conserved(m: OrchestratorView, inputs: Seq<Input>)
    ensures
        run(m, inputs).pending_toggles + dispatched(m, inputs) == m.pending_toggles + arrived(
            inputs,
        ),
    decreases inputs.len(),
{
    if inputs.len() > 0 {
        lemma_toggles_are_conserved(m, inputs.drop_last());
    }
}

/// A toggle signal is dispatched at once unless a session is being
/// processed, and then it waits: the machine is never idle or recording
/// with a toggle signal that has just arrived still waiting.
pub proof fn lemma_toggle_waits_only_while_processing(
    m: OrchestratorView,
    now: int,
    microphone: Option<Seq<char>>,
)
    ensures
        ({
            let input = Input::Toggle { now, microphone };
            &&& m.state() != RecordingState::Processing ==> dispatches(m, input) && step(
                m,
                input,
            ).0.pending_toggles == m.pending_toggles
            &&& m.state() == RecordingState::Processing ==> step(m, input).0 == (OrchestratorView {
                pending_toggles: m.pending_toggles + 1,
                ..m
            }) && step(m, input).1.len() == 0
        }),
{
}

/// A session that is being processed always ends: whatever the audio
/// worker, the transcription service and the delivery sinks answer, once
/// they have answered the machine is idle again. No failure stops it.
pub proof fn lemma_processing_ends(
    m: OrchestratorView,
    reply: Result<(), Seq<char>>,
    model_path: Seq<char>,
    result: Result<Seq<char>, Seq<char>>,
    elapsed_ms: int,
    append_mode: bool,
    now: int,
)
    requires
        m.state() == RecordingState::Processing,
    ensures
        run(
            m,
            seq![
                Input::StopFinished { reply, model_path },
                Input::TranscriptionFinished { result, elapsed_ms, append_mode },
                Input::DeliveryFinished { now },
            ],
        ).state() == RecordingState::Idle,
{
    let first = Input::StopFinished { reply, model_path };
    let second = Input::TranscriptionFinished { result, elapsed_ms, append_mode };
    let third = Input::DeliveryFinished { now };
    let all = seq![first, second, third];
    assert(all.drop_last() =~= seq![first, second]);
    assert(all.drop_last().drop_last() =~= seq![first]);
    assert(all.drop_last().drop_last().drop_last() =~= Seq::<Input>::empty());
    assert(run(m, Seq::<Input>::empty()) == m);
    assert(run(m, seq![first]) == step(m, first).0);
    assert(run(m, seq![first, second]) == step(step(m, first).0, second).0);
}

} // verus!
