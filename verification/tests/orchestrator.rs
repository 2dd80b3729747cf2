use voiceclip::audio::{AudioCommand, AudioWorker, WorkerAction, WorkerState};
use voiceclip::badge::BadgeState;
use voiceclip::config::Config;
use voiceclip::orchestrator::{Action, AppEvent, Event, Orchestrator, RecordingState};
use voiceclip::session::SessionRecord;

const AUDIO: &str = "/tmp/voiceclip_audio.wav";
const MODEL: &str = "/models/base.en";

fn machine() -> Orchestrator {
    Orchestrator::new(AUDIO.to_string())
}

fn badges(actions: &[Action]) -> Vec<BadgeState> {
    let mut seen = Vec::new();
    for action in actions {
        if let Action::PublishBadge(state) = action {
            seen.push(*state);
        }
    }
    seen
}

fn records(actions: &[Action]) -> Vec<SessionRecord> {
    let mut seen = Vec::new();
    for action in actions {
        if let Action::Persist(record) = action {
            seen.push(record.clone());
        }
    }
    seen
}

#[test]
fn starts_idle_with_nothing_buffered() {
    let m = machine();
    assert_eq!(m.state(), RecordingState::Idle);
    assert_eq!(m.badge(), BadgeState::Idle);
    assert_eq!(m.pending_toggles(), 0);
    assert!(!m.can_dispatch());
}

#[test]
fn toggle_from_idle_starts_recording() {
    let mut config = Config::default();
    config.microphone = Some("USB Mic".to_string());
    let mut m = machine();
    let actions = m.toggle(&config, 1_700_000_000);
    assert_eq!(
        actions,
        vec![
            Action::SendAudio(AudioCommand::Start(Some("USB Mic".to_string()))),
            Action::PublishBadge(BadgeState::Recording),
            Action::StartLevelPolling { interval_ms: 33 },
        ]
    );
    assert_eq!(m.state(), RecordingState::Recording);
    assert_eq!(m.badge(), BadgeState::Recording);
    assert_eq!(m.pending_toggles(), 0);
}

#[test]
fn toggle_while_recording_stops_and_saves() {
    let config = Config::default();
    let mut m = machine();
    m.toggle(&config, 100);
    let actions = m.toggle(&config, 130);
    assert_eq!(
        actions,
        vec![
            Action::CancelLevelPolling,
            Action::PublishBadge(BadgeState::Processing),
            Action::SendAudio(AudioCommand::StopAndSave(AUDIO.to_string())),
        ]
    );
    assert_eq!(m.state(), RecordingState::Processing);
    assert_eq!(m.badge(), BadgeState::Processing);
}

#[test]
fn successful_cycle_delivers_then_persists_then_schedules_reset() {
    let mut config = Config::default();
    config.append_mode = true;
    let mut m = machine();
    m.toggle(&config, 1000);
    m.toggle(&config, 1010);

    let actions = m.stop_finished(Ok(()), MODEL.to_string());
    assert_eq!(
        actions,
        vec![Action::Transcribe { audio_path: AUDIO.to_string(), model_path: MODEL.to_string() }]
    );
    assert_eq!(m.state(), RecordingState::Processing);

    let actions = m.transcription_finished(Ok("hello there friend".to_string()), 1234, &config);
    assert_eq!(
        actions,
        vec![
            Action::CopyToClipboard { text: "hello there friend".to_string(), append_mode: true },
            Action::Notify {
                title: "VoiceClip Success".to_string(),
                body: "hello there friend".to_string(),
                is_error: false,
            },
        ]
    );
    assert_eq!(m.state(), RecordingState::Processing);
    assert_eq!(m.badge(), BadgeState::Processing);

    let actions = m.delivery_finished(1012);
    assert_eq!(
        actions,
        vec![
            Action::Persist(SessionRecord {
                started_at: 1000,
                duration_secs: 12,
                word_count: 3,
                model_used: MODEL.to_string(),
                transcription: "hello there friend".to_string(),
                latency_ms: 1234,
                error: None,
            }),
            Action::PublishBadge(BadgeState::Success),
            Action::ScheduleBadgeReset { delay_secs: 3 },
        ]
    );
    assert_eq!(m.state(), RecordingState::Idle);
    assert_eq!(m.badge(), BadgeState::Success);

    let actions = m.badge_reset_elapsed();
    assert_eq!(actions, vec![Action::PublishBadge(BadgeState::Idle)]);
    assert_eq!(m.badge(), BadgeState::Idle);
}

#[test]
fn empty_transcription_has_zero_words() {
    let config = Config::default();
    let mut m = machine();
    m.toggle(&config, 5);
    m.toggle(&config, 6);
    m.stop_finished(Ok(()), MODEL.to_string());
    m.transcription_finished(Ok(String::new()), 10, &config);
    let stored = records(&m.delivery_finished(7));
    assert_eq!(stored.len(), 1);
    assert_eq!(stored[0].word_count, 0);
    assert_eq!(stored[0].transcription, "");
    assert_eq!(stored[0].error, None);
}

#[test]
fn failed_transcription_notifies_and_persists_the_failure() {
    let config = Config::default();
    let mut m = machine();
    m.toggle(&config, 50);
    m.toggle(&config, 60);
    m.stop_finished(Ok(()), MODEL.to_string());

    let actions = m.transcription_finished(Err("whisper-cli exited with 1".to_string()), 800, &config);
    assert_eq!(
        actions,
        vec![Action::Notify {
            title: "VoiceClip Error".to_string(),
            body: "Failed to transcribe audio".to_string(),
            is_error: true,
        }]
    );

    let actions = m.delivery_finished(63);
    assert_eq!(
        actions,
        vec![
            Action::Persist(SessionRecord {
                started_at: 50,
                duration_secs: 13,
                word_count: 0,
                model_used: MODEL.to_string(),
                transcription: String::new(),
                latency_ms: 800,
                error: Some("whisper-cli exited with 1".to_string()),
            }),
            Action::PublishBadge(BadgeState::Error),
            Action::ScheduleBadgeReset { delay_secs: 3 },
        ]
    );
    assert_eq!(m.state(), RecordingState::Idle);
    assert_eq!(m.badge(), BadgeState::Error);
}

#[test]
fn stop_failure_shows_error_and_stores_one_failed_record() {
    let config = Config::default();
    let mut m = machine();
    let mut worker = AudioWorker::new();
    let mut shown = Vec::new();
    let mut stored = Vec::new();

    // The capture fails to open, so the worker has nothing to stop later.
    let actions = m.toggle(&config, 400);
    shown.extend(badges(&actions));
    assert_eq!(worker.on_command(&AudioCommand::Start(None)), WorkerAction::OpenCapture { device: None });
    worker.capture_opened(false);
    assert_eq!(worker.state(), WorkerState::Idle);

    let actions = m.toggle(&config, 405);
    shown.extend(badges(&actions));
    let reply = match worker.on_command(&AudioCommand::StopAndSave(AUDIO.to_string())) {
        WorkerAction::ReplyStopFailed { error } => Err(error),
        other => panic!("unexpected worker action {:?}", other),
    };
    assert_eq!(reply, Err("not recording".to_string()));

    let actions = m.stop_finished(reply, MODEL.to_string());
    shown.extend(badges(&actions));
    stored.extend(records(&actions));
    assert_eq!(actions.last(), Some(&Action::ScheduleBadgeReset { delay_secs: 3 }));
    assert_eq!(m.state(), RecordingState::Idle);

    let actions = m.badge_reset_elapsed();
    shown.extend(badges(&actions));

    assert_eq!(
        shown,
        vec![BadgeState::Recording, BadgeState::Processing, BadgeState::Error, BadgeState::Idle]
    );
    assert_eq!(
        stored,
        vec![SessionRecord {
            started_at: 400,
            duration_secs: 0,
            word_count: 0,
            model_used: MODEL.to_string(),
            transcription: String::new(),
            latency_ms: 0,
            error: Some("not recording".to_string()),
        }]
    );
}

#[test]
fn back_to_back_toggles_wait_for_idle() {
    let config = Config::default();
    let mut m = machine();
    let mut worker = AudioWorker::new();

    // A recording is running.
    for action in m.toggle(&config, 10) {
        if let Action::SendAudio(command) = action {
            worker.on_command(&command);
            worker.capture_opened(true);
        }
    }
    assert_eq!(worker.state(), WorkerState::Capturing);

    // Two toggles arrive with no delay between them.
    let first = m.toggle(&config, 20);
    let second = m.toggle(&config, 20);
    assert_eq!(first.len(), 3);
    assert!(second.is_empty());
    assert_eq!(m.state(), RecordingState::Processing);
    assert_eq!(m.pending_toggles(), 1);
    assert!(!m.can_dispatch());
    assert!(m.dispatch_pending(&config, 20).is_empty());

    // The first cycle runs to its end; nothing is sent to the worker but the stop.
    let mut sent = Vec::new();
    for action in first {
        if let Action::SendAudio(command) = action {
            sent.push(command);
        }
    }
    assert_eq!(sent, vec![AudioCommand::StopAndSave(AUDIO.to_string())]);
    assert_eq!(
        worker.on_command(&sent[0]),
        WorkerAction::CloseAndSave { path: AUDIO.to_string() }
    );
    assert_eq!(worker.state(), WorkerState::Idle);

    let mut later = Vec::new();
    later.extend(m.stop_finished(Ok(()), MODEL.to_string()));
    later.extend(m.transcription_finished(Ok("one two".to_string()), 5, &config));
    later.extend(m.delivery_finished(21));
    assert!(later.iter().all(|action| !matches!(action, Action::SendAudio(_))));
    assert_eq!(m.state(), RecordingState::Idle);
    assert_eq!(m.pending_toggles(), 1);
    assert!(m.can_dispatch());

    // Only now is the second toggle dispatched, and no capture exists.
    assert_eq!(worker.state(), WorkerState::Idle);
    let actions = m.dispatch_pending(&config, 22);
    assert_eq!(actions[0], Action::SendAudio(AudioCommand::Start(None)));
    assert_eq!(m.state(), RecordingState::Recording);
    assert_eq!(m.pending_toggles(), 0);
    assert_eq!(worker.on_command(&AudioCommand::Start(None)), WorkerAction::OpenCapture { device: None });
}

#[test]
fn buffered_toggles_are_dispatched_in_order() {
    let config = Config::default();
    let mut m = machine();
    m.toggle(&config, 1);
    m.toggle(&config, 2);
    m.toggle(&config, 3);
    m.toggle(&config, 4);
    m.toggle(&config, 5);
    assert_eq!(m.pending_toggles(), 3);
    m.stop_finished(Err("not recording".to_string()), MODEL.to_string());
    assert_eq!(m.state(), RecordingState::Idle);

    m.dispatch_pending(&config, 6);
    assert_eq!(m.state(), RecordingState::Recording);
    m.dispatch_pending(&config, 7);
    assert_eq!(m.state(), RecordingState::Processing);
    assert!(m.dispatch_pending(&config, 8).is_empty());
    assert_eq!(m.pending_toggles(), 1);
}

#[test]
fn every_completed_cycle_stores_exactly_one_record() {
    let config = Config::default();
    let mut m = machine();
    let mut stored = 0;
    let mut cycles = 0;
    for round in 0..9i64 {
        let mut actions = Vec::new();
        actions.extend(m.toggle(&config, round * 10));
        actions.extend(m.level_tick());
        actions.extend(m.level_sample(7));
        actions.extend(m.toggle(&config, round * 10 + 1));
        match round % 3 {
            0 => actions.extend(m.stop_finished(Err("not recording".to_string()), MODEL.to_string())),
            1 => {
                actions.extend(m.stop_finished(Ok(()), MODEL.to_string()));
                actions.extend(m.transcription_finished(Err("boom".to_string()), 3, &config));
                actions.extend(m.badge_reset_elapsed());
                actions.extend(m.delivery_finished(round * 10 + 2));
            }
            _ => {
                actions.extend(m.stop_finished(Ok(()), MODEL.to_string()));
                actions.extend(m.toggle(&config, round * 10 + 2));
                actions.extend(m.transcription_finished(Ok("a b".to_string()), 3, &config));
                actions.extend(m.delivery_finished(round * 10 + 2));
                // Undo the buffered toggle with one more, so that every round starts idle.
                actions.extend(m.dispatch_pending(&config, round * 10 + 3));
                actions.extend(m.toggle(&config, round * 10 + 4));
                actions.extend(m.stop_finished(Err("not recording".to_string()), MODEL.to_string()));
                cycles += 1;
            }
        }
        cycles += 1;
        stored += records(&actions).len();
        assert_eq!(m.state(), RecordingState::Idle);
    }
    assert_eq!(stored, cycles);
    assert_eq!(stored, 12);
}

#[test]
fn level_samples_are_published_only_while_recording() {
    let config = Config::default();
    let mut m = machine();
    assert!(m.level_tick().is_empty());
    assert!(m.level_sample(0x3f00_0000).is_empty());

    m.toggle(&config, 1);
    assert_eq!(m.level_tick(), vec![Action::SendAudio(AudioCommand::GetLevel)]);
    assert_eq!(m.level_sample(0x3f00_0000), vec![Action::PublishLevel { level_bits: 0x3f00_0000 }]);

    let stop = m.toggle(&config, 2);
    assert_eq!(stop[0], Action::CancelLevelPolling);
    assert!(m.level_tick().is_empty());
    assert!(m.level_sample(0x3f00_0000).is_empty());
    m.stop_finished(Ok(()), MODEL.to_string());
    assert!(m.level_sample(1).is_empty());
    m.transcription_finished(Ok("x".to_string()), 1, &config);
    assert!(m.level_sample(1).is_empty());
    m.delivery_finished(3);
    assert!(m.level_sample(1).is_empty());
    assert!(m.level_tick().is_empty());
}

#[test]
fn replies_that_nothing_waits_for_change_nothing() {
    let config = Config::default();
    let mut m = machine();
    assert!(m.stop_finished(Ok(()), MODEL.to_string()).is_empty());
    assert!(m.transcription_finished(Ok("x".to_string()), 1, &config).is_empty());
    assert!(m.delivery_finished(9).is_empty());
    assert_eq!(m.state(), RecordingState::Idle);
    assert_eq!(m.badge(), BadgeState::Idle);

    m.toggle(&config, 1);
    assert!(m.stop_finished(Err("late".to_string()), MODEL.to_string()).is_empty());
    assert!(m.delivery_finished(9).is_empty());
    assert_eq!(m.state(), RecordingState::Recording);

    m.toggle(&config, 2);
    assert!(m.transcription_finished(Ok("x".to_string()), 1, &config).is_empty());
    assert!(m.delivery_finished(9).is_empty());
    assert_eq!(m.state(), RecordingState::Processing);
}

#[test]
fn stale_badge_reset_reverts_the_badge_mid_recording() {
    let config = Config::default();
    let mut m = machine();
    m.toggle(&config, 1);
    m.toggle(&config, 2);
    m.stop_finished(Err("not recording".to_string()), MODEL.to_string());
    assert_eq!(m.badge(), BadgeState::Error);
    m.toggle(&config, 3);
    assert_eq!(m.badge(), BadgeState::Recording);
    assert_eq!(m.badge_reset_elapsed(), vec![Action::PublishBadge(BadgeState::Idle)]);
    assert_eq!(m.badge(), BadgeState::Idle);
    assert_eq!(m.state(), RecordingState::Recording);
}

#[test]
fn append_mode_is_read_when_the_transcription_ends() {
    let mut config = Config::default();
    let mut m = machine();
    m.toggle(&config, 1);
    m.toggle(&config, 2);
    m.stop_finished(Ok(()), MODEL.to_string());
    config.append_mode = true;
    let actions = m.transcription_finished(Ok("bar".to_string()), 1, &config);
    assert_eq!(actions[0], Action::CopyToClipboard { text: "bar".to_string(), append_mode: true });
}

#[test]
fn duration_and_latency_wrap_like_32_bit_counters() {
    let config = Config::default();
    let mut m = machine();
    m.toggle(&config, 10);
    m.toggle(&config, 11);
    m.stop_finished(Ok(()), MODEL.to_string());
    m.transcription_finished(Ok("x".to_string()), (1u128 << 32) + 5, &config);
    // The clock went back by one second.
    let stored = records(&m.delivery_finished(9));
    assert_eq!(stored[0].latency_ms, 5);
    assert_eq!(stored[0].duration_secs, u32::MAX);
}

#[test]
fn app_events_map_to_actions() {
    let config = Config::default();
    let mut m = machine();
    assert_eq!(m.handle_event(AppEvent::ShowStats, &config, 1), vec![Action::ShowStats]);
    assert!(m.handle_event(AppEvent::ShowSettings, &config, 1).is_empty());
    assert_eq!(m.handle_event(AppEvent::QuitApp, &config, 1), vec![Action::Quit]);
    assert_eq!(m.state(), RecordingState::Idle);
    let actions = m.handle_event(AppEvent::ToggleRecording, &config, 1);
    assert_eq!(actions[0], Action::SendAudio(AudioCommand::Start(None)));
    assert_eq!(m.state(), RecordingState::Recording);
}

#[test]
fn states_follow_the_cycle_for_any_order_of_events() {
    fn next(state: RecordingState) -> RecordingState {
        match state {
            RecordingState::Idle => RecordingState::Recording,
            RecordingState::Recording => RecordingState::Processing,
            RecordingState::Processing => RecordingState::Idle,
        }
    }
    fn pick(n: u64) -> Event {
        match n % 13 {
            0 => Event::Toggle { now: 1 },
            1 => Event::DispatchPending { now: 2 },
            2 => Event::StopFinished { reply: Ok(()), model_path: MODEL.to_string() },
            3 => Event::StopFinished {
                reply: Err("not recording".to_string()),
                model_path: MODEL.to_string(),
            },
            4 => Event::TranscriptionFinished { result: Ok("a b c".to_string()), elapsed_ms: 9 },
            5 => Event::TranscriptionFinished { result: Err("boom".to_string()), elapsed_ms: 9 },
            6 => Event::DeliveryFinished { now: 3 },
            7 => Event::LevelTick,
            8 => Event::LevelSample { level_bits: 5 },
            9 => Event::BadgeResetElapsed,
            10 => Event::ShowStats,
            11 => Event::ShowSettings,
            _ => Event::Quit,
        }
    }
    let config = Config::default();
    // A fixed pseudo-random walk through the events.
    let mut seed: u64 = 0x2545_f491_4f6c_dd1d;
    let mut m = machine();
    let mut stored = 0;
    let mut completed = 0;
    let mut arrived = 0;
    let mut dispatched = 0;
    for _ in 0..20_000 {
        seed ^= seed << 13;
        seed ^= seed >> 7;
        seed ^= seed << 17;
        let event = pick(seed >> 8);
        let before = m.state();
        if matches!(event, Event::Toggle { .. }) {
            arrived += 1;
        }
        let actions = m.step(event, &config);
        let after = m.state();
        assert!(after == before || after == next(before));
        if before == RecordingState::Processing && after == RecordingState::Idle {
            completed += 1;
        }
        if before != RecordingState::Processing && after != before {
            dispatched += 1;
        }
        stored += records(&actions).len();
        for action in &actions {
            match action {
                Action::PublishLevel { .. } | Action::SendAudio(AudioCommand::GetLevel) => {
                    assert_eq!(before, RecordingState::Recording)
                }
                Action::SendAudio(AudioCommand::Start(_)) => assert_eq!(before, RecordingState::Idle),
                Action::SendAudio(AudioCommand::StopAndSave(_)) => {
                    assert_eq!(before, RecordingState::Recording)
                }
                _ => {}
            }
        }
    }
    assert!(completed > 100);
    assert_eq!(stored, completed);
    assert_eq!(m.pending_toggles() + dispatched, arrived);
}

#[test]
fn step_agrees_with_the_single_entry_points() {
    let mut config = Config::default();
    config.microphone = Some("mic".to_string());
    let mut a = machine();
    let mut b = machine();
    assert_eq!(a.step(Event::Toggle { now: 4 }, &config), b.toggle(&config, 4));
    assert_eq!(a.step(Event::LevelTick, &config), b.level_tick());
    assert_eq!(a.step(Event::LevelSample { level_bits: 3 }, &config), b.level_sample(3));
    assert_eq!(a.step(Event::Toggle { now: 5 }, &config), b.toggle(&config, 5));
    assert_eq!(a.step(Event::Toggle { now: 5 }, &config), b.toggle(&config, 5));
    assert_eq!(
        a.step(Event::StopFinished { reply: Ok(()), model_path: MODEL.to_string() }, &config),
        b.stop_finished(Ok(()), MODEL.to_string())
    );
    assert_eq!(
        a.step(Event::TranscriptionFinished { result: Ok("x y".to_string()), elapsed_ms: 7 }, &config),
        b.transcription_finished(Ok("x y".to_string()), 7, &config)
    );
    assert_eq!(a.step(Event::DeliveryFinished { now: 8 }, &config), b.delivery_finished(8));
    assert_eq!(a.step(Event::BadgeResetElapsed, &config), b.badge_reset_elapsed());
    assert_eq!(a.step(Event::DispatchPending { now: 9 }, &config), b.dispatch_pending(&config, 9));
    assert_eq!(a.step(Event::ShowStats, &config), vec![Action::ShowStats]);
    assert!(a.step(Event::ShowSettings, &config).is_empty());
    assert_eq!(a.step(Event::Quit, &config), vec![Action::Quit]);
    assert_eq!(a.state(), b.state());
    assert_eq!(a.badge(), b.badge());
    assert_eq!(a.pending_toggles(), b.pending_toggles());
}
