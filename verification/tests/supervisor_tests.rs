use transcription_pipeline::job::{Directive, Event, JobError, JobSnapshot, Pipeline, ProgressEvent};
use transcription_pipeline::stage::{Stage, StageResult, StageStatus};
use transcription_pipeline::state::{JobId, JobState};
use transcription_pipeline::store::{load, PersistedTranscript, ReadOutcome, StoreError};
use transcription_pipeline::supervisor::{Supervisor, SupervisorError};
use transcription_pipeline::worker::ProcessOutcome;

fn supervisor() -> Supervisor {
    Supervisor::new(Pipeline::python_workers(60), None)
}

fn done(stdout: &str) -> Event {
    Event::WorkerFinished {
        outcome: ProcessOutcome::Exited {
            code: Some(0),
            stdout: stdout.as_bytes().to_vec(),
            stderr: vec![],
        },
        produced_len: Some(2048),
    }
}

fn broke(code: i32, stderr: &str) -> Event {
    Event::WorkerFinished {
        outcome: ProcessOutcome::Exited {
            code: Some(code),
            stdout: vec![],
            stderr: stderr.as_bytes().to_vec(),
        },
        produced_len: None,
    }
}

/// Drives a job to its end as a driver would, with workers that succeed,
/// and returns the bytes of the save if one was asked for. Counts the
/// workers launched.
fn run_to_end(s: &mut Supervisor, id: JobId, text: &str, launched: &mut u32) -> Option<Vec<u8>> {
    let mut written = None;
    let mut now = 100;
    let mut directive = s.advance(id, Event::Start, now);
    loop {
        now += 1;
        directive = match directive {
            Directive::Run(_) => {
                *launched += 1;
                s.advance(id, done(text), now)
            }
            Directive::Save(plan) => {
                written = Some(plan.bytes);
                s.advance(id, Event::Persisted { saved: Ok(()) }, now)
            }
            Directive::Finished | Directive::Ignored => return written,
        };
    }
}

fn state(s: &Supervisor, id: JobId) -> JobState {
    s.get_job_state(id).unwrap().state
}

#[test]
fn fresh_supervisor_knows_no_job_and_no_transcript() {
    let s = supervisor();
    assert_eq!(s.job_count(), 0);
    assert_eq!(s.active_job(), None);
    assert_eq!(s.get_job_state(JobId(0)), None);
    assert_eq!(s.load_last_transcript(), None);
    assert!(s.subscribe_progress(JobId(0)).is_none());
}

#[test]
fn submit_hands_out_rising_ids() {
    let mut s = supervisor();
    let mut launched = 0;
    let a = s.submit_job("a.mp4".to_string(), true).unwrap();
    assert_eq!(a, JobId(0));
    assert_eq!(s.active_job(), Some(a));
    run_to_end(&mut s, a, "A", &mut launched);
    let b = s.submit_job("b.mp4".to_string(), true).unwrap();
    assert_eq!(b, JobId(1));
    assert_ne!(a, b);
    assert_eq!(s.job_count(), 2);
    assert_eq!(s.active_job(), Some(b));
    assert_eq!(
        s.get_job_state(b),
        Some(JobSnapshot {
            id: b,
            state: JobState::Pending,
            progress_percent: 0,
            transcript: None,
            error: None,
            warning: None,
        })
    );
}

#[test]
fn second_submit_while_active_is_busy_and_changes_nothing() {
    let mut s = supervisor();
    let id = s.submit_job("a.mp4".to_string(), true).unwrap();
    assert_eq!(s.submit_job("b.mp4".to_string(), true), Err(SupervisorError::Busy));
    assert_eq!(state(&s, id), JobState::Pending);
    s.advance(id, Event::Start, 1);
    let before = s.get_job_state(id);
    assert_eq!(s.submit_job("b.mp4".to_string(), true), Err(SupervisorError::Busy));
    assert_eq!(s.submit_job("missing.mp4".to_string(), false), Err(SupervisorError::Busy));
    assert_eq!(s.get_job_state(id), before);
    assert_eq!(state(&s, id), JobState::Extracting);
    assert_eq!(s.job_count(), 1);
    assert_eq!(s.active_job(), Some(id));
}

#[test]
fn submit_is_accepted_again_once_the_job_is_over() {
    let mut s = supervisor();
    let a = s.submit_job("a.mp4".to_string(), true).unwrap();
    s.advance(a, Event::Start, 1);
    s.advance(a, broke(1, "boom"), 2);
    assert_eq!(state(&s, a), JobState::Failed);
    assert_eq!(s.active_job(), None);
    let b = s.submit_job("b.mp4".to_string(), true).unwrap();
    s.cancel_job(b).unwrap();
    s.advance(b, Event::Start, 3);
    assert_eq!(state(&s, b), JobState::Cancelled);
    assert!(s.submit_job("c.mp4".to_string(), true).is_ok());
    assert_eq!(state(&s, a), JobState::Failed);
    assert_eq!(state(&s, b), JobState::Cancelled);
}

#[test]
fn at_most_one_job_is_active_at_any_time() {
    let mut s = supervisor();
    let mut launched = 0;
    for round in 0..5u64 {
        let id = s.submit_job(format!("v{}.mp4", round), true).unwrap();
        let mut active = 0;
        for k in 0..s.job_count() as u64 {
            if !state(&s, JobId(k)).terminal() {
                active += 1;
            }
        }
        assert_eq!(active, 1);
        if round % 2 == 0 {
            run_to_end(&mut s, id, "t", &mut launched);
        } else {
            s.advance(id, Event::Start, 1);
            s.advance(id, broke(3, "x"), 2);
        }
        assert_eq!(s.active_job(), None);
    }
}

#[test]
fn missing_source_is_an_invalid_path() {
    let mut s = supervisor();
    assert_eq!(s.submit_job("nowhere.mp4".to_string(), false), Err(SupervisorError::InvalidPath));
    assert_eq!(s.job_count(), 0);
    assert_eq!(s.active_job(), None);
}

#[test]
fn cancel_of_unknown_job_is_not_found() {
    let mut s = supervisor();
    assert_eq!(s.cancel_job(JobId(0)), Err(SupervisorError::NotFound));
    s.submit_job("a.mp4".to_string(), true).unwrap();
    assert_eq!(s.cancel_job(JobId(1)), Err(SupervisorError::NotFound));
    assert_eq!(s.cancel_job(JobId(u64::MAX)), Err(SupervisorError::NotFound));
}

#[test]
fn cancel_of_finished_job_is_already_terminal() {
    let mut s = supervisor();
    let mut launched = 0;
    let a = s.submit_job("a.mp4".to_string(), true).unwrap();
    run_to_end(&mut s, a, "t", &mut launched);
    let before = s.get_job_state(a);
    assert_eq!(s.cancel_job(a), Err(SupervisorError::AlreadyTerminal));
    assert_eq!(s.get_job_state(a), before);
    let b = s.submit_job("b.mp4".to_string(), true).unwrap();
    assert_eq!(s.cancel_job(a), Err(SupervisorError::AlreadyTerminal));
    assert_eq!(s.cancel_job(b), Ok(()));
    s.advance(b, Event::Start, 1);
    assert_eq!(s.cancel_job(b), Err(SupervisorError::AlreadyTerminal));
}

#[test]
fn cancel_does_not_move_the_state_by_itself() {
    let mut s = supervisor();
    let id = s.submit_job("a.mp4".to_string(), true).unwrap();
    s.advance(id, Event::Start, 1);
    let before = s.get_job_state(id);
    assert_eq!(s.cancel_job(id), Ok(()));
    assert_eq!(s.get_job_state(id), before);
    assert_eq!(s.cancel_job(id), Ok(()));
    assert_eq!(s.active_job(), Some(id));
}

#[test]
fn non_zero_extraction_fails_the_job_and_transcription_is_never_launched() {
    let mut s = supervisor();
    let id = s.submit_job("a.mp4".to_string(), true).unwrap();
    let mut launched = Vec::new();
    if let Directive::Run(command) = s.advance(id, Event::Start, 1) {
        launched.push(command.args[0].clone());
    }
    let stderr = "Error: moov atom not found\nexit status 1\n";
    match s.advance(id, broke(1, stderr), 2) {
        Directive::Run(command) => launched.push(command.args[0].clone()),
        other => assert_eq!(other, Directive::Finished),
    }
    assert_eq!(launched, vec!["../python/extract_audio.py".to_string()]);
    let snapshot = s.get_job_state(id).unwrap();
    assert_eq!(snapshot.state, JobState::Failed);
    let error = snapshot.error.unwrap();
    assert!(error.diagnostic.contains(stderr));
    assert_eq!(error.diagnostic, stderr);
    assert_eq!(error.kind, StageStatus::NonZeroExit);
    assert_eq!(error.stage, Stage::Extract);
    assert_eq!(snapshot.transcript, None);
    assert_eq!(s.advance(id, done("late"), 3), Directive::Finished);
    assert_eq!(s.load_last_transcript(), None);
}

#[test]
fn extraction_with_empty_or_absent_audio_fails_as_empty_output() {
    for produced_len in [None, Some(0u64)] {
        let mut s = supervisor();
        let id = s.submit_job("a.mp4".to_string(), true).unwrap();
        s.advance(id, Event::Start, 1);
        let event = Event::WorkerFinished {
            outcome: ProcessOutcome::Exited {
                code: Some(0),
                stdout: b"wrote audio".to_vec(),
                stderr: vec![],
            },
            produced_len,
        };
        assert_eq!(s.advance(id, event, 2), Directive::Finished);
        let snapshot = s.get_job_state(id).unwrap();
        assert_eq!(snapshot.state, JobState::Failed);
        assert_eq!(
            snapshot.error,
            Some(JobError {
                stage: Stage::Extract,
                kind: StageStatus::EmptyOutput,
                diagnostic: "empty output".to_string(),
            })
        );
    }
}

#[test]
fn cancel_while_extracting_ends_in_cancelled_before_transcription() {
    let mut s = supervisor();
    let id = s.submit_job("a.mp4".to_string(), true).unwrap();
    assert!(matches!(s.advance(id, Event::Start, 1), Directive::Run(_)));
    assert_eq!(state(&s, id), JobState::Extracting);
    assert_eq!(s.cancel_job(id), Ok(()));
    assert_eq!(s.advance(id, done(""), 2), Directive::Finished);
    assert_eq!(
        s.get_job_state(id),
        Some(JobSnapshot {
            id,
            state: JobState::Cancelled,
            progress_percent: 25,
            transcript: None,
            error: None,
            warning: None,
        })
    );
    let mut sub = s.subscribe_progress(id).unwrap();
    let first = s.next_event(&mut sub).unwrap();
    assert_eq!(first.stage, JobState::Extracting);
    assert_eq!(s.next_event(&mut sub), None);
    assert!(s.is_drained(&sub));
    assert_eq!(s.load_last_transcript(), None);
}

#[test]
fn no_transcript_is_loaded_before_a_job_completes() {
    let mut s = supervisor();
    assert_eq!(s.load_last_transcript(), None);
    let id = s.submit_job("a.mp4".to_string(), true).unwrap();
    assert_eq!(s.load_last_transcript(), None);
    s.advance(id, Event::Start, 1);
    s.advance(id, done(""), 2);
    assert_eq!(s.load_last_transcript(), None);
    assert!(matches!(s.advance(id, done("almost"), 3), Directive::Save(_)));
    assert_eq!(state(&s, id), JobState::Saving);
    assert_eq!(s.load_last_transcript(), None);
    s.advance(id, Event::Persisted { saved: Ok(()) }, 4);
    assert_eq!(
        s.load_last_transcript(),
        Some(PersistedTranscript { job_id: id, text: "almost".to_string(), created_at: 3 })
    );
}

#[test]
fn last_transcript_is_that_of_the_most_recent_completed_job() {
    let mut s = supervisor();
    let mut launched = 0;
    let a = s.submit_job("a.mp4".to_string(), true).unwrap();
    run_to_end(&mut s, a, "first", &mut launched);
    assert_eq!(s.load_last_transcript().unwrap().text, "first");
    assert_eq!(s.load_last_transcript().unwrap().job_id, a);

    let b = s.submit_job("b.mp4".to_string(), true).unwrap();
    s.advance(b, Event::Start, 1);
    s.advance(b, broke(1, "no"), 2);
    assert_eq!(s.load_last_transcript().unwrap().text, "first");

    let c = s.submit_job("c.mp4".to_string(), true).unwrap();
    s.cancel_job(c).unwrap();
    s.advance(c, Event::Start, 3);
    assert_eq!(s.load_last_transcript().unwrap().job_id, a);

    let d = s.submit_job("d.mp4".to_string(), true).unwrap();
    run_to_end(&mut s, d, "second", &mut launched);
    let last = s.load_last_transcript().unwrap();
    assert_eq!(last.job_id, d);
    assert_eq!(last.text, "second");
    assert_eq!(Some(last.text), s.get_job_state(d).unwrap().transcript);
    assert_eq!(launched, 4);
}

#[test]
fn last_transcript_persists_across_a_restart() {
    let mut s = supervisor();
    let mut launched = 0;
    let id = s.submit_job("a.mp4".to_string(), true).unwrap();
    let on_disk = run_to_end(&mut s, id, "kept \u{2713}\n", &mut launched).unwrap();
    let before = s.load_last_transcript();
    assert!(before.is_some());

    let restored = load(ReadOutcome::Found { bytes: on_disk }).unwrap();
    let mut again = Supervisor::new(Pipeline::python_workers(60), restored);
    assert_eq!(again.load_last_transcript(), before);
    assert_eq!(again.load_last_transcript().unwrap().text, "kept \u{2713}\n");
    assert_eq!(again.job_count(), 0);

    let next = again.submit_job("b.mp4".to_string(), true).unwrap();
    again.advance(next, Event::Start, 1);
    assert_eq!(again.load_last_transcript(), before);
    again.advance(next, done(""), 2);
    again.advance(next, done("newer"), 3);
    again.advance(next, Event::Persisted { saved: Ok(()) }, 4);
    assert_eq!(again.load_last_transcript().unwrap().text, "newer");
}

#[test]
fn restart_over_an_empty_store_loads_nothing() {
    let restored = load(ReadOutcome::Absent).unwrap();
    let s = Supervisor::new(Pipeline::python_workers(60), restored);
    assert_eq!(s.load_last_transcript(), None);
}

#[test]
fn failed_save_completes_with_warning_and_keeps_the_old_artifact() {
    let mut s = supervisor();
    let mut launched = 0;
    let a = s.submit_job("a.mp4".to_string(), true).unwrap();
    run_to_end(&mut s, a, "saved", &mut launched);

    let b = s.submit_job("b.mp4".to_string(), true).unwrap();
    s.advance(b, Event::Start, 1);
    s.advance(b, done(""), 2);
    s.advance(b, done("not saved"), 3);
    let saved = Err(StoreError::WriteFailed { reason: "read-only file system".to_string() });
    assert_eq!(s.advance(b, Event::Persisted { saved }, 4), Directive::Finished);
    let snapshot = s.get_job_state(b).unwrap();
    assert_eq!(snapshot.state, JobState::Completed);
    assert_eq!(snapshot.transcript, Some("not saved".to_string()));
    assert_eq!(snapshot.error, None);
    assert_eq!(
        snapshot.warning,
        Some(JobError {
            stage: Stage::Persist,
            kind: StageStatus::PersistenceFailed,
            diagnostic: "read-only file system".to_string(),
        })
    );
    assert_eq!(snapshot.progress_percent, 100);
    assert_eq!(s.load_last_transcript().unwrap().text, "saved");
    assert_eq!(s.load_last_transcript().unwrap().job_id, a);
}

#[test]
fn progress_of_a_completed_job_rises_to_100() {
    let mut s = supervisor();
    let mut launched = 0;
    let id = s.submit_job("a.mp4".to_string(), true).unwrap();
    let mut sub = s.subscribe_progress(id).unwrap();
    assert_eq!(s.next_event(&mut sub), None);
    assert!(!s.is_drained(&sub));
    run_to_end(&mut s, id, "t", &mut launched);
    let mut percents = Vec::new();
    let mut stages = Vec::new();
    while let Some(event) = s.next_event(&mut sub) {
        assert_eq!(event.job_id, id);
        percents.push(event.percent);
        stages.push(event.stage);
    }
    assert_eq!(percents, vec![25, 75, 90, 100]);
    assert_eq!(
        stages,
        vec![
            JobState::Extracting,
            JobState::Transcribing,
            JobState::Saving,
            JobState::Completed
        ]
    );
    assert!(percents.windows(2).all(|w| w[0] <= w[1]));
    assert_eq!(*percents.last().unwrap(), 100);
    assert!(s.is_drained(&sub));
    assert_eq!(sub.events_read(), 4);
    assert_eq!(sub.job(), id);
    assert_eq!(s.next_event(&mut sub), None);
    assert_eq!(sub.events_read(), 4);
}

#[test]
fn events_are_read_in_order_as_they_come() {
    let mut s = supervisor();
    let id = s.submit_job("a.mp4".to_string(), true).unwrap();
    let mut sub = s.subscribe_progress(id).unwrap();
    s.advance(id, Event::Start, 11);
    assert_eq!(
        s.next_event(&mut sub),
        Some(ProgressEvent {
            job_id: id,
            stage: JobState::Extracting,
            percent: 25,
            message: "Extracting audio from video...".to_string(),
            timestamp: 11,
        })
    );
    assert_eq!(s.next_event(&mut sub), None);
    assert!(!s.is_drained(&sub));
    s.advance(id, done(""), 12);
    s.advance(id, done("t"), 13);
    assert_eq!(s.next_event(&mut sub).unwrap().percent, 75);
    assert_eq!(s.next_event(&mut sub).unwrap().timestamp, 13);
    assert_eq!(s.next_event(&mut sub), None);
}

#[test]
fn state_is_retrievable_without_reading_any_event() {
    let mut s = supervisor();
    let mut launched = 0;
    let id = s.submit_job("a.mp4".to_string(), true).unwrap();
    run_to_end(&mut s, id, "unseen", &mut launched);
    assert_eq!(
        s.get_job_state(id),
        Some(JobSnapshot {
            id,
            state: JobState::Completed,
            progress_percent: 100,
            transcript: Some("unseen".to_string()),
            error: None,
            warning: None,
        })
    );
    let late = s.subscribe_progress(id).unwrap();
    assert!(!s.is_drained(&late));
}

#[test]
fn reports_on_unknown_or_finished_jobs_change_nothing() {
    let mut s = supervisor();
    assert_eq!(s.advance(JobId(0), Event::Start, 1), Directive::Ignored);
    assert_eq!(s.job_count(), 0);
    let mut launched = 0;
    let a = s.submit_job("a.mp4".to_string(), true).unwrap();
    run_to_end(&mut s, a, "t", &mut launched);
    let before = s.get_job_state(a);
    assert_eq!(s.advance(a, Event::Start, 9), Directive::Finished);
    assert_eq!(s.advance(a, done("x"), 9), Directive::Finished);
    assert_eq!(s.advance(JobId(5), done("x"), 9), Directive::Ignored);
    assert_eq!(s.get_job_state(a), before);
    let b = s.submit_job("b.mp4".to_string(), true).unwrap();
    assert_eq!(s.advance(a, Event::Persisted { saved: Ok(()) }, 9), Directive::Finished);
    assert_eq!(state(&s, b), JobState::Pending);
    assert_eq!(s.get_job_state(a), before);
}

#[test]
fn states_visited_follow_the_edges() {
    let mut s = supervisor();
    let id = s.submit_job("a.mp4".to_string(), true).unwrap();
    let mut visited = vec![state(&s, id)];
    let reports = vec![
        Event::Persisted { saved: Ok(()) },
        Event::Start,
        Event::Start,
        done(""),
        Event::Persisted { saved: Ok(()) },
        done("t"),
        done("t"),
        Event::Persisted { saved: Ok(()) },
        Event::Start,
        done("t"),
    ];
    for (now, event) in reports.into_iter().enumerate() {
        s.advance(id, event, now as u64);
        let next = state(&s, id);
        let last = *visited.last().unwrap();
        assert!(next == last || last.can_step_to(&next));
        if next != last {
            visited.push(next);
        }
    }
    assert_eq!(
        visited,
        vec![
            JobState::Pending,
            JobState::Extracting,
            JobState::Transcribing,
            JobState::Saving,
            JobState::Completed
        ]
    );
}

#[test]
fn supervisor_takes_stage_outcomes_directly() {
    let mut s = supervisor();
    let id = s.submit_job("a.mp4".to_string(), true).unwrap();
    let ok = StageResult {
        stage: Stage::Extract,
        status: StageStatus::Succeeded,
        output: "a.wav".to_string(),
        diagnostic: String::new(),
    };
    assert_eq!(s.apply_result(JobId(7), ok.clone(), 1), Directive::Ignored);
    assert_eq!(s.apply_result(id, ok.clone(), 1), Directive::Ignored);
    s.advance(id, Event::Start, 2);
    assert!(matches!(s.apply_result(id, ok, 3), Directive::Run(_)));
    let bad = StageResult {
        stage: Stage::Transcribe,
        status: StageStatus::TimedOut,
        output: String::new(),
        diagnostic: "timed out".to_string(),
    };
    assert_eq!(s.apply_result(id, bad.clone(), 4), Directive::Finished);
    assert_eq!(state(&s, id), JobState::Failed);
    assert_eq!(s.apply_result(id, bad, 5), Directive::Finished);
}
