use transcription_pipeline::state::{JobId, JobState};

const ALL: [JobState; 7] = [
    JobState::Pending,
    JobState::Extracting,
    JobState::Transcribing,
    JobState::Saving,
    JobState::Completed,
    JobState::Failed,
    JobState::Cancelled,
];

#[test]
fn forward_edges_follow_the_pipeline() {
    assert!(JobState::Pending.can_step_to(&JobState::Extracting));
    assert!(JobState::Extracting.can_step_to(&JobState::Transcribing));
    assert!(JobState::Transcribing.can_step_to(&JobState::Saving));
    assert!(JobState::Saving.can_step_to(&JobState::Completed));
}

#[test]
fn no_stage_is_skipped() {
    assert!(!JobState::Pending.can_step_to(&JobState::Transcribing));
    assert!(!JobState::Pending.can_step_to(&JobState::Saving));
    assert!(!JobState::Pending.can_step_to(&JobState::Completed));
    assert!(!JobState::Extracting.can_step_to(&JobState::Saving));
    assert!(!JobState::Extracting.can_step_to(&JobState::Completed));
    assert!(!JobState::Transcribing.can_step_to(&JobState::Completed));
}

#[test]
fn no_edge_leads_back() {
    assert!(!JobState::Extracting.can_step_to(&JobState::Pending));
    assert!(!JobState::Transcribing.can_step_to(&JobState::Extracting));
    assert!(!JobState::Saving.can_step_to(&JobState::Transcribing));
    assert!(!JobState::Saving.can_step_to(&JobState::Pending));
    for state in ALL {
        assert!(!state.can_step_to(&state));
        assert!(!state.can_step_to(&JobState::Pending));
    }
}

#[test]
fn every_working_state_can_fail_or_be_cancelled() {
    for state in [
        JobState::Pending,
        JobState::Extracting,
        JobState::Transcribing,
        JobState::Saving,
    ] {
        assert!(!state.terminal());
        assert!(state.can_step_to(&JobState::Failed));
        assert!(state.can_step_to(&JobState::Cancelled));
    }
}

#[test]
fn terminal_states_have_no_way_out() {
    for state in [JobState::Completed, JobState::Failed, JobState::Cancelled] {
        assert!(state.terminal());
        for next in ALL {
            assert!(!state.can_step_to(&next));
        }
    }
}

#[test]
fn exactly_twelve_edges_exist() {
    let mut edges = 0;
    for from in ALL {
        for to in ALL {
            if from.can_step_to(&to) {
                edges += 1;
            }
        }
    }
    assert_eq!(edges, 12);
}

#[test]
fn successor_of_each_state() {
    assert_eq!(JobState::Pending.next_on_success(), JobState::Extracting);
    assert_eq!(JobState::Extracting.next_on_success(), JobState::Transcribing);
    assert_eq!(JobState::Transcribing.next_on_success(), JobState::Saving);
    assert_eq!(JobState::Saving.next_on_success(), JobState::Completed);
    assert_eq!(JobState::Completed.next_on_success(), JobState::Completed);
    assert_eq!(JobState::Failed.next_on_success(), JobState::Failed);
    assert_eq!(JobState::Cancelled.next_on_success(), JobState::Cancelled);
}

#[test]
fn checkpoints_are_fixed() {
    assert_eq!(JobState::Pending.progress_checkpoint(), 0);
    assert_eq!(JobState::Extracting.progress_checkpoint(), 25);
    assert_eq!(JobState::Transcribing.progress_checkpoint(), 75);
    assert_eq!(JobState::Saving.progress_checkpoint(), 90);
    assert_eq!(JobState::Completed.progress_checkpoint(), 100);
}

#[test]
fn labels_name_the_states() {
    assert_eq!(JobState::Pending.label(), "pending");
    assert_eq!(JobState::Extracting.label(), "extracting");
    assert_eq!(JobState::Transcribing.label(), "transcribing");
    assert_eq!(JobState::Saving.label(), "saving");
    assert_eq!(JobState::Completed.label(), "complete");
    assert_eq!(JobState::Failed.label(), "failed");
    assert_eq!(JobState::Cancelled.label(), "cancelled");
}

#[test]
fn messages_announce_the_stages() {
    assert_eq!(JobState::Extracting.message(), "Extracting audio from video...");
    assert_eq!(JobState::Transcribing.message(), "Generating transcript with AI...");
    assert_eq!(JobState::Saving.message(), "Saving transcript...");
    assert_eq!(JobState::Completed.message(), "Transcription complete!");
    assert_eq!(JobState::Pending.message(), "");
    assert_eq!(JobState::Failed.message(), "");
    assert_eq!(JobState::Cancelled.message(), "");
}

#[test]
fn job_ids_compare_by_number() {
    assert_eq!(JobId(3), JobId(3));
    assert_ne!(JobId(3), JobId(4));
}
