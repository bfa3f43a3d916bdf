//! One transcription job: its record, the events it emits, and the one
//! function that moves it from state to state.

use crate::stage::{
    begin, begin_spec, conclude, conclude_persist, conclude_persist_spec, conclude_spec,
    saved_view, text_view, ArgPart, ArgPartView, Command, CommandView, Stage, StageResult,
    StageResultView, StageSpec, StageSpecView, StageStatus, StageStep, StageStepView,
};
use crate::state::{JobId, JobState};
use crate::store::{
    plan_save, plan_spec, PersistedTranscript, PersistedTranscriptView, SavePlan, SavePlanView,
    StoreError, StoreErrorView,
};
use crate::worker::{lossy_text, ProcessOutcome, ProcessOutcomeView};
use vstd::prelude::*;

verus! {

/// The announcement that a job has entered a state.
#[derive(Clone, Debug, PartialEq, Eq)]
pub struct ProgressEvent {
    pub job_id: JobId,
    pub stage: JobState,
    pub percent: u8,
    pub message: String,
    pub timestamp: u64,
}

pub struct ProgressEventView {
    pub job_id: JobId,
    pub stage: JobState,
    pub percent: u8,
    pub message: Seq<char>,
    pub timestamp: u64,
}

impl View for ProgressEvent {
    type V = ProgressEventView;

    open spec fn view(&self) -> ProgressEventView {
        ProgressEventView {
            job_id: self.job_id,
            stage: self.stage,
            percent: self.percent,
            message: self.message@,
            timestamp: self.timestamp,
        }
    }
}

/// The event that announces the entry of job `id` into `state` at `now`.
pub open spec fn checkpoint_event(id: JobId, state: JobState, now: u64) -> ProgressEventView {
    ProgressEventView {
        job_id: id,
        stage: state,
        percent: state.checkpoint(),
        message: state.message_spec(),
        timestamp: now,
    }
}

pub open spec fn event_view(e: Option<ProgressEvent>) -> Option<ProgressEventView> {
    match e {
        Some(event) => Some(event@),
        None => None,
    }
}

/// The state that the event at position `i` of a job's events announces.
pub open spec fn announced_at(i: int) -> JobState {
    if i == 0 {
        JobState::Extracting
    } else if i == 1 {
        JobState::Transcribing
    } else if i == 2 {
        JobState::Saving
    } else {
        JobState::Completed
    }
}

/// Why a job failed, or what went wrong without failing it.
#[derive(Clone, Debug, PartialEq, Eq)]
pub struct JobError {
    pub stage: Stage,
    pub kind: StageStatus,
    /// The failing party's own words, unchanged.
    pub diagnostic: String,
}

pub struct JobErrorView {
    pub stage: Stage,
    pub kind: StageStatus,
    pub diagnostic: Seq<char>,
}

impl View for JobError {
    type V = JobErrorView;

    open spec fn view(&self) -> JobErrorView {
        JobErrorView { stage: self.stage, kind: self.kind, diagnostic: self.diagnostic@ }
    }
}

pub open spec fn error_view(e: Option<JobError>) -> Option<JobErrorView> {
    match e {
        Some(error) => Some(error@),
        None => None,
    }
}

/// The error that a stage's outcome stands for.
pub open spec fn error_of(result: StageResultView) -> JobErrorView {
    JobErrorView { stage: result.stage, kind: result.status, diagnostic: result.diagnostic }
}

/// What a job looks like from outside at one moment.
#[derive(Clone, Debug, PartialEq, Eq)]
pub struct JobSnapshot {
    pub id: JobId,
    pub state: JobState,
    pub progress_percent: u8,
    pub transcript: Option<String>,
    pub error: Option<JobError>,
    /// What went wrong without failing the job.
    pub warning: Option<JobError>,
}

pub struct JobSnapshotView {
    pub id: JobId,
    pub state: JobState,
    pub progress_percent: u8,
    pub transcript: Option<Seq<char>>,
    pub error: Option<JobErrorView>,
    pub warning: Option<JobErrorView>,
}

impl View for JobSnapshot {
    type V = JobSnapshotView;

    open spec fn view(&self) -> JobSnapshotView {
        JobSnapshotView {
            id: self.id,
            state: self.state,
            progress_percent: self.progress_percent,
            transcript: text_view(self.transcript),
            error: error_view(self.error),
            warning: error_view(self.warning),
        }
    }
}

/// The two workers of the pipeline. Extraction owes a file, transcription
/// owes text.
pub struct Pipeline {
    extract: StageSpec,
    transcribe: StageSpec,
}

pub struct PipelineView {
    pub extract: StageSpecView,
    pub transcribe: StageSpecView,
}

impl PipelineView {
    pub open spec fn wf(self) -> bool {
        &&& self.extract.stage is Extract
        &&& self.extract.output_file is Some
        &&& self.transcribe.stage is Transcribe
        &&& self.transcribe.output_file is None
    }
}

impl View for Pipeline {
    type V = PipelineView;

    closed spec fn view(&self) -> PipelineView {
        PipelineView { extract: self.extract@, transcribe: self.transcribe@ }
    }
}

/// The two Python workers as they lie beside the program: extraction
/// writes the audio to one fixed file, transcription reads that file and
/// prints the transcript.
pub open spec fn python_workers_spec(timeout_secs: u64) -> PipelineView {
    PipelineView {
        extract: StageSpecView {
            stage: Stage::Extract,
            executable: "python3"@,
            args: seq![
                ArgPartView::Literal("../python/extract_audio.py"@),
                ArgPartView::Input,
                ArgPartView::Literal("../audio.wav"@),
            ],
            output_file: Some("../audio.wav"@),
            timeout_secs,
        },
        transcribe: StageSpecView {
            stage: Stage::Transcribe,
            executable: "python3"@,
            args: seq![ArgPartView::Literal("../python/transcribe.py"@), ArgPartView::Input],
            output_file: None,
            timeout_secs,
        },
    }
}

/// What the driver reports to a job.
#[derive(Debug, PartialEq, Eq)]
pub enum Event {
    /// The driver is ready to work on the job.
    Start,
    /// The worker that was launched last is over. `produced_len` is the
    /// length of the file that its command named, `None` where the file is
    /// not there or none was named.
    WorkerFinished { outcome: ProcessOutcome, produced_len: Option<u64> },
    /// The save that was asked for last is over.
    Persisted { saved: Result<(), StoreError> },
}

pub enum EventView {
    Start,
    WorkerFinished { outcome: ProcessOutcomeView, produced_len: Option<u64> },
    Persisted { saved: Result<(), StoreErrorView> },
}

impl View for Event {
    type V = EventView;

    open spec fn view(&self) -> EventView {
        match *self {
            Event::Start => EventView::Start,
            Event::WorkerFinished { outcome, produced_len } => EventView::WorkerFinished {
                outcome: outcome@,
                produced_len,
            },
            Event::Persisted { saved } => EventView::Persisted { saved: saved_view(saved) },
        }
    }
}

/// What the driver is to do next.
#[derive(Clone, Debug, PartialEq, Eq)]
pub enum Directive {
    /// Launch this worker, then report `WorkerFinished`.
    Run(Command),
    /// Carry out this save, then report `Persisted`.
    Save(SavePlan),
    /// The job is over; nothing is left to do.
    Finished,
    /// The event did not fit the job's state and changed nothing.
    Ignored,
}

pub enum DirectiveView {
    Run(CommandView),
    Save(SavePlanView),
    Finished,
    Ignored,
}

impl View for Directive {
    type V = DirectiveView;

    open spec fn view(&self) -> DirectiveView {
        match *self {
            Directive::Run(command) => DirectiveView::Run(command@),
            Directive::Save(plan) => DirectiveView::Save(plan@),
            Directive::Finished => DirectiveView::Finished,
            Directive::Ignored => DirectiveView::Ignored,
        }
    }
}

/// A job as the contracts speak of it.
pub struct JobView {
    pub id: JobId,
    pub source_path: Seq<char>,
    pub state: JobState,
    pub progress_percent: u8,
    pub transcript: Option<Seq<char>>,
    pub error: Option<JobErrorView>,
    pub warning: Option<JobErrorView>,
    /// Cancellation was asked for. The job takes notice at the entry of
    /// its next stage.
    pub cancel_requested: bool,
    /// What the next stage takes in: the source at first, then the product
    /// of the stage that succeeded last.
    pub handoff: Seq<char>,
    /// When the entry into `Saving` was announced.
    pub saving_since: u64,
    /// Every event emitted so far, oldest first.
    pub events: Seq<ProgressEventView>,
}

impl JobView {
    /// A job as it is submitted.
    pub open spec fn created(id: JobId, source_path: Seq<char>) -> JobView {
        JobView {
            id,
            source_path,
            state: JobState::Pending,
            progress_percent: 0,
            transcript: None,
            error: None,
            warning: None,
            cancel_requested: false,
            handoff: source_path,
            saving_since: 0,
            events: Seq::empty(),
        }
    }

    /// Each event announces the state that its position stands for, at that
    /// state's checkpoint and in that state's words.
    pub open spec fn events_wf(self) -> bool {
        forall|i: int|
            0 <= i < self.events.len() ==> #[trigger] self.events[i] == checkpoint_event(
                self.id,
                announced_at(i),
                self.events[i].timestamp,
            )
    }

    /// The invariant of a job. A transcript is there exactly in
    /// `Completed`, an error exactly in `Failed`, a warning only in
    /// `Completed`; one event was emitted for each state entered along the
    /// pipeline, and the progress is the checkpoint of the last of them.
    pub open spec fn wf(self) -> bool {
        &&& self.transcript is Some <==> self.state is Completed
        &&& self.error is Some <==> self.state is Failed
        &&& self.warning is Some ==> self.state is Completed
        &&& self.state is Completed ==> self.transcript == Some(self.handoff)
        &&& self.events_wf()
        &&& self.events.len() <= 4
        &&& (self.state is Failed || self.state is Cancelled) ==> self.events.len() <= 3
        &&& !(self.state is Failed || self.state is Cancelled) ==> self.events.len()
            == self.state.rank()
        &&& self.events.len() == 0 ==> self.progress_percent == 0
        &&& self.events.len() > 0 ==> self.progress_percent == self.events.last().percent
    }

    /// The job is not over yet.
    pub open spec fn is_active(self) -> bool {
        !self.state.is_terminal()
    }

    /// The event at position `i` in the order of emission, if that many
    /// were emitted.
    pub open spec fn event_at(self, i: int) -> Option<ProgressEventView> {
        if 0 <= i < self.events.len() {
            Some(self.events[i])
        } else {
            None
        }
    }

    /// What the job looks like from outside.
    pub open spec fn snapshot(self) -> JobSnapshotView {
        JobSnapshotView {
            id: self.id,
            state: self.state,
            progress_percent: self.progress_percent,
            transcript: self.transcript,
            error: self.error,
            warning: self.warning,
        }
    }

    /// The job completed and its transcript was saved.
    pub open spec fn has_saved(self) -> bool {
        self.state is Completed && self.warning is None
    }

    /// The record that a job in `Saving` or `Completed` stands for.
    pub open spec fn record(self) -> PersistedTranscriptView {
        PersistedTranscriptView {
            job_id: self.id,
            text: self.handoff,
            created_at: self.saving_since,
        }
    }

    /// Cancellation is asked for; nothing else changes.
    pub open spec fn cancel_asked(self) -> JobView {
        JobView { cancel_requested: true, ..self }
    }

    /// The job enters `state` at `now` and announces it.
    pub open spec fn entered(self, state: JobState, now: u64) -> JobView {
        JobView {
            state,
            progress_percent: state.checkpoint(),
            events: self.events.push(checkpoint_event(self.id, state, now)),
            ..self
        }
    }

    /// The job ends in `Cancelled`; no event is emitted.
    pub open spec fn cancelled(self) -> JobView {
        JobView { state: JobState::Cancelled, ..self }
    }

    /// The job ends in `Failed` with the stage's outcome as its error; no
    /// event is emitted.
    pub open spec fn failed(self, result: StageResultView) -> JobView {
        JobView { state: JobState::Failed, error: Some(error_of(result)), ..self }
    }

    /// At the entry of a worker stage: a job whose cancellation was asked
    /// for ends in `Cancelled` and launches nothing; any other enters the
    /// stage's state and launches the worker on what was handed on.
    pub open spec fn enter_worker_stage(self, spec: StageSpecView, now: u64) -> (
        JobView,
        DirectiveView,
    ) {
        match begin_spec(spec, self.handoff, self.cancel_requested) {
            StageStepView::Finished(_) => (self.cancelled(), DirectiveView::Finished),
            StageStepView::Launch(command) => (
                self.entered(self.state.successor(), now),
                DirectiveView::Run(command),
            ),
        }
    }

    /// At the entry of the save: cancelled as at any other entry, or else
    /// `Saving` from `now` on, with the plan for the record.
    pub open spec fn enter_saving(self, now: u64) -> (JobView, DirectiveView) {
        if self.cancel_requested {
            (self.cancelled(), DirectiveView::Finished)
        } else {
            let saving = JobView { saving_since: now, ..self.entered(JobState::Saving, now) };
            (saving, DirectiveView::Save(plan_spec(saving.record())))
        }
    }

    /// After a worker stage. A stage that saw cancellation ends the job in
    /// `Cancelled`; one that failed otherwise fails the job, and nothing
    /// further runs. One that succeeded hands its product on to the entry
    /// of what follows: the stage `next`, or the save.
    pub open spec fn after_worker(
        self,
        result: StageResultView,
        next: Option<StageSpecView>,
        now: u64,
    ) -> (JobView, DirectiveView) {
        if result.status is Cancelled {
            (self.cancelled(), DirectiveView::Finished)
        } else if !result.succeeded() {
            (self.failed(result), DirectiveView::Finished)
        } else {
            let handed = JobView { handoff: result.output, ..self };
            match next {
                Some(spec) => handed.enter_worker_stage(spec, now),
                None => handed.enter_saving(now),
            }
        }
    }

    /// After the save. The job completes with its transcript whatever the
    /// store said; a failed save leaves a warning and no error.
    pub open spec fn after_persist(self, result: StageResultView, now: u64) -> JobView {
        JobView {
            transcript: Some(self.handoff),
            warning: if result.succeeded() {
                None
            } else {
                Some(error_of(result))
            },
            ..self.entered(JobState::Completed, now)
        }
    }

    /// The driver is ready: a pending job goes to the entry of extraction.
    pub open spec fn started(self, pipeline: PipelineView, now: u64) -> (JobView, DirectiveView) {
        match self.state {
            JobState::Pending => self.enter_worker_stage(pipeline.extract, now),
            JobState::Extracting | JobState::Transcribing | JobState::Saving => (
                self,
                DirectiveView::Ignored,
            ),
            _ => (self, DirectiveView::Finished),
        }
    }

    /// The stage that the job is in has ended with `result`.
    pub open spec fn after_result(self, pipeline: PipelineView, result: StageResultView, now: u64)
        -> (JobView, DirectiveView) {
        match self.state {
            JobState::Pending => (self, DirectiveView::Ignored),
            JobState::Extracting => self.after_worker(result, Some(pipeline.transcribe), now),
            JobState::Transcribing => self.after_worker(result, None, now),
            JobState::Saving => (self.after_persist(result, now), DirectiveView::Finished),
            _ => (self, DirectiveView::Finished),
        }
    }

    /// The transition function of a job: from its state and what the
    /// driver reports to its next state and what the driver is to do. A job
    /// that is over answers `Finished` to everything; an event that does
    /// not fit the state of a job at work is ignored.
    pub open spec fn step(self, pipeline: PipelineView, event: EventView, now: u64) -> (
        JobView,
        DirectiveView,
    ) {
        match event {
            EventView::Start => self.started(pipeline, now),
            EventView::WorkerFinished { outcome, produced_len } => match self.state {
                JobState::Extracting => self.after_result(
                    pipeline,
                    conclude_spec(pipeline.extract, outcome, produced_len),
                    now,
                ),
                JobState::Transcribing => self.after_result(
                    pipeline,
                    conclude_spec(pipeline.transcribe, outcome, produced_len),
                    now,
                ),
                JobState::Pending | JobState::Saving => (self, DirectiveView::Ignored),
                _ => (self, DirectiveView::Finished),
            },
            EventView::Persisted { saved } => match self.state {
                JobState::Saving => self.after_result(
                    pipeline,
                    conclude_persist_spec(saved),
                    now,
                ),
                JobState::Pending | JobState::Extracting | JobState::Transcribing => (
                    self,
                    DirectiveView::Ignored,
                ),
                _ => (self, DirectiveView::Finished),
            },
        }
    }
}

/// The events of `before` are the first events of `after`, unchanged.
pub open spec fn events_extend(before: JobView, after: JobView) -> bool {
    &&& before.events.len() <= after.events.len()
    &&& after.events.subrange(0, before.events.len() as int) == before.events
}

/// What every transition of a job keeps: its identity, the validity of its
/// record, the direction of its lifecycle, and what it has emitted.
pub open spec fn evolves(before: JobView, after: JobView) -> bool {
    &&& after.wf()
    &&& after.id == before.id
    &&& after.source_path == before.source_path
    &&& after.state == before.state || before.state.may_step_to(after.state)
    &&& before.progress_percent <= after.progress_percent
    &&& events_extend(before, after)
    &&& before.cancel_requested ==> after.cancel_requested
}

/// A job as submitted is valid, pending and silent.
pub proof fn lemma_created_wf(id: JobId, source_path: Seq<char>)
    ensures
        JobView::created(id, source_path).wf(),
        JobView::created(id, source_path).state is Pending,
        JobView::created(id, source_path).events.len() == 0,
{
}

/// Asking for cancellation changes neither the state nor what was emitted.
pub proof fn lemma_cancel_asked_evolves(job: JobView)
    requires
        job.wf(),
    ensures
        evolves(job, job.cancel_asked()),
        job.cancel_asked().state == job.state,
        job.cancel_asked().snapshot() == job.snapshot(),
{
    assert(job.cancel_asked().events =~= job.events);
    assert(job.events.subrange(0, job.events.len() as int) =~= job.events);
}

/// The driver's readiness moves a valid job along an edge or not at all.
pub proof fn lemma_started_evolves(job: JobView, pipeline: PipelineView, now: u64)
    requires
        job.wf(),
    ensures
        evolves(job, job.started(pipeline, now).0),
{
    let after = job.started(pipeline, now).0;
    assert(job.events.subrange(0, job.events.len() as int) =~= job.events);
    assert(after.events.subrange(0, job.events.len() as int) =~= job.events);
}

/// The end of a stage moves a valid job along an edge or not at all,
/// whatever the stage's outcome.
pub proof fn lemma_after_result_evolves(
    job: JobView,
    pipeline: PipelineView,
    result: StageResultView,
    now: u64,
)
    requires
        job.wf(),
    ensures
        evolves(job, job.after_result(pipeline, result, now).0),
{
    let after = job.after_result(pipeline, result, now).0;
    assert(job.events.subrange(0, job.events.len() as int) =~= job.events);
    assert(after.events.subrange(0, job.events.len() as int) =~= job.events);
}

/// Every transition of a valid job yields a valid job, moves its state
/// along an edge of the lifecycle or leaves it where it is, never lowers
/// its progress, and only adds to its events.
pub proof fn lemma_step_evolves(job: JobView, pipeline: PipelineView, event: EventView, now: u64)
    requires
        job.wf(),
    ensures
        evolves(job, job.step(pipeline, event, now).0),
{
    match event {
        EventView::Start => lemma_started_evolves(job, pipeline, now),
        EventView::WorkerFinished { outcome, produced_len } => {
            lemma_after_result_evolves(
                job,
                pipeline,
                conclude_spec(pipeline.extract, outcome, produced_len),
                now,
            );
            lemma_after_result_evolves(
                job,
                pipeline,
                conclude_spec(pipeline.transcribe, outcome, produced_len),
                now,
            );
            assert(job.events.subrange(0, job.events.len() as int) =~= job.events);
        },
        EventView::Persisted { saved } => {
            lemma_after_result_evolves(job, pipeline, conclude_persist_spec(saved), now);
            assert(job.events.subrange(0, job.events.len() as int) =~= job.events);
        },
    }
}

/// A job that is over stays as it is: whatever the driver reports, nothing
/// changes and nothing is left to do.
pub proof fn lemma_terminal_is_final(job: JobView, pipeline: PipelineView, event: EventView, now: u64)
    requires
        job.state.is_terminal(),
    ensures
        job.step(pipeline, event, now) == (job, DirectiveView::Finished),
{
}

/// A worker that reports failure fails the job. The error names the stage
/// and holds the worker's error stream, decoded, as the diagnostic; no
/// event is emitted, and no worker is launched after it.
pub proof fn lemma_worker_failure_fails_job(
    job: JobView,
    pipeline: PipelineView,
    code: Option<i32>,
    stdout: Seq<u8>,
    stderr: Seq<u8>,
    produced_len: Option<u64>,
    now: u64,
)
    requires
        job.state is Extracting || job.state is Transcribing,
        code != Some(0i32),
    ensures
        ({
            let (after, directive) = job.step(
                pipeline,
                EventView::WorkerFinished {
                    outcome: ProcessOutcomeView::Exited { code, stdout, stderr },
                    produced_len,
                },
                now,
            );
            &&& after.state is Failed
            &&& directive is Finished
            &&& after.error == Some(
                JobErrorView {
                    stage: if job.state is Extracting {
                        pipeline.extract.stage
                    } else {
                        pipeline.transcribe.stage
                    },
                    kind: StageStatus::NonZeroExit,
                    diagnostic: lossy_text(stderr),
                },
            )
            &&& after.transcript == job.transcript
            &&& after.events == job.events
        }),
{
}

/// An extraction that reports success and leaves its file absent or empty
/// fails the job as `EmptyOutput`, and no worker is launched after it.
pub proof fn lemma_empty_output_fails_job(
    job: JobView,
    pipeline: PipelineView,
    stdout: Seq<u8>,
    stderr: Seq<u8>,
    produced_len: Option<u64>,
    now: u64,
)
    requires
        pipeline.wf(),
        job.state is Extracting,
        produced_len is None || produced_len == Some(0u64),
    ensures
        ({
            let (after, directive) = job.step(
                pipeline,
                EventView::WorkerFinished {
                    outcome: ProcessOutcomeView::Exited { code: Some(0i32), stdout, stderr },
                    produced_len,
                },
                now,
            );
            &&& after.state is Failed
            &&& directive is Finished
            &&& after.error matches Some(e) && e.kind is EmptyOutput && e.stage is Extract
            &&& after.events == job.events
        }),
{
}

/// Once cancellation is asked of a job, no report of the driver launches a
/// worker or plans a save any more.
pub proof fn lemma_cancel_launches_nothing(
    job: JobView,
    pipeline: PipelineView,
    event: EventView,
    now: u64,
)
    requires
        job.cancel_requested,
    ensures
        !(job.step(pipeline, event, now).1 is Run),
        !(job.step(pipeline, event, now).1 is Save),
        job.step(pipeline, event, now).0.cancel_requested,
{
}

/// A job cancelled during a worker stage ends when that worker is over:
/// in `Cancelled`, without transcript and without error, where the stage
/// succeeded, and in `Failed` where the stage itself failed. Either way
/// the stage that would follow never begins.
pub proof fn lemma_cancel_during_worker_stage(
    job: JobView,
    pipeline: PipelineView,
    outcome: ProcessOutcomeView,
    produced_len: Option<u64>,
    now: u64,
)
    requires
        job.wf(),
        job.state is Extracting || job.state is Transcribing,
    ensures
        ({
            let spec = if job.state is Extracting {
                pipeline.extract
            } else {
                pipeline.transcribe
            };
            let result = conclude_spec(spec, outcome, produced_len);
            let (after, directive) = job.cancel_asked().step(
                pipeline,
                EventView::WorkerFinished { outcome, produced_len },
                now,
            );
            &&& directive is Finished
            &&& after.events == job.events
            &&& after.transcript is None
            &&& result.succeeded() ==> after.state is Cancelled && after.error is None
            &&& !result.succeeded() ==> after.state is Failed && after.error == Some(
                error_of(result),
            )
        }),
{
}

/// The events of a valid job, in the order of emission, never fall in
/// percent, and the job's progress is the percent of the last of them.
pub proof fn lemma_progress_never_falls(job: JobView, i: int, j: int)
    requires
        job.wf(),
        0 <= i <= j < job.events.len(),
    ensures
        job.events[i].percent <= job.events[j].percent,
        job.events[j].percent <= job.progress_percent,
        job.progress_percent <= 100,
        job.events[i].job_id == job.id,
{
    let last = job.events.len() - 1;
    assert(job.events[i] == checkpoint_event(job.id, announced_at(i), job.events[i].timestamp));
    assert(job.events[j] == checkpoint_event(job.id, announced_at(j), job.events[j].timestamp));
    assert(job.events[last] == checkpoint_event(
        job.id,
        announced_at(last),
        job.events[last].timestamp,
    ));
}

/// A completed job has emitted exactly four events, at 25, 75, 90 and 100
/// percent in that order: its progress ends at 100.
pub proof fn lemma_completed_progress(job: JobView)
    requires
        job.wf(),
        job.state is Completed,
    ensures
        job.events.len() == 4,
        job.events[0].percent == 25,
        job.events[1].percent == 75,
        job.events[2].percent == 90,
        job.events[3].percent == 100,
        job.events.last().stage is Completed,
        job.progress_percent == 100,
        job.transcript == Some(job.record().text),
        job.error is None,
{
    assert(job.events[0] == checkpoint_event(job.id, announced_at(0), job.events[0].timestamp));
    assert(job.events[1] == checkpoint_event(job.id, announced_at(1), job.events[1].timestamp));
    assert(job.events[2] == checkpoint_event(job.id, announced_at(2), job.events[2].timestamp));
    assert(job.events[3] == checkpoint_event(job.id, announced_at(3), job.events[3].timestamp));
}

/// A job at work or at rest, moved only by its own transitions.
pub struct Job {
    id: JobId,
    source_path: String,
    state: JobState,
    progress_percent: u8,
    transcript: Option<String>,
    error: Option<JobError>,
    warning: Option<JobError>,
    cancel_requested: bool,
    handoff: String,
    saving_since: u64,
    events: Vec<ProgressEvent>,
}

impl View for Job {
    type V = JobView;

    closed spec fn view(&self) -> JobView {
        JobView {
            id: self.id,
            source_path: self.source_path@,
            state: self.state,
            progress_percent: self.progress_percent,
            transcript: text_view(self.transcript),
            error: error_view(self.error),
            warning: error_view(self.warning),
            cancel_requested: self.cancel_requested,
            handoff: self.handoff@,
            saving_since: self.saving_since,
            events: self.events@.map_values(|e: ProgressEvent| e@),
        }
    }
}

fn copy_error(error: &Option<JobError>) -> (copy: Option<JobError>)
    ensures
        error_view(copy) == error_view(*error),
{
    match error {
        Some(e) => Some(
            JobError { stage: e.stage, kind: e.kind, diagnostic: e.diagnostic.clone() },
        ),
        None => None,
    }
}

fn copy_transcript(text: &Option<String>) -> (copy: Option<String>)
    ensures
        text_view(copy) == text_view(*text),
{
    match text {
        Some(t) => Some(t.clone()),
        None => None,
    }
}

impl ProgressEvent {
    /// The event that announces the entry of a job into a state.
    pub fn checkpoint(id: JobId, state: JobState, now: u64) -> (event: ProgressEvent)
        ensures
            event@ == checkpoint_event(id, state, now),
    {
        ProgressEvent {
            job_id: id,
            stage: state,
            percent: state.progress_checkpoint(),
            message: state.message(),
            timestamp: now,
        }
    }

    /// An event equal to this one.
    pub fn duplicate(&self) -> (event: ProgressEvent)
        ensures
            event@ == self@,
    {
        ProgressEvent {
            job_id: self.job_id,
            stage: self.stage,
            percent: self.percent,
            message: self.message.clone(),
            timestamp: self.timestamp,
        }
    }
}

impl Pipeline {
    /// Every pipeline is valid: `new` lets no other be made.
    #[verifier::type_invariant]
    pub open spec fn inv(self) -> bool {
        self@.wf()
    }

    /// Puts two workers together. `None` exactly where one of them is
    /// labelled as another stage, extraction names no file to write, or
    /// transcription names one.
    pub fn new(extract: StageSpec, transcribe: StageSpec) -> (pipeline: Option<Pipeline>)
        ensures
            pipeline is Some <==> (PipelineView { extract: extract@, transcribe: transcribe@ }).wf(),
            pipeline matches Some(p) ==> p@ == (PipelineView {
                extract: extract@,
                transcribe: transcribe@,
            }),
    {
        let labelled = match (extract.stage, transcribe.stage) {
            (Stage::Extract, Stage::Transcribe) => true,
            _ => false,
        };
        if labelled && extract.output_file.is_some() && transcribe.output_file.is_none() {
            Some(Pipeline { extract, transcribe })
        } else {
            None
        }
    }

    /// The pipeline of the two Python workers, each given `timeout_secs`.
    pub fn python_workers(timeout_secs: u64) -> (pipeline: Pipeline)
        ensures
            pipeline@ == python_workers_spec(timeout_secs),
    {
        let mut extract_args: Vec<ArgPart> = Vec::new();
        extract_args.push(ArgPart::Literal("../python/extract_audio.py".to_owned()));
        extract_args.push(ArgPart::Input);
        extract_args.push(ArgPart::Literal("../audio.wav".to_owned()));
        let mut transcribe_args: Vec<ArgPart> = Vec::new();
        transcribe_args.push(ArgPart::Literal("../python/transcribe.py".to_owned()));
        transcribe_args.push(ArgPart::Input);
        let extract = StageSpec {
            stage: Stage::Extract,
            executable: "python3".to_owned(),
            args: extract_args,
            output_file: Some("../audio.wav".to_owned()),
            timeout_secs,
        };
        let transcribe = StageSpec {
            stage: Stage::Transcribe,
            executable: "python3".to_owned(),
            args: transcribe_args,
            output_file: None,
            timeout_secs,
        };
        proof {
            assert(extract@.args =~= python_workers_spec(timeout_secs).extract.args);
            assert(transcribe@.args =~= python_workers_spec(timeout_secs).transcribe.args);
        }
        Pipeline { extract, transcribe }
    }

    pub fn extract_stage(&self) -> (spec: &StageSpec)
        ensures
            spec@ == self@.extract,
    {
        &self.extract
    }

    pub fn transcribe_stage(&self) -> (spec: &StageSpec)
        ensures
            spec@ == self@.transcribe,
    {
        &self.transcribe
    }
}

impl Job {
    /// A job as it is submitted: pending, silent, with nothing asked of it.
    pub fn new(id: JobId, source_path: String) -> (job: Job)
        ensures
            job@ == JobView::created(id, source_path@),
            job@.wf(),
    {
        let handoff = source_path.clone();
        let job = Job {
            id,
            source_path,
            state: JobState::Pending,
            progress_percent: 0,
            transcript: None,
            error: None,
            warning: None,
            cancel_requested: false,
            handoff,
            saving_since: 0,
            events: Vec::new(),
        };
        assert(job@.events =~= Seq::empty());
        job
    }

    pub fn id(&self) -> (id: JobId)
        ensures
            id == self@.id,
    {
        self.id
    }

    pub fn state(&self) -> (state: JobState)
        ensures
            state == self@.state,
    {
        self.state
    }

    pub fn is_active(&self) -> (b: bool)
        ensures
            b == self@.is_active(),
    {
        !self.state.terminal()
    }

    pub fn cancel_requested(&self) -> (b: bool)
        ensures
            b == self@.cancel_requested,
    {
        self.cancel_requested
    }

    /// The job as it looks from outside right now.
    pub fn snapshot(&self) -> (snapshot: JobSnapshot)
        ensures
            snapshot@ == self@.snapshot(),
    {
        JobSnapshot {
            id: self.id,
            state: self.state,
            progress_percent: self.progress_percent,
            transcript: copy_transcript(&self.transcript),
            error: copy_error(&self.error),
            warning: copy_error(&self.warning),
        }
    }

    /// How many events the job has emitted.
    pub fn event_count(&self) -> (n: usize)
        ensures
            n == self@.events.len(),
    {
        self.events.len()
    }

    /// The event at position `i` in the order of emission; `None` where
    /// fewer were emitted.
    pub fn event_at(&self, i: usize) -> (event: Option<ProgressEvent>)
        ensures
            event_view(event) == self@.event_at(i as int),
    {
        if i < self.events.len() {
            Some(self.events[i].duplicate())
        } else {
            None
        }
    }

    pub fn has_saved(&self) -> (b: bool)
        ensures
            b == self@.has_saved(),
    {
        match self.state {
            JobState::Completed => self.warning.is_none(),
            _ => false,
        }
    }

    /// The record that saving this job writes.
    pub fn record(&self) -> (record: PersistedTranscript)
        ensures
            record@ == self@.record(),
    {
        PersistedTranscript {
            job_id: self.id,
            text: self.handoff.clone(),
            created_at: self.saving_since,
        }
    }

    /// Asks for cancellation. The job sees it at the entry of its next
    /// stage.
    pub fn request_cancel(&mut self)
        ensures
            final(self)@ == old(self)@.cancel_asked(),
            old(self)@.wf() ==> evolves(old(self)@, final(self)@),
    {
        self.cancel_requested = true;
        proof {
            if old(self)@.wf() {
                lemma_cancel_asked_evolves(old(self)@);
            }
        }
    }

    fn enter(&mut self, state: JobState, now: u64)
        ensures
            final(self)@ == old(self)@.entered(state, now),
    {
        self.state = state;
        self.progress_percent = state.progress_checkpoint();
        self.events.push(ProgressEvent::checkpoint(self.id, state, now));
        assert(final(self)@.events =~= old(self)@.events.push(
            checkpoint_event(old(self)@.id, state, now),
        ));
    }

    fn enter_worker_stage(&mut self, spec: &StageSpec, now: u64) -> (directive: Directive)
        ensures
            (final(self)@, directive@) == old(self)@.enter_worker_stage(spec@, now),
    {
        match begin(spec, &self.handoff, self.cancel_requested) {
            StageStep::Finished(_) => {
                self.state = JobState::Cancelled;
                Directive::Finished
            },
            StageStep::Launch(command) => {
                let next = self.state.next_on_success();
                self.enter(next, now);
                Directive::Run(command)
            },
        }
    }

    fn enter_saving(&mut self, now: u64) -> (directive: Directive)
        ensures
            (final(self)@, directive@) == old(self)@.enter_saving(now),
    {
        if self.cancel_requested {
            self.state = JobState::Cancelled;
            Directive::Finished
        } else {
            self.enter(JobState::Saving, now);
            self.saving_since = now;
            let record = self.record();
            Directive::Save(plan_save(&record))
        }
    }

    fn settle_worker(&mut self, result: StageResult, next: Option<&StageSpec>, now: u64) -> (directive:
        Directive)
        ensures
            (final(self)@, directive@) == old(self)@.after_worker(
                result@,
                match next {
                    Some(spec) => Some(spec@),
                    None => None,
                },
                now,
            ),
    {
        match result.status {
            StageStatus::Cancelled => {
                self.state = JobState::Cancelled;
                Directive::Finished
            },
            StageStatus::Succeeded => {
                self.handoff = result.output;
                match next {
                    Some(spec) => self.enter_worker_stage(spec, now),
                    None => self.enter_saving(now),
                }
            },
            _ => {
                self.state = JobState::Failed;
                self.error = Some(
                    JobError {
                        stage: result.stage,
                        kind: result.status,
                        diagnostic: result.diagnostic,
                    },
                );
                Directive::Finished
            },
        }
    }

    fn settle_persist(&mut self, result: StageResult, now: u64)
        ensures
            final(self)@ == old(self)@.after_persist(result@, now),
    {
        self.enter(JobState::Completed, now);
        self.transcript = Some(self.handoff.clone());
        self.warning = if result.succeeded() {
            None
        } else {
            Some(
                JobError {
                    stage: result.stage,
                    kind: result.status,
                    diagnostic: result.diagnostic,
                },
            )
        };
    }

    /// The driver is ready to work on the job.
    pub fn start(&mut self, pipeline: &Pipeline, now: u64) -> (directive: Directive)
        ensures
            (final(self)@, directive@) == old(self)@.started(pipeline@, now),
            old(self)@.wf() ==> evolves(old(self)@, final(self)@),
    {
        proof {
            if old(self)@.wf() {
                lemma_started_evolves(old(self)@, pipeline@, now);
            }
        }
        match self.state {
            JobState::Pending => self.enter_worker_stage(&pipeline.extract, now),
            JobState::Extracting | JobState::Transcribing | JobState::Saving => Directive::Ignored,
            _ => Directive::Finished,
        }
    }

    /// The stage that the job is in has ended with `result`: the job fails,
    /// is cancelled, goes on to the next stage or completes.
    pub fn apply_result(&mut self, pipeline: &Pipeline, result: StageResult, now: u64) -> (directive:
        Directive)
        ensures
            (final(self)@, directive@) == old(self)@.after_result(pipeline@, result@, now),
            old(self)@.wf() ==> evolves(old(self)@, final(self)@),
    {
        proof {
            if old(self)@.wf() {
                lemma_after_result_evolves(old(self)@, pipeline@, result@, now);
            }
        }
        match self.state {
            JobState::Pending => Directive::Ignored,
            JobState::Extracting => self.settle_worker(result, Some(&pipeline.transcribe), now),
            JobState::Transcribing => self.settle_worker(result, None, now),
            JobState::Saving => {
                self.settle_persist(result, now);
                Directive::Finished
            },
            _ => Directive::Finished,
        }
    }

    /// Moves the job by one report of the driver and says what the driver
    /// is to do next.
    pub fn advance(&mut self, pipeline: &Pipeline, event: Event, now: u64) -> (directive: Directive)
        ensures
            (final(self)@, directive@) == old(self)@.step(pipeline@, event@, now),
            old(self)@.wf() ==> evolves(old(self)@, final(self)@),
    {
        proof {
            if old(self)@.wf() {
                lemma_step_evolves(old(self)@, pipeline@, event@, now);
            }
        }
        match event {
            Event::Start => self.start(pipeline, now),
            Event::WorkerFinished { outcome, produced_len } => match self.state {
                JobState::Extracting => {
                    let result = conclude(&pipeline.extract, outcome, produced_len);
                    self.apply_result(pipeline, result, now)
                },
                JobState::Transcribing => {
                    let result = conclude(&pipeline.transcribe, outcome, produced_len);
                    self.apply_result(pipeline, result, now)
                },
                JobState::Pending | JobState::Saving => Directive::Ignored,
                _ => Directive::Finished,
            },
            Event::Persisted { saved } => match self.state {
                JobState::Saving => {
                    let result = conclude_persist(saved);
                    self.apply_result(pipeline, result, now)
                },
                JobState::Pending | JobState::Extracting | JobState::Transcribing => {
                    Directive::Ignored
                },
                _ => Directive::Finished,
            },
        }
    }
}

} // verus!
