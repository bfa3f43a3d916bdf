//! The job supervisor: every job ever submitted, at most one of them at
//! work, and the transcript that was saved last.
//!
//! The supervisor never waits. Its driver runs the workers and the saves
//! outside of it and comes back with what it observed, so a question about
//! a job's state is answered at once, whatever is in flight.

use crate::job::{
    evolves, event_view, lemma_after_result_evolves, lemma_cancel_asked_evolves,
    lemma_created_wf, lemma_step_evolves, Directive, DirectiveView, Event, EventView, Job,
    JobSnapshot, JobSnapshotView, JobView, Pipeline, PipelineView, ProgressEvent,
    ProgressEventView,
};
use crate::stage::{StageResult, StageResultView};
use crate::state::JobId;
use crate::store::{
    encode_spec, lemma_decode_encode, load_spec, record_view, PersistedTranscript,
    PersistedTranscriptView, ReadOutcomeView, StoreErrorView,
};
use vstd::prelude::*;

verus! {

/// Why the supervisor turned a request down.
#[derive(Clone, Copy, Debug, PartialEq, Eq, Structural, Hash)]
pub enum SupervisorError {
    /// A job is at work; nothing was queued and nothing changed.
    Busy,
    /// The source to transcribe is not there.
    InvalidPath,
    /// No job has that id.
    NotFound,
    /// The job is over and cannot be cancelled any more.
    AlreadyTerminal,
}

/// The record that the store holds after these jobs, in the order of their
/// submission, when it held `restored` before the first of them: that of
/// the last job that completed and whose save succeeded, or `restored`
/// where there is none.
pub open spec fn last_saved_of(
    jobs: Seq<JobView>,
    restored: Option<PersistedTranscriptView>,
) -> Option<PersistedTranscriptView>
    decreases jobs.len(),
{
    if jobs.len() == 0 {
        restored
    } else if jobs.last().has_saved() {
        Some(jobs.last().record())
    } else {
        last_saved_of(jobs.drop_last(), restored)
    }
}

/// The supervisor as the contracts speak of it.
pub struct SupervisorView {
    pub pipeline: PipelineView,
    /// Every job submitted so far, oldest first. A job's id is its
    /// position.
    pub jobs: Seq<JobView>,
    /// What the store held when the supervisor was made.
    pub restored: Option<PersistedTranscriptView>,
}

impl SupervisorView {
    pub open spec fn knows(self, id: JobId) -> bool {
        id.0 < self.jobs.len()
    }

    pub open spec fn job(self, id: JobId) -> JobView {
        self.jobs[id.0 as int]
    }

    /// A job is at work. Only the newest job can be.
    pub open spec fn has_active(self) -> bool {
        self.jobs.len() > 0 && self.jobs.last().is_active()
    }

    /// The transcript that was saved last: that of the last job that
    /// completed and whose save succeeded, or what the store held at first.
    pub open spec fn saved(self) -> Option<PersistedTranscriptView> {
        last_saved_of(self.jobs, self.restored)
    }

    /// The invariant of the supervisor. Every job is valid and sits at the
    /// position that its id names, and every job but the newest is over.
    pub open spec fn wf(self) -> bool {
        &&& self.pipeline.wf()
        &&& self.jobs.len() <= u64::MAX + 1
        &&& forall|i: int|
            0 <= i < self.jobs.len() ==> (#[trigger] self.jobs[i]).wf() && self.jobs[i].id == JobId(
                i as u64,
            )
        &&& forall|i: int| 0 <= i < self.jobs.len() - 1 ==> !(#[trigger] self.jobs[i]).is_active()
    }

    /// A supervisor without jobs, over a store that held `restored`.
    pub open spec fn fresh(pipeline: PipelineView, restored: Option<PersistedTranscriptView>)
        -> SupervisorView {
        SupervisorView { pipeline, jobs: Seq::empty(), restored }
    }

    /// The state of a job as seen from outside; `None` for an id that was
    /// never handed out.
    pub open spec fn state_of(self, id: JobId) -> Option<JobSnapshotView> {
        if self.knows(id) {
            Some(self.job(id).snapshot())
        } else {
            None
        }
    }

    /// The event of a job at position `i` in the order of emission; `None`
    /// where the job is unknown or has not emitted that many.
    pub open spec fn event_at(self, id: JobId, i: int) -> Option<ProgressEventView> {
        if self.knows(id) {
            self.job(id).event_at(i)
        } else {
            None
        }
    }

    /// Nothing will ever come at position `i` or after it: the job is over
    /// and has emitted no more than `i` events, or there is no such job.
    pub open spec fn drained(self, id: JobId, i: int) -> bool {
        self.knows(id) ==> !self.job(id).is_active() && i >= self.job(id).events.len()
    }

    /// A submission. While a job is at work it is turned down as `Busy`,
    /// whatever the source; a source that is not there is turned down as
    /// `InvalidPath`; either way nothing changes. Otherwise a pending job
    /// joins under the next id.
    pub open spec fn submitted(self, source_path: Seq<char>, source_exists: bool) -> (
        SupervisorView,
        Result<JobId, SupervisorError>,
    ) {
        if self.has_active() {
            (self, Err(SupervisorError::Busy))
        } else if !source_exists {
            (self, Err(SupervisorError::InvalidPath))
        } else {
            let id = JobId(self.jobs.len() as u64);
            (
                SupervisorView { jobs: self.jobs.push(JobView::created(id, source_path)), ..self },
                Ok(id),
            )
        }
    }

    /// A request to cancel. An unknown id is `NotFound`, a job that is over
    /// is `AlreadyTerminal`, and nothing changes. Otherwise the job is
    /// marked; its state changes only when it reaches the entry of its
    /// next stage.
    pub open spec fn cancel_requested(self, id: JobId) -> (
        SupervisorView,
        Result<(), SupervisorError>,
    ) {
        if !self.knows(id) {
            (self, Err(SupervisorError::NotFound))
        } else if !self.job(id).is_active() {
            (self, Err(SupervisorError::AlreadyTerminal))
        } else {
            (
                SupervisorView {
                    jobs: self.jobs.update(id.0 as int, self.job(id).cancel_asked()),
                    ..self
                },
                Ok(()),
            )
        }
    }

    /// The stage that a job is in has ended with `result`. An unknown id
    /// changes nothing and is ignored. Otherwise the job fails, is
    /// cancelled, goes on or completes, as the result says.
    pub open spec fn settled(self, id: JobId, result: StageResultView, now: u64) -> (
        SupervisorView,
        DirectiveView,
    ) {
        if !self.knows(id) {
            (self, DirectiveView::Ignored)
        } else {
            let (after, directive) = self.job(id).after_result(self.pipeline, result, now);
            (
                SupervisorView { jobs: self.jobs.update(id.0 as int, after), ..self },
                directive,
            )
        }
    }

    /// A report of the driver. An unknown id changes nothing and is
    /// ignored. Otherwise the job makes its transition.
    pub open spec fn advanced(self, id: JobId, event: EventView, now: u64) -> (
        SupervisorView,
        DirectiveView,
    ) {
        if !self.knows(id) {
            (self, DirectiveView::Ignored)
        } else {
            let (after, directive) = self.job(id).step(self.pipeline, event, now);
            (
                SupervisorView { jobs: self.jobs.update(id.0 as int, after), ..self },
                directive,
            )
        }
    }
}

/// What every operation of the supervisor keeps: its validity, its
/// pipeline, what the store held at first, and every job it knew, each
/// moved along the edges of its lifecycle or not at all.
pub open spec fn proceeds(before: SupervisorView, after: SupervisorView) -> bool {
    &&& after.wf()
    &&& after.pipeline == before.pipeline
    &&& after.restored == before.restored
    &&& before.jobs.len() <= after.jobs.len()
    &&& forall|i: int|
        0 <= i < before.jobs.len() ==> evolves(#[trigger] before.jobs[i], after.jobs[i])
}

/// Replacing the newest job by one that has saved nothing leaves the saved
/// transcript as it was without that job.
proof fn lemma_last_saved_skips(
    jobs: Seq<JobView>,
    restored: Option<PersistedTranscriptView>,
    job: JobView,
)
    requires
        !job.has_saved(),
    ensures
        last_saved_of(jobs.push(job), restored) == last_saved_of(jobs, restored),
{
    assert(jobs.push(job).drop_last() =~= jobs);
}

/// A job evolves into itself.
proof fn lemma_evolves_refl(job: JobView)
    requires
        job.wf(),
    ensures
        evolves(job, job),
{
    assert(job.events.subrange(0, job.events.len() as int) =~= job.events);
}

/// A fresh supervisor is valid, and its saved transcript is what the store
/// held.
pub proof fn lemma_fresh_wf(pipeline: PipelineView, restored: Option<PersistedTranscriptView>)
    requires
        pipeline.wf(),
    ensures
        SupervisorView::fresh(pipeline, restored).wf(),
        SupervisorView::fresh(pipeline, restored).saved() == restored,
        !SupervisorView::fresh(pipeline, restored).has_active(),
{
}

/// At most one job is at work at any time: of two jobs, one is over.
pub proof fn lemma_single_active(s: SupervisorView, a: JobId, b: JobId)
    requires
        s.wf(),
        s.knows(a),
        s.knows(b),
        a != b,
    ensures
        !s.job(a).is_active() || !s.job(b).is_active(),
{
    if a.0 < b.0 {
        assert(!s.jobs[a.0 as int].is_active());
    } else {
        assert(!s.jobs[b.0 as int].is_active());
    }
}

/// Before any job has completed with its save done, the saved transcript is
/// what the store held at first: nothing, where the store was empty.
pub proof fn lemma_saved_before_completion(s: SupervisorView)
    requires
        forall|i: int| 0 <= i < s.jobs.len() ==> !(#[trigger] s.jobs[i]).has_saved(),
    ensures
        s.saved() == s.restored,
    decreases s.jobs.len(),
{
    if s.jobs.len() > 0 {
        let rest = SupervisorView { jobs: s.jobs.drop_last(), ..s };
        assert(!s.jobs[s.jobs.len() - 1].has_saved());
        assert forall|i: int| 0 <= i < rest.jobs.len() implies !(#[trigger] rest.jobs[i]).has_saved() by {
            assert(!s.jobs[i].has_saved());
        }
        lemma_saved_before_completion(rest);
    }
}

/// Afterwards the saved transcript is exactly the record of the job that
/// completed with its save done most recently, and its text is that job's
/// transcript.
pub proof fn lemma_saved_is_latest(s: SupervisorView, id: JobId)
    requires
        s.wf(),
        s.knows(id),
        s.job(id).has_saved(),
        forall|i: int| id.0 < i < s.jobs.len() ==> !(#[trigger] s.jobs[i]).has_saved(),
    ensures
        s.saved() == Some(s.job(id).record()),
        s.job(id).transcript == Some(s.saved()->0.text),
        s.saved()->0.job_id == id,
    decreases s.jobs.len(),
{
    assert(s.jobs[id.0 as int].wf());
    if id.0 < s.jobs.len() - 1 {
        let rest = SupervisorView { jobs: s.jobs.drop_last(), ..s };
        assert(!s.jobs[s.jobs.len() - 1].has_saved());
        assert forall|i: int| 0 <= i < rest.jobs.len() implies (#[trigger] rest.jobs[i]).wf()
            && rest.jobs[i].id == JobId(i as u64) by {
            assert(s.jobs[i].wf());
        }
        assert forall|i: int| 0 <= i < rest.jobs.len() - 1 implies !(#[trigger] rest.jobs[i]).is_active() by {
            assert(!s.jobs[i].is_active());
        }
        assert forall|i: int| id.0 < i < rest.jobs.len() implies !(#[trigger] rest.jobs[i]).has_saved() by {
            assert(!s.jobs[i].has_saved());
        }
        lemma_saved_is_latest(rest, id);
    }
}

/// The saved transcript outlives the process: a supervisor made over the
/// bytes that the save wrote has the same saved transcript.
pub proof fn lemma_saved_survives_restart(s: SupervisorView, pipeline: PipelineView)
    requires
        s.saved() is Some,
    ensures
        load_spec(ReadOutcomeView::Found { bytes: encode_spec(s.saved()->0) }) == Ok::<
            Option<PersistedTranscriptView>,
            StoreErrorView,
        >(s.saved()),
        SupervisorView::fresh(pipeline, s.saved()).saved() == s.saved(),
{
    lemma_decode_encode(s.saved()->0);
}

/// A submission keeps the supervisor valid and every job as it was. While
/// a job is at work it fails as `Busy` and changes nothing at all; where it
/// succeeds, the new job is the only one at work.
pub proof fn lemma_submitted_proceeds(s: SupervisorView, source_path: Seq<char>, source_exists: bool)
    requires
        s.wf(),
        s.jobs.len() <= u64::MAX,
    ensures
        proceeds(s, s.submitted(source_path, source_exists).0),
        s.has_active() ==> s.submitted(source_path, source_exists) == (
            s,
            Err::<JobId, SupervisorError>(SupervisorError::Busy),
        ),
        forall|i: int|
            0 <= i < s.jobs.len() ==> s.submitted(source_path, source_exists).0.jobs[i]
                == #[trigger] s.jobs[i],
        s.submitted(source_path, source_exists).0.saved() == s.saved(),
        s.submitted(source_path, source_exists).1 matches Ok(id) ==> {
            let after = s.submitted(source_path, source_exists).0;
            &&& !s.knows(id)
            &&& after.knows(id)
            &&& after.job(id) == JobView::created(id, source_path)
            &&& after.has_active()
        },
{
    let (after, outcome) = s.submitted(source_path, source_exists);
    assert forall|i: int| 0 <= i < s.jobs.len() implies evolves(#[trigger] s.jobs[i], after.jobs[i]) by {
        lemma_evolves_refl(s.jobs[i]);
    }
    if outcome is Ok {
        let id = JobId(s.jobs.len() as u64);
        lemma_created_wf(id, source_path);
        lemma_last_saved_skips(s.jobs, s.restored, JobView::created(id, source_path));
        assert forall|i: int| 0 <= i < after.jobs.len() - 1 implies !(#[trigger] after.jobs[i]).is_active() by {
            if i < s.jobs.len() - 1 {
                assert(!s.jobs[i].is_active());
            } else {
                assert(s.jobs[i] == s.jobs.last());
            }
        }
        assert forall|i: int| 0 <= i < after.jobs.len() implies (#[trigger] after.jobs[i]).wf()
            && after.jobs[i].id == JobId(i as u64) by {
            if i < s.jobs.len() {
                assert(s.jobs[i].wf());
            }
        }
    }
}

/// Replacing a job of a valid supervisor by what it evolved into gives a
/// valid supervisor again, provided the job is the newest or is left as it
/// was. The saved transcript changes only where the job thereby completes
/// with its save done, and then to the job's record.
proof fn lemma_replaced_wf(s: SupervisorView, i: int, job: JobView)
    requires
        s.wf(),
        0 <= i < s.jobs.len(),
        evolves(s.jobs[i], job),
        i < s.jobs.len() - 1 ==> job == s.jobs[i],
        !s.jobs[i].is_active() ==> job == s.jobs[i],
    ensures
        ({
            let after = SupervisorView { jobs: s.jobs.update(i, job), ..s };
            &&& proceeds(s, after)
            &&& after.saved() == if s.jobs[i].is_active() && job.has_saved() {
                Some(job.record())
            } else {
                s.saved()
            }
        }),
{
    let after = SupervisorView { jobs: s.jobs.update(i, job), ..s };
    if job == s.jobs[i] {
        assert(after.jobs =~= s.jobs);
    } else {
        assert(i == s.jobs.len() - 1);
        assert(after.jobs =~= s.jobs.drop_last().push(job));
        assert(after.jobs.drop_last() =~= s.jobs.drop_last());
        assert(s.jobs.last().is_active());
        assert(!s.jobs.last().has_saved());
    }
    assert forall|k: int| 0 <= k < s.jobs.len() implies evolves(#[trigger] s.jobs[k], after.jobs[k]) by {
        if k != i {
            lemma_evolves_refl(s.jobs[k]);
        }
    }
    assert forall|k: int| 0 <= k < after.jobs.len() implies (#[trigger] after.jobs[k]).wf()
        && after.jobs[k].id == JobId(k as u64) by {
        assert(s.jobs[k].wf());
    }
    assert forall|k: int| 0 <= k < after.jobs.len() - 1 implies !(#[trigger] after.jobs[k]).is_active() by {
        assert(!s.jobs[k].is_active());
    }
}

/// A request to cancel keeps the supervisor valid, moves no job to another
/// state, and leaves what every job looks like from outside as it was.
pub proof fn lemma_cancel_requested_proceeds(s: SupervisorView, id: JobId)
    requires
        s.wf(),
    ensures
        proceeds(s, s.cancel_requested(id).0),
        s.cancel_requested(id).0.jobs.len() == s.jobs.len(),
        s.cancel_requested(id).0.saved() == s.saved(),
        forall|other: JobId| #[trigger]
            s.cancel_requested(id).0.state_of(other) == s.state_of(other),
{
    let (after, outcome) = s.cancel_requested(id);
    if outcome is Ok {
        let job = s.job(id);
        lemma_cancel_asked_evolves(job);
        assert(job.cancel_asked().is_active());
        assert(id.0 as int == s.jobs.len() - 1) by {
            if id.0 < s.jobs.len() - 1 {
                assert(!s.jobs[id.0 as int].is_active());
            }
        }
        lemma_replaced_wf(s, id.0 as int, job.cancel_asked());
        assert(!job.cancel_asked().has_saved());
    } else {
        assert forall|i: int| 0 <= i < s.jobs.len() implies evolves(#[trigger] s.jobs[i], after.jobs[i]) by {
            lemma_evolves_refl(s.jobs[i]);
        }
    }
}

/// The end of a stage keeps the supervisor valid and moves every job along
/// an edge of its lifecycle or not at all; it adds no job and touches none
/// but the one it names.
pub proof fn lemma_settled_proceeds(s: SupervisorView, id: JobId, result: StageResultView, now: u64)
    requires
        s.wf(),
    ensures
        proceeds(s, s.settled(id, result, now).0),
        s.settled(id, result, now).0.jobs.len() == s.jobs.len(),
        forall|other: JobId|
            s.knows(other) && other != id ==> s.settled(id, result, now).0.job(other)
                == #[trigger] s.job(other),
        s.knows(id) ==> s.settled(id, result, now).0.saved() == if s.job(id).is_active()
            && s.settled(id, result, now).0.job(id).has_saved() {
            Some(s.settled(id, result, now).0.job(id).record())
        } else {
            s.saved()
        },
        !s.knows(id) ==> s.settled(id, result, now).0 == s,
{
    let (after, directive) = s.settled(id, result, now);
    if s.knows(id) {
        let job = s.job(id);
        let next = job.after_result(s.pipeline, result, now).0;
        lemma_after_result_evolves(job, s.pipeline, result, now);
        if id.0 < s.jobs.len() - 1 {
            assert(!s.jobs[id.0 as int].is_active());
        }
        lemma_replaced_wf(s, id.0 as int, next);
    } else {
        assert forall|i: int| 0 <= i < s.jobs.len() implies evolves(#[trigger] s.jobs[i], after.jobs[i]) by {
            lemma_evolves_refl(s.jobs[i]);
        }
    }
}

/// A report of the driver keeps the supervisor valid and moves every job
/// along an edge of its lifecycle or not at all; it adds no job and
/// touches none but the one it names.
pub proof fn lemma_advanced_proceeds(s: SupervisorView, id: JobId, event: EventView, now: u64)
    requires
        s.wf(),
    ensures
        proceeds(s, s.advanced(id, event, now).0),
        s.advanced(id, event, now).0.jobs.len() == s.jobs.len(),
        forall|other: JobId|
            s.knows(other) && other != id ==> s.advanced(id, event, now).0.job(other)
                == #[trigger] s.job(other),
        s.knows(id) ==> s.advanced(id, event, now).0.saved() == if s.job(id).is_active()
            && s.advanced(id, event, now).0.job(id).has_saved() {
            Some(s.advanced(id, event, now).0.job(id).record())
        } else {
            s.saved()
        },
        !s.knows(id) ==> s.advanced(id, event, now).0 == s,
{
    let (after, directive) = s.advanced(id, event, now);
    if s.knows(id) {
        let job = s.job(id);
        let next = job.step(s.pipeline, event, now).0;
        lemma_step_evolves(job, s.pipeline, event, now);
        if id.0 < s.jobs.len() - 1 {
            assert(!s.jobs[id.0 as int].is_active());
        }
        lemma_replaced_wf(s, id.0 as int, next);
    } else {
        assert forall|i: int| 0 <= i < s.jobs.len() implies evolves(#[trigger] s.jobs[i], after.jobs[i]) by {
            lemma_evolves_refl(s.jobs[i]);
        }
    }
}

/// Owns every job and the knowledge of what the store holds.
pub struct Supervisor {
    pipeline: Pipeline,
    jobs: Vec<Job>,
    restored: Option<PersistedTranscript>,
}

impl View for Supervisor {
    type V = SupervisorView;

    closed spec fn view(&self) -> SupervisorView {
        SupervisorView {
            pipeline: self.pipeline@,
            jobs: self.jobs@.map_values(|job: Job| job@),
            restored: record_view(self.restored),
        }
    }
}

/// A reader's place in the events of one job. It only moves forward: what
/// was read once is not handed out again.
pub struct Subscription {
    job_id: JobId,
    next: usize,
}

impl Subscription {
    pub closed spec fn job_id(&self) -> JobId {
        self.job_id
    }

    /// How many events were read through this subscription.
    pub closed spec fn position(&self) -> nat {
        self.next as nat
    }

    pub fn job(&self) -> (id: JobId)
        ensures
            id == self.job_id(),
    {
        self.job_id
    }

    pub fn events_read(&self) -> (n: usize)
        ensures
            n == self.position(),
    {
        self.next
    }
}

pub open spec fn snapshot_view(snapshot: Option<JobSnapshot>) -> Option<JobSnapshotView> {
    match snapshot {
        Some(s) => Some(s@),
        None => None,
    }
}

impl Supervisor {
    /// Every supervisor is valid: no operation lets it be otherwise.
    #[verifier::type_invariant]
    pub open spec fn inv(self) -> bool {
        self@.wf()
    }

    /// A supervisor without jobs. `restored` is what the store holds from
    /// earlier runs, `None` where nothing was ever saved.
    pub fn new(pipeline: Pipeline, restored: Option<PersistedTranscript>) -> (supervisor: Supervisor)
        ensures
            supervisor@ == SupervisorView::fresh(pipeline@, record_view(restored)),
            supervisor@.wf(),
    {
        proof {
            use_type_invariant(&pipeline);
            assert(Seq::<Job>::empty().map_values(|job: Job| job@) =~= Seq::<JobView>::empty());
        }
        Supervisor { pipeline, jobs: Vec::new(), restored }
    }

    /// How many jobs were submitted so far.
    pub fn job_count(&self) -> (n: usize)
        ensures
            n == self@.jobs.len(),
    {
        self.jobs.len()
    }

    /// The job at work, if there is one.
    pub fn active_job(&self) -> (id: Option<JobId>)
        ensures
            id is Some <==> self@.has_active(),
            id matches Some(active) ==> self@.knows(active) && active.0 == self@.jobs.len() - 1,
    {
        let n = self.jobs.len();
        if n > 0 && self.jobs[n - 1].is_active() {
            Some(JobId((n - 1) as u64))
        } else {
            None
        }
    }

    /// Takes a job on. `Busy` while another is at work, `InvalidPath`
    /// where the source is not there; neither changes anything.
    pub fn submit_job(&mut self, source_path: String, source_exists: bool) -> (outcome: Result<
        JobId,
        SupervisorError,
    >)
        ensures
            (final(self)@, outcome) == old(self)@.submitted(source_path@, source_exists),
            proceeds(old(self)@, final(self)@),
    {
        let n = self.jobs.len();
        proof {
            use_type_invariant(&*self);
            lemma_submitted_proceeds(old(self)@, source_path@, source_exists);
        }
        if n > 0 && self.jobs[n - 1].is_active() {
            return Err(SupervisorError::Busy);
        }
        if !source_exists {
            return Err(SupervisorError::InvalidPath);
        }
        let id = JobId(n as u64);
        let mut jobs: Vec<Job> = Vec::new();
        proof {
            assert(jobs@.map_values(|job: Job| job@) =~= Seq::<JobView>::empty());
        }
        core::mem::swap(&mut self.jobs, &mut jobs);
        jobs.push(Job::new(id, source_path));
        proof {
            assert(jobs@.map_values(|job: Job| job@) =~= old(self)@.jobs.push(
                JobView::created(id, source_path@),
            ));
        }
        core::mem::swap(&mut self.jobs, &mut jobs);
        Ok(id)
    }

    /// Asks for a job to be cancelled. The job takes notice at the entry of
    /// its next stage; until then its state stays as it is.
    pub fn cancel_job(&mut self, id: JobId) -> (outcome: Result<(), SupervisorError>)
        ensures
            (final(self)@, outcome) == old(self)@.cancel_requested(id),
            proceeds(old(self)@, final(self)@),
    {
        proof {
            use_type_invariant(&*self);
            lemma_cancel_requested_proceeds(old(self)@, id);
        }
        let n = self.jobs.len();
        if id.0 >= n as u64 {
            return Err(SupervisorError::NotFound);
        }
        let i = id.0 as usize;
        if !self.jobs[i].is_active() {
            return Err(SupervisorError::AlreadyTerminal);
        }
        assert(i == n - 1) by {
            if i < n - 1 {
                assert(!old(self)@.jobs[i as int].is_active());
            }
        }
        let mut jobs: Vec<Job> = Vec::new();
        proof {
            assert(jobs@.map_values(|job: Job| job@) =~= Seq::<JobView>::empty());
        }
        core::mem::swap(&mut self.jobs, &mut jobs);
        let mut job = jobs.pop().unwrap();
        job.request_cancel();
        jobs.push(job);
        proof {
            assert(jobs@.map_values(|job: Job| job@) =~= old(self)@.jobs.update(
                id.0 as int,
                old(self)@.job(id).cancel_asked(),
            ));
        }
        core::mem::swap(&mut self.jobs, &mut jobs);
        Ok(())
    }

    /// The state of a job right now. It is answered from memory and never
    /// waits for work in flight; a failure is part of the answer.
    pub fn get_job_state(&self, id: JobId) -> (snapshot: Option<JobSnapshot>)
        ensures
            snapshot_view(snapshot) == self@.state_of(id),
    {
        if id.0 < self.jobs.len() as u64 {
            Some(self.jobs[id.0 as usize].snapshot())
        } else {
            None
        }
    }

    /// Takes the outcome of the stage that a job is in and says what the
    /// driver is to do next.
    pub fn apply_result(&mut self, id: JobId, result: StageResult, now: u64) -> (directive:
        Directive)
        ensures
            (final(self)@, directive@) == old(self)@.settled(id, result@, now),
            proceeds(old(self)@, final(self)@),
    {
        proof {
            use_type_invariant(&*self);
            lemma_settled_proceeds(old(self)@, id, result@, now);
        }
        let n = self.jobs.len();
        if id.0 >= n as u64 {
            return Directive::Ignored;
        }
        let i = id.0 as usize;
        if !self.jobs[i].is_active() {
            assert(old(self)@.jobs.update(i as int, old(self)@.jobs[i as int]) =~= old(self)@.jobs);
            return Directive::Finished;
        }
        assert(i == n - 1) by {
            if i < n - 1 {
                assert(!old(self)@.jobs[i as int].is_active());
            }
        }
        let mut jobs: Vec<Job> = Vec::new();
        proof {
            assert(jobs@.map_values(|job: Job| job@) =~= Seq::<JobView>::empty());
        }
        core::mem::swap(&mut self.jobs, &mut jobs);
        let mut job = jobs.pop().unwrap();
        let directive = job.apply_result(&self.pipeline, result, now);
        jobs.push(job);
        proof {
            assert(jobs@.map_values(|job: Job| job@) =~= old(self)@.jobs.update(
                id.0 as int,
                old(self)@.job(id).after_result(old(self)@.pipeline, result@, now).0,
            ));
        }
        core::mem::swap(&mut self.jobs, &mut jobs);
        directive
    }

    /// Takes a report of the driver on a job and says what the driver is
    /// to do next.
    pub fn advance(&mut self, id: JobId, event: Event, now: u64) -> (directive: Directive)
        ensures
            (final(self)@, directive@) == old(self)@.advanced(id, event@, now),
            proceeds(old(self)@, final(self)@),
    {
        proof {
            use_type_invariant(&*self);
            lemma_advanced_proceeds(old(self)@, id, event@, now);
        }
        let n = self.jobs.len();
        if id.0 >= n as u64 {
            return Directive::Ignored;
        }
        let i = id.0 as usize;
        if !self.jobs[i].is_active() {
            assert(old(self)@.jobs.update(i as int, old(self)@.jobs[i as int]) =~= old(self)@.jobs);
            return Directive::Finished;
        }
        assert(i == n - 1) by {
            if i < n - 1 {
                assert(!old(self)@.jobs[i as int].is_active());
            }
        }
        let mut jobs: Vec<Job> = Vec::new();
        proof {
            assert(jobs@.map_values(|job: Job| job@) =~= Seq::<JobView>::empty());
        }
        core::mem::swap(&mut self.jobs, &mut jobs);
        let mut job = jobs.pop().unwrap();
        let directive = job.advance(&self.pipeline, event, now);
        jobs.push(job);
        proof {
            assert(jobs@.map_values(|job: Job| job@) =~= old(self)@.jobs.update(
                id.0 as int,
                old(self)@.job(id).step(old(self)@.pipeline, event@, now).0,
            ));
        }
        core::mem::swap(&mut self.jobs, &mut jobs);
        directive
    }

    /// The transcript that was saved last: that of the last job that
    /// completed and whose save succeeded, or what the store held before
    /// the first job. `None` where nothing was ever saved.
    pub fn load_last_transcript(&self) -> (record: Option<PersistedTranscript>)
        ensures
            record_view(record) == self@.saved(),
    {
        let mut i = self.jobs.len();
        proof {
            assert(self@.jobs.take(i as int) =~= self@.jobs);
        }
        while i > 0
            invariant
                i <= self.jobs.len(),
                last_saved_of(self@.jobs, self@.restored) == last_saved_of(
                    self@.jobs.take(i as int),
                    self@.restored,
                ),
            decreases i,
        {
            let job = &self.jobs[i - 1];
            proof {
                let upto = self@.jobs.take(i as int);
                assert(upto.last() == job@);
                assert(upto.drop_last() =~= self@.jobs.take(i - 1));
            }
            if job.has_saved() {
                return Some(job.record());
            }
            i -= 1;
        }
        proof {
            assert(self@.jobs.take(0).len() == 0);
        }
        match &self.restored {
            Some(r) => Some(
                PersistedTranscript {
                    job_id: r.job_id,
                    text: r.text.clone(),
                    created_at: r.created_at,
                },
            ),
            None => None,
        }
    }

    /// Opens the events of a job for reading from the first one on; `None`
    /// for an id that was never handed out.
    pub fn subscribe_progress(&self, id: JobId) -> (subscription: Option<Subscription>)
        ensures
            subscription is Some <==> self@.knows(id),
            subscription matches Some(sub) ==> sub.job_id() == id && sub.position() == 0,
    {
        if id.0 < self.jobs.len() as u64 {
            Some(Subscription { job_id: id, next: 0 })
        } else {
            None
        }
    }

    /// The next event that the subscription has not handed out yet, in the
    /// order of emission; `None` where the job has emitted no more so far.
    pub fn next_event(&self, subscription: &mut Subscription) -> (event: Option<ProgressEvent>)
        ensures
            final(subscription).job_id() == old(subscription).job_id(),
            event_view(event) == self@.event_at(
                old(subscription).job_id(),
                old(subscription).position() as int,
            ),
            final(subscription).position() == if event is Some {
                old(subscription).position() + 1
            } else {
                old(subscription).position()
            },
    {
        let n = self.jobs.len();
        if subscription.job_id.0 >= n as u64 {
            return None;
        }
        let job = &self.jobs[subscription.job_id.0 as usize];
        let count = job.event_count();
        let event = job.event_at(subscription.next);
        if subscription.next < count {
            subscription.next = subscription.next + 1;
        }
        event
    }

    /// Whether the subscription has come to its end: the job is over and
    /// each of its events was handed out.
    pub fn is_drained(&self, subscription: &Subscription) -> (b: bool)
        ensures
            b == self@.drained(subscription.job_id(), subscription.position() as int),
    {
        let n = self.jobs.len();
        if subscription.job_id.0 >= n as u64 {
            return true;
        }
        let job = &self.jobs[subscription.job_id.0 as usize];
        !job.is_active() && subscription.next >= job.event_count()
    }
}

} // verus!
