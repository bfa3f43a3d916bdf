//! The lifecycle of a job: its states and the edges between them.

use vstd::prelude::*;

verus! {

/// Names one job. Ids are handed out in rising order and never reused.
#[derive(Clone, Copy, Debug, PartialEq, Eq, Structural, Hash)]
pub struct JobId(pub u64);

/// Where a job stands in its lifecycle.
#[derive(Clone, Copy, Debug, PartialEq, Eq, Structural, Hash)]
pub enum JobState {
    Pending,
    Extracting,
    Transcribing,
    Saving,
    Completed,
    Failed,
    Cancelled,
}

impl JobState {
    /// No edge leaves a terminal state.
    pub open spec fn is_terminal(self) -> bool {
        self is Completed || self is Failed || self is Cancelled
    }

    /// How far along the pipeline a state lies; every terminal state lies
    /// beyond every working state.
    pub open spec fn rank(self) -> nat {
        match self {
            JobState::Pending => 0,
            JobState::Extracting => 1,
            JobState::Transcribing => 2,
            JobState::Saving => 3,
            JobState::Completed | JobState::Failed | JobState::Cancelled => 4,
        }
    }

    /// The state that follows this one when its work succeeds.
    pub open spec fn successor(self) -> JobState {
        match self {
            JobState::Pending => JobState::Extracting,
            JobState::Extracting => JobState::Transcribing,
            JobState::Transcribing => JobState::Saving,
            JobState::Saving => JobState::Completed,
            other => other,
        }
    }

    /// The directed edges of the lifecycle: from a working state to its
    /// successor, to `Failed` or to `Cancelled`, and nothing else.
    pub open spec fn may_step_to(self, next: JobState) -> bool {
        !self.is_terminal() && (next == self.successor() || next is Failed || next is Cancelled)
    }

    /// The progress checkpoint reached on entering a state. `Failed` and
    /// `Cancelled` have none of their own: a job that ends there keeps the
    /// progress it had.
    pub open spec fn checkpoint(self) -> u8 {
        match self {
            JobState::Extracting => 25,
            JobState::Transcribing => 75,
            JobState::Saving => 90,
            JobState::Completed => 100,
            _ => 0,
        }
    }

    /// The name under which a state is shown.
    pub open spec fn label_spec(self) -> Seq<char> {
        match self {
            JobState::Pending => "pending"@,
            JobState::Extracting => "extracting"@,
            JobState::Transcribing => "transcribing"@,
            JobState::Saving => "saving"@,
            JobState::Completed => "complete"@,
            JobState::Failed => "failed"@,
            JobState::Cancelled => "cancelled"@,
        }
    }

    /// The words that announce the entry into a state; empty for the states
    /// whose entry is not announced.
    pub open spec fn message_spec(self) -> Seq<char> {
        match self {
            JobState::Extracting => "Extracting audio from video..."@,
            JobState::Transcribing => "Generating transcript with AI..."@,
            JobState::Saving => "Saving transcript..."@,
            JobState::Completed => "Transcription complete!"@,
            _ => Seq::empty(),
        }
    }

    /// The name under which the state is shown.
    pub fn label(&self) -> (text: String)
        ensures
            text@ == self.label_spec(),
    {
        match self {
            JobState::Pending => "pending".to_owned(),
            JobState::Extracting => "extracting".to_owned(),
            JobState::Transcribing => "transcribing".to_owned(),
            JobState::Saving => "saving".to_owned(),
            JobState::Completed => "complete".to_owned(),
            JobState::Failed => "failed".to_owned(),
            JobState::Cancelled => "cancelled".to_owned(),
        }
    }

    /// The words that announce the entry into the state.
    pub fn message(&self) -> (text: String)
        ensures
            text@ == self.message_spec(),
    {
        match self {
            JobState::Extracting => "Extracting audio from video...".to_owned(),
            JobState::Transcribing => "Generating transcript with AI...".to_owned(),
            JobState::Saving => "Saving transcript...".to_owned(),
            JobState::Completed => "Transcription complete!".to_owned(),
            _ => String::new(),
        }
    }

    /// Whether the state is one of the three in which a job is over.
    pub fn terminal(&self) -> (b: bool)
        ensures
            b == self.is_terminal(),
    {
        match self {
            JobState::Completed | JobState::Failed | JobState::Cancelled => true,
            _ => false,
        }
    }

    /// The state that follows when the work of this one succeeds; a
    /// terminal state is followed by itself.
    pub fn next_on_success(&self) -> (next: JobState)
        ensures
            next == self.successor(),
    {
        match self {
            JobState::Pending => JobState::Extracting,
            JobState::Extracting => JobState::Transcribing,
            JobState::Transcribing => JobState::Saving,
            JobState::Saving => JobState::Completed,
            JobState::Completed => JobState::Completed,
            JobState::Failed => JobState::Failed,
            JobState::Cancelled => JobState::Cancelled,
        }
    }

    /// Whether the lifecycle has an edge from this state to `next`.
    pub fn can_step_to(&self, next: &JobState) -> (b: bool)
        ensures
            b == self.may_step_to(*next),
    {
        if self.terminal() {
            false
        } else {
            match next {
                JobState::Failed | JobState::Cancelled => true,
                other => *other == self.next_on_success(),
            }
        }
    }

    /// The progress that the entry into the state stands for.
    pub fn progress_checkpoint(&self) -> (percent: u8)
        ensures
            percent == self.checkpoint(),
            percent <= 100,
    {
        match self {
            JobState::Extracting => 25,
            JobState::Transcribing => 75,
            JobState::Saving => 90,
            JobState::Completed => 100,
            _ => 0,
        }
    }
}

/// A run of states in which each one is reached from the one before it
/// along an edge.
pub open spec fn is_trace(states: Seq<JobState>) -> bool {
    forall|i: int| 0 <= i < states.len() - 1 ==> (#[trigger] states[i]).may_step_to(states[i + 1])
}

/// Every edge leads forward: it leaves a working state and ends at a state
/// of strictly higher rank, so no edge leads back.
pub proof fn lemma_edge_leads_forward(from: JobState, to: JobState)
    requires
        from.may_step_to(to),
    ensures
        !from.is_terminal(),
        from.rank() < to.rank(),
        to == from.successor() || to is Failed || to is Cancelled,
{
}

/// The checkpoint never falls along an edge into a working state or into
/// `Completed`.
pub proof fn lemma_checkpoint_rises(from: JobState, to: JobState)
    requires
        from.may_step_to(to),
        to == from.successor(),
    ensures
        from.checkpoint() < to.checkpoint(),
        to.checkpoint() <= 100,
{
}

/// Along a trace the rank rises strictly from each state to every later
/// one: no state is visited twice, and only the last can be terminal.
pub proof fn lemma_trace_rises(states: Seq<JobState>, i: int, j: int)
    requires
        is_trace(states),
        0 <= i < j < states.len(),
    ensures
        states[i].rank() < states[j].rank(),
        states[i] != states[j],
        !states[i].is_terminal(),
    decreases j - i,
{
    if i + 1 < j {
        lemma_trace_rises(states, i, j - 1);
        assert(states[j - 1].may_step_to(states[j - 1 + 1]));
    } else {
        assert(states[i].may_step_to(states[i + 1]));
    }
}

/// A trace holds at most five states: the four working states and one
/// terminal state.
pub proof fn lemma_trace_is_short(states: Seq<JobState>)
    requires
        is_trace(states),
    ensures
        states.len() <= 5,
{
    if states.len() > 5 {
        lemma_trace_rises(states, 0, 1);
        lemma_trace_rises(states, 1, 2);
        lemma_trace_rises(states, 2, 3);
        lemma_trace_rises(states, 3, 4);
        lemma_trace_rises(states, 4, 5);
    }
}

} // verus!
