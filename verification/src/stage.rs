//! The stage executor: one stage of the pipeline, from the decision to
//! launch its worker to the judgement of what the worker left behind.
//!
//! A stage never runs twice on its own account: whether to try again is for
//! the caller to decide.

use crate::store::{StoreError, StoreErrorView};
use crate::worker::{
    interpret, interpret_spec, result_view, streams_decode_faithfully, AdapterError, AdapterErrorView, CapturedOutput,
    CapturedOutputView, ProcessOutcome, ProcessOutcomeView,
};
use vstd::prelude::*;

verus! {

/// The units of work of the pipeline, in the order in which they run.
#[derive(Clone, Copy, Debug, PartialEq, Eq, Structural, Hash)]
pub enum Stage {
    Extract,
    Transcribe,
    Persist,
}

/// How a stage ended.
#[derive(Clone, Copy, Debug, PartialEq, Eq, Structural, Hash)]
pub enum StageStatus {
    Succeeded,
    /// Cancellation was seen before the worker was launched.
    Cancelled,
    /// The worker could not be started.
    LaunchFailed,
    /// The worker ran and reported failure.
    NonZeroExit,
    /// The worker outlived its allotted time.
    TimedOut,
    /// The worker reported success and left nothing to use.
    EmptyOutput,
    /// The transcript could not be saved.
    PersistenceFailed,
}

/// One argument of a worker's command line before the stage's input is
/// known.
#[derive(Clone, Debug, PartialEq, Eq)]
pub enum ArgPart {
    /// Passed as it stands.
    Literal(String),
    /// Stands for the stage's input: the output of the stage before it.
    Input,
}

pub enum ArgPartView {
    Literal(Seq<char>),
    Input,
}

impl View for ArgPart {
    type V = ArgPartView;

    open spec fn view(&self) -> ArgPartView {
        match *self {
            ArgPart::Literal(text) => ArgPartView::Literal(text@),
            ArgPart::Input => ArgPartView::Input,
        }
    }
}

pub open spec fn text_view(text: Option<String>) -> Option<Seq<char>> {
    match text {
        Some(t) => Some(t@),
        None => None,
    }
}

/// What a stage runs and what it is expected to leave behind.
#[derive(Clone, Debug, PartialEq, Eq)]
pub struct StageSpec {
    pub stage: Stage,
    pub executable: String,
    pub args: Vec<ArgPart>,
    /// The file that the worker must write; `None` where the worker's
    /// standard output is the stage's output.
    pub output_file: Option<String>,
    pub timeout_secs: u64,
}

pub struct StageSpecView {
    pub stage: Stage,
    pub executable: Seq<char>,
    pub args: Seq<ArgPartView>,
    pub output_file: Option<Seq<char>>,
    pub timeout_secs: u64,
}

impl View for StageSpec {
    type V = StageSpecView;

    open spec fn view(&self) -> StageSpecView {
        StageSpecView {
            stage: self.stage,
            executable: self.executable@,
            args: self.args@.map_values(|part: ArgPart| part@),
            output_file: text_view(self.output_file),
            timeout_secs: self.timeout_secs,
        }
    }
}

/// A worker's command line, ready to launch.
#[derive(Clone, Debug, PartialEq, Eq)]
pub struct Command {
    pub executable: String,
    pub args: Vec<String>,
    pub timeout_secs: u64,
    /// The file whose length the driver reports once the worker has exited.
    pub output_file: Option<String>,
}

pub struct CommandView {
    pub executable: Seq<char>,
    pub args: Seq<Seq<char>>,
    pub timeout_secs: u64,
    pub output_file: Option<Seq<char>>,
}

impl View for Command {
    type V = CommandView;

    open spec fn view(&self) -> CommandView {
        CommandView {
            executable: self.executable@,
            args: self.args.deep_view(),
            timeout_secs: self.timeout_secs,
            output_file: text_view(self.output_file),
        }
    }
}

/// The outcome of one stage. `output` is the stage's product where it
/// succeeded and empty otherwise; `diagnostic` is empty where it succeeded.
#[derive(Clone, Debug, PartialEq, Eq)]
pub struct StageResult {
    pub stage: Stage,
    pub status: StageStatus,
    pub output: String,
    pub diagnostic: String,
}

pub struct StageResultView {
    pub stage: Stage,
    pub status: StageStatus,
    pub output: Seq<char>,
    pub diagnostic: Seq<char>,
}

impl View for StageResult {
    type V = StageResultView;

    open spec fn view(&self) -> StageResultView {
        StageResultView {
            stage: self.stage,
            status: self.status,
            output: self.output@,
            diagnostic: self.diagnostic@,
        }
    }
}

impl StageResultView {
    pub open spec fn succeeded(self) -> bool {
        self.status is Succeeded
    }
}

impl StageResult {
    pub fn succeeded(&self) -> (b: bool)
        ensures
            b == self@.succeeded(),
    {
        match self.status {
            StageStatus::Succeeded => true,
            _ => false,
        }
    }
}

/// What to do at the entry of a stage.
#[derive(Clone, Debug, PartialEq, Eq)]
pub enum StageStep {
    /// The stage is over before it began; no worker is to be launched.
    Finished(StageResult),
    /// Launch this worker and report what came of it.
    Launch(Command),
}

pub enum StageStepView {
    Finished(StageResultView),
    Launch(CommandView),
}

impl View for StageStep {
    type V = StageStepView;

    open spec fn view(&self) -> StageStepView {
        match *self {
            StageStep::Finished(result) => StageStepView::Finished(result@),
            StageStep::Launch(command) => StageStepView::Launch(command@),
        }
    }
}

/// The argument that a part of the template stands for.
pub open spec fn render_part(part: ArgPartView, input: Seq<char>) -> Seq<char> {
    match part {
        ArgPartView::Literal(text) => text,
        ArgPartView::Input => input,
    }
}

/// The command line of a template: part by part, in order, with the input
/// put in wherever the template asks for it.
pub open spec fn render_spec(parts: Seq<ArgPartView>, input: Seq<char>) -> Seq<Seq<char>> {
    parts.map_values(|part: ArgPartView| render_part(part, input))
}

/// A stage that ended without a product.
pub open spec fn failed_view(stage: Stage, status: StageStatus, diagnostic: Seq<char>)
    -> StageResultView {
    StageResultView { stage, status, output: Seq::empty(), diagnostic }
}

/// A stage that ended with its product.
pub open spec fn succeeded_view(stage: Stage, output: Seq<char>) -> StageResultView {
    StageResultView { stage, status: StageStatus::Succeeded, output, diagnostic: Seq::empty() }
}

/// The entry of a stage: a cancelled stage ends at once, without a worker;
/// any other launches its command line.
pub open spec fn begin_spec(spec: StageSpecView, input: Seq<char>, cancelled: bool)
    -> StageStepView {
    if cancelled {
        StageStepView::Finished(failed_view(spec.stage, StageStatus::Cancelled, "cancelled"@))
    } else {
        StageStepView::Launch(
            CommandView {
                executable: spec.executable,
                args: render_spec(spec.args, input),
                timeout_secs: spec.timeout_secs,
                output_file: spec.output_file,
            },
        )
    }
}

/// The judgement of a worker run. An adapter error fails the stage under
/// its own status, with the worker's own words as the diagnostic. After a
/// clean exit, a stage that owes a file succeeds exactly where the file is
/// there and not empty, and its product is the file's path; a stage that
/// owes text succeeds with the whole of standard output.
pub open spec fn judge_spec(
    spec: StageSpecView,
    ran: Result<CapturedOutputView, AdapterErrorView>,
    produced_len: Option<u64>,
) -> StageResultView {
    match ran {
        Err(AdapterErrorView::LaunchFailed { reason }) => failed_view(
            spec.stage,
            StageStatus::LaunchFailed,
            reason,
        ),
        Err(AdapterErrorView::NonZeroExit { code, stderr }) => failed_view(
            spec.stage,
            StageStatus::NonZeroExit,
            stderr,
        ),
        Err(AdapterErrorView::TimedOut) => failed_view(
            spec.stage,
            StageStatus::TimedOut,
            "timed out"@,
        ),
        Ok(captured) => match spec.output_file {
            Some(path) => if produced_len is Some && produced_len->0 > 0 {
                succeeded_view(spec.stage, path)
            } else {
                failed_view(spec.stage, StageStatus::EmptyOutput, "empty output"@)
            },
            None => succeeded_view(spec.stage, captured.stdout),
        },
    }
}

pub open spec fn conclude_spec(
    spec: StageSpecView,
    outcome: ProcessOutcomeView,
    produced_len: Option<u64>,
) -> StageResultView {
    judge_spec(spec, interpret_spec(outcome), produced_len)
}

/// The judgement of a save: it succeeds or fails as the store said, and a
/// failure carries the store's reason.
pub open spec fn conclude_persist_spec(saved: Result<(), StoreErrorView>) -> StageResultView {
    match saved {
        Ok(_) => succeeded_view(Stage::Persist, Seq::empty()),
        Err(e) => failed_view(Stage::Persist, StageStatus::PersistenceFailed, e.describe()),
    }
}

pub open spec fn saved_view(saved: Result<(), StoreError>) -> Result<(), StoreErrorView> {
    match saved {
        Ok(_) => Ok(()),
        Err(e) => Err(e@),
    }
}

fn copy_text(text: &Option<String>) -> (copy: Option<String>)
    ensures
        text_view(copy) == text_view(*text),
{
    match text {
        Some(t) => Some(t.clone()),
        None => None,
    }
}

fn failed(stage: Stage, status: StageStatus, diagnostic: String) -> (result: StageResult)
    ensures
        result@ == failed_view(stage, status, diagnostic@),
{
    StageResult { stage, status, output: String::new(), diagnostic }
}

fn succeeded(stage: Stage, output: String) -> (result: StageResult)
    ensures
        result@ == succeeded_view(stage, output@),
{
    StageResult { stage, status: StageStatus::Succeeded, output, diagnostic: String::new() }
}

/// Builds a worker's command line from the template and the stage's input.
pub fn render_args(template: &Vec<ArgPart>, input: &String) -> (args: Vec<String>)
    ensures
        args.deep_view() == render_spec(template@.map_values(|part: ArgPart| part@), input@),
{
    let mut args: Vec<String> = Vec::new();
    let mut i: usize = 0;
    while i < template.len()
        invariant
            i <= template.len(),
            args.len() == i,
            forall|k: int| 0 <= k < i ==> (#[trigger] args[k])@ == render_part(template[k]@, input@),
        decreases template.len() - i,
    {
        let arg = match &template[i] {
            ArgPart::Literal(text) => text.clone(),
            ArgPart::Input => input.clone(),
        };
        args.push(arg);
        i += 1;
    }
    assert(args.deep_view() =~= render_spec(
        template@.map_values(|part: ArgPart| part@),
        input@,
    ));
    args
}

/// Decides at the entry of a stage whether its worker is launched.
pub fn begin(spec: &StageSpec, input: &String, cancelled: bool) -> (step: StageStep)
    ensures
        step@ == begin_spec(spec@, input@, cancelled),
{
    if cancelled {
        StageStep::Finished(failed(spec.stage, StageStatus::Cancelled, "cancelled".to_owned()))
    } else {
        StageStep::Launch(
            Command {
                executable: spec.executable.clone(),
                args: render_args(&spec.args, input),
                timeout_secs: spec.timeout_secs,
                output_file: copy_text(&spec.output_file),
            },
        )
    }
}

/// Judges a worker run that the adapter has already read. `produced_len`
/// is the length of the stage's output file after the run, `None` where
/// there is no such file.
pub fn judge(
    spec: &StageSpec,
    ran: Result<CapturedOutput, AdapterError>,
    produced_len: Option<u64>,
) -> (result: StageResult)
    ensures
        result@ == judge_spec(spec@, result_view(ran), produced_len),
{
    match ran {
        Err(AdapterError::LaunchFailed { reason }) => failed(
            spec.stage,
            StageStatus::LaunchFailed,
            reason,
        ),
        Err(AdapterError::NonZeroExit { code: _, stderr }) => failed(
            spec.stage,
            StageStatus::NonZeroExit,
            stderr,
        ),
        Err(AdapterError::TimedOut) => failed(
            spec.stage,
            StageStatus::TimedOut,
            "timed out".to_owned(),
        ),
        Ok(captured) => match &spec.output_file {
            Some(path) => {
                let usable = match produced_len {
                    Some(len) => len > 0,
                    None => false,
                };
                if usable {
                    succeeded(spec.stage, path.clone())
                } else {
                    failed(spec.stage, StageStatus::EmptyOutput, "empty output".to_owned())
                }
            },
            None => succeeded(spec.stage, captured.stdout),
        },
    }
}

/// Judges what the driver observed of a stage's worker.
pub fn conclude(spec: &StageSpec, outcome: ProcessOutcome, produced_len: Option<u64>) -> (result:
    StageResult)
    ensures
        result@ == conclude_spec(spec@, outcome@, produced_len),
        streams_decode_faithfully(outcome@),
{
    judge(spec, interpret(outcome), produced_len)
}

/// Judges what the driver observed of a save.
pub fn conclude_persist(saved: Result<(), StoreError>) -> (result: StageResult)
    ensures
        result@ == conclude_persist_spec(saved_view(saved)),
{
    match saved {
        Ok(_) => succeeded(Stage::Persist, String::new()),
        Err(e) => failed(Stage::Persist, StageStatus::PersistenceFailed, e.describe()),
    }
}

} // verus!
