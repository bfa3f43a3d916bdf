//! The worker adapter: what one run of an external worker process came to.
//!
//! The driver launches the process and waits for it; what it saw is a
//! [`ProcessOutcome`]. This module turns that observation into captured text
//! or a typed error.

use vstd::prelude::*;
use vstd::utf8::*;

verus! {

/// What the driver observed of one worker process.
#[derive(Clone, Debug, PartialEq, Eq)]
pub enum ProcessOutcome {
    /// The process could not be started.
    LaunchFailed { reason: String },
    /// The process outlived its allotted time and was told to stop.
    TimedOut,
    /// The process ran to its end. `code` is absent where the system
    /// reported no exit code.
    Exited { code: Option<i32>, stdout: Vec<u8>, stderr: Vec<u8> },
}

pub enum ProcessOutcomeView {
    LaunchFailed { reason: Seq<char> },
    TimedOut,
    Exited { code: Option<i32>, stdout: Seq<u8>, stderr: Seq<u8> },
}

impl View for ProcessOutcome {
    type V = ProcessOutcomeView;

    open spec fn view(&self) -> ProcessOutcomeView {
        match *self {
            ProcessOutcome::LaunchFailed { reason } => ProcessOutcomeView::LaunchFailed {
                reason: reason@,
            },
            ProcessOutcome::TimedOut => ProcessOutcomeView::TimedOut,
            ProcessOutcome::Exited { code, stdout, stderr } => ProcessOutcomeView::Exited {
                code,
                stdout: stdout@,
                stderr: stderr@,
            },
        }
    }
}

/// The two output streams of a worker that exited with code zero.
#[derive(Clone, Debug, PartialEq, Eq)]
pub struct CapturedOutput {
    pub stdout: String,
    pub stderr: String,
}

pub struct CapturedOutputView {
    pub stdout: Seq<char>,
    pub stderr: Seq<char>,
}

impl View for CapturedOutput {
    type V = CapturedOutputView;

    open spec fn view(&self) -> CapturedOutputView {
        CapturedOutputView { stdout: self.stdout@, stderr: self.stderr@ }
    }
}

/// Why a worker run yielded no output to use.
#[derive(Clone, Debug, PartialEq, Eq)]
pub enum AdapterError {
    LaunchFailed { reason: String },
    NonZeroExit { code: Option<i32>, stderr: String },
    TimedOut,
}

pub enum AdapterErrorView {
    LaunchFailed { reason: Seq<char> },
    NonZeroExit { code: Option<i32>, stderr: Seq<char> },
    TimedOut,
}

impl View for AdapterError {
    type V = AdapterErrorView;

    open spec fn view(&self) -> AdapterErrorView {
        match *self {
            AdapterError::LaunchFailed { reason } => AdapterErrorView::LaunchFailed {
                reason: reason@,
            },
            AdapterError::NonZeroExit { code, stderr } => AdapterErrorView::NonZeroExit {
                code,
                stderr: stderr@,
            },
            AdapterError::TimedOut => AdapterErrorView::TimedOut,
        }
    }
}

/// The text that permissive decoding makes of a byte stream.
pub uninterp spec fn lossy_text(bytes: Seq<u8>) -> Seq<char>;

/// Calls `String::from_utf8_lossy`. Believed of it: the text depends on the
/// bytes alone, and bytes that are well-formed UTF-8 decode to the
/// characters they encode. What ill-formed bytes become is left to std.
#[verifier::external_body]
fn decode_lossy(bytes: &Vec<u8>) -> (text: String)
    ensures
        text@ == lossy_text(bytes@),
        valid_utf8(bytes@) ==> text@ == decode_utf8(bytes@),
{
    String::from_utf8_lossy(bytes).into_owned()
}

/// Permissive decoding agrees with strict decoding wherever strict decoding
/// is possible.
pub open spec fn decodes_faithfully(bytes: Seq<u8>) -> bool {
    valid_utf8(bytes) ==> lossy_text(bytes) == decode_utf8(bytes)
}

/// Both streams of an outcome that has streams decode faithfully.
pub open spec fn streams_decode_faithfully(outcome: ProcessOutcomeView) -> bool {
    outcome matches ProcessOutcomeView::Exited { stdout, stderr, .. } ==> decodes_faithfully(stdout)
        && decodes_faithfully(stderr)
}

/// The view of a worker run after its streams were decoded.
pub open spec fn classify_spec(code: Option<i32>, stdout: Seq<char>, stderr: Seq<char>) -> Result<
    CapturedOutputView,
    AdapterErrorView,
> {
    if code == Some(0i32) {
        Ok(CapturedOutputView { stdout, stderr })
    } else {
        Err(AdapterErrorView::NonZeroExit { code, stderr })
    }
}

/// What an observation comes to: output exactly for an exit with code zero,
/// and otherwise the error that names what went wrong.
pub open spec fn interpret_spec(outcome: ProcessOutcomeView) -> Result<
    CapturedOutputView,
    AdapterErrorView,
> {
    match outcome {
        ProcessOutcomeView::LaunchFailed { reason } => Err(
            AdapterErrorView::LaunchFailed { reason },
        ),
        ProcessOutcomeView::TimedOut => Err(AdapterErrorView::TimedOut),
        ProcessOutcomeView::Exited { code, stdout, stderr } => classify_spec(
            code,
            lossy_text(stdout),
            lossy_text(stderr),
        ),
    }
}

pub open spec fn result_view(r: Result<CapturedOutput, AdapterError>) -> Result<
    CapturedOutputView,
    AdapterErrorView,
> {
    match r {
        Ok(captured) => Ok(captured@),
        Err(e) => Err(e@),
    }
}

/// Judges a finished process by its exit code: zero yields both streams,
/// anything else, a missing code too, yields `NonZeroExit` with the error
/// stream word for word.
pub fn classify(code: Option<i32>, stdout: String, stderr: String) -> (r: Result<
    CapturedOutput,
    AdapterError,
>)
    ensures
        result_view(r) == classify_spec(code, stdout@, stderr@),
{
    match code {
        Some(0) => Ok(CapturedOutput { stdout, stderr }),
        _ => Err(AdapterError::NonZeroExit { code, stderr }),
    }
}

/// Turns what the driver observed into captured output or a typed error.
/// The streams are decoded permissively: decoding never fails, and streams
/// of well-formed UTF-8 come out as the characters they encode.
pub fn interpret(outcome: ProcessOutcome) -> (r: Result<CapturedOutput, AdapterError>)
    ensures
        result_view(r) == interpret_spec(outcome@),
        streams_decode_faithfully(outcome@),
{
    match outcome {
        ProcessOutcome::LaunchFailed { reason } => Err(AdapterError::LaunchFailed { reason }),
        ProcessOutcome::TimedOut => Err(AdapterError::TimedOut),
        ProcessOutcome::Exited { code, stdout, stderr } => {
            let out = decode_lossy(&stdout);
            let err = decode_lossy(&stderr);
            classify(code, out, err)
        },
    }
}

} // verus!
