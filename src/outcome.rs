use vstd::prelude::*;
use vstd::utf8::{decode_utf8, valid_utf8};
use vstd::string::StringExecFns;

verus! {

/// What one finished process left behind.
#[derive(Debug)]
pub struct ProcessOutcome {
    /// The process exited with status zero.
    pub success: bool,
    /// The process was killed because it ran past its time limit.
    pub timed_out: bool,
    pub stdout: Vec<u8>,
    pub stderr: Vec<u8>,
}

pub struct OutcomeView {
    pub success: bool,
    pub timed_out: bool,
    pub stdout: Seq<u8>,
    pub stderr: Seq<u8>,
}

impl View for ProcessOutcome {
    type V = OutcomeView;

    open spec fn view(&self) -> OutcomeView {
        OutcomeView {
            success: self.success,
            timed_out: self.timed_out,
            stdout: self.stdout@,
            stderr: self.stderr@,
        }
    }
}

/// Why an execution produced no output.
#[derive(Clone, Copy, Debug, PartialEq, Eq, Structural)]
pub enum FailureKind {
    /// The source was empty or only whitespace; nothing ran.
    Input,
    /// The compiler or build tool reported failure.
    Compile,
    /// The program wrote to its error stream.
    Runtime,
    /// A process ran past its time limit and was killed.
    TimedOut,
    /// The service itself failed: a workspace, a file or a process could not be had.
    System,
}

/// The uniform result of one execution: output text, or a failure with its message.
#[derive(Debug)]
pub enum ExecutionResult {
    Output(String),
    Failure(FailureKind, String),
}

pub enum ResultView {
    Output(Seq<char>),
    Failure(FailureKind, Seq<char>),
}

impl View for ExecutionResult {
    type V = ResultView;

    open spec fn view(&self) -> ResultView {
        match self {
            ExecutionResult::Output(s) => ResultView::Output(s@),
            ExecutionResult::Failure(k, s) => ResultView::Failure(*k, s@),
        }
    }
}

impl ExecutionResult {
    /// Whether the result carries a meaningful elapsed time: failures that stop an
    /// execution before any process runs report a time of zero.
    pub fn is_timed(&self) -> (r: bool)
        ensures
            r == !(self@ matches ResultView::Failure(k, _) && (k == FailureKind::Input || k
                == FailureKind::System)),
    {
        match self {
            ExecutionResult::Failure(FailureKind::Input, _) => false,
            ExecutionResult::Failure(FailureKind::System, _) => false,
            _ => true,
        }
    }
}

/// The text that lossy UTF-8 decoding gives for `b`.
pub uninterp spec fn lossy_text(b: Seq<u8>) -> Seq<char>;

/// Relies on `String::from_utf8_lossy`: valid UTF-8 decodes as it is, each invalid
/// sequence becomes a replacement character, so no bytes give no text and some bytes
/// give some text.
#[verifier::external_body]
pub(crate) fn decode_lossy(b: &Vec<u8>) -> (r: String)
    ensures
        r@ == lossy_text(b@),
        valid_utf8(b@) ==> r@ == decode_utf8(b@),
        b@.len() == 0 <==> r@.len() == 0,
{
    String::from_utf8_lossy(b.as_slice()).into_owned()
}

pub open spec fn timed_out_text() -> Seq<char> {
    "Time limit exceeded"@
}

pub open spec fn compile_error_text(err: Seq<u8>) -> Seq<char> {
    "Compilation Error:\n"@ + lossy_text(err)
}

pub open spec fn build_error_text(err: Seq<u8>) -> Seq<char> {
    "Compilation/Runtime Error:\n"@ + lossy_text(err)
}

/// How the run of a program is judged: a timeout first, then any text on the error
/// stream, whatever the exit status; otherwise the standard output.
pub open spec fn run_result(o: OutcomeView) -> ResultView {
    if o.timed_out {
        ResultView::Failure(FailureKind::TimedOut, timed_out_text())
    } else if o.stderr.len() > 0 {
        ResultView::Failure(FailureKind::Runtime, lossy_text(o.stderr))
    } else {
        ResultView::Output(lossy_text(o.stdout))
    }
}

/// How a compile step is judged: `None` when the program may run.
pub open spec fn compile_result(o: OutcomeView) -> Option<ResultView> {
    if o.timed_out {
        Some(ResultView::Failure(FailureKind::TimedOut, timed_out_text()))
    } else if !o.success {
        Some(ResultView::Failure(FailureKind::Compile, compile_error_text(o.stderr)))
    } else {
        None
    }
}

/// How a combined build-and-run step is judged. A failing exit cannot tell a compile
/// failure from a run failure, and both carry the same message; a clean exit that
/// left text on the error stream is a failure too.
pub open spec fn build_run_result(o: OutcomeView) -> ResultView {
    if o.timed_out {
        ResultView::Failure(FailureKind::TimedOut, timed_out_text())
    } else if !o.success {
        ResultView::Failure(FailureKind::Compile, build_error_text(o.stderr))
    } else if o.stderr.len() > 0 {
        ResultView::Failure(FailureKind::Runtime, build_error_text(o.stderr))
    } else {
        ResultView::Output(lossy_text(o.stdout))
    }
}

pub fn timed_out_result() -> (r: ExecutionResult)
    ensures
        r@ == ResultView::Failure(FailureKind::TimedOut, timed_out_text()),
{
    ExecutionResult::Failure(FailureKind::TimedOut, String::from_str("Time limit exceeded"))
}

/// Judges the run of a program.
pub fn classify_run(o: &ProcessOutcome) -> (r: ExecutionResult)
    ensures
        r@ == run_result(o@),
{
    if o.timed_out {
        timed_out_result()
    } else if o.stderr.len() > 0 {
        ExecutionResult::Failure(FailureKind::Runtime, decode_lossy(&o.stderr))
    } else {
        ExecutionResult::Output(decode_lossy(&o.stdout))
    }
}

/// Judges a compile step; `None` means the program may run.
pub fn classify_compile(o: &ProcessOutcome) -> (r: Option<ExecutionResult>)
    ensures
        r is Some <==> compile_result(o@) is Some,
        r is Some ==> r->0@ == compile_result(o@)->0,
{
    if o.timed_out {
        Some(timed_out_result())
    } else if !o.success {
        let mut msg = String::from_str("Compilation Error:\n");
        let err = decode_lossy(&o.stderr);
        msg.append(err.as_str());
        Some(ExecutionResult::Failure(FailureKind::Compile, msg))
    } else {
        None
    }
}

/// Judges a combined build-and-run step.
pub fn classify_build_run(o: &ProcessOutcome) -> (r: ExecutionResult)
    ensures
        r@ == build_run_result(o@),
{
    if o.timed_out {
        timed_out_result()
    } else if !o.success {
        let mut msg = String::from_str("Compilation/Runtime Error:\n");
        let err = decode_lossy(&o.stderr);
        msg.append(err.as_str());
        ExecutionResult::Failure(FailureKind::Compile, msg)
    } else if o.stderr.len() > 0 {
        let mut msg = String::from_str("Compilation/Runtime Error:\n");
        let err = decode_lossy(&o.stderr);
        msg.append(err.as_str());
        ExecutionResult::Failure(FailureKind::Runtime, msg)
    } else {
        ExecutionResult::Output(decode_lossy(&o.stdout))
    }
}

} // verus!
