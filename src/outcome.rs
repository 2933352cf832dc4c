//! Errors of a step, their classification into skip or failure, and the
//! summary of a run.
use vstd::prelude::*;

use crate::text::{format_i32, signed_decimal};

verus! {

/// Why the operating system could not start a process.
#[derive(Clone, Copy, PartialEq, Eq, Structural, Debug)]
pub enum SpawnCause {
    /// The program does not exist.
    NotFound,
    /// The program exists but may not be executed.
    PermissionDenied,
    /// The file is not in a format the system can execute.
    ExecFormat,
    /// Any other failure to start.
    Other,
}

/// A failure of one command handed to the executor.
#[derive(Clone, Debug, PartialEq, Eq)]
pub enum ExecError {
    /// The process could not be started.
    SpawnFailed { cause: SpawnCause, program: String },
    /// The process ran and exited unsuccessfully (`None`: killed by a signal).
    NonZeroExit { code: Option<i32>, output: String },
    /// The process exited successfully but its output shows a failure.
    ParseFailed { output: String },
}

/// Everything that can stop a step.
#[derive(Clone, Debug, PartialEq, Eq)]
pub enum StepError {
    /// A failure of a command the step ran.
    Exec(ExecError),
    /// The external program the step drives is not installed.
    BinaryNotFound { name: String },
    /// A documented precondition of the step does not hold.
    PreconditionUnmet { reason: String },
    /// The step needs elevated rights and no elevation program exists.
    ElevationUnavailable,
    /// The step does not apply to this host.
    NotApplicable { reason: String },
    /// The step ran and did not reach its goal.
    Failed { reason: String },
}

/// The classified result of one step.
#[derive(Clone, Debug, PartialEq, Eq)]
pub enum StepOutcome {
    /// The step ran and succeeded.
    Success,
    Skipped(String),
    Failed(String),
}

/// A `StepOutcome` with its reason as a character sequence.
pub enum OutcomeView {
    Success,
    Skipped(Seq<char>),
    Failed(Seq<char>),
}

impl View for StepOutcome {
    type V = OutcomeView;

    open spec fn view(&self) -> OutcomeView {
        match self {
            StepOutcome::Success => OutcomeView::Success,
            StepOutcome::Skipped(r) => OutcomeView::Skipped(r@),
            StepOutcome::Failed(r) => OutcomeView::Failed(r@),
        }
    }
}

/// Whether `e` means that the step does not apply here, rather than that it
/// failed: a missing program, an unmet precondition, a step that does not
/// apply, or elevation that is unavailable.
pub open spec fn is_skip(e: StepError) -> bool {
    match e {
        StepError::Exec(ExecError::SpawnFailed { cause, .. }) => cause == SpawnCause::NotFound,
        StepError::Exec(_) => false,
        StepError::Failed { .. } => false,
        _ => true,
    }
}

/// The message for a program that cannot be found.
pub open spec fn not_found_reason(name: Seq<char>) -> Seq<char> {
    "Cannot find "@ + name + " in PATH"@
}

/// The message for an elevation that no program can give.
pub open spec fn elevation_reason() -> Seq<char> {
    "Elevated privileges are required but no elevation program is available"@
}

/// The output of a command, after a line break, or nothing when it is empty.
pub open spec fn output_suffix(output: Seq<char>) -> Seq<char> {
    if output.len() == 0 {
        Seq::empty()
    } else {
        ":\n"@ + output
    }
}

/// The human-readable reason that a step reports for `e`.
pub open spec fn reason_of(e: StepError) -> Seq<char> {
    match e {
        StepError::Exec(x) => match x {
            ExecError::SpawnFailed { cause, program } => match cause {
                SpawnCause::NotFound => not_found_reason(program@),
                SpawnCause::PermissionDenied => "Permission denied when starting "@ + program@,
                SpawnCause::ExecFormat => "Cannot execute "@ + program@
                    + ": not an executable format"@,
                SpawnCause::Other => "Could not start "@ + program@,
            },
            ExecError::NonZeroExit { code, output } => match code {
                Some(c) => "Command exited with status "@ + signed_decimal(c as int)
                    + output_suffix(output@),
                None => "Command was terminated by a signal"@ + output_suffix(output@),
            },
            ExecError::ParseFailed { output } => "Command reported a failure"@ + output_suffix(
                output@,
            ),
        },
        StepError::BinaryNotFound { name } => not_found_reason(name@),
        StepError::PreconditionUnmet { reason } => reason@,
        StepError::ElevationUnavailable => elevation_reason(),
        StepError::NotApplicable { reason } => reason@,
        StepError::Failed { reason } => reason@,
    }
}

/// The outcome that a step with result `r` reports.
pub open spec fn outcome_of(r: Result<(), StepError>) -> OutcomeView {
    match r {
        Ok(()) => OutcomeView::Success,
        Err(e) => if is_skip(e) {
            OutcomeView::Skipped(reason_of(e))
        } else {
            OutcomeView::Failed(reason_of(e))
        },
    }
}

fn join3(a: &str, b: &str, c: &str) -> (r: String)
    ensures
        r@ == a@ + b@ + c@,
{
    let mut s = String::from_str(a);
    s.append(b);
    s.append(c);
    s
}

fn join2(a: &str, b: &str) -> (r: String)
    ensures
        r@ == a@ + b@,
{
    let mut s = String::from_str(a);
    s.append(b);
    s
}

fn with_output(head: String, output: &String) -> (r: String)
    ensures
        r@ == head@ + output_suffix(output@),
{
    let mut s = head;
    if output.as_str().is_empty() {
        assert(s@ =~= s@ + Seq::<char>::empty());
    } else {
        s.append(":\n");
        s.append(output.as_str());
        assert(s@ =~= head@ + (":\n"@ + output@));
    }
    s
}

/// The human-readable reason that a step reports for `e`.
pub fn describe(e: &StepError) -> (r: String)
    ensures
        r@ == reason_of(*e),
{
    match e {
        StepError::Exec(x) => match x {
            ExecError::SpawnFailed { cause, program } => match cause {
                SpawnCause::NotFound => join3("Cannot find ", program.as_str(), " in PATH"),
                SpawnCause::PermissionDenied => join2("Permission denied when starting ", program.as_str()),
                SpawnCause::ExecFormat => join3(
                    "Cannot execute ",
                    program.as_str(),
                    ": not an executable format",
                ),
                SpawnCause::Other => join2("Could not start ", program.as_str()),
            },
            ExecError::NonZeroExit { code, output } => match code {
                Some(c) => {
                    let n = format_i32(*c);
                    let head = join2("Command exited with status ", n.as_str());
                    with_output(head, output)
                },
                None => with_output(String::from_str("Command was terminated by a signal"), output),
            },
            ExecError::ParseFailed { output } => with_output(
                String::from_str("Command reported a failure"),
                output,
            ),
        },
        StepError::BinaryNotFound { name } => join3("Cannot find ", name.as_str(), " in PATH"),
        StepError::PreconditionUnmet { reason } => reason.clone(),
        StepError::ElevationUnavailable => String::from_str(
            "Elevated privileges are required but no elevation program is available",
        ),
        StepError::NotApplicable { reason } => reason.clone(),
        StepError::Failed { reason } => reason.clone(),
    }
}

/// Whether `e` means that the step does not apply here.
pub fn skips(e: &StepError) -> (r: bool)
    ensures
        r == is_skip(*e),
{
    match e {
        StepError::Exec(ExecError::SpawnFailed { cause, .. }) => match cause {
            SpawnCause::NotFound => true,
            _ => false,
        },
        StepError::Exec(_) => false,
        StepError::Failed { .. } => false,
        _ => true,
    }
}

/// Classifies a step's error: `Skipped` when the step does not apply here
/// (a missing program, an unmet precondition, a step that does not apply,
/// unavailable elevation), `Failed` when it should have run and did not
/// succeed (a non-zero exit, a failure shown in the output, any other
/// failure to start the program, a failure the step itself reports).
pub fn classify(e: &StepError) -> (r: StepOutcome)
    ensures
        r@ == outcome_of(Err(*e)),
{
    let reason = describe(e);
    if skips(e) {
        StepOutcome::Skipped(reason)
    } else {
        StepOutcome::Failed(reason)
    }
}

/// The outcome that a step with result `r` reports.
pub fn outcome(r: &Result<(), StepError>) -> (o: StepOutcome)
    ensures
        o@ == outcome_of(*r),
{
    match r {
        Ok(()) => StepOutcome::Success,
        Err(e) => classify(e),
    }
}

/// Whether `e` reports a program that is not installed, by the step itself
/// or by the system failing to find it when starting it.
pub open spec fn is_missing_binary(e: StepError) -> bool {
    match e {
        StepError::BinaryNotFound { .. } => true,
        StepError::Exec(ExecError::SpawnFailed { cause, .. }) => cause == SpawnCause::NotFound,
        _ => false,
    }
}

/// A missing program never fails a step: it is always skipped, with a
/// reason that names the program.
pub proof fn lemma_missing_binary_skips(e: StepError)
    requires
        is_missing_binary(e),
    ensures
        outcome_of(Err(e)) is Skipped,
        !(outcome_of(Err(e)) is Failed),
        outcome_of(Err(e)) == OutcomeView::Skipped(
            not_found_reason(
                match e {
                    StepError::Exec(ExecError::SpawnFailed { program, .. }) => program@,
                    StepError::BinaryNotFound { name } => name@,
                    _ => Seq::empty(),
                },
            ),
        ),
{
}

} // verus!
