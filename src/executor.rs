//! Whether a command is run or only reported, and how a finished process is
//! judged.
use vstd::prelude::*;

use crate::command::{Command, CommandView};
use crate::outcome::{ExecError, SpawnCause};
use crate::shell::rendered;

verus! {

/// Whether commands are run or only described.
#[derive(Clone, Copy, PartialEq, Eq, Structural, Debug)]
pub enum RunMode {
    /// Commands are described and never run.
    DryRun,
    /// Commands are run.
    Execute,
}

/// Whether only the exit status is checked, or the output is kept too.
#[derive(Clone, Copy, PartialEq, Eq, Structural, Debug)]
pub enum OutputMode {
    StatusOnly,
    CapturedOutput,
}

/// What a successful command gave back.
#[derive(Clone, Debug, PartialEq, Eq)]
pub struct ExecResult {
    pub stdout: String,
    pub stderr: String,
    /// Whether the command was only described, under a dry run.
    pub simulated: bool,
}

/// What became of a spawned process, as the caller that spawned it saw it.
#[derive(Clone, Debug, PartialEq, Eq)]
pub enum ProcessReport {
    /// The process ran to its end (`None`: it was killed by a signal).
    Exited { code: Option<i32>, stdout: String, stderr: String },
    /// The process could not be started.
    NotStarted { cause: SpawnCause },
}

/// What the caller has to do with a command.
#[derive(Debug)]
pub enum Dispatch {
    /// Nothing: the command was only described, and counts as successful.
    Simulated { result: ExecResult, notice: String },
    /// Spawn exactly this command, wait for it, and report what it did.
    Spawn(Command),
}

/// Decides for each command whether it is run, and keeps the commands that a
/// dry run described.
#[derive(Debug)]
pub struct Executor {
    mode: RunMode,
    recorded: Vec<Command>,
}

/// What an `Executor` holds.
pub struct ExecutorView {
    pub mode: RunMode,
    pub recorded: Seq<CommandView>,
}

impl View for Executor {
    type V = ExecutorView;

    closed spec fn view(&self) -> ExecutorView {
        ExecutorView { mode: self.mode, recorded: self.recorded@.map_values(|c: Command| c@) }
    }
}

/// The notice that a dry run prints for a command.
pub open spec fn dry_run_notice(c: CommandView) -> Seq<char> {
    "Dry running: "@ + c.program + rendered(c.args)
}

impl Executor {
    /// An executor for the run mode `mode`, with nothing recorded.
    pub fn new(mode: RunMode) -> (r: Executor)
        ensures
            r@.mode == mode,
            r@.recorded == Seq::<CommandView>::empty(),
    {
        let r = Executor { mode, recorded: Vec::new() };
        assert(r@.recorded =~= Seq::<CommandView>::empty());
        r
    }

    /// The run mode.
    pub fn mode(&self) -> (r: RunMode)
        ensures
            r == self@.mode,
    {
        self.mode
    }

    /// The commands that were described instead of run, in order.
    pub fn recorded(&self) -> (r: &Vec<Command>)
        ensures
            r@.map_values(|c: Command| c@) == self@.recorded,
    {
        &self.recorded
    }

    /// Decides what becomes of `cmd`. Under a dry run nothing is spawned: the
    /// command is recorded and a successful result without output comes back
    /// with a notice that describes the command. Otherwise the command is
    /// handed back, unchanged, to be spawned.
    pub fn dispatch(&mut self, cmd: Command) -> (r: Dispatch)
        ensures
            final(self)@.mode == old(self)@.mode,
            old(self)@.mode == RunMode::DryRun ==> {
                &&& final(self)@.recorded == old(self)@.recorded.push(cmd@)
                &&& r matches Dispatch::Simulated { result, notice } && result.simulated
                    && result.stdout@.len() == 0 && result.stderr@.len() == 0 && notice@
                    == dry_run_notice(cmd@)
            },
            old(self)@.mode == RunMode::Execute ==> {
                &&& final(self)@.recorded == old(self)@.recorded
                &&& r matches Dispatch::Spawn(c) && c@ == cmd@
            },
    {
        match self.mode {
            RunMode::DryRun => {
                let mut notice = String::from_str("Dry running: ");
                let shown = cmd.display();
                notice.append(shown.as_str());
                self.recorded.push(cmd);
                proof {
                    assert(self@.recorded =~= old(self)@.recorded.push(cmd@));
                }
                let result = ExecResult {
                    stdout: String::new(),
                    stderr: String::new(),
                    simulated: true,
                };
                Dispatch::Simulated { result, notice }
            },
            RunMode::Execute => Dispatch::Spawn(cmd),
        }
    }
}

/// Judges what a spawned process did: it succeeded only if it exited with
/// status 0. A process that could not start is a spawn failure of its
/// program; one that exited otherwise carries its output as context. The
/// output of a success is kept only under `CapturedOutput`.
pub fn complete(cmd: &Command, report: ProcessReport, mode: OutputMode) -> (r: Result<
    ExecResult,
    ExecError,
>)
    ensures
        match report {
            ProcessReport::NotStarted { cause } => r matches Err(
                ExecError::SpawnFailed { cause: c, program },
            ) && c == cause && program@ == cmd@.program,
            ProcessReport::Exited { code, stdout, stderr } => if code == Some(0i32) {
                r matches Ok(res) && !res.simulated && (mode == OutputMode::CapturedOutput ==> (
                res.stdout@ == stdout@ && res.stderr@ == stderr@)) && (mode
                    == OutputMode::StatusOnly ==> (res.stdout@.len() == 0 && res.stderr@.len()
                    == 0))
            } else {
                r matches Err(ExecError::NonZeroExit { code: c, output }) && c == code && output@
                    == stdout@ + stderr@
            },
        },
{
    match report {
        ProcessReport::NotStarted { cause } => Err(
            ExecError::SpawnFailed { cause, program: cmd.program.clone() },
        ),
        ProcessReport::Exited { code, stdout, stderr } => {
            let ok = match code {
                Some(c) => c == 0,
                None => false,
            };
            if ok {
                match mode {
                    OutputMode::CapturedOutput => Ok(ExecResult { stdout, stderr, simulated: false }),
                    OutputMode::StatusOnly => Ok(
                        ExecResult { stdout: String::new(), stderr: String::new(), simulated: false },
                    ),
                }
            } else {
                let mut output = stdout;
                output.append(stderr.as_str());
                Err(ExecError::NonZeroExit { code, output })
            }
        },
    }
}

/// As `complete` with the output kept, and further: a process that exited
/// with status 0 but whose standard output `validate` rejects failed, with
/// that output as the context of the failure. Tools that report errors with
/// a zero status are checked this way.
pub fn complete_checked<V>(cmd: &Command, report: ProcessReport, validate: V) -> (r: Result<
    ExecResult,
    ExecError,
>)
    where
        V: Fn(&String) -> bool,
    requires
        forall|s: &String| validate.requires((s,)),
    ensures
        match report {
            ProcessReport::NotStarted { cause } => r matches Err(
                ExecError::SpawnFailed { cause: c, program },
            ) && c == cause && program@ == cmd@.program,
            ProcessReport::Exited { code, stdout, stderr } => if code == Some(0i32) {
                (r matches Ok(res) && !res.simulated && res.stdout@ == stdout@ && res.stderr@
                    == stderr@ && validate.ensures((&res.stdout,), true)) || (r matches Err(
                    ExecError::ParseFailed { output },
                ) && output@ == stdout@ && validate.ensures((&output,), false))
            } else {
                r matches Err(ExecError::NonZeroExit { code: c, output }) && c == code && output@
                    == stdout@ + stderr@
            },
        },
{
    let done = complete(cmd, report, OutputMode::CapturedOutput);
    match done {
        Ok(res) => {
            if validate(&res.stdout) {
                Ok(res)
            } else {
                Err(ExecError::ParseFailed { output: res.stdout })
            }
        },
        Err(e) => Err(e),
    }
}

} // verus!
