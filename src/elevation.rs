//! Running commands with elevated rights, and the one notice that an
//! elevation prompt is coming.
use vstd::prelude::*;

use crate::command::{copy_opt, opt_view, Command, CommandView};
use crate::outcome::StepError;
use crate::shell::views;

verus! {

/// Relies on `nix::unistd::Uid::effective`: the effective user id of this
/// process. Nothing is assumed of its value.
#[verifier::external_body]
pub(crate) fn effective_uid() -> (r: u32) {
    nix::unistd::Uid::effective().as_raw()
}

/// Whether the user id `uid` is the superuser's.
pub fn is_root_uid(uid: u32) -> (r: bool)
    ensures
        r == (uid == 0),
{
    uid == 0
}

/// Whether this process already runs with the superuser's rights, so that
/// no command needs wrapping. The answer is the system's.
pub fn is_already_elevated() -> bool {
    is_root_uid(effective_uid())
}

/// The program that elevates commands, if the host has one, and whether the
/// notice of an elevation prompt was shown in this run.
#[derive(Clone, Debug)]
pub struct ElevationProvider {
    program: Option<String>,
    prompt_shown: bool,
}

/// What an `ElevationProvider` holds.
pub struct ElevationView {
    pub program: Option<Seq<char>>,
    pub prompt_shown: bool,
}

impl View for ElevationProvider {
    type V = ElevationView;

    closed spec fn view(&self) -> ElevationView {
        ElevationView { program: opt_view(self.program), prompt_shown: self.prompt_shown }
    }
}

/// A command ready to run, and whether the caller must first show the notice
/// that an elevation prompt is coming.
#[derive(Clone, Debug, PartialEq, Eq)]
pub struct Wrapped {
    pub command: Command,
    pub advisory: bool,
}

/// Whether wrapping a command from state `p` shows the notice: only the
/// first elevation of a run does.
pub open spec fn will_advise(p: ElevationView, already_elevated: bool) -> bool {
    !already_elevated && p.program is Some && !p.prompt_shown
}

/// The state after wrapping a command from state `p`.
pub open spec fn after_wrap(p: ElevationView, already_elevated: bool) -> ElevationView {
    if !already_elevated && p.program is Some {
        ElevationView { program: p.program, prompt_shown: true }
    } else {
        p
    }
}

/// `cmd` as it runs from state `p`: unchanged when the process is already
/// elevated, else as the arguments of the elevation program.
pub open spec fn wrapped(p: ElevationView, cmd: CommandView, already_elevated: bool) -> CommandView {
    if already_elevated {
        cmd
    } else {
        CommandView {
            program: p.program->0,
            args: seq![cmd.program] + cmd.args,
            cwd: cmd.cwd,
        }
    }
}

/// The notice shown before the first elevation prompt of a run.
pub open spec fn advisory_notice() -> Seq<char> {
    "Administrator privileges required - you will see an elevation prompt"@
}

impl ElevationProvider {
    /// A provider that elevates through `program`, or through nothing when
    /// `program` is `None`; no notice has been shown yet.
    pub fn new(program: Option<String>) -> (r: ElevationProvider)
        ensures
            r@.program == opt_view(program),
            !r@.prompt_shown,
    {
        ElevationProvider { program, prompt_shown: false }
    }

    /// The elevation program.
    pub fn program(&self) -> (r: Option<String>)
        ensures
            opt_view(r) == self@.program,
    {
        copy_opt(&self.program)
    }

    /// Whether the notice of an elevation prompt was shown in this run.
    pub fn prompt_shown(&self) -> (r: bool)
        ensures
            r == self@.prompt_shown,
    {
        self.prompt_shown
    }

    /// The notice shown before the first elevation prompt of a run.
    pub fn advisory() -> (r: String)
        ensures
            r@ == advisory_notice(),
    {
        String::from_str("Administrator privileges required - you will see an elevation prompt")
    }

    /// Prepares `cmd` to run with elevated rights. A process that is already
    /// elevated runs it unchanged. Otherwise it runs as the arguments of the
    /// elevation program, and the first such call of the run asks for the
    /// notice; with no elevation program the step cannot run and is skipped.
    pub fn wrap(&mut self, cmd: Command, already_elevated: bool) -> (r: Result<
        Wrapped,
        StepError,
    >)
        ensures
            final(self)@ == after_wrap(old(self)@, already_elevated),
            r is Ok <==> (already_elevated || old(self)@.program is Some),
            r matches Err(e) ==> e is ElevationUnavailable,
            r matches Ok(w) ==> w.command@ == wrapped(old(self)@, cmd@, already_elevated)
                && w.advisory == will_advise(old(self)@, already_elevated),
    {
        if already_elevated {
            return Ok(Wrapped { command: cmd, advisory: false });
        }
        match &self.program {
            None => Err(StepError::ElevationUnavailable),
            Some(p) => {
                let advisory = !self.prompt_shown;
                self.prompt_shown = true;
                let mut args: Vec<String> = Vec::new();
                args.push(cmd.program);
                let ghost head = views(args@);
                assert(head =~= seq![cmd@.program]);
                let c = Command { program: p.clone(), args, cwd: cmd.cwd };
                let c = c.args(&cmd.args);
                Ok(Wrapped { command: c, advisory })
            },
        }
    }
}

/// The number of notices that a run of `wrap` calls from state `p` shows,
/// the `i`-th call made with the process elevated or not as `calls[i]` says.
pub open spec fn advisories(p: ElevationView, calls: Seq<bool>) -> nat
    decreases calls.len(),
{
    if calls.len() == 0 {
        0
    } else {
        (if will_advise(p, calls[0]) {
            1nat
        } else {
            0nat
        }) + advisories(after_wrap(p, calls[0]), calls.drop_first())
    }
}

/// However many commands a run elevates, the notice is shown at most once,
/// and never again once it was shown; the flag never goes back to unset.
pub proof fn lemma_one_advisory_per_run(p: ElevationView, calls: Seq<bool>)
    ensures
        advisories(p, calls) <= 1,
        p.prompt_shown ==> advisories(p, calls) == 0,
    decreases calls.len(),
{
    if calls.len() > 0 {
        let q = after_wrap(p, calls[0]);
        assert(p.prompt_shown ==> q.prompt_shown);
        lemma_one_advisory_per_run(q, calls.drop_first());
    }
}

/// Wrapping never unsets the flag.
pub proof fn lemma_prompt_flag_monotonic(p: ElevationView, already_elevated: bool)
    ensures
        p.prompt_shown ==> after_wrap(p, already_elevated).prompt_shown,
        after_wrap(p, already_elevated).program == p.program,
{
}

} // verus!
