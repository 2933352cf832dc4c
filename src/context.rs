//! The configuration of one run, threaded into every step.
use vstd::prelude::*;

use crate::command::Command;
use crate::elevation::{after_wrap, will_advise, wrapped, ElevationProvider, Wrapped};
use crate::outcome::StepError;
use crate::executor::RunMode;

verus! {

/// The steps that a run may take.
#[derive(Clone, Copy, PartialEq, Eq, Structural, Debug)]
pub enum Step {
    Chocolatey,
    Winget,
    Scoop,
    Sdio,
    Wsl,
    WslUpdate,
    WindowsUpdate,
    MicrosoftStore,
    Powershell,
    Node,
    Yarn,
    Deno,
}

/// Whether Windows Update may restart the machine by itself.
#[derive(Clone, Copy, PartialEq, Eq, Structural, Debug)]
pub enum AutoReboot {
    Yes,
    No,
    Ask,
}

/// The settings that steps read.
#[derive(Clone, Debug)]
pub struct Config {
    /// Every step counts as confirmed.
    pub yes_all: bool,
    /// The steps that the user confirmed one by one.
    pub yes_steps: Vec<Step>,
    pub verbose: bool,
    pub cleanup: bool,
    pub npm_use_sudo: bool,
    pub yarn_use_sudo: bool,
    pub winget_use_sudo: bool,
    pub winget_silent_install: bool,
    pub powershell_force_modules_update: bool,
    pub accept_all_windows_updates: bool,
    pub windows_updates_auto_reboot: AutoReboot,
    pub sdio_binary: Option<String>,
    pub sdio_script: Option<String>,
    pub sdio_upgrade: bool,
    pub wsl_update_pre_release: bool,
    pub wsl_update_use_web_download: bool,
}

/// Whether the user confirmed `step`.
pub open spec fn confirmed(c: Config, step: Step) -> bool {
    c.yes_all || c.yes_steps@.contains(step)
}

impl Config {
    /// Settings with every switch off, nothing confirmed and no paths given.
    pub fn new() -> (r: Config)
        ensures
            !r.yes_all && r.yes_steps@.len() == 0 && !r.verbose && !r.cleanup && !r.npm_use_sudo
                && !r.yarn_use_sudo && !r.winget_use_sudo && !r.winget_silent_install
                && !r.powershell_force_modules_update && !r.accept_all_windows_updates
                && r.windows_updates_auto_reboot == AutoReboot::Ask && r.sdio_binary is None
                && r.sdio_script is None && !r.sdio_upgrade && !r.wsl_update_pre_release
                && !r.wsl_update_use_web_download,
    {
        Config {
            yes_all: false,
            yes_steps: Vec::new(),
            verbose: false,
            cleanup: false,
            npm_use_sudo: false,
            yarn_use_sudo: false,
            winget_use_sudo: false,
            winget_silent_install: false,
            powershell_force_modules_update: false,
            accept_all_windows_updates: false,
            windows_updates_auto_reboot: AutoReboot::Ask,
            sdio_binary: None,
            sdio_script: None,
            sdio_upgrade: false,
            wsl_update_pre_release: false,
            wsl_update_use_web_download: false,
        }
    }

    /// Whether the user confirmed `step`, one by one or all at once.
    pub fn yes(&self, step: Step) -> (r: bool)
        ensures
            r == confirmed(*self, step),
    {
        if self.yes_all {
            return true;
        }
        let mut i: usize = 0;
        while i < self.yes_steps.len()
            invariant
                i <= self.yes_steps.len(),
                forall|j: int| 0 <= j < i ==> self.yes_steps@[j] != step,
            decreases self.yes_steps.len() - i,
        {
            if self.yes_steps[i] == step {
                assert(self.yes_steps@[i as int] == step);
                return true;
            }
            i = i + 1;
        }
        false
    }
}

/// Relies on `directories::BaseDirs`: the user's home directory, when the
/// system names one. Nothing is assumed of its value.
#[verifier::external_body]
fn home_directory() -> (r: Option<String>) {
    directories::BaseDirs::new().map(|d| d.home_dir().to_string_lossy().into_owned())
}

/// Why a run could not start.
#[derive(Clone, Copy, PartialEq, Eq, Structural, Debug)]
pub enum ContextError {
    /// The system names no home directory for the user.
    NoHomeDirectory,
}

/// Everything a step is given: the run mode, the elevation provider if
/// elevation is possible, the settings, and the user's home directory.
#[derive(Debug)]
pub struct ExecutionContext {
    pub run_mode: RunMode,
    pub elevation: Option<ElevationProvider>,
    pub config: Config,
    pub home_dir: String,
}

impl ExecutionContext {
    /// A context from given parts.
    pub fn new(
        run_mode: RunMode,
        elevation: Option<ElevationProvider>,
        config: Config,
        home_dir: String,
    ) -> (r: ExecutionContext)
        ensures
            r.run_mode == run_mode,
            r.elevation == elevation,
            r.config == config,
            r.home_dir == home_dir,
    {
        ExecutionContext { run_mode, elevation, config, home_dir }
    }

    /// A context whose home directory is the one the system names; without
    /// one the run cannot start.
    pub fn detect(run_mode: RunMode, elevation: Option<ElevationProvider>, config: Config) -> (r:
        Result<ExecutionContext, ContextError>)
        ensures
            r matches Ok(c) ==> c.run_mode == run_mode && c.elevation == elevation && c.config
                == config,
    {
        match home_directory() {
            Some(home_dir) => Ok(ExecutionContext { run_mode, elevation, config, home_dir }),
            None => Err(ContextError::NoHomeDirectory),
        }
    }

    /// The run mode.
    pub fn run_type(&self) -> (r: RunMode)
        ensures
            r == self.run_mode,
    {
        self.run_mode
    }

    /// Prepares `cmd` to run with elevated rights through the context's
    /// provider; without one the step cannot run and is skipped.
    pub fn elevate(&mut self, cmd: Command, already_elevated: bool) -> (r: Result<Wrapped, StepError>)
        ensures
            final(self).run_mode == old(self).run_mode,
            final(self).config == old(self).config,
            final(self).home_dir == old(self).home_dir,
            match old(self).elevation {
                None => r matches Err(e) && e is ElevationUnavailable && final(self).elevation is None,
                Some(p) => final(self).elevation matches Some(q) && q@ == after_wrap(p@, already_elevated)
                    && (r is Ok <==> (already_elevated || p@.program is Some)) && (r matches Err(e) ==> e is ElevationUnavailable)
                    && (r matches Ok(w) ==> w.command@ == wrapped(p@, cmd@, already_elevated)
                    && w.advisory == will_advise(p@, already_elevated)),
            },
    {
        match &mut self.elevation {
            Some(p) => p.wrap(cmd, already_elevated),
            None => Err(StepError::ElevationUnavailable),
        }
    }

    /// The settings.
    pub fn config(&self) -> (r: &Config)
        ensures
            *r == self.config,
    {
        &self.config
    }
}

} // verus!
