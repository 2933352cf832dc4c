//! Step execution and elevation framework for an upgrade orchestrator that
//! drives many independent upgrade tools in one run.
//!
//! - `executor`: whether a command is run or only described (dry run), and
//!   how a finished process is judged.
//! - `elevation`: running commands with elevated rights, with one notice of
//!   the prompt per run.
//! - `outcome` and `runner`: a step's error classified as skipped or failed,
//!   and the run's summary, which fails only when a step failed.
//! - `forward` and `shell`: running the tool inside nested environments with
//!   its flags quoted into one command line.
//! - `powershell`, `node`, `windows`: the steps, as plans of commands.
//! - `command`, `context`, `text`: commands, the run's settings, and the
//!   character-sequence helpers the rest is proved with.
pub mod command;
pub mod context;
pub mod elevation;
pub mod executor;
pub mod forward;
pub mod node;
pub mod outcome;
pub mod powershell;
pub mod runner;
pub mod shell;
pub mod text;
pub mod windows;
