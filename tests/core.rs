use topgrade::command::Command;
use topgrade::context::{Config, ExecutionContext, Step};
use topgrade::elevation::ElevationProvider;
use topgrade::executor::{complete, complete_checked, Dispatch, Executor, OutputMode, ProcessReport, RunMode};
use topgrade::forward::{combine, forward, Forwarding, get_wsl_distributions, inner_command_line, run_wsl_topgrade, tool_lookup_command, upgrade_wsl_distribution};
use topgrade::outcome::{classify, describe, outcome, ExecError, SpawnCause, StepError, StepOutcome};
use topgrade::runner::{run_all, RunSummary};
use topgrade::shell::{quote_arg, render_args, split_words};
use topgrade::text::{contains, format_i32, trim};

fn strings(v: &[&str]) -> Vec<String> {
    v.iter().map(|s| s.to_string()).collect()
}

fn context(mode: RunMode, elevation: Option<ElevationProvider>, config: Config) -> ExecutionContext {
    ExecutionContext::new(mode, elevation, config, "/home/user".to_string())
}

#[test]
fn dry_run_records_and_never_spawns() {
    let mut ex = Executor::new(RunMode::DryRun);
    for i in 0..3 {
        let cmd = Command::new("apt").arg("upgrade").arg(&format!("pkg {}", i));
        match ex.dispatch(cmd) {
            Dispatch::Simulated { result, notice } => {
                assert!(result.simulated);
                assert!(result.stdout.is_empty() && result.stderr.is_empty());
                assert_eq!(notice, format!("Dry running: apt 'upgrade' 'pkg {}'", i));
            }
            Dispatch::Spawn(_) => panic!("a dry run spawned a process"),
        }
    }
    assert_eq!(ex.recorded().len(), 3);
    assert_eq!(ex.recorded()[2].args, strings(&["upgrade", "pkg 2"]));
    assert_eq!(ex.recorded()[0].program, "apt");
}

#[test]
fn execute_hands_the_command_back_unchanged() {
    let mut ex = Executor::new(RunMode::Execute);
    let cmd = Command::new("brew").arg("upgrade").current_dir("/tmp");
    match ex.dispatch(cmd) {
        Dispatch::Spawn(c) => {
            assert_eq!(c.program, "brew");
            assert_eq!(c.args, strings(&["upgrade"]));
            assert_eq!(c.cwd, Some("/tmp".to_string()));
        }
        Dispatch::Simulated { .. } => panic!("an executed command was simulated"),
    }
    assert!(ex.recorded().is_empty());
}

#[test]
fn completion_classifies_exit_statuses() {
    let cmd = Command::new("tool");
    let ok = complete(&cmd, ProcessReport::Exited { code: Some(0), stdout: "out".into(), stderr: "err".into() }, OutputMode::CapturedOutput).unwrap();
    assert_eq!(ok.stdout, "out");
    assert_eq!(ok.stderr, "err");
    let quiet = complete(&cmd, ProcessReport::Exited { code: Some(0), stdout: "out".into(), stderr: String::new() }, OutputMode::StatusOnly).unwrap();
    assert!(quiet.stdout.is_empty());
    match complete(&cmd, ProcessReport::Exited { code: Some(3), stdout: "a".into(), stderr: "b".into() }, OutputMode::StatusOnly) {
        Err(ExecError::NonZeroExit { code, output }) => {
            assert_eq!(code, Some(3));
            assert_eq!(output, "ab");
        }
        _ => panic!("expected a non-zero exit"),
    }
    match complete(&cmd, ProcessReport::NotStarted { cause: SpawnCause::NotFound }, OutputMode::StatusOnly) {
        Err(ExecError::SpawnFailed { cause, program }) => {
            assert_eq!(cause, SpawnCause::NotFound);
            assert_eq!(program, "tool");
        }
        _ => panic!("expected a spawn failure"),
    }
}

#[test]
fn validator_turns_a_zero_exit_into_a_failure() {
    let cmd = Command::new("tool");
    let bad = complete_checked(&cmd, ProcessReport::Exited { code: Some(0), stdout: "{\"error\":1}".into(), stderr: String::new() }, |s: &String| !s.contains("error"));
    assert!(matches!(bad, Err(ExecError::ParseFailed { ref output }) if output == "{\"error\":1}"));
    let good = complete_checked(&cmd, ProcessReport::Exited { code: Some(0), stdout: "fine".into(), stderr: String::new() }, |s: &String| !s.contains("error"));
    assert!(good.is_ok());
}

#[test]
fn missing_binary_is_always_skipped() {
    let a = classify(&StepError::BinaryNotFound { name: "choco".into() });
    assert_eq!(a, StepOutcome::Skipped("Cannot find choco in PATH".into()));
    let b = classify(&StepError::Exec(ExecError::SpawnFailed { cause: SpawnCause::NotFound, program: "npm".into() }));
    assert_eq!(b, StepOutcome::Skipped("Cannot find npm in PATH".into()));
}

#[test]
fn classifier_policy_table() {
    assert!(matches!(classify(&StepError::PreconditionUnmet { reason: "r".into() }), StepOutcome::Skipped(_)));
    assert!(matches!(classify(&StepError::NotApplicable { reason: "n".into() }), StepOutcome::Skipped(_)));
    assert!(matches!(classify(&StepError::ElevationUnavailable), StepOutcome::Skipped(_)));
    assert!(matches!(classify(&StepError::Exec(ExecError::SpawnFailed { cause: SpawnCause::PermissionDenied, program: "x".into() })), StepOutcome::Failed(_)));
    assert!(matches!(classify(&StepError::Exec(ExecError::SpawnFailed { cause: SpawnCause::ExecFormat, program: "x".into() })), StepOutcome::Failed(_)));
    assert!(matches!(classify(&StepError::Exec(ExecError::ParseFailed { output: "o".into() })), StepOutcome::Failed(_)));
    assert!(matches!(classify(&StepError::Failed { reason: "f".into() }), StepOutcome::Failed(_)));
    assert_eq!(
        classify(&StepError::Exec(ExecError::NonZeroExit { code: Some(-12), output: "boom".into() })),
        StepOutcome::Failed("Command exited with status -12:\nboom".into())
    );
}

#[test]
fn reasons_read_as_written() {
    assert_eq!(describe(&StepError::Exec(ExecError::NonZeroExit { code: Some(2), output: String::new() })), "Command exited with status 2");
    assert_eq!(describe(&StepError::Exec(ExecError::NonZeroExit { code: None, output: String::new() })), "Command was terminated by a signal");
    assert_eq!(describe(&StepError::Exec(ExecError::SpawnFailed { cause: SpawnCause::PermissionDenied, program: "x".into() })), "Permission denied when starting x");
    assert_eq!(describe(&StepError::PreconditionUnmet { reason: "confirm first".into() }), "confirm first");
    assert_eq!(format_i32(i32::MIN), "-2147483648");
    assert_eq!(format_i32(0), "0");
    assert_eq!(format_i32(40213), "40213");
}

#[test]
fn run_all_keeps_going_and_reports_failure() {
    let names = strings(&["A", "B", "C"]);
    let ran = std::cell::RefCell::new(Vec::new());
    let summary = run_all(&names, |i: usize| {
        ran.borrow_mut().push(i);
        if i == 1 {
            Err(StepError::Exec(ExecError::NonZeroExit { code: Some(1), output: String::new() }))
        } else {
            Ok(())
        }
    });
    assert_eq!(*ran.borrow(), vec![0, 1, 2]);
    let entries = summary.entries();
    assert_eq!(entries.len(), 3);
    assert_eq!(entries[0], ("A".to_string(), StepOutcome::Success));
    assert_eq!(entries[1], ("B".to_string(), StepOutcome::Failed("Command exited with status 1".into())));
    assert_eq!(entries[2], ("C".to_string(), StepOutcome::Success));
    assert!(!summary.succeeded());
    assert_eq!(summary.exit_code(), 1);
}

#[test]
fn skipped_steps_do_not_fail_the_run() {
    let mut s = RunSummary::new();
    s.record("deno", &Err(StepError::BinaryNotFound { name: "deno".into() }));
    s.record("npm", &Ok(()));
    assert_eq!(s.len(), 2);
    assert!(s.succeeded());
    assert_eq!(s.exit_code(), 0);
    assert!(RunSummary::new().succeeded());
}

#[test]
fn elevation_notice_is_shown_once() {
    let mut p = ElevationProvider::new(Some("sudo".into()));
    let mut notices = 0;
    for name in ["a", "b", "c"] {
        let w = p.wrap(Command::new(name).arg("x"), false).unwrap();
        assert_eq!(w.command.program, "sudo");
        assert_eq!(w.command.args, strings(&[name, "x"]));
        if w.advisory {
            notices += 1;
        }
    }
    assert_eq!(notices, 1);
    assert!(p.prompt_shown());
}

#[test]
fn elevation_passthrough_and_absence() {
    let mut p = ElevationProvider::new(Some("sudo".into()));
    let w = p.wrap(Command::new("apt"), true).unwrap();
    assert_eq!(w.command.program, "apt");
    assert!(!w.advisory);
    assert!(!p.prompt_shown());
    let mut none = ElevationProvider::new(None);
    assert!(matches!(none.wrap(Command::new("apt"), false), Err(StepError::ElevationUnavailable)));
    assert_eq!(outcome(&Err(StepError::ElevationUnavailable)), StepOutcome::Skipped("Elevated privileges are required but no elevation program is available".into()));
}

#[test]
fn forward_succeeds_when_one_environment_does() {
    let r = forward(2, |i: usize| {
        if i == 0 {
            Err(StepError::NotApplicable { reason: "Could not find Topgrade installed in WSL".into() })
        } else {
            Ok(())
        }
    });
    assert_eq!(outcome(&r), StepOutcome::Success);
}

#[test]
fn forward_skips_when_every_environment_lacks_the_tool() {
    let r = forward(2, |_i: usize| Err(StepError::NotApplicable { reason: "Could not find Topgrade installed in WSL".into() }));
    assert_eq!(outcome(&r), StepOutcome::Skipped("Could not find Topgrade in any WSL distribution".into()));
    let none = forward(0, |_i: usize| Ok(()));
    assert!(matches!(outcome(&none), StepOutcome::Skipped(_)));
}

#[test]
fn forward_reports_the_first_failure_without_success() {
    let r = forward(3, |i: usize| match i {
        0 => Err(StepError::NotApplicable { reason: "missing".into() }),
        1 => Err(StepError::Failed { reason: "first".into() }),
        _ => Err(StepError::Failed { reason: "second".into() }),
    });
    assert_eq!(outcome(&r), StepOutcome::Failed("first".into()));
}

#[test]
fn quoting_round_trips_spaces_and_quotes() {
    let args = strings(&["-lc", "exec tool --flag \"value with spaces\"", "it's", "", "a\\b", "$HOME;rm"]);
    let line = render_args(&args);
    assert_eq!(split_words(&line), Some(args));
    assert_eq!(quote_arg("it's"), "'it'\\''s'");
}

#[test]
fn word_splitting_follows_the_shell() {
    assert_eq!(split_words("  a  b\tc\n"), Some(strings(&["a", "b", "c"])));
    assert_eq!(split_words("x='a b'c"), Some(strings(&["x=a bc"])));
    assert_eq!(split_words("a\\ b"), Some(strings(&["a b"])));
    assert_eq!(split_words("'open"), None);
    assert_eq!(split_words("a;b"), None);
    assert_eq!(split_words(""), Some(vec![]));
}

#[test]
fn inner_line_keeps_flags_inside() {
    let flags = strings(&["-v", "-y"]);
    let line = inner_command_line("Ubuntu 22.04", "/home/o'neil/bin/topgrade", &flags);
    assert_eq!(
        split_words(&line),
        Some(strings(&["TOPGRADE_PREFIX=Ubuntu 22.04", "exec", "/home/o'neil/bin/topgrade", "-v", "-y"]))
    );
}

#[test]
fn forwarded_command_has_nothing_after_the_line() {
    let mut config = Config::new();
    config.verbose = true;
    config.yes_steps = vec![Step::Wsl];
    let ctx = context(RunMode::Execute, None, config);
    let c = upgrade_wsl_distribution(&ctx, "wsl.exe", "Ubuntu", Some("/usr/bin/topgrade\n".into())).unwrap();
    assert_eq!(c.program, "wsl.exe");
    assert_eq!(c.args.len(), 5);
    assert_eq!(&c.args[..4], &strings(&["-d", "Ubuntu", "bash", "-lc"])[..]);
    assert_eq!(c.args[4], "TOPGRADE_PREFIX='Ubuntu' exec '/usr/bin/topgrade' '-v' '-y'");
    let missing = upgrade_wsl_distribution(&ctx, "wsl.exe", "Ubuntu", None);
    assert!(matches!(outcome(&missing.map(|_| ())), StepOutcome::Skipped(_)));
    let blank = upgrade_wsl_distribution(&ctx, "wsl.exe", "Ubuntu", Some(" \n".into()));
    assert!(blank.is_err());
}

#[test]
fn lookup_command_asks_the_environment() {
    let c = tool_lookup_command("wsl", "Debian");
    assert_eq!(c.args, strings(&["-d", "Debian", "bash", "-lc", "which topgrade"]));
}

#[test]
fn distribution_listing_is_cleaned() {
    let out = "U\0b\0u\0n\0t\0u\0\r\0\n\0  Debian \r\n\n\r\n";
    assert_eq!(get_wsl_distributions(out), strings(&["Ubuntu", "Debian"]));
    assert!(get_wsl_distributions("").is_empty());
}

#[test]
fn wsl_step_without_subsystem() {
    let names: Vec<String> = vec![];
    let r = run_wsl_topgrade(false, Some("wsl".into()), &names, |_i: usize| Ok(()));
    assert_eq!(outcome(&r), StepOutcome::Skipped("WSL not installed".into()));
    let r = run_wsl_topgrade(true, None, &names, |_i: usize| Ok(()));
    assert_eq!(outcome(&r), StepOutcome::Skipped("Cannot find wsl in PATH".into()));
    let dists = strings(&["A"]);
    let r = run_wsl_topgrade(true, Some("wsl".into()), &dists, |_i: usize| Ok(()));
    assert!(r.is_ok());
}

#[test]
fn text_helpers() {
    assert_eq!(trim("\u{3000} a b \t"), "a b");
    assert!(contains("/mnt/c/npm", "/mnt/"));
    assert!(!contains("/usr/bin", "/mnt/"));
    let mut cfg = Config::new();
    assert!(!cfg.yes(Step::Sdio));
    cfg.yes_all = true;
    assert!(cfg.yes(Step::Sdio));
}

#[test]
fn detected_context_keeps_its_parts() {
    let mut config = Config::new();
    config.verbose = true;
    if let Ok(ctx) = ExecutionContext::detect(RunMode::DryRun, None, config) {
        assert_eq!(ctx.run_type(), RunMode::DryRun);
        assert!(ctx.config().verbose);
        assert!(ctx.elevation.is_none());
    }
}

#[test]
fn combine_follows_the_results() {
    assert_eq!(combine(vec![Err(StepError::NotApplicable { reason: "m".into() }), Ok(())]), Ok(()));
    assert_eq!(
        combine(vec![Ok(()), Err(StepError::Failed { reason: "x".into() })]),
        Ok(())
    );
    assert_eq!(
        combine(vec![Err(StepError::NotApplicable { reason: "m".into() }), Err(StepError::Failed { reason: "x".into() })]),
        Err(StepError::Failed { reason: "x".into() })
    );
    assert_eq!(
        combine(vec![]),
        Err(StepError::NotApplicable { reason: "Could not find Topgrade in any WSL distribution".into() })
    );
}

#[test]
fn forwarding_hands_out_each_environment_once_in_order() {
    let mut run = Forwarding::new(3);
    let mut seen = Vec::new();
    while let Some(i) = run.next() {
        seen.push(i);
        run.record(if i == 1 { Err(StepError::Failed { reason: "B".into() }) } else { Ok(()) });
    }
    assert_eq!(seen, vec![0, 1, 2]);
    assert_eq!(run.finish(), Ok(()));
}

#[test]
fn forward_runs_every_environment_after_a_failure() {
    let calls = std::cell::RefCell::new(Vec::new());
    let r = forward(3, |i: usize| {
        calls.borrow_mut().push(i);
        if i == 1 { Err(StepError::Failed { reason: "B".into() }) } else { Ok(()) }
    });
    assert_eq!(*calls.borrow(), vec![0, 1, 2]);
    assert_eq!(r, Ok(()));
}
