use topgrade::command::Command;
use topgrade::context::{AutoReboot, Config, ExecutionContext, Step};
use topgrade::elevation::ElevationProvider;
use topgrade::executor::{complete_checked, ProcessReport, RunMode};
use topgrade::node::{
    check_node_available, deno_upgrade, sudo_decision, find_package_manager, is_wsl_windows_path, linux_lookup_command,
    linux_search_path, run_npm_upgrade, run_yarn_upgrade, should_use_sudo, sudo_needed, which_result, NodeProbe, Yarn, NPM,
};
use topgrade::outcome::{outcome, StepError, StepOutcome};
use topgrade::powershell::{elevation_probe_command, has_module, has_module_command, microsoft_store_result, will_elevate_now, wsreset_command, Powershell, ScriptBuilder};
use topgrade::windows::{
    find_sdio_binary, insert_startup_scripts, lnk_parse_safe, microsoft_store, microsoft_store_fallbacks, reboot, run_chocolatey, run_scoop, run_sdio, run_winget,
    startup_dir_in, store_scan_succeeded, update_wsl, windows_update, SDIO_CHECK_SCRIPT, SDIO_INSTALL_SCRIPT,
};

fn strings(v: &[&str]) -> Vec<String> {
    v.iter().map(|s| s.to_string()).collect()
}

fn context(elevation: Option<ElevationProvider>, config: Config) -> ExecutionContext {
    ExecutionContext::new(RunMode::Execute, elevation, config, "/home/user".to_string())
}

fn probe(version: &str, owner: Option<u32>) -> NodeProbe {
    NodeProbe { node_beside: true, version_output: version.to_string(), root: "/usr/lib/node_modules".to_string(), root_owner: owner }
}

#[test]
fn script_builder_fills_placeholders_in_order() {
    let s = ScriptBuilder::new("say {a} then {b} and {a}")
        .add_translation("a", "en-GB.hello")
        .with_param("b", "x.y z")
        .build();
    assert_eq!(s, "say hello then y z and hello");
}

#[test]
fn clean_translation_strips_locale_prefix() {
    let ps = Powershell::new(Some("pwsh".into()), None, false);
    assert_eq!(ps.clean_translation("en-GB.Scanning"), "Scanning");
    assert_eq!(ps.clean_translation("Scanning for updates..."), "Scanning for updates...");
    assert_eq!(ps.clean_translation("zh.x.y"), "x.y");
    assert_eq!(ps.clean_translation("no dot"), "no dot");
}

#[test]
fn powershell_selection() {
    let ps = Powershell::new(Some("pwsh".into()), Some("powershell".into()), false);
    assert_eq!(ps.path(), Some(&"pwsh".to_string()));
    let ps = Powershell::new(None, Some("powershell".into()), false);
    assert_eq!(ps.path(), Some(&"powershell".to_string()));
    let ps = Powershell::new(Some("pwsh".into()), None, true);
    assert_eq!(ps.path(), None);
    let wp = Powershell::windows_powershell(Some("powershell".into()), false);
    assert_eq!(wp.path(), Some(&"powershell".to_string()));
    assert_eq!(wp.profile(), None);
}

#[test]
fn profile_comes_from_the_probe() {
    let ps = Powershell::new(Some("pwsh".into()), None, false);
    let c = ps.profile_command().unwrap();
    assert_eq!(c.args, strings(&["-NoProfile", "-NoLogo", "-NonInteractive", "-Command", "Split-Path $profile"]));
    let ps = ps.with_profile(Some("  /home/u/.config/powershell\n".into()));
    assert_eq!(ps.profile(), Some(&"/home/u/.config/powershell".to_string()));
    let none = Powershell::new(None, None, false);
    assert!(none.profile_command().is_none());
}

#[test]
fn windows_update_probe_runs_once() {
    let mut ps = Powershell::new(Some("pwsh".into()), None, false);
    let calls = std::cell::Cell::new(0);
    assert!(ps.supports_windows_update(|| { calls.set(calls.get() + 1); true }));
    assert!(ps.supports_windows_update(|| { calls.set(calls.get() + 1); false }));
    assert_eq!(calls.get(), 1);
    let mut absent = Powershell::new(None, None, false);
    assert!(!absent.supports_windows_update(|| true));
}

#[test]
fn update_script_carries_flags() {
    let ps = Powershell::new(Some("pwsh".into()), None, false);
    let mut config = Config::new();
    config.verbose = true;
    config.yes_steps = vec![Step::Powershell];
    let ctx = context(None, config);
    let (force, verbose) = ps.get_update_flags(&ctx);
    assert_eq!(force, " -Force");
    assert_eq!(verbose, " -Verbose");
    let script = ps.create_update_script(&ctx);
    assert!(script.contains("Update-Module -Name $moduleName -Verbose -Force"));
    assert!(script.contains("Checking connectivity to PowerShell Gallery..."));
    assert!(script.contains("Retry attempt $updateAttempts of $maxAttempts..."));
    assert!(!script.contains("{update_command}"));
    assert!(!script.contains("{gallery_check}"));
    let plain = ps.create_update_script(&context(None, Config::new()));
    assert!(plain.contains("Update-Module -Name $moduleName\n"));
}

#[test]
fn scripts_run_elevated_with_one_notice() {
    let ps = Powershell::new(Some("pwsh".into()), None, false);
    let mut ctx = context(Some(ElevationProvider::new(Some("gsudo".into()))), Config::new());
    assert!(will_elevate_now(&ctx, false));
    let first = ps.update_modules(&mut ctx, false).unwrap();
    assert!(first.advisory);
    assert_eq!(first.command.program, "gsudo");
    assert_eq!(first.command.args[0], "pwsh");
    assert_eq!(first.command.args[4], "-Command");
    assert!(!will_elevate_now(&ctx, false));
    let second = ps.microsoft_store(&mut ctx, false).unwrap();
    assert!(!second.advisory);
    assert!(second.command.args[5].contains("UpdateScanMethod"));
    let missing = Powershell::new(None, None, false);
    let r = missing.update_modules(&mut ctx, false);
    assert_eq!(outcome(&r.map(|_| ())), StepOutcome::Skipped("Cannot find Powershell in PATH".into()));
}

#[test]
fn windows_update_script_and_missing_module() {
    let mut ps = Powershell::new(Some("pwsh".into()), None, false);
    let mut config = Config::new();
    config.accept_all_windows_updates = true;
    let mut ctx = context(None, config);
    let w = ps.windows_update(&mut ctx, || true, false).unwrap();
    assert_eq!(
        w.command.args[4],
        "Write-Output 'Starting Windows Update...'; Install-WindowsUpdate -AcceptAll -Confirm:$false; Write-Output 'Windows Update check completed'"
    );
    let mut other = Powershell::new(Some("pwsh".into()), None, false);
    let r = other.windows_update(&mut ctx, || false, false);
    assert!(matches!(outcome(&r.map(|_| ())), StepOutcome::Skipped(_)));
}

#[test]
fn execution_policy_order() {
    let ps = Powershell::new(Some("pwsh".into()), None, false);
    assert!(ps.is_execution_policy_set(Some("RemoteSigned\r\n".into()), "RemoteSigned"));
    assert!(ps.is_execution_policy_set(Some("Bypass".into()), "RemoteSigned"));
    assert!(!ps.is_execution_policy_set(Some("AllSigned".into()), "RemoteSigned"));
    assert!(!ps.is_execution_policy_set(Some("Whatever".into()), "Restricted"));
    assert!(!ps.is_execution_policy_set(None, "Restricted"));
    assert!(ps.execution_policy_args_if_needed(Some("Unrestricted".into())).is_ok());
    let r = ps.execution_policy_args_if_needed(Some("Restricted".into()));
    assert!(matches!(outcome(&r), StepOutcome::Skipped(_)));
    assert_eq!(ps.execution_policy_command().unwrap().args, strings(&["-NoProfile", "-Command", "Get-ExecutionPolicy"]));
}

#[test]
fn module_probe_and_store_helpers() {
    assert!(has_module(Some("PSWindowsUpdate 2.2".into())));
    assert!(!has_module(Some(String::new())));
    assert!(!has_module(None));
    let c = has_module_command("pwsh", "PSWindowsUpdate");
    assert_eq!(c.args[3], "Get-Module -ListAvailable PSWindowsUpdate -ErrorAction SilentlyContinue");
    assert!(microsoft_store_result(Ok(())).is_ok());
    let r = microsoft_store_result(Err(StepError::Failed { reason: "x".into() }));
    assert_eq!(outcome(&r), StepOutcome::Failed("Microsoft Store update failed. Administrator privileges may be required.".into()));
    assert_eq!(wsreset_command().program, "wsreset.exe");
    let ps = Powershell::new(None, None, false);
    assert_eq!(ps.scanning_notice(true), None);
    assert_eq!(ps.scanning_notice(false), Some("Scanning for updates...".to_string()));
    assert_eq!(ps.completion_notice("Windows Update", false, true), Some("Windows Update check completed".to_string()));
    assert_eq!(ps.completion_notice("Windows Update", false, false), None);
}

#[test]
fn npm_version_decides_the_flags() {
    let npm = NPM::new("/usr/bin/npm".into());
    let old = npm.version("8.10.0\n").unwrap();
    assert_eq!(npm.upgrade_command(&old).args, strings(&["update", "-g"]));
    assert_eq!(npm.root_command(&old).args, strings(&["root", "-g"]));
    let new = npm.version("8.11.0").unwrap();
    assert_eq!(npm.upgrade_command(&new).args, strings(&["update", "--location=global"]));
    let rc = npm.version("8.11.0-rc.1").unwrap();
    assert_eq!(rc.pre, "rc.1");
    assert_eq!(npm.upgrade_command(&rc).args, strings(&["update", "-g"]));
    let ten = npm.version("10.2.4").unwrap();
    assert_eq!((ten.major, ten.minor, ten.patch), (10, 2, 4));
    let bad = npm.version("not a version");
    assert_eq!(outcome(&bad.map(|_| ())), StepOutcome::Failed("Cannot parse the version not a version".into()));
    assert_eq!(npm.version_command().args, strings(&["--version"]));
}

#[test]
fn npm_upgrade_without_sudo() {
    let mut ctx = context(None, Config::new());
    let w = run_npm_upgrade(&mut ctx, Ok("/usr/bin/npm".into()), &probe("9.1.0", Some(1000))).unwrap();
    assert_eq!(w.command, Command::new("/usr/bin/npm").arg("update").arg("--location=global"));
    assert!(!w.advisory);
}

#[test]
fn npm_upgrade_skips() {
    let mut ctx = context(None, Config::new());
    let r = run_npm_upgrade(&mut ctx, Err(StepError::BinaryNotFound { name: "npm".into() }), &probe("9.1.0", Some(1000)));
    assert_eq!(outcome(&r.map(|_| ())), StepOutcome::Skipped("Cannot find npm in PATH".into()));
    let r = run_npm_upgrade(&mut ctx, Ok("/usr/bin/npm".into()), &probe("9.1.0", None));
    assert_eq!(outcome(&r.map(|_| ())), StepOutcome::Skipped("NPM root at /usr/lib/node_modules doesn't exist".into()));
    let mut p = probe("9.1.0", Some(1000));
    p.node_beside = false;
    let r = run_npm_upgrade(&mut ctx, Ok("/mnt/c/Program Files/nodejs/npm".into()), &p);
    assert!(matches!(outcome(&r.map(|_| ())), StepOutcome::Skipped(_)));
    assert!(check_node_available("/usr/bin/npm", false).is_ok());
}

#[test]
fn sudo_policy_for_root_owned_packages() {
    assert!(sudo_needed(0, 1000));
    assert!(!sudo_needed(0, 0));
    assert!(!sudo_needed(1000, 1000));
    assert!(!sudo_needed(1000, 0));
    let npm = NPM::new("/usr/bin/npm".into());
    let ctx = context(None, Config::new());
    assert_eq!(should_use_sudo(&npm, &ctx, "/r", Some(1000)), Ok(false));
    assert!(matches!(should_use_sudo(&npm, &ctx, "/r", None), Err(StepError::PreconditionUnmet { .. })));
}

#[test]
fn yarn_upgrade_commands() {
    let mut ctx = context(Some(ElevationProvider::new(Some("sudo".into()))), Config::new());
    let y = Yarn::new("/usr/bin/yarnpkg".into(), Some("/usr/bin/yarn".into()));
    assert_eq!(y.root_command().args, strings(&["global", "dir"]));
    let plain = y.upgrade(&mut ctx, false).unwrap();
    assert_eq!(plain.command, Command::new("/usr/bin/yarnpkg").arg("global").arg("upgrade"));
    let elevated = y.upgrade(&mut ctx, true).unwrap();
    assert_eq!(elevated.command, Command::new("sudo").arg("/usr/bin/yarn").arg("global").arg("upgrade"));
    assert!(elevated.advisory);
    let w = run_yarn_upgrade(&mut ctx, Ok("/usr/bin/yarn".into()), None, &probe("", Some(1000))).unwrap();
    assert_eq!(w.command.args, strings(&["global", "upgrade"]));
}

#[test]
fn package_manager_lookup() {
    assert_eq!(find_package_manager("npm", Some("/usr/bin/pnpm".into()), None, None), Ok("/usr/bin/pnpm".to_string()));
    assert_eq!(
        find_package_manager("npm", Some("/mnt/c/pnpm".into()), Some("/usr/bin/pnpm".into()), None),
        Ok("/usr/bin/pnpm".to_string())
    );
    assert_eq!(find_package_manager("npm", Some("/mnt/c/pnpm".into()), None, Some("/usr/bin/npm".into())), Ok("/mnt/c/pnpm".to_string()));
    assert_eq!(find_package_manager("npm", None, None, Some("/usr/bin/npm".into())), Ok("/usr/bin/npm".to_string()));
    assert_eq!(find_package_manager("npm", None, None, None), Err(StepError::BinaryNotFound { name: "npm".into() }));
    assert!(is_wsl_windows_path("/mnt/c/x"));
    assert_eq!(linux_search_path("/usr/bin:/mnt/c/Windows:/bin::/mnt/d"), "/usr/bin:/bin:");
    assert_eq!(linux_search_path(""), "");
    let c = linux_lookup_command("/usr/bin:/bin", "pnpm");
    assert_eq!(c.program, "sh");
    assert_eq!(c.args, strings(&["-c", "PATH='/usr/bin:/bin' which 'pnpm' 2>/dev/null"]));
    assert_eq!(which_result(Some("/usr/bin/pnpm\n".into())), Some("/usr/bin/pnpm".to_string()));
    assert_eq!(which_result(Some("\n".into())), None);
}

#[test]
fn deno_stays_in_its_directory() {
    let ctx = context(None, Config::new());
    let c = deno_upgrade(&ctx, Some("deno".into()), Some("/home/user/.deno/bin/deno".into())).unwrap();
    assert_eq!(c, Command::new("deno").arg("upgrade"));
    let r = deno_upgrade(&ctx, Some("deno".into()), Some("/usr/local/bin/deno".into()));
    assert_eq!(outcome(&r.map(|_| ())), StepOutcome::Skipped("Deno installed outside of .deno directory".into()));
    let r = deno_upgrade(&ctx, Some("deno".into()), Some("/home/user/.denoland/deno".into()));
    assert!(r.is_err());
    let r = deno_upgrade(&ctx, None, None);
    assert_eq!(outcome(&r.map(|_| ())), StepOutcome::Skipped("Cannot find deno in PATH".into()));
}

#[test]
fn sdio_binary_resolution() {
    let none: Vec<String> = vec![];
    assert_eq!(find_sdio_binary(Some("C:\\x\\SDIO.exe".into()), Some("y".into()), &none), Ok("C:\\x\\SDIO.exe".to_string()));
    assert_eq!(find_sdio_binary(None, Some("C:\\SDIO".into()), &none), Ok("C:\\SDIO".to_string()));
    let c = strings(&["C:\\a\\SDIO_R700.exe", "C:\\b\\sdio_r745.exe", "C:\\c\\SDIO_R745.exe", "C:\\d\\other.exe"]);
    assert_eq!(find_sdio_binary(None, None, &c), Ok("C:\\b\\sdio_r745.exe".to_string()));
    let c = strings(&["C:\\a\\SDIO_R800.exe", "C:\\a\\Sdio.EXE", "C:\\b\\sdio.exe"]);
    assert_eq!(find_sdio_binary(None, None, &c), Ok("C:\\b\\sdio.exe".to_string()));
    let c = strings(&["C:\\a\\notes.txt"]);
    assert_eq!(
        outcome(&find_sdio_binary(None, None, &c).map(|_| ())),
        StepOutcome::Skipped("Cannot find SDIO.exe in PATH".into())
    );
}

#[test]
fn sdio_plans() {
    let ctx = context(None, Config::new());
    let r = run_sdio(&ctx, false, Ok("sdio".into()), false, false, "/tmp/s.txt");
    assert_eq!(outcome(&r.map(|_| ())), StepOutcome::Skipped("SDIO requires confirmation to run".into()));
    let mut config = Config::new();
    config.yes_steps = vec![Step::Sdio];
    config.sdio_upgrade = true;
    let ctx = context(None, config.clone());
    let p = run_sdio(&ctx, true, Ok("sdio".into()), false, false, "/tmp/s.txt").unwrap();
    assert_eq!(p.command, Command::new("sdio").arg("-script:/tmp/s.txt"));
    assert_eq!(p.script_file, Some(("/tmp/s.txt".to_string(), SDIO_INSTALL_SCRIPT.to_string())));
    assert!(p.remove_script);
    assert!(p.warning.is_some());
    config.sdio_upgrade = false;
    config.sdio_script = Some("C:\\mine.txt".into());
    let ctx = context(None, config);
    let p = run_sdio(&ctx, false, Ok("sdio".into()), true, true, "/tmp/s.txt").unwrap();
    assert_eq!(p.command.args, strings(&["-script:C:\\mine.txt"]));
    assert!(p.script_file.is_none() && !p.remove_script && p.warning.is_none());
    let r = run_sdio(&ctx, false, Ok("sdio".into()), false, false, "/tmp/s.txt");
    assert_eq!(outcome(&r.map(|_| ())), StepOutcome::Skipped("SDIO script not found: C:\\mine.txt".into()));
    let r = run_sdio(&ctx, false, Ok("sdio".into()), true, false, "/tmp/s.txt");
    assert_eq!(outcome(&r.map(|_| ())), StepOutcome::Skipped("SDIO script path is not a file: C:\\mine.txt".into()));
    assert!(SDIO_CHECK_SCRIPT.contains("enableinstall off"));
}

#[test]
fn windows_package_managers() {
    let mut config = Config::new();
    config.yes_steps = vec![Step::Chocolatey];
    config.cleanup = true;
    config.winget_silent_install = true;
    let mut ctx = context(Some(ElevationProvider::new(Some("gsudo".into()))), config);
    let w = run_chocolatey(&mut ctx, Some("choco".into()), false).unwrap();
    assert_eq!(w.command, Command::new("gsudo").arg("choco").arg("upgrade").arg("all").arg("--yes"));
    let ws = run_winget(&mut ctx, Some("winget".into()), false).unwrap();
    assert_eq!(ws[0].command.args, strings(&["source", "update"]));
    assert_eq!(ws[1].command.args, strings(&["upgrade", "--all", "--silent"]));
    let cs = run_scoop(&ctx, Some("scoop".into())).unwrap();
    assert_eq!(cs.len(), 4);
    assert_eq!(cs[3].args, strings(&["cache", "rm", "-a"]));
    let mut bare = context(None, Config::new());
    let r = run_chocolatey(&mut bare, Some("choco".into()), false);
    assert!(matches!(r, Err(StepError::ElevationUnavailable)));
    assert!(matches!(run_scoop(&bare, None), Err(StepError::BinaryNotFound { .. })));
}

#[test]
fn wsl_update_and_reboot() {
    let mut config = Config::new();
    config.wsl_update_pre_release = true;
    let ctx = context(None, config);
    let c = update_wsl(&ctx, true, Some("wsl".into())).unwrap();
    assert_eq!(c.args, strings(&["--update", "--pre-release"]));
    assert!(update_wsl(&ctx, false, Some("wsl".into())).is_err());
    assert_eq!(reboot(&ctx), Command::new("shutdown.exe").arg("/R").arg("/T").arg("0"));
}

#[test]
fn windows_update_line() {
    let ps = Powershell::new(Some("powershell".into()), None, false);
    let mut config = Config::new();
    config.windows_updates_auto_reboot = AutoReboot::No;
    let mut ctx = context(None, config);
    let w = windows_update(&mut ctx, &ps, true, false).unwrap();
    assert_eq!(w.command.args[4], "Import-Module PSWindowsUpdate; Install-WindowsUpdate -Verbose -IgnoreReboot");
    let r = windows_update(&mut ctx, &ps, false, false);
    assert_eq!(outcome(&r.map(|_| ())), StepOutcome::Skipped("PSWindowsUpdate is not installed".into()));
}

#[test]
fn store_scan_is_checked_by_its_output() {
    let ps = Powershell::new(Some("powershell".into()), None, false);
    let mut ctx = context(None, Config::new());
    let w = microsoft_store(&mut ctx, &ps, false).unwrap();
    assert!(w.command.args[4].contains("UpdateScanMethod"));
    assert!(store_scan_succeeded(&" 0\r\n".to_string()));
    assert!(!store_scan_succeeded(&"1".to_string()));
    let ok = complete_checked(&w.command, ProcessReport::Exited { code: Some(0), stdout: "0\n".into(), stderr: String::new() }, store_scan_succeeded);
    assert!(ok.is_ok());
    let bad = complete_checked(&w.command, ProcessReport::Exited { code: Some(0), stdout: "87\n".into(), stderr: String::new() }, store_scan_succeeded);
    assert!(bad.is_err());
}

fn shortcut(relative: &str) -> Vec<u8> {
    let mut b = Vec::new();
    b.extend_from_slice(&0x4Cu32.to_le_bytes());
    b.extend_from_slice(&[0x01, 0x14, 0x02, 0x00, 0x00, 0x00, 0x00, 0x00, 0xC0, 0x00, 0x00, 0x00, 0x00, 0x00, 0x00, 0x46]);
    b.extend_from_slice(&0x08u32.to_le_bytes());
    b.extend_from_slice(&[0u8; 52]);
    b.extend_from_slice(&(relative.len() as u16).to_le_bytes());
    b.extend_from_slice(relative.as_bytes());
    b.extend_from_slice(&[0u8; 4]);
    b
}

#[test]
fn startup_shortcuts_name_repositories() {
    let entries = vec![
        ("repo.lnk".to_string(), shortcut("..\\..\\code\\repo")),
        ("notes.txt".to_string(), shortcut("..\\ignored")),
        ("broken.lnk".to_string(), vec![1, 2, 3]),
        (".lnk".to_string(), shortcut("..\\hidden")),
    ];
    let mut repos = vec!["existing".to_string()];
    insert_startup_scripts(&mut repos, "C:\\Startup", &entries);
    assert_eq!(repos, strings(&["existing", "C:\\Startup\\..\\..\\code\\repo"]));
    assert_eq!(startup_dir_in("C:\\Data"), "C:\\Data\\Microsoft\\Windows\\Start Menu\\Programs\\Startup");
}

#[test]
fn elevation_probe_answer() {
    assert!(Powershell::is_process_elevated(Some("True\r\n".into())));
    assert!(Powershell::is_process_elevated(Some(" true ".into())));
    assert!(!Powershell::is_process_elevated(Some("False".into())));
    assert!(!Powershell::is_process_elevated(None));
    assert_eq!(elevation_probe_command().program, "powershell");
    assert_eq!(Powershell::default_args(), strings(&["-NoProfile", "-NoLogo", "-NonInteractive"]));
}

#[test]
fn unsafe_shortcuts_are_left_out() {
    let mut short_block = shortcut("..\\a");
    short_block.extend_from_slice(&[4, 0, 0, 0, 0x08, 0, 0, 0xA0]);
    assert!(!lnk_parse_safe(&short_block));
    let mut wide = shortcut("");
    wide[20] = 0x88;
    wide.truncate(76);
    wide.extend_from_slice(&0x8000u16.to_le_bytes());
    wide.extend_from_slice(&vec![0x41u8; 0x10000]);
    assert!(!lnk_parse_safe(&wide));
    assert!(lnk_parse_safe(&shortcut("..\\ok")));
    assert!(!lnk_parse_safe(&vec![0u8; 10]));
    let entries = vec![("a.lnk".to_string(), short_block), ("b.lnk".to_string(), wide)];
    let mut repos: Vec<String> = Vec::new();
    insert_startup_scripts(&mut repos, "C:\\S", &entries);
    assert!(repos.is_empty());
}

#[test]
fn cached_module_answer_decides_windows_update() {
    let mut ctx = context(None, Config::new());
    let mut present = Powershell::new(Some("pwsh".into()), None, false);
    assert!(present.supports_windows_update(|| true));
    let w = present.windows_update(&mut ctx, || false, false).unwrap();
    assert!(w.command.args[4].contains("Install-WindowsUpdate"));
    let mut absent = Powershell::new(Some("pwsh".into()), None, false);
    assert!(!absent.supports_windows_update(|| false));
    let r = absent.windows_update(&mut ctx, || true, false);
    assert_eq!(
        outcome(&r.map(|_| ())),
        StepOutcome::Skipped("The PSWindowsUpdate module is not available. Please install it using 'Install-Module PSWindowsUpdate'".into())
    );
}

#[test]
fn chocolatey_elevation_cases() {
    let mut none = context(Some(ElevationProvider::new(None)), Config::new());
    assert!(matches!(run_chocolatey(&mut none, Some("choco".into()), false), Err(StepError::ElevationUnavailable)));
    let w = run_chocolatey(&mut none, Some("choco".into()), true).unwrap();
    assert_eq!(w.command, Command::new("choco").arg("upgrade").arg("all"));
    let mut config = Config::new();
    config.winget_use_sudo = true;
    let mut ctx = context(Some(ElevationProvider::new(Some("sudo".into()))), config);
    let ws = run_winget(&mut ctx, Some("winget".into()), false).unwrap();
    assert_eq!(ws[1].command, Command::new("sudo").arg("winget").arg("upgrade").arg("--all"));
    assert!(ws[1].advisory);
}

#[test]
fn scripts_run_unwrapped_without_an_elevation_program() {
    let ps = Powershell::new(Some("pwsh".into()), None, false);
    let mut ctx = context(Some(ElevationProvider::new(None)), Config::new());
    let w = ps.update_modules(&mut ctx, false).unwrap();
    assert_eq!(w.command.program, "pwsh");
    assert!(!w.advisory);
    assert!(!ctx.elevation.as_ref().unwrap().prompt_shown());
}

#[test]
fn three_elevated_scripts_show_one_notice() {
    let ps = Powershell::new(Some("pwsh".into()), None, false);
    let mut ctx = context(Some(ElevationProvider::new(Some("gsudo".into()))), Config::new());
    let notices: Vec<bool> = ["a", "b", "c"]
        .iter()
        .map(|s| ps.script_command(&mut ctx, s, false).unwrap().advisory)
        .collect();
    assert_eq!(notices, vec![true, false, false]);
}

#[test]
fn store_fallbacks_follow_the_scan() {
    let ps = Powershell::new(Some("pwsh".into()), None, false);
    let mut ctx = context(None, Config::new());
    assert!(microsoft_store_fallbacks(&mut ctx, &ps, &Ok(()), false).is_empty());
    let failed = Err(StepError::Exec(topgrade::outcome::ExecError::ParseFailed { output: "87".into() }));
    let fs = microsoft_store_fallbacks(&mut ctx, &ps, &failed, false);
    assert_eq!(fs.len(), 2);
    assert!(fs[0].command.args[4].contains("ms-windows-store://downloadsandupdates"));
    assert_eq!(fs[1].command, Command::new("wsreset.exe").arg("-i"));
    let none = Powershell::new(None, None, false);
    assert_eq!(microsoft_store_fallbacks(&mut ctx, &none, &failed, false).len(), 1);
}

#[test]
fn sudo_decision_is_exact() {
    assert_eq!(sudo_decision(Ok(false), false), Ok(false));
    assert_eq!(sudo_decision(Ok(true), true), Ok(true));
    assert!(matches!(sudo_decision(Ok(true), false), Err(StepError::PreconditionUnmet { .. })));
    assert_eq!(sudo_decision(Ok(sudo_needed(0, 1000)), true), Ok(true));
    assert_eq!(sudo_decision(Ok(sudo_needed(1000, 1000)), false), Ok(false));
}
