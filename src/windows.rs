//! The Windows steps: package managers, driver updates, WSL, Windows Update,
//! the Microsoft Store, and startup shortcuts.
use vstd::prelude::*;

use etcetera::base_strategy::BaseStrategy;

use crate::command::{Command, CommandView};
use crate::context::{confirmed, AutoReboot, ExecutionContext, Step};
use crate::elevation::{after_wrap, wrapped, Wrapped};
use crate::outcome::StepError;
use crate::powershell::{script_outcome, wsreset_command, Powershell, STORE_PAGE_SCRIPT};
use crate::shell::views;
use crate::text::{trim, trimmed};
use crate::text::{chars_of, matches_at, slice_chars};

verus! {

/// `c` in lower case, for ASCII letters; other characters stay.
pub open spec fn ascii_lower(c: char) -> char {
    if 'A' <= c && c <= 'Z' {
        ((c as u8) + 32) as char
    } else {
        c
    }
}

/// `s` with its ASCII letters in lower case.
pub open spec fn lowered(s: Seq<char>) -> Seq<char> {
    s.map_values(|c: char| ascii_lower(c))
}

fn to_ascii_lower(c: char) -> (r: char)
    ensures
        r == ascii_lower(c),
{
    if 'A' <= c && c <= 'Z' {
        ((c as u8) + 32) as char
    } else {
        c
    }
}

/// `v` with its ASCII letters in lower case.
pub fn lower_chars(v: &Vec<char>) -> (r: Vec<char>)
    ensures
        r@ == lowered(v@),
{
    let mut r: Vec<char> = Vec::new();
    let mut i: usize = 0;
    while i < v.len()
        invariant
            i <= v.len(),
            r@ == lowered(v@.take(i as int)),
        decreases v.len() - i,
    {
        r.push(to_ascii_lower(v[i]));
        assert(lowered(v@.take(i + 1)) =~= lowered(v@.take(i as int)).push(ascii_lower(v@[i as int])));
        i = i + 1;
    }
    assert(v@.take(v.len() as int) =~= v@);
    r
}

/// The index just after the last path separator in `p`, or 0.
pub open spec fn name_start(p: Seq<char>) -> int
    decreases p.len(),
{
    if p.len() == 0 {
        0
    } else if p.last() == '/' || p.last() == '\\' {
        p.len() as int
    } else {
        name_start(p.drop_last())
    }
}

/// The file name of the path `p`: what follows its last separator.
pub open spec fn file_name(p: Seq<char>) -> Seq<char> {
    p.skip(name_start(p))
}

proof fn lemma_name_start_bounds(p: Seq<char>)
    ensures
        0 <= name_start(p) <= p.len(),
    decreases p.len(),
{
    if p.len() > 0 {
        lemma_name_start_bounds(p.drop_last());
    }
}

fn file_name_chars(p: &Vec<char>) -> (r: Vec<char>)
    ensures
        r@ == file_name(p@),
{
    let mut i: usize = p.len();
    assert(p@.take(p.len() as int) =~= p@);
    while i > 0 && p[i - 1] != '/' && p[i - 1] != '\\'
        invariant
            i <= p.len(),
            name_start(p@) == name_start(p@.take(i as int)),
        decreases i,
    {
        assert(p@.take(i as int).drop_last() =~= p@.take(i - 1));
        i = i - 1;
    }
    proof {
        if i > 0 {
            assert(p@.take(i as int).last() == p@[i - 1]);
        }
        assert(p@.take(p.len() as int) =~= p@);
    }
    slice_chars(p, i, p.len())
}

/// Whether `a` comes strictly before `b` in lexicographic order of code
/// points, which is the byte order of their UTF-8 forms.
pub open spec fn lex_lt(a: Seq<char>, b: Seq<char>) -> bool
    decreases a.len(),
{
    if a.len() == 0 {
        b.len() > 0
    } else if b.len() == 0 {
        false
    } else if a[0] != b[0] {
        a[0] < b[0]
    } else {
        lex_lt(a.drop_first(), b.drop_first())
    }
}

proof fn lemma_lex_total(a: Seq<char>, b: Seq<char>)
    ensures
        lex_lt(a, b) || lex_lt(b, a) || a == b,
        !(lex_lt(a, b) && lex_lt(b, a)),
    decreases a.len(),
{
    if a.len() > 0 && b.len() > 0 && a[0] == b[0] {
        lemma_lex_total(a.drop_first(), b.drop_first());
        if a.drop_first() == b.drop_first() {
            assert(a =~= seq![a[0]] + a.drop_first());
            assert(b =~= seq![b[0]] + b.drop_first());
        }
    } else if a.len() == 0 && b.len() == 0 {
        assert(a =~= b);
    } else if a.len() > 0 && b.len() > 0 {
        assert(a[0] != b[0]);
    }
}

proof fn lemma_lex_trans(a: Seq<char>, b: Seq<char>, c: Seq<char>)
    requires
        lex_lt(a, b),
        lex_lt(b, c),
    ensures
        lex_lt(a, c),
    decreases a.len(),
{
    if a.len() > 0 && b.len() > 0 && c.len() > 0 && a[0] == b[0] && b[0] == c[0] {
        lemma_lex_trans(a.drop_first(), b.drop_first(), c.drop_first());
    }
}

fn lex_less(a: &Vec<char>, b: &Vec<char>) -> (r: bool)
    ensures
        r == lex_lt(a@, b@),
{
    let mut i: usize = 0;
    assert(a@.skip(0) =~= a@);
    assert(b@.skip(0) =~= b@);
    while i < a.len() && i < b.len() && a[i] == b[i]
        invariant
            i <= a.len(),
            i <= b.len(),
            lex_lt(a@, b@) == lex_lt(a@.skip(i as int), b@.skip(i as int)),
        decreases a.len() - i,
    {
        assert(a@.skip(i as int).drop_first() =~= a@.skip(i + 1));
        assert(b@.skip(i as int).drop_first() =~= b@.skip(i + 1));
        i = i + 1;
    }
    if i == a.len() {
        assert(a@.skip(i as int).len() == 0);
        i < b.len()
    } else if i == b.len() {
        false
    } else {
        a[i] < b[i]
    }
}

/// Whether the path `p` names `sdio.exe`, in any case.
pub open spec fn is_exact_sdio(p: Seq<char>) -> bool {
    lowered(file_name(p)) == "sdio.exe"@
}

/// Whether the path `p` names a versioned build `SDIO_R*.exe`, in any case.
pub open spec fn is_versioned_sdio(p: Seq<char>) -> bool {
    let n = lowered(file_name(p));
    n.len() >= 6 && n.take(6) == "sdio_r"@ && n.len() >= 4 && n.skip(n.len() - 4) == ".exe"@
}

/// Whether `v[i]` is the first of the versioned builds in `v` with the
/// greatest file name.
pub open spec fn is_latest_versioned(v: Seq<Seq<char>>, i: int) -> bool {
    &&& 0 <= i < v.len()
    &&& is_versioned_sdio(v[i])
    &&& forall|k: int|
        0 <= k < v.len() && is_versioned_sdio(#[trigger] v[k]) ==> !lex_lt(
            file_name(v[i]),
            file_name(v[k]),
        )
    &&& forall|k: int|
        0 <= k < i && is_versioned_sdio(#[trigger] v[k]) ==> lex_lt(
            file_name(v[k]),
            file_name(v[i]),
        )
}

} // verus!

verus! {

/// Whether `a` and `b` hold the same characters.
pub fn same_chars(a: &Vec<char>, b: &Vec<char>) -> (r: bool)
    ensures
        r == (a@ == b@),
{
    if a.len() != b.len() {
        return false;
    }
    let m = matches_at(a, b, 0);
    assert(m ==> a@ =~= b@) by {
        if m {
            assert(a@.subrange(0, b.len() as int) =~= a@);
        }
    }
    assert(a@ == b@ ==> m) by {
        if a@ == b@ {
            assert(a@.subrange(0, b.len() as int) =~= a@);
        }
    }
    m
}

fn exact_sdio(p: &String) -> (r: bool)
    ensures
        r == is_exact_sdio(p@),
{
    let v = chars_of(p.as_str());
    let n = lower_chars(&file_name_chars(&v));
    let want = chars_of("sdio.exe");
    same_chars(&n, &want)
}

fn versioned_sdio(p: &String) -> (r: bool)
    ensures
        r == is_versioned_sdio(p@),
{
    let v = chars_of(p.as_str());
    let n = lower_chars(&file_name_chars(&v));
    let head = chars_of("sdio_r");
    let tail = chars_of(".exe");
    proof {
        reveal_strlit("sdio_r");
        reveal_strlit(".exe");
    }
    if n.len() < 6 {
        return false;
    }
    let a = matches_at(&n, &head, 0);
    let b = matches_at(&n, &tail, n.len() - 4);
    proof {
        assert(n@.subrange(0, 6) =~= n@.take(6));
        assert(n@.subrange(n.len() - 4, n.len() as int) =~= n@.skip(n.len() - 4));
    }
    a && b
}

fn name_of(p: &String) -> (r: Vec<char>)
    ensures
        r@ == file_name(p@),
{
    let v = chars_of(p.as_str());
    file_name_chars(&v)
}

/// The SDIO program: the configured one; else the one found as `SDIO`;
/// else, among the files on the search path (`candidates`, in search
/// order), the last one named `sdio.exe` in any case, or the first of the
/// versioned builds `SDIO_R*.exe` with the greatest name. Without any, the
/// step is skipped.
pub fn find_sdio_binary(
    config_binary: Option<String>,
    exact: Option<String>,
    candidates: &Vec<String>,
) -> (r: Result<String, StepError>)
    ensures
        config_binary is Some ==> (r matches Ok(p) && p@ == config_binary->0@),
        config_binary is None && exact is Some ==> (r matches Ok(p) && p@ == exact->0@),
        config_binary is None && exact is None ==> {
            let v = views(candidates@);
            if exists|i: int| 0 <= i < v.len() && is_exact_sdio(#[trigger] v[i]) {
                r matches Ok(p) && exists|i: int|
                    0 <= i < v.len() && is_exact_sdio(#[trigger] v[i]) && p@ == v[i] && forall|
                        k: int,
                    | i < k < v.len() ==> !is_exact_sdio(#[trigger] v[k])
            } else if exists|i: int| 0 <= i < v.len() && is_versioned_sdio(#[trigger] v[i]) {
                r matches Ok(p) && exists|i: int| is_latest_versioned(v, i) && p@ == v[i]
            } else {
                r matches Err(StepError::BinaryNotFound { name }) && name@ == "SDIO.exe"@
            }
        },
{
    if let Some(b) = config_binary {
        return Ok(b);
    }
    if let Some(e) = exact {
        return Ok(e);
    }
    let ghost v = views(candidates@);
    let mut exact_idx: Option<usize> = None;
    let mut best: Option<usize> = None;
    let mut best_name: Vec<char> = Vec::new();
    let mut i: usize = 0;
    while i < candidates.len()
        invariant
            i <= candidates.len(),
            v == views(candidates@),
            exact_idx matches Some(j) ==> j < i && is_exact_sdio(v[j as int]) && forall|k: int|
                j < k < i ==> !is_exact_sdio(#[trigger] v[k]),
            exact_idx is None ==> forall|k: int| 0 <= k < i ==> !is_exact_sdio(#[trigger] v[k]),
            best matches Some(j) ==> j < i && best_name@ == file_name(v[j as int])
                && is_versioned_sdio(v[j as int]) && (forall|k: int|
                0 <= k < i && is_versioned_sdio(#[trigger] v[k]) ==> !lex_lt(
                    file_name(v[j as int]),
                    file_name(v[k]),
                )) && (forall|k: int|
                0 <= k < j && is_versioned_sdio(#[trigger] v[k]) ==> lex_lt(
                    file_name(v[k]),
                    file_name(v[j as int]),
                )),
            best is None ==> forall|k: int| 0 <= k < i ==> !is_versioned_sdio(#[trigger] v[k]),
        decreases candidates.len() - i,
    {
        assert(v[i as int] == candidates@[i as int]@);
        if exact_sdio(&candidates[i]) {
            exact_idx = Some(i);
        }
        if versioned_sdio(&candidates[i]) {
            let name = name_of(&candidates[i]);
            match best {
                None => {
                    proof {
                        lemma_lex_total(name@, name@);
                    }
                    best = Some(i);
                    best_name = name;
                },
                Some(j) => {
                    if lex_less(&best_name, &name) {
                        proof {
                            lemma_lex_total(name@, name@);
                            assert forall|k: int|
                                0 <= k < i && is_versioned_sdio(#[trigger] v[k]) implies lex_lt(
                                file_name(v[k]),
                                name@,
                            ) by {
                                lemma_lex_total(file_name(v[k]), file_name(v[j as int]));
                                if lex_lt(file_name(v[k]), file_name(v[j as int])) {
                                    lemma_lex_trans(file_name(v[k]), file_name(v[j as int]), name@);
                                }
                            }
                            assert forall|k: int|
                                0 <= k < i + 1 && is_versioned_sdio(#[trigger] v[k]) implies !lex_lt(
                                name@,
                                file_name(v[k]),
                            ) by {
                                if k < i {
                                    lemma_lex_total(file_name(v[k]), name@);
                                }
                            }
                        }
                        best = Some(i);
                        best_name = name;
                    } else {
                        assert(!lex_lt(file_name(v[j as int]), file_name(v[i as int])));
                    }
                },
            }
        }
        i = i + 1;
    }
    match exact_idx {
        Some(j) => Ok(candidates[j].clone()),
        None => match best {
            Some(j) => {
                assert(is_latest_versioned(v, j as int));
                Ok(candidates[j].clone())
            },
            None => Err(StepError::BinaryNotFound { name: String::from_str("SDIO.exe") }),
        },
    }
}

} // verus!

verus! {

/// A finished command with no working directory.
pub open spec fn call(program: Seq<char>, args: Seq<Seq<char>>) -> CommandView {
    CommandView { program, args, cwd: None }
}

/// The arguments of the Chocolatey upgrade.
pub open spec fn choco_args(yes: bool) -> Seq<Seq<char>> {
    if yes {
        seq!["upgrade"@, "all"@, "--yes"@]
    } else {
        seq!["upgrade"@, "all"@]
    }
}

/// Upgrades every Chocolatey package, elevated; `--yes` when the step was
/// confirmed. Without Chocolatey or without elevation the step is skipped.
pub fn run_chocolatey(ctx: &mut ExecutionContext, choco: Option<String>, already_elevated: bool) -> (r:
    Result<Wrapped, StepError>)
    ensures
        final(ctx).config == old(ctx).config,
        choco is None ==> (r matches Err(StepError::BinaryNotFound { name }) && name@ == "choco"@),
        choco is Some && old(ctx).elevation is None ==> (r matches Err(e)
            && e is ElevationUnavailable),
        choco is Some && old(ctx).elevation is Some ==> ((r is Ok <==> (already_elevated || old(
            ctx,
        ).elevation->0@.program is Some)) && (r matches Err(e) ==> e is ElevationUnavailable)),
        choco is Some && old(ctx).elevation is Some ==> (final(ctx).elevation matches Some(f)
            && f@ == after_wrap(old(ctx).elevation->0@, already_elevated) && (r matches Ok(w)
            ==> w.command@ == wrapped(
            old(ctx).elevation->0@,
            call(choco->0@, choco_args(confirmed(old(ctx).config, Step::Chocolatey))),
            already_elevated,
        ))),
{
    let choco = match choco {
        Some(c) => c,
        None => {
            return Err(StepError::BinaryNotFound { name: String::from_str("choco") });
        },
    };
    let yes = ctx.config.yes(Step::Chocolatey);
    let mut cmd = Command::new(choco.as_str()).arg("upgrade").arg("all");
    if yes {
        cmd = cmd.arg("--yes");
    }
    assert(cmd@.args =~= choco_args(yes));
    ctx.elevate(cmd, already_elevated)
}

/// The arguments of the winget upgrade.
pub open spec fn winget_args(silent: bool) -> Seq<Seq<char>> {
    if silent {
        seq!["upgrade"@, "--all"@, "--silent"@]
    } else {
        seq!["upgrade"@, "--all"@]
    }
}

/// Updates winget's sources, then upgrades everything, elevated when so
/// configured and silently when so configured.
pub fn run_winget(ctx: &mut ExecutionContext, winget: Option<String>, already_elevated: bool) -> (r:
    Result<Vec<Wrapped>, StepError>)
    ensures
        final(ctx).config == old(ctx).config,
        winget is None ==> (r matches Err(StepError::BinaryNotFound { name }) && name@ == "winget"@),
        winget is Some && !old(ctx).config.winget_use_sudo ==> (r matches Ok(ws) && ws.len() == 2
            && ws[0].command@ == call(winget->0@, seq!["source"@, "update"@]) && !ws[0].advisory
            && ws[1].command@ == call(winget->0@, winget_args(old(ctx).config.winget_silent_install))
            && !ws[1].advisory),
        winget is Some && old(ctx).config.winget_use_sudo && old(ctx).elevation is None ==> (r matches Err(
            e,
        ) && e is ElevationUnavailable),
        winget is Some && old(ctx).config.winget_use_sudo && old(ctx).elevation is Some ==> ((r is Ok
            <==> (already_elevated || old(ctx).elevation->0@.program is Some)) && (r matches Err(e)
            ==> e is ElevationUnavailable)),
        winget is Some && old(ctx).config.winget_use_sudo && r is Ok ==> (r->Ok_0.len() == 2
            && r->Ok_0[0].command@ == call(winget->0@, seq!["source"@, "update"@])
            && !r->Ok_0[0].advisory
            && old(ctx).elevation is Some && r->Ok_0[1].command@ == wrapped(
            old(ctx).elevation->0@,
            call(winget->0@, winget_args(old(ctx).config.winget_silent_install)),
            already_elevated,
        )),
{
    let winget = match winget {
        Some(w) => w,
        None => {
            return Err(StepError::BinaryNotFound { name: String::from_str("winget") });
        },
    };
    let sources = Command::new(winget.as_str()).arg("source").arg("update");
    assert(sources@.args =~= seq!["source"@, "update"@]);
    let mut upgrade = Command::new(winget.as_str()).arg("upgrade").arg("--all");
    if ctx.config.winget_silent_install {
        upgrade = upgrade.arg("--silent");
    }
    assert(upgrade@.args =~= winget_args(ctx.config.winget_silent_install));
    let second = if ctx.config.winget_use_sudo {
        ctx.elevate(upgrade, already_elevated)?
    } else {
        Wrapped { command: upgrade, advisory: false }
    };
    let mut out: Vec<Wrapped> = Vec::new();
    out.push(Wrapped { command: sources, advisory: false });
    out.push(second);
    Ok(out)
}

/// Updates Scoop and its apps, then cleans up when so configured.
pub fn run_scoop(ctx: &ExecutionContext, scoop: Option<String>) -> (r: Result<Vec<Command>, StepError>)
    ensures
        scoop is None ==> (r matches Err(StepError::BinaryNotFound { name }) && name@ == "scoop"@),
        scoop is Some ==> (r matches Ok(cs) && cs@.map_values(|c: Command| c@) == seq![
            call(scoop->0@, seq!["update"@]),
            call(scoop->0@, seq!["update"@, "*"@]),
        ] + if ctx.config.cleanup {
            seq![
                call(scoop->0@, seq!["cleanup"@, "*"@]),
                call(scoop->0@, seq!["cache"@, "rm"@, "-a"@]),
            ]
        } else {
            Seq::empty()
        }),
{
    let scoop = match scoop {
        Some(s) => s,
        None => {
            return Err(StepError::BinaryNotFound { name: String::from_str("scoop") });
        },
    };
    let mut out: Vec<Command> = Vec::new();
    let a = Command::new(scoop.as_str()).arg("update");
    assert(a@.args =~= seq!["update"@]);
    out.push(a);
    let b = Command::new(scoop.as_str()).arg("update").arg("*");
    assert(b@.args =~= seq!["update"@, "*"@]);
    out.push(b);
    if ctx.config.cleanup {
        let c = Command::new(scoop.as_str()).arg("cleanup").arg("*");
        assert(c@.args =~= seq!["cleanup"@, "*"@]);
        out.push(c);
        let d = Command::new(scoop.as_str()).arg("cache").arg("rm").arg("-a");
        assert(d@.args =~= seq!["cache"@, "rm"@, "-a"@]);
        out.push(d);
    }
    assert(out@.map_values(|c: Command| c@) =~= seq![
        call(scoop@, seq!["update"@]),
        call(scoop@, seq!["update"@, "*"@]),
    ] + if ctx.config.cleanup {
        seq![
            call(scoop@, seq!["cleanup"@, "*"@]),
            call(scoop@, seq!["cache"@, "rm"@, "-a"@]),
        ]
    } else {
        Seq::empty()
    });
    Ok(out)
}

/// The SDIO script that only checks for driver updates.
pub const SDIO_CHECK_SCRIPT: &'static str = "logging on\nverbose 384\nenableinstall off\ninit\nselect missing better\nend\n";

/// The SDIO script that installs driver updates behind a restore point.
pub const SDIO_INSTALL_SCRIPT: &'static str = "logging on\nverbose 384\nenableinstall on\ninit\nselect missing better\nrestorepoint Topgrade driver updates\ninstall\nend\n";

/// What a driver update needs done: the command, the script file to write
/// first (path and contents) when the embedded script is used, whether to
/// remove that file afterwards, and the messages around the run.
#[derive(Clone, Debug)]
pub struct SdioPlan {
    pub command: Command,
    pub script_file: Option<(String, String)>,
    pub remove_script: bool,
    pub warning: Option<String>,
    pub start_message: String,
    pub end_message: String,
}

/// The script path that SDIO runs, as its one argument.
pub open spec fn script_arg(path: Seq<char>) -> Seq<char> {
    "-script:"@ + path
}

/// Driver updates with Snappy Driver Installer Origin. The step runs only
/// when confirmed, and is skipped without SDIO or with a configured script
/// that is missing or no file (`script_exists`, `script_is_file` say what
/// the configured script is). Without a configured script, the embedded
/// one (installing or only checking, as configured) is written to
/// `temp_path` and removed afterwards.
pub fn run_sdio(
    ctx: &ExecutionContext,
    elevated: bool,
    binary: Result<String, StepError>,
    script_exists: bool,
    script_is_file: bool,
    temp_path: &str,
) -> (r: Result<SdioPlan, StepError>)
    ensures
        !confirmed(ctx.config, Step::Sdio) ==> (r matches Err(StepError::PreconditionUnmet { reason })
            && reason@ == "SDIO requires confirmation to run"@),
        confirmed(ctx.config, Step::Sdio) && binary is Err ==> r == Err::<SdioPlan, StepError>(
            binary->Err_0,
        ),
        confirmed(ctx.config, Step::Sdio) && binary is Ok && ctx.config.sdio_script is Some
            && !script_exists ==> (r matches Err(StepError::PreconditionUnmet { reason }) && reason@
            == "SDIO script not found: "@ + ctx.config.sdio_script->0@),
        confirmed(ctx.config, Step::Sdio) && binary is Ok && ctx.config.sdio_script is Some
            && script_exists && !script_is_file ==> (r matches Err(
            StepError::PreconditionUnmet { reason },
        ) && reason@ == "SDIO script path is not a file: "@ + ctx.config.sdio_script->0@),
        confirmed(ctx.config, Step::Sdio) && binary is Ok && ctx.config.sdio_script is Some
            && script_exists && script_is_file ==> (r matches Ok(p) && p.command@ == call(
            binary->Ok_0@,
            seq![script_arg(ctx.config.sdio_script->0@)],
        ) && p.script_file is None && !p.remove_script),
        confirmed(ctx.config, Step::Sdio) && binary is Ok && ctx.config.sdio_script is None ==> (
        r matches Ok(p) && p.command@ == call(binary->Ok_0@, seq![script_arg(temp_path@)])
            && p.remove_script && p.script_file is Some && (p.script_file->0).0@ == temp_path@ && (p.script_file->0).1@
            == (if ctx.config.sdio_upgrade {
            SDIO_INSTALL_SCRIPT@
        } else {
            SDIO_CHECK_SCRIPT@
        })),
        r matches Ok(p) ==> (p.warning is Some <==> elevated),
{
    if !ctx.config.yes(Step::Sdio) {
        return Err(
            StepError::PreconditionUnmet {
                reason: String::from_str("SDIO requires confirmation to run"),
            },
        );
    }
    let sdio = match binary {
        Ok(b) => b,
        Err(e) => {
            return Err(e);
        },
    };
    let warning = if elevated {
        Some(
            String::from_str(
                "SDIO running with elevated privileges - driver installation may require admin rights",
            ),
        )
    } else {
        None
    };
    let (script_path, script_file, remove_script) = match &ctx.config.sdio_script {
        Some(custom) => {
            if !script_exists {
                let mut m = String::from_str("SDIO script not found: ");
                m.append(custom.as_str());
                return Err(StepError::PreconditionUnmet { reason: m });
            }
            if !script_is_file {
                let mut m = String::from_str("SDIO script path is not a file: ");
                m.append(custom.as_str());
                return Err(StepError::PreconditionUnmet { reason: m });
            }
            (custom.clone(), None, false)
        },
        None => {
            let content = if ctx.config.sdio_upgrade {
                SDIO_INSTALL_SCRIPT
            } else {
                SDIO_CHECK_SCRIPT
            };
            (
                String::from_str(temp_path),
                Some((String::from_str(temp_path), String::from_str(content))),
                true,
            )
        },
    };
    let mut arg = String::from_str("-script:");
    arg.append(script_path.as_str());
    let command = Command::new(sdio.as_str()).arg(arg.as_str());
    assert(command@.args =~= seq![arg@]);
    let (start_message, end_message) = if ctx.config.sdio_upgrade {
        (
            String::from_str("Checking and installing driver updates..."),
            String::from_str("SDIO driver updates completed"),
        )
    } else {
        (
            String::from_str("Checking for driver updates..."),
            String::from_str("SDIO driver check completed"),
        )
    };
    Ok(SdioPlan { command, script_file, remove_script, warning, start_message, end_message })
}

/// The arguments of `wsl --update` as configured.
pub open spec fn wsl_update_args(pre_release: bool, web_download: bool) -> Seq<Seq<char>> {
    seq!["--update"@] + (if pre_release {
        seq!["--pre-release"@]
    } else {
        Seq::empty()
    }) + (if web_download {
        seq!["--web-download"@]
    } else {
        Seq::empty()
    })
}

/// Updates WSL itself. Without WSL the step does not apply.
pub fn update_wsl(ctx: &ExecutionContext, wsl_installed: bool, wsl: Option<String>) -> (r: Result<
    Command,
    StepError,
>)
    ensures
        !wsl_installed ==> (r matches Err(StepError::NotApplicable { reason }) && reason@
            == "WSL not installed"@),
        wsl_installed && wsl is None ==> (r matches Err(StepError::BinaryNotFound { name }) && name@
            == "wsl"@),
        wsl_installed && wsl is Some ==> (r matches Ok(c) && c@ == call(
            wsl->0@,
            wsl_update_args(
                ctx.config.wsl_update_pre_release,
                ctx.config.wsl_update_use_web_download,
            ),
        )),
{
    if !wsl_installed {
        return Err(StepError::NotApplicable { reason: String::from_str("WSL not installed") });
    }
    let wsl = match wsl {
        Some(w) => w,
        None => {
            return Err(StepError::BinaryNotFound { name: String::from_str("wsl") });
        },
    };
    let mut c = Command::new(wsl.as_str()).arg("--update");
    if ctx.config.wsl_update_pre_release {
        c = c.arg("--pre-release");
    }
    if ctx.config.wsl_update_use_web_download {
        c = c.arg("--web-download");
    }
    assert(c@.args =~= wsl_update_args(
        ctx.config.wsl_update_pre_release,
        ctx.config.wsl_update_use_web_download,
    ));
    Ok(c)
}

/// The Windows Update line for the configured acceptance and restart
/// policy.
pub open spec fn update_line(accept_all: bool, reboot: AutoReboot) -> Seq<char> {
    "Import-Module PSWindowsUpdate; Install-WindowsUpdate -Verbose"@ + (if accept_all {
        " -AcceptAll"@
    } else {
        ""@
    }) + match reboot {
        AutoReboot::Yes => " -AutoReboot"@,
        AutoReboot::No => " -IgnoreReboot"@,
        AutoReboot::Ask => ""@,
    }
}

/// Windows Update through the PowerShell module, as `script_command` runs
/// scripts. Without the module (`has_module` says whether it is installed)
/// the step is skipped.
pub fn windows_update(
    ctx: &mut ExecutionContext,
    powershell: &Powershell,
    has_module: bool,
    already_elevated: bool,
) -> (r: Result<Wrapped, StepError>)
    ensures
        final(ctx).config == old(ctx).config,
        !has_module ==> (r matches Err(StepError::PreconditionUnmet { reason }) && reason@
            == "PSWindowsUpdate is not installed"@),
        has_module ==> script_outcome(
            powershell@,
            *old(ctx),
            *final(ctx),
            update_line(
                old(ctx).config.accept_all_windows_updates,
                old(ctx).config.windows_updates_auto_reboot,
            ),
            already_elevated,
            r,
        ),
{
    if !has_module {
        return Err(
            StepError::PreconditionUnmet {
                reason: String::from_str("PSWindowsUpdate is not installed"),
            },
        );
    }
    let mut line = String::from_str("Import-Module PSWindowsUpdate; Install-WindowsUpdate -Verbose");
    if ctx.config.accept_all_windows_updates {
        line.append(" -AcceptAll");
    } else {
        line.append("");
    }
    match ctx.config.windows_updates_auto_reboot {
        AutoReboot::Yes => line.append(" -AutoReboot"),
        AutoReboot::No => line.append(" -IgnoreReboot"),
        AutoReboot::Ask => line.append(""),
    }
    powershell.script_command(ctx, line.as_str(), already_elevated)
}

/// The scan that asks the device management bridge for Microsoft Store
/// updates; it prints its return value.
pub const STORE_SCAN_SCRIPT: &'static str = r#"(Get-CimInstance -Namespace "Root\cimv2\mdm\dmmap" -ClassName "MDM_EnterpriseModernAppManagement_AppManagement01" | Invoke-CimMethod -MethodName UpdateScanMethod).ReturnValue"#;

/// The Microsoft Store scan, as `script_command` runs scripts. Its output
/// is judged by `store_scan_succeeded`.
pub fn microsoft_store(ctx: &mut ExecutionContext, powershell: &Powershell, already_elevated: bool) -> (r:
    Result<Wrapped, StepError>)
    ensures
        script_outcome(powershell@, *old(ctx), *final(ctx), STORE_SCAN_SCRIPT@, already_elevated, r),
{
    powershell.script_command(ctx, STORE_SCAN_SCRIPT, already_elevated)
}

/// The fallbacks after a failed Microsoft Store scan, to be run in order
/// and each whatever the other did: open the store's updates page when
/// there is PowerShell to do it, then reset the store. A successful scan
/// needs none.
pub fn microsoft_store_fallbacks(
    ctx: &mut ExecutionContext,
    powershell: &Powershell,
    scan: &Result<(), StepError>,
    already_elevated: bool,
) -> (r: Vec<Wrapped>)
    ensures
        final(ctx).config == old(ctx).config,
        scan is Ok ==> r@.len() == 0 && final(ctx).elevation == old(ctx).elevation,
        scan is Err && powershell@.path is None ==> r@.len() == 1,
        scan is Err && powershell@.path is Some ==> r@.len() == 2 && script_outcome(
            powershell@,
            *old(ctx),
            *final(ctx),
            STORE_PAGE_SCRIPT@,
            already_elevated,
            Ok(r@[0]),
        ),
        scan is Err ==> r@.len() >= 1 && r@.last().command@ == call("wsreset.exe"@, seq!["-i"@])
            && !r@.last().advisory,
{
    let mut out: Vec<Wrapped> = Vec::new();
    if scan.is_ok() {
        return out;
    }
    match powershell.store_page_command(ctx, already_elevated) {
        Ok(w) => out.push(w),
        Err(_) => {},
    }
    let reset = wsreset_command();
    assert(reset@ == call("wsreset.exe"@, seq!["-i"@]));
    out.push(Wrapped { command: reset, advisory: false });
    out
}

/// Whether the scan succeeded: its return value, trimmed, is `0`.
pub fn store_scan_succeeded(stdout: &String) -> (r: bool)
    ensures
        r == (trimmed(stdout@) == "0"@),
{
    let t = trim(stdout.as_str());
    t == String::from_str("0")
}

/// Restarts the machine at once.
pub fn reboot(ctx: &ExecutionContext) -> (r: Command)
    ensures
        r@ == call("shutdown.exe"@, seq!["/R"@, "/T"@, "0"@]),
{
    let c = Command::new("shutdown.exe").arg("/R").arg("/T").arg("0");
    assert(c@.args =~= seq!["/R"@, "/T"@, "0"@]);
    c
}

} // verus!

verus! {

/// The byte of a shell link header that holds its link flags.
pub open spec fn has_flag(b: Seq<u8>, mask: u8) -> bool {
    (b[20] & mask) != 0
}

/// The little-endian 16-bit number at `i`.
pub open spec fn u16_at(b: Seq<u8>, i: int) -> int {
    b[i] as int + 256 * (b[i + 1] as int)
}

/// The little-endian 32-bit number at `i`.
pub open spec fn u32_at(b: Seq<u8>, i: int) -> int {
    b[i] as int + 256 * (b[i + 1] as int) + 65536 * (b[i + 2] as int) + 16777216 * (
    b[i + 3] as int)
}

/// The flag of the `k`-th string of a shell link: name, relative path,
/// working directory, arguments, icon location.
pub open spec fn string_flag(k: int) -> u8 {
    if k == 0 {
        4
    } else if k == 1 {
        8
    } else if k == 2 {
        16
    } else if k == 3 {
        32
    } else {
        64
    }
}

/// Where the string data of a shell link starts: after the header, the
/// target ID list (a 16-bit size and that many bytes) and the link info
/// (whose first 32-bit number is its whole size), each when its flag is
/// set.
pub open spec fn strings_start(b: Seq<u8>) -> int {
    let p1 = if has_flag(b, 1) {
        78 + u16_at(b, 76)
    } else {
        76
    };
    if has_flag(b, 2) {
        p1 + u32_at(b, p1)
    } else {
        p1
    }
}

/// Whether the strings from the `k`-th on, starting at `p`, lie within `b`,
/// each a 16-bit count of characters and then the characters (two bytes
/// each when the link is in UTF-16), with every UTF-16 count below 32768.
pub open spec fn strings_fit(b: Seq<u8>, p: int, k: int) -> bool
    decreases 5 - k,
{
    if k >= 5 {
        true
    } else if !has_flag(b, string_flag(k)) {
        strings_fit(b, p, k + 1)
    } else {
        let unicode = has_flag(b, 128);
        let n = if unicode {
            2 * u16_at(b, p)
        } else {
            u16_at(b, p)
        };
        &&& 0 <= p
        &&& p + 2 <= b.len()
        &&& (unicode ==> u16_at(b, p) < 32768)
        &&& p + 2 + n <= b.len()
        &&& strings_fit(b, p + 2 + n, k + 1)
    }
}

/// Whether an extra-data block header at `q` names a shim, property-store
/// or ID-list block with a size below its own eight header bytes.
pub open spec fn short_block_at(b: Seq<u8>, q: int) -> bool {
    &&& 0 <= q
    &&& q + 8 <= b.len()
    &&& b[q] < 8
    &&& b[q + 1] == 0
    &&& b[q + 2] == 0
    &&& b[q + 3] == 0
    &&& (b[q + 4] == 8 || b[q + 4] == 9 || b[q + 4] == 12)
    &&& b[q + 5] == 0
    &&& b[q + 6] == 0
    &&& b[q + 7] == 0xa0
}

/// Shortcut files that `parselnk` reads without panicking, and possibly
/// some more are left out: a full header, the target ID list and link info
/// sizes in reach, every string within the file with UTF-16 counts below
/// 32768 (a larger one overflows), and nowhere a short shim, property-store
/// or ID-list block (its size less eight underflows).
pub open spec fn lnk_safe(b: Seq<u8>) -> bool {
    &&& b.len() >= 76
    &&& (has_flag(b, 1) ==> 78 <= b.len())
    &&& (has_flag(b, 2) ==> (if has_flag(b, 1) {
        78 + u16_at(b, 76)
    } else {
        76
    }) + 36 <= b.len())
    &&& strings_fit(b, strings_start(b), 0)
    &&& forall|q: int| !short_block_at(b, q)
}

fn u16_le(b: &Vec<u8>, i: usize) -> (r: u128)
    requires
        i + 2 <= b.len(),
    ensures
        r == u16_at(b@, i as int),
        r < 65536,
{
    (b[i] as u128) + 256 * (b[i + 1] as u128)
}

fn u32_le(b: &Vec<u8>, i: usize) -> (r: u128)
    requires
        i + 4 <= b.len(),
    ensures
        r == u32_at(b@, i as int),
        r < 0x1_0000_0000,
{
    (b[i] as u128) + 256 * (b[i + 1] as u128) + 65536 * (b[i + 2] as u128) + 16777216 * (
    b[i + 3] as u128)
}

fn string_flag_exec(k: usize) -> (r: u8)
    ensures
        r == string_flag(k as int),
{
    if k == 0 {
        4
    } else if k == 1 {
        8
    } else if k == 2 {
        16
    } else if k == 3 {
        32
    } else {
        64
    }
}

/// Whether the shortcut file `b` is one that `parselnk` reads safely.
pub fn lnk_parse_safe(b: &Vec<u8>) -> (r: bool)
    ensures
        r == lnk_safe(b@),
{
    let len = b.len();
    if len < 76 {
        return false;
    }
    let f = b[20];
    let mut p: u128 = 76;
    if f & 1 != 0 {
        if len < 78 {
            return false;
        }
        p = 78 + u16_le(b, 76);
    }
    if f & 2 != 0 {
        if p + 36 > len as u128 {
            return false;
        }
        p = p + u32_le(b, p as usize);
    }
    assert(p == strings_start(b@));
    let unicode = f & 128 != 0;
    let mut k: usize = 0;
    while k < 5
        invariant
            k <= 5,
            len == b.len(),
            len >= 76,
            f == b@[20],
            unicode == has_flag(b@, 128),
            76 <= p <= len as u128 + 0x2_0000_0000,
            strings_fit(b@, strings_start(b@), 0) == strings_fit(b@, p as int, k as int),
        decreases 5 - k,
    {
        let bit = string_flag_exec(k);
        if f & bit != 0 {
            if p + 2 > len as u128 {
                return false;
            }
            let c = u16_le(b, p as usize);
            if unicode && c >= 32768 {
                return false;
            }
            let n = if unicode {
                2 * c
            } else {
                c
            };
            if p + 2 + n > len as u128 {
                return false;
            }
            p = p + 2 + n;
        }
        k = k + 1;
    }
    let mut q: usize = 0;
    while q < len && len - q >= 8
        invariant
            len == b.len(),
            len >= 76,
            forall|j: int| 0 <= j < q ==> !short_block_at(b@, j),
        decreases len - q,
    {
        if b[q] < 8 && b[q + 1] == 0 && b[q + 2] == 0 && b[q + 3] == 0 && (b[q + 4] == 8 || b[q
            + 4] == 9 || b[q + 4] == 12) && b[q + 5] == 0 && b[q + 6] == 0 && b[q + 7] == 0xa0 {
            assert(short_block_at(b@, q as int));
            return false;
        }
        q = q + 1;
    }
    assert forall|j: int| !short_block_at(b@, j) by {
        if j >= q {
            assert(!short_block_at(b@, j));
        }
    }
    true
}

/// What `parselnk` reads as the relative path of the shortcut whose file
/// holds `bytes`, or `None` when the file is no shortcut or has none.
pub uninterp spec fn lnk_relative_path(bytes: Seq<u8>) -> Option<Seq<char>>;

/// Relies on `parselnk::Lnk`'s `TryFrom<&Vec<u8>>` and `relative_path`:
/// parses a shell link and gives its relative path, as text. Only files
/// that `lnk_safe` admits are handed to it: on others it may panic.
#[verifier::external_body]
fn link_relative_path(bytes: &Vec<u8>) -> (r: Option<String>)
    requires
        lnk_safe(bytes@),
    ensures
        match lnk_relative_path(bytes@) {
            Some(p) => r matches Some(s) && s@ == p,
            None => r is None,
        },
{
    parselnk::Lnk::try_from(bytes).ok().and_then(|l| l.relative_path()).map(
        |p| p.to_string_lossy().into_owned(),
    )
}

/// Whether a file name has the extension `lnk`: it ends with `.lnk` and
/// has a stem before it.
pub open spec fn is_link_name(name: Seq<char>) -> bool {
    name.len() > 4 && name.skip(name.len() - 4) == ".lnk"@
}

fn link_name(name: &String) -> (r: bool)
    ensures
        r == is_link_name(name@),
{
    let v = chars_of(name.as_str());
    if v.len() <= 4 {
        return false;
    }
    let ext = chars_of(".lnk");
    proof {
        reveal_strlit(".lnk");
    }
    let m = matches_at(&v, &ext, v.len() - 4);
    assert(v@.subrange(v.len() - 4, v.len() as int) =~= v@.skip(v.len() - 4));
    m
}

/// `rel` resolved against the startup directory `dir`.
pub open spec fn in_startup_dir(dir: Seq<char>, rel: Seq<char>) -> Seq<char> {
    dir + seq!['\\'] + rel
}

/// The targets that the startup entries `entries` (name and contents)
/// give, in order: the relative path of each shortcut that names one,
/// resolved against the startup directory `dir`. Files that the shortcut
/// reader cannot take safely count as no shortcut.
pub open spec fn startup_targets(dir: Seq<char>, entries: Seq<(Seq<char>, Seq<u8>)>) -> Seq<
    Seq<char>,
>
    decreases entries.len(),
{
    if entries.len() == 0 {
        Seq::empty()
    } else {
        let prev = startup_targets(dir, entries.drop_last());
        let e = entries.last();
        if is_link_name(e.0) && lnk_safe(e.1) && lnk_relative_path(e.1) is Some {
            prev.push(in_startup_dir(dir, lnk_relative_path(e.1)->0))
        } else {
            prev
        }
    }
}

/// The views of startup entries.
pub open spec fn entry_views(entries: Seq<(String, Vec<u8>)>) -> Seq<(Seq<char>, Seq<u8>)> {
    entries.map_values(|e: (String, Vec<u8>)| (e.0@, e.1@))
}

/// Adds to `git_repos`, for the repository step to inspect, the targets of
/// the shortcuts in the startup directory `startup_dir`, whose files are
/// `entries` (name and contents).
pub fn insert_startup_scripts(
    git_repos: &mut Vec<String>,
    startup_dir: &str,
    entries: &Vec<(String, Vec<u8>)>,
)
    ensures
        views(final(git_repos)@) == views(old(git_repos)@) + startup_targets(
            startup_dir@,
            entry_views(entries@),
        ),
{
    let ghost start = views(git_repos@);
    let ghost ev = entry_views(entries@);
    let mut i: usize = 0;
    assert(ev.take(0) =~= Seq::<(Seq<char>, Seq<u8>)>::empty());
    assert(start + Seq::<Seq<char>>::empty() =~= start);
    while i < entries.len()
        invariant
            i <= entries.len(),
            ev == entry_views(entries@),
            views(git_repos@) == start + startup_targets(startup_dir@, ev.take(i as int)),
        decreases entries.len() - i,
    {
        let ghost t = ev.take(i + 1);
        assert(t.drop_last() =~= ev.take(i as int));
        assert(t.last() == (entries@[i as int].0@, entries@[i as int].1@));
        let ghost before = views(git_repos@);
        if link_name(&entries[i].0) && lnk_parse_safe(&entries[i].1) {
            match link_relative_path(&entries[i].1) {
                Some(rel) => {
                    let mut path = String::from_str(startup_dir);
                    path.append("\\");
                    path.append(rel.as_str());
                    proof {
                        reveal_strlit("\\");
                        assert(path@ =~= in_startup_dir(startup_dir@, rel@));
                    }
                    git_repos.push(path);
                    proof {
                        assert(views(git_repos@) =~= before.push(in_startup_dir(startup_dir@, rel@)));
                    }
                },
                None => {},
            }
        }
        i = i + 1;
    }
    assert(ev.take(entries.len() as int) =~= ev);
}

/// Relies on `etcetera`'s Windows strategy: the roaming application data
/// directory. Nothing is assumed of its value.
#[verifier::external_body]
fn windows_data_dir() -> (r: Option<String>) {
    etcetera::base_strategy::Windows::new().ok().map(
        |w| w.data_dir().to_string_lossy().into_owned(),
    )
}

/// Where the startup directory lies under the data directory.
pub open spec fn startup_suffix() -> Seq<char> {
    "\\Microsoft\\Windows\\Start Menu\\Programs\\Startup"@
}

/// The startup directory under the data directory `data_dir`.
pub fn startup_dir_in(data_dir: &str) -> (r: String)
    ensures
        r@ == data_dir@ + startup_suffix(),
{
    let mut s = String::from_str(data_dir);
    s.append("\\Microsoft\\Windows\\Start Menu\\Programs\\Startup");
    s
}

/// The user's startup directory, when the system names a data directory.
pub fn startup_dir() -> (r: Option<String>)
    ensures
        r matches Some(s) ==> s@.len() >= startup_suffix().len() && s@.skip(
            s@.len() - startup_suffix().len(),
        ) == startup_suffix(),
{
    match windows_data_dir() {
        Some(d) => {
            let s = startup_dir_in(d.as_str());
            assert(s@.skip(s@.len() - startup_suffix().len()) =~= startup_suffix());
            Some(s)
        },
        None => None,
    }
}

} // verus!
