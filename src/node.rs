//! Upgrading the global packages of the Node package managers (npm or pnpm,
//! Yarn) and Deno.
use vstd::prelude::*;

use crate::command::{Command, CommandView};
use crate::context::ExecutionContext;
use crate::elevation::{effective_uid, wrapped, Wrapped};
use crate::outcome::StepError;
use crate::shell::{push_quoted, quoted};
use crate::text::{
    append_chars, chars_of, contains, fields, has_sub, is_under, join_chars, joined, path_is_under,
    split_chars, string_of, trim, trimmed,
};

verus! {

/// A version's major, minor and patch numbers and its pre-release label.
#[derive(Clone, Debug, PartialEq, Eq)]
pub struct VersionCore {
    pub major: u64,
    pub minor: u64,
    pub patch: u64,
    pub pre: String,
}

/// What `semver::Version::parse` gives for `s`: the numbers and the
/// pre-release label, or `None` where `s` is no semantic version.
pub uninterp spec fn semver_parse(s: Seq<char>) -> Option<(u64, u64, u64, Seq<char>)>;

/// Relies on `semver::Version::parse`: parses a semantic version; its
/// numbers and pre-release label are kept.
#[verifier::external_body]
fn parse_semver(s: &str) -> (r: Option<VersionCore>)
    ensures
        match semver_parse(s@) {
            Some(t) => r matches Some(v) && v.major == t.0 && v.minor == t.1 && v.patch == t.2
                && v.pre@ == t.3,
            None => r is None,
        },
{
    semver::Version::parse(s).ok().map(
        |v| VersionCore { major: v.major, minor: v.minor, patch: v.patch, pre: v.pre.as_str().to_owned() },
    )
}

/// Whether a version precedes 8.11.0 in semantic-version order: a smaller
/// number, or 8.11.0 itself with a pre-release label.
pub open spec fn before_8_11(t: (u64, u64, u64, Seq<char>)) -> bool {
    t.0 < 8 || (t.0 == 8 && (t.1 < 11 || (t.1 == 11 && t.2 == 0 && t.3.len() > 0)))
}

/// The view of a version.
pub open spec fn version_tuple(v: VersionCore) -> (u64, u64, u64, Seq<char>) {
    (v.major, v.minor, v.patch, v.pre@)
}

/// Whether `v` precedes 8.11.0, the first npm that takes `--location`.
pub fn is_before_8_11(v: &VersionCore) -> (r: bool)
    ensures
        r == before_8_11(version_tuple(*v)),
{
    v.major < 8 || (v.major == 8 && (v.minor < 11 || (v.minor == 11 && v.patch == 0
        && !v.pre.as_str().is_empty())))
}

/// Whether `path` is likely a Windows path seen from WSL.
pub open spec fn wsl_windows_path(path: Seq<char>) -> bool {
    has_sub(path, "/mnt/"@)
}

/// Whether `path` is likely a Windows path seen from WSL.
pub fn is_wsl_windows_path(path: &str) -> (r: bool)
    ensures
        r == wsl_windows_path(path@),
{
    contains(path, "/mnt/")
}

/// The reason given when a package manager has no `node` beside it.
pub open spec fn node_missing_reason(command: Seq<char>) -> Seq<char> {
    "Found a package manager at "@ + command
        + ", but the node executable is missing. This may be because you're running WSL with Node.js installed on the Windows side. Consider installing Node.js directly in WSL."@
}

/// A package manager found under a Windows path from WSL without `node`
/// beside it cannot run; the step is skipped.
pub fn check_node_available(command: &str, node_beside: bool) -> (r: Result<(), StepError>)
    ensures
        r is Ok <==> (node_beside || !wsl_windows_path(command@)),
        r matches Err(e) ==> (e matches StepError::PreconditionUnmet { reason } && reason@
            == node_missing_reason(command@)),
{
    if !node_beside && is_wsl_windows_path(command) {
        let mut m = String::from_str("Found a package manager at ");
        m.append(command);
        m.append(
            ", but the node executable is missing. This may be because you're running WSL with Node.js installed on the Windows side. Consider installing Node.js directly in WSL.",
        );
        return Err(StepError::PreconditionUnmet { reason: m });
    }
    Ok(())
}

/// The reason given when a global package root does not exist.
pub open spec fn root_missing_reason(root: Seq<char>) -> Seq<char> {
    "NPM root at "@ + root + " doesn't exist"@
}

/// The reason given when the root belongs to another user and sudo is not
/// allowed.
pub open spec fn sudo_refused_reason() -> Seq<char> {
    "NPM root is owned by another user which is not the current user. Set use_sudo = true under the NPM section in your configuration to run NPM as sudo"@
}

/// Whether a root owned by `owner` needs sudo from a process whose
/// effective user is `euid`: it belongs to the superuser, who is not us.
pub fn sudo_needed(owner: u32, euid: u32) -> (r: bool)
    ensures
        r == (owner != euid && owner == 0),
{
    owner != euid && owner == 0
}

/// Whether writing to the global root `root`, owned by `root_owner`
/// (`None`: it does not exist), needs sudo for this process.
fn root_needs_sudo(root: &str, root_owner: Option<u32>) -> (r: Result<bool, StepError>)
    ensures
        match root_owner {
            None => r matches Err(StepError::PreconditionUnmet { reason }) && reason@
                == root_missing_reason(root@),
            Some(o) => r matches Ok(b) && (b ==> o == 0) && (o != 0 ==> !b),
        },
{
    match root_owner {
        None => {
            let mut m = String::from_str("NPM root at ");
            m.append(root);
            m.append(" doesn't exist");
            Err(StepError::PreconditionUnmet { reason: m })
        },
        Some(o) => Ok(sudo_needed(o, effective_uid())),
    }
}

/// Whether an upgrade runs with sudo, given whether the root needs it (as
/// `sudo_needed` decides from the root's owner and the effective user) and
/// whether the configuration allows it: when needed but not allowed, the
/// step is skipped.
pub fn sudo_decision(needed: Result<bool, StepError>, allowed: bool) -> (r: Result<bool, StepError>)
    ensures
        match needed {
            Err(e) => r == Err::<bool, StepError>(e),
            Ok(false) => r == Ok::<bool, StepError>(false),
            Ok(true) => if allowed {
                r == Ok::<bool, StepError>(true)
            } else {
                r matches Err(StepError::PreconditionUnmet { reason }) && reason@
                    == sudo_refused_reason()
            },
        },
{
    match needed {
        Err(e) => Err(e),
        Ok(false) => Ok(false),
        Ok(true) => if allowed {
            Ok(true)
        } else {
            Err(
                StepError::PreconditionUnmet {
                    reason: String::from_str(
                        "NPM root is owned by another user which is not the current user. Set use_sudo = true under the NPM section in your configuration to run NPM as sudo",
                    ),
                },
            )
        },
    }
}

/// The arguments of `npm update` for a version before 8.11 or not.
pub open spec fn npm_update_args(legacy: bool) -> Seq<Seq<char>> {
    if legacy {
        seq!["update"@, "-g"@]
    } else {
        seq!["update"@, "--location=global"@]
    }
}

/// The arguments of `npm root` for a version before 8.11 or not.
pub open spec fn npm_root_args(legacy: bool) -> Seq<Seq<char>> {
    if legacy {
        seq!["root"@, "-g"@]
    } else {
        seq!["root"@, "--location=global"@]
    }
}

/// The view of a finished command with no working directory.
pub open spec fn call(program: Seq<char>, args: Seq<Seq<char>>) -> CommandView {
    CommandView { program, args, cwd: None }
}

fn two_arg_command(program: &str, a: &str, b: &str) -> (r: Command)
    ensures
        r@ == call(program@, seq![a@, b@]),
{
    let c = Command::new(program).arg(a).arg(b);
    assert(c@.args =~= seq![a@, b@]);
    c
}

/// The reason given when a version cannot be read.
pub open spec fn version_reason(text: Seq<char>) -> Seq<char> {
    "Cannot parse the version "@ + text
}

/// npm, or pnpm in its place.
#[allow(clippy::upper_case_acronyms)]
pub struct NPM {
    pub command: String,
}

impl NPM {
    /// The package manager at `command`.
    pub fn new(command: String) -> (r: NPM)
        ensures
            r.command@ == command@,
    {
        NPM { command }
    }

    /// The command that prints the version.
    pub fn version_command(&self) -> (r: Command)
        ensures
            r@ == call(self.command@, seq!["--version"@]),
    {
        let c = Command::new(self.command.as_str()).arg("--version");
        assert(c@.args =~= seq!["--version"@]);
        c
    }

    /// The version that the version command printed, trimmed; a version
    /// that cannot be read fails the step.
    pub fn version(&self, output: &str) -> (r: Result<VersionCore, StepError>)
        ensures
            match semver_parse(trimmed(output@)) {
                Some(t) => r matches Ok(v) && version_tuple(v) == t,
                None => r matches Err(StepError::Failed { reason }) && reason@ == version_reason(
                    trimmed(output@),
                ),
            },
    {
        let t = trim(output);
        match parse_semver(t.as_str()) {
            Some(v) => Ok(v),
            None => {
                let mut m = String::from_str("Cannot parse the version ");
                m.append(t.as_str());
                Err(StepError::Failed { reason: m })
            },
        }
    }

    /// The command that prints the global package root.
    pub fn root_command(&self, version: &VersionCore) -> (r: Command)
        ensures
            r@ == call(self.command@, npm_root_args(before_8_11(version_tuple(*version)))),
    {
        if is_before_8_11(version) {
            two_arg_command(self.command.as_str(), "root", "-g")
        } else {
            two_arg_command(self.command.as_str(), "root", "--location=global")
        }
    }

    /// The command that updates the global packages, without elevation.
    pub fn upgrade_command(&self, version: &VersionCore) -> (r: Command)
        ensures
            r@ == call(self.command@, npm_update_args(before_8_11(version_tuple(*version)))),
    {
        if is_before_8_11(version) {
            two_arg_command(self.command.as_str(), "update", "-g")
        } else {
            two_arg_command(self.command.as_str(), "update", "--location=global")
        }
    }

    /// Whether updating the root `root`, owned by `root_owner` (`None`: it
    /// does not exist), needs sudo: the superuser owns it and this process
    /// is not the superuser.
    pub fn should_use_sudo(&self, root: &str, root_owner: Option<u32>) -> (r: Result<
        bool,
        StepError,
    >)
        ensures
            match root_owner {
                None => r matches Err(StepError::PreconditionUnmet { reason }) && reason@
                    == root_missing_reason(root@),
                Some(o) => r matches Ok(b) && (b ==> o == 0) && (o != 0 ==> !b),
            },
    {
        root_needs_sudo(root, root_owner)
    }
}

/// Whether the npm update runs with sudo: when the root needs it, only if
/// the configuration allows it; otherwise the step is skipped.
pub fn should_use_sudo(npm: &NPM, ctx: &ExecutionContext, root: &str, root_owner: Option<u32>) -> (r:
    Result<bool, StepError>)
    ensures
        root_owner is None ==> (r matches Err(StepError::PreconditionUnmet { reason }) && reason@
            == root_missing_reason(root@)),
        root_owner is Some && root_owner->0 != 0 ==> r == Ok::<bool, StepError>(false),
        r == Ok::<bool, StepError>(true) ==> ctx.config.npm_use_sudo && root_owner == Some(0u32),
        root_owner is Some && r is Err ==> (r matches Err(StepError::PreconditionUnmet { reason })
            && reason@ == sudo_refused_reason() && !ctx.config.npm_use_sudo),
{
    let needed = npm.should_use_sudo(root, root_owner);
    sudo_decision(needed, ctx.config.npm_use_sudo)
}

} // verus!

verus! {

/// The parts that lie outside WSL's view of Windows drives.
pub open spec fn linux_parts(parts: Seq<Seq<char>>) -> Seq<Seq<char>>
    decreases parts.len(),
{
    if parts.len() == 0 {
        Seq::empty()
    } else if wsl_windows_path(parts.last()) {
        linux_parts(parts.drop_last())
    } else {
        linux_parts(parts.drop_last()).push(parts.last())
    }
}

/// `PATH` without its entries under Windows drives.
pub fn linux_search_path(path_var: &str) -> (r: String)
    ensures
        r@ == joined(linux_parts(fields(path_var@, ':')), ':'),
{
    let v = chars_of(path_var);
    let parts = split_chars(&v, ':');
    let ghost ps = parts@.map_values(|f: Vec<char>| f@);
    let mut kept: Vec<Vec<char>> = Vec::new();
    let mut i: usize = 0;
    let mnt = chars_of("/mnt/");
    assert(kept@.map_values(|f: Vec<char>| f@) =~= Seq::<Seq<char>>::empty());
    while i < parts.len()
        invariant
            i <= parts.len(),
            ps == parts@.map_values(|f: Vec<char>| f@),
            mnt@ == "/mnt/"@,
            kept@.map_values(|f: Vec<char>| f@) == linux_parts(ps.take(i as int)),
        decreases parts.len() - i,
    {
        let ghost t = ps.take(i + 1);
        assert(t.drop_last() =~= ps.take(i as int));
        assert(t.last() == parts@[i as int]@);
        if !crate::text::contains_chars(&parts[i], &mnt) {
            let ghost before = kept@.map_values(|f: Vec<char>| f@);
            let part = crate::text::slice_chars(&parts[i], 0, parts[i].len());
            assert(part@ =~= parts@[i as int]@);
            kept.push(part);
            assert(kept@.map_values(|f: Vec<char>| f@) =~= before.push(t.last()));
        }
        i = i + 1;
    }
    assert(ps.take(parts.len() as int) =~= ps);
    let out = join_chars(&kept, ':');
    string_of(&out)
}

/// The shell line that looks `npm_command` up in `linux_path` only.
pub open spec fn lookup_line(linux_path: Seq<char>, npm_command: Seq<char>) -> Seq<char> {
    "PATH="@ + quoted(linux_path) + " which "@ + quoted(npm_command) + " 2>/dev/null"@
}

/// The command that looks `npm_command` up in `linux_path` only.
pub fn linux_lookup_command(linux_path: &str, npm_command: &str) -> (r: Command)
    ensures
        r@ == call("sh"@, seq!["-c"@, lookup_line(linux_path@, npm_command@)]),
{
    let mut line = chars_of("PATH=");
    push_quoted(&mut line, &chars_of(linux_path));
    append_chars(&mut line, &chars_of(" which "));
    push_quoted(&mut line, &chars_of(npm_command));
    append_chars(&mut line, &chars_of(" 2>/dev/null"));
    let text = string_of(&line);
    let c = Command::new("sh").arg("-c").arg(text.as_str());
    assert(c@.args =~= seq!["-c"@, lookup_line(linux_path@, npm_command@)]);
    c
}

/// The path that a lookup printed (`None`: it failed), trimmed; nothing
/// when it printed only white space.
pub fn which_result(output: Option<String>) -> (r: Option<String>)
    ensures
        match output {
            Some(s) => if trimmed(s@).len() > 0 {
                r matches Some(p) && p@ == trimmed(s@)
            } else {
                r is None
            },
            None => r is None,
        },
{
    match output {
        Some(s) => {
            let t = trim(s.as_str());
            if t.as_str().is_empty() {
                None
            } else {
                Some(t)
            }
        },
        None => None,
    }
}

/// Picks the package manager: the one found first unless it is a Windows
/// program seen from WSL, in which case one found outside Windows drives is
/// preferred; then the Windows one; then the fallback. Without any, the
/// step is skipped.
pub fn find_package_manager(
    fallback_command: &str,
    primary: Option<String>,
    linux_only: Option<String>,
    fallback: Option<String>,
) -> (r: Result<String, StepError>)
    ensures
        primary is Some && !wsl_windows_path(primary->0@) ==> (r matches Ok(p) && p@
            == primary->0@),
        (primary is None || wsl_windows_path(primary->0@)) && linux_only is Some ==> (r matches Ok(
            p,
        ) && p@ == linux_only->0@),
        primary is Some && wsl_windows_path(primary->0@) && linux_only is None ==> (r matches Ok(
            p,
        ) && p@ == primary->0@),
        primary is None && linux_only is None && fallback is Some ==> (r matches Ok(p) && p@
            == fallback->0@),
        primary is None && linux_only is None && fallback is None ==> (r matches Err(
            StepError::BinaryNotFound { name },
        ) && name@ == fallback_command@),
{
    if let Some(p) = &primary {
        if !is_wsl_windows_path(p.as_str()) {
            return Ok(p.clone());
        }
    }
    if let Some(l) = linux_only {
        return Ok(l);
    }
    match primary {
        Some(p) => Ok(p),
        None => match fallback {
            Some(f) => Ok(f),
            None => Err(StepError::BinaryNotFound { name: String::from_str(fallback_command) }),
        },
    }
}

impl NPM {
    /// The update of the global packages, elevated through the context when
    /// `use_sudo`.
    pub fn upgrade(&self, ctx: &mut ExecutionContext, version: &VersionCore, use_sudo: bool) -> (r:
        Result<Wrapped, StepError>)
        ensures
            final(ctx).config == old(ctx).config,
            !use_sudo ==> (r matches Ok(w) && w.command@ == call(
                self.command@,
                npm_update_args(before_8_11(version_tuple(*version))),
            ) && !w.advisory && final(ctx).elevation == old(ctx).elevation),
            use_sudo && old(ctx).elevation is None ==> (r matches Err(e)
                && e is ElevationUnavailable),
            use_sudo && old(ctx).elevation is Some ==> (r is Ok <==> old(
                ctx,
            ).elevation->0@.program is Some),
            use_sudo && r is Ok ==> (old(ctx).elevation is Some && r->Ok_0.command@ == wrapped(
                old(ctx).elevation->0@,
                call(self.command@, npm_update_args(before_8_11(version_tuple(*version)))),
                false,
            )),
    {
        let cmd = self.upgrade_command(version);
        if use_sudo {
            ctx.elevate(cmd, false)
        } else {
            Ok(Wrapped { command: cmd, advisory: false })
        }
    }
}

/// Yarn, with the `yarn` program to run under sudo when it differs.
pub struct Yarn {
    pub command: String,
    pub yarn: Option<String>,
}

/// The arguments of `yarn global upgrade`.
pub open spec fn yarn_upgrade_args() -> Seq<Seq<char>> {
    seq!["global"@, "upgrade"@]
}

impl Yarn {
    /// Yarn at `command`, with `yarn` the program that a lookup of `yarn`
    /// found, if any.
    pub fn new(command: String, yarn: Option<String>) -> (r: Yarn)
        ensures
            r.command == command,
            r.yarn == yarn,
    {
        Yarn { command, yarn }
    }

    /// The command that prints the global package root.
    pub fn root_command(&self) -> (r: Command)
        ensures
            r@ == call(self.command@, seq!["global"@, "dir"@]),
    {
        two_arg_command(self.command.as_str(), "global", "dir")
    }

    /// Whether updating the root `root`, owned by `root_owner` (`None`: it
    /// does not exist), needs sudo.
    pub fn should_use_sudo(&self, root: &str, root_owner: Option<u32>) -> (r: Result<
        bool,
        StepError,
    >)
        ensures
            match root_owner {
                None => r matches Err(StepError::PreconditionUnmet { reason }) && reason@
                    == root_missing_reason(root@),
                Some(o) => r matches Ok(b) && (b ==> o == 0) && (o != 0 ==> !b),
            },
    {
        root_needs_sudo(root, root_owner)
    }

    /// The update of the global packages; under sudo it runs the `yarn`
    /// program when one was found.
    pub fn upgrade(&self, ctx: &mut ExecutionContext, use_sudo: bool) -> (r: Result<
        Wrapped,
        StepError,
    >)
        ensures
            final(ctx).config == old(ctx).config,
            !use_sudo ==> (r matches Ok(w) && w.command@ == call(
                self.command@,
                yarn_upgrade_args(),
            ) && !w.advisory),
            use_sudo && old(ctx).elevation is None ==> r is Err,
            use_sudo && old(ctx).elevation is Some ==> (r is Ok <==> old(
                ctx,
            ).elevation->0@.program is Some),
            use_sudo && r is Ok ==> (old(ctx).elevation is Some && r->Ok_0.command@ == wrapped(
                old(ctx).elevation->0@,
                call(
                    match self.yarn {
                        Some(y) => y@,
                        None => self.command@,
                    },
                    yarn_upgrade_args(),
                ),
                false,
            )),
    {
        if use_sudo {
            let program = match &self.yarn {
                Some(y) => y.as_str(),
                None => self.command.as_str(),
            };
            let cmd = two_arg_command(program, "global", "upgrade");
            ctx.elevate(cmd, false)
        } else {
            let cmd = two_arg_command(self.command.as_str(), "global", "upgrade");
            Ok(Wrapped { command: cmd, advisory: false })
        }
    }
}

/// Whether the Yarn update runs with sudo: when the root needs it, only if
/// the configuration allows it; otherwise the step is skipped.
pub fn should_use_sudo_yarn(yarn: &Yarn, ctx: &ExecutionContext, root: &str, root_owner: Option<u32>) -> (r:
    Result<bool, StepError>)
    ensures
        root_owner is None ==> (r matches Err(StepError::PreconditionUnmet { reason }) && reason@
            == root_missing_reason(root@)),
        root_owner is Some && root_owner->0 != 0 ==> r == Ok::<bool, StepError>(false),
        r == Ok::<bool, StepError>(true) ==> ctx.config.yarn_use_sudo && root_owner == Some(0u32),
        root_owner is Some && r is Err ==> (r matches Err(StepError::PreconditionUnmet { reason })
            && reason@ == sudo_refused_reason() && !ctx.config.yarn_use_sudo),
{
    let needed = yarn.should_use_sudo(root, root_owner);
    sudo_decision(needed, ctx.config.yarn_use_sudo)
}

/// What the probes of a Node package manager found: whether `node` lies
/// beside it, what its version command printed, its global root and that
/// root's owner (`None`: the root does not exist).
#[derive(Clone, Debug)]
pub struct NodeProbe {
    pub node_beside: bool,
    pub version_output: String,
    pub root: String,
    pub root_owner: Option<u32>,
}

/// The version that a probe read.
pub open spec fn probed_version(probe: NodeProbe) -> Option<(u64, u64, u64, Seq<char>)> {
    semver_parse(trimmed(probe.version_output@))
}

/// Updates the global packages of npm (or pnpm), found as `npm_path` says.
/// The step is skipped without a package manager, without `node` beside a
/// Windows one seen from WSL, without its root, or when the root needs
/// sudo that the configuration does not allow; an unreadable version fails
/// it. A root that another user than the superuser owns needs no sudo.
pub fn run_npm_upgrade(
    ctx: &mut ExecutionContext,
    npm_path: Result<String, StepError>,
    probe: &NodeProbe,
) -> (r: Result<Wrapped, StepError>)
    ensures
        final(ctx).config == old(ctx).config,
        npm_path is Err ==> r == Err::<Wrapped, StepError>(npm_path->Err_0),
        npm_path is Ok && !probe.node_beside && wsl_windows_path(npm_path->Ok_0@) ==> (r matches Err(
            StepError::PreconditionUnmet { reason },
        ) && reason@ == node_missing_reason(npm_path->Ok_0@)),
        npm_path is Ok && (probe.node_beside || !wsl_windows_path(npm_path->Ok_0@))
            && probed_version(*probe) is None ==> (r matches Err(e) && e is Failed),
        npm_path is Ok && (probe.node_beside || !wsl_windows_path(npm_path->Ok_0@))
            && probed_version(*probe) is Some && probe.root_owner is None ==> (r matches Err(
            StepError::PreconditionUnmet { reason },
        ) && reason@ == root_missing_reason(probe.root@)),
        npm_path is Ok && (probe.node_beside || !wsl_windows_path(npm_path->Ok_0@))
            && probed_version(*probe) is Some && probe.root_owner is Some && probe.root_owner->0 != 0 ==> (
        r matches Ok(w) && w.command@ == call(
            npm_path->Ok_0@,
            npm_update_args(before_8_11(probed_version(*probe)->0)),
        ) && !w.advisory),
        npm_path is Ok && (probe.node_beside || !wsl_windows_path(npm_path->Ok_0@))
            && probed_version(*probe) is Some && probe.root_owner == Some(0u32)
            && old(ctx).config.npm_use_sudo && old(ctx).elevation is Some && old(
            ctx,
        ).elevation->0@.program is Some ==> r is Ok,
        r is Ok ==> npm_path is Ok && probed_version(*probe) is Some && (r->Ok_0.command@ == call(
            npm_path->Ok_0@,
            npm_update_args(before_8_11(probed_version(*probe)->0)),
        ) || (old(ctx).elevation is Some && r->Ok_0.command@ == wrapped(
            old(ctx).elevation->0@,
            call(npm_path->Ok_0@, npm_update_args(before_8_11(probed_version(*probe)->0))),
            false,
        ))),
{
    let path = match npm_path {
        Ok(p) => p,
        Err(e) => {
            return Err(e);
        },
    };
    let npm = NPM::new(path);
    check_node_available(npm.command.as_str(), probe.node_beside)?;
    let version = npm.version(probe.version_output.as_str())?;
    let use_sudo = should_use_sudo(&npm, ctx, probe.root.as_str(), probe.root_owner)?;
    npm.upgrade(ctx, &version, use_sudo)
}

/// Updates the global packages of Yarn, found as `yarn_path` says, with
/// `yarn` the program that a lookup of `yarn` found, if any. The step is
/// skipped as `run_npm_upgrade` says, and a root that the superuser does
/// not own needs no sudo.
pub fn run_yarn_upgrade(
    ctx: &mut ExecutionContext,
    yarn_path: Result<String, StepError>,
    yarn: Option<String>,
    probe: &NodeProbe,
) -> (r: Result<Wrapped, StepError>)
    ensures
        final(ctx).config == old(ctx).config,
        yarn_path is Err ==> r == Err::<Wrapped, StepError>(yarn_path->Err_0),
        yarn_path is Ok && !probe.node_beside && wsl_windows_path(yarn_path->Ok_0@) ==> (r matches Err(
            StepError::PreconditionUnmet { reason },
        ) && reason@ == node_missing_reason(yarn_path->Ok_0@)),
        yarn_path is Ok && (probe.node_beside || !wsl_windows_path(yarn_path->Ok_0@))
            && probe.root_owner is None ==> (r matches Err(StepError::PreconditionUnmet { reason })
            && reason@ == root_missing_reason(probe.root@)),
        yarn_path is Ok && (probe.node_beside || !wsl_windows_path(yarn_path->Ok_0@))
            && probe.root_owner is Some && probe.root_owner->0 != 0 ==> (r matches Ok(w) && w.command@
            == call(yarn_path->Ok_0@, yarn_upgrade_args()) && !w.advisory),
        yarn_path is Ok && (probe.node_beside || !wsl_windows_path(yarn_path->Ok_0@))
            && probe.root_owner == Some(0u32) && old(ctx).config.yarn_use_sudo && old(
            ctx,
        ).elevation is Some && old(ctx).elevation->0@.program is Some ==> r is Ok,
{
    let path = match yarn_path {
        Ok(p) => p,
        Err(e) => {
            return Err(e);
        },
    };
    let y = Yarn::new(path, yarn);
    check_node_available(y.command.as_str(), probe.node_beside)?;
    let use_sudo = should_use_sudo_yarn(&y, ctx, probe.root.as_str(), probe.root_owner)?;
    y.upgrade(ctx, use_sudo)
}

/// Deno's own directory under the home directory `home`.
pub open spec fn deno_dir(home: Seq<char>) -> Seq<char> {
    home + "/.deno"@
}

/// Upgrades Deno with its own `upgrade`. The step is skipped without Deno,
/// or when Deno (its resolved path, `canonical`) lies outside its own
/// directory, where another installer owns it; a path that cannot be
/// resolved fails it.
pub fn deno_upgrade(ctx: &ExecutionContext, deno: Option<String>, canonical: Option<String>) -> (r:
    Result<Command, StepError>)
    ensures
        deno is None ==> (r matches Err(StepError::BinaryNotFound { name }) && name@ == "deno"@),
        deno is Some && canonical is None ==> (r matches Err(e) && e is Failed),
        deno is Some && canonical is Some && !is_under(canonical->0@, deno_dir(ctx.home_dir@))
            ==> (r matches Err(StepError::PreconditionUnmet { reason }) && reason@
            == "Deno installed outside of .deno directory"@),
        deno is Some && canonical is Some && is_under(canonical->0@, deno_dir(ctx.home_dir@))
            ==> (r matches Ok(c) && c@ == call(deno->0@, seq!["upgrade"@])),
{
    let d = match deno {
        Some(d) => d,
        None => {
            return Err(StepError::BinaryNotFound { name: String::from_str("deno") });
        },
    };
    let resolved = match canonical {
        Some(c) => c,
        None => {
            return Err(
                StepError::Failed { reason: String::from_str("Cannot resolve the path of deno") },
            );
        },
    };
    let mut dir = ctx.home_dir.clone();
    dir.append("/.deno");
    if !path_is_under(resolved.as_str(), dir.as_str()) {
        return Err(
            StepError::PreconditionUnmet {
                reason: String::from_str("Deno installed outside of .deno directory"),
            },
        );
    }
    let c = Command::new(d.as_str()).arg("upgrade");
    assert(c@.args =~= seq!["upgrade"@]);
    Ok(c)
}

} // verus!
