//! Driving PowerShell: scripts built from templates, the session's cached
//! capability probe, and the commands that run the scripts.
use vstd::prelude::*;

use crate::command::{opt_view, Command, CommandView};
use crate::context::{confirmed, ExecutionContext, Step};
use crate::elevation::{after_wrap, will_advise, wrapped, Wrapped};
use crate::outcome::StepError;
use crate::shell::views;
use crate::text::{chars_of, replace_chars, replaced, slice_chars, string_of, trim, trimmed};
use crate::windows::{lower_chars, lowered, same_chars};

verus! {

/// A letter or hyphen, as in a locale prefix such as `en-GB`.
pub open spec fn locale_char(c: char) -> bool {
    ('a' <= c && c <= 'z') || ('A' <= c && c <= 'Z') || c == '-'
}

/// Whether `t` starts with a locale prefix that ends at the dot at `i`.
pub open spec fn prefix_dot(t: Seq<char>, i: int) -> bool {
    0 <= i < t.len() && t[i] == '.' && forall|j: int| 0 <= j < i ==> locale_char(#[trigger] t[j])
}

/// `t` without a leading locale prefix such as `en-GB.`: when the first dot
/// is preceded by letters and hyphens only, everything up to it goes.
pub open spec fn cleaned(t: Seq<char>) -> Seq<char> {
    if exists|i: int| prefix_dot(t, i) {
        t.skip((choose|i: int| prefix_dot(t, i)) + 1)
    } else {
        t
    }
}

proof fn lemma_prefix_dot_unique(t: Seq<char>, i: int, k: int)
    requires
        prefix_dot(t, i),
        prefix_dot(t, k),
    ensures
        i == k,
{
    if i < k {
        assert(locale_char(t[i]));
    } else if k < i {
        assert(locale_char(t[k]));
    }
}

fn is_locale_char(c: char) -> (r: bool)
    ensures
        r == locale_char(c),
{
    ('a' <= c && c <= 'z') || ('A' <= c && c <= 'Z') || c == '-'
}

/// `v` without a leading locale prefix.
pub fn clean_chars(v: &Vec<char>) -> (r: Vec<char>)
    ensures
        r@ == cleaned(v@),
{
    let mut i: usize = 0;
    while i < v.len()
        invariant
            i <= v.len(),
            forall|j: int| 0 <= j < i ==> locale_char(#[trigger] v@[j]),
        decreases v.len() - i,
    {
        if v[i] == '.' {
            assert(prefix_dot(v@, i as int));
            proof {
                let k = choose|k: int| prefix_dot(v@, k);
                lemma_prefix_dot_unique(v@, i as int, k);
            }
            return slice_chars(v, i + 1, v.len());
        }
        if !is_locale_char(v[i]) {
            assert forall|k: int| !prefix_dot(v@, k) by {
                if prefix_dot(v@, k) {
                    if k > i {
                        assert(locale_char(v@[i as int]));
                    } else if k == i {
                        assert(v@[k] == '.');
                    } else {
                        assert(locale_char(v@[k]));
                    }
                }
            }
            return slice_chars(v, 0, v.len());
        }
        i = i + 1;
    }
    assert forall|k: int| !prefix_dot(v@, k) by {}
    slice_chars(v, 0, v.len())
}

/// The placeholder `{name}` of a template.
pub open spec fn placeholder(name: Seq<char>) -> Seq<char> {
    seq!['{'] + name + seq!['}']
}

/// `template` with each `{name}` of `pairs`, in order, replaced by its text
/// without a locale prefix.
pub open spec fn render_script(template: Seq<char>, pairs: Seq<(Seq<char>, Seq<char>)>) -> Seq<
    char,
>
    decreases pairs.len(),
{
    if pairs.len() == 0 {
        template
    } else {
        render_script(
            replaced(template, placeholder(pairs[0].0), cleaned(pairs[0].1)),
            pairs.drop_first(),
        )
    }
}

/// A script template and the texts that fill its placeholders.
#[derive(Clone, Debug)]
pub struct ScriptBuilder {
    translations: Vec<(String, String)>,
    template: String,
}

/// What a `ScriptBuilder` holds.
pub struct ScriptBuilderView {
    pub template: Seq<char>,
    pub pairs: Seq<(Seq<char>, Seq<char>)>,
}

impl View for ScriptBuilder {
    type V = ScriptBuilderView;

    closed spec fn view(&self) -> ScriptBuilderView {
        ScriptBuilderView {
            template: self.template@,
            pairs: self.translations@.map_values(|p: (String, String)| (p.0@, p.1@)),
        }
    }
}

impl ScriptBuilder {
    /// A builder for `template` with nothing to fill in yet.
    pub fn new(template: &str) -> (r: ScriptBuilder)
        ensures
            r@.template == template@,
            r@.pairs == Seq::<(Seq<char>, Seq<char>)>::empty(),
    {
        let r = ScriptBuilder { translations: Vec::new(), template: template.to_owned() };
        assert(r@.pairs =~= Seq::<(Seq<char>, Seq<char>)>::empty());
        r
    }

    /// Fills the placeholder `{placeholder}` with the message `translation`.
    pub fn add_translation(self, placeholder: &str, translation: &str) -> (r: ScriptBuilder)
        ensures
            r@.template == self@.template,
            r@.pairs == self@.pairs.push((placeholder@, translation@)),
    {
        let mut b = self;
        b.translations.push((placeholder.to_owned(), translation.to_owned()));
        assert(b@.pairs =~= self@.pairs.push((placeholder@, translation@)));
        b
    }

    /// Fills the placeholder `{placeholder}` with the value `value`.
    pub fn with_param(self, placeholder: &str, value: &str) -> (r: ScriptBuilder)
        ensures
            r@.template == self@.template,
            r@.pairs == self@.pairs.push((placeholder@, value@)),
    {
        self.add_translation(placeholder, value)
    }

    /// The script: the template with every placeholder filled, in the order
    /// in which they were added, each text without a locale prefix.
    pub fn build(&self) -> (r: String)
        ensures
            r@ == render_script(self@.template, self@.pairs),
    {
        let mut acc = chars_of(self.template.as_str());
        let mut i: usize = 0;
        assert(self@.pairs.skip(0) =~= self@.pairs);
        while i < self.translations.len()
            invariant
                i <= self.translations.len(),
                render_script(acc@, self@.pairs.skip(i as int)) == render_script(
                    self@.template,
                    self@.pairs,
                ),
            decreases self.translations.len() - i,
        {
            let name = chars_of(self.translations[i].0.as_str());
            let mut ph: Vec<char> = Vec::new();
            ph.push('{');
            let mut k: usize = 0;
            while k < name.len()
                invariant
                    k <= name.len(),
                    ph@ == seq!['{'] + name@.take(k as int),
                decreases name.len() - k,
            {
                ph.push(name[k]);
                assert(name@.take(k + 1) =~= name@.take(k as int).push(name@[k as int]));
                k = k + 1;
            }
            ph.push('}');
            assert(name@.take(name.len() as int) =~= name@);
            assert(ph@ =~= placeholder(name@));
            let text = chars_of(self.translations[i].1.as_str());
            let clean = clean_chars(&text);
            let next = replace_chars(&acc, &ph, &clean);
            proof {
                let ps = self@.pairs.skip(i as int);
                assert(ps[0] == (name@, text@));
                assert(ps.drop_first() =~= self@.pairs.skip(i + 1));
            }
            acc = next;
            i = i + 1;
        }
        proof {
            assert(self@.pairs.skip(i as int) =~= Seq::<(Seq<char>, Seq<char>)>::empty());
        }
        string_of(&acc)
    }
}

} // verus!

verus! {

/// The arguments that every PowerShell call starts with.
pub open spec fn default_args() -> Seq<Seq<char>> {
    seq!["-NoProfile"@, "-NoLogo"@, "-NonInteractive"@]
}

/// PowerShell at `path` running `script`.
pub open spec fn script_call(path: Seq<char>, script: Seq<char>) -> CommandView {
    CommandView { program: path, args: default_args() + seq!["-Command"@, script], cwd: None }
}

/// Whether `b` is a `b` of `f()`: the probe ran and gave `b`.
pub open spec fn probe_gave<F: Fn() -> bool>(f: F, b: bool) -> bool {
    f.ensures((), b)
}

/// A PowerShell installation, its profile directory, and whether it offers
/// the Windows Update module (once that was probed).
#[derive(Clone, Debug)]
pub struct Powershell {
    path: Option<String>,
    profile: Option<String>,
    windows_update_support: Option<bool>,
}

/// What a `Powershell` holds.
pub struct PowershellView {
    pub path: Option<Seq<char>>,
    pub profile: Option<Seq<char>>,
    pub windows_update_support: Option<bool>,
}

impl View for Powershell {
    type V = PowershellView;

    closed spec fn view(&self) -> PowershellView {
        PowershellView {
            path: opt_view(self.path),
            profile: opt_view(self.profile),
            windows_update_support: self.windows_update_support,
        }
    }
}

/// The installation to use: `pwsh` if found, else Windows PowerShell; none
/// on a terminal that cannot show its output.
pub open spec fn chosen_path(pwsh: Option<String>, powershell: Option<String>, dumb_terminal: bool) -> Option<Seq<char>> {
    if dumb_terminal {
        None
    } else if pwsh is Some {
        opt_view(pwsh)
    } else {
        opt_view(powershell)
    }
}

/// Whether a command for the step will ask for elevation and show the
/// notice of the prompt.
pub open spec fn will_elevate(ctx: ExecutionContext, already_elevated: bool) -> bool {
    ctx.elevation matches Some(e) && will_advise(e@, already_elevated)
}

/// How running `script` through a session with view `ps` comes out, from
/// context `before` to context `after`: without PowerShell the step is
/// skipped; without an elevation provider the script runs as it is;
/// otherwise it is elevated as `wrap` says.
pub open spec fn script_outcome(
    ps: PowershellView,
    before: ExecutionContext,
    after: ExecutionContext,
    script: Seq<char>,
    already_elevated: bool,
    r: Result<Wrapped, StepError>,
) -> bool {
    &&& after.run_mode == before.run_mode
    &&& after.config == before.config
    &&& after.home_dir == before.home_dir
    &&& match ps.path {
        None => r matches Err(StepError::BinaryNotFound { name }) && name@ == "Powershell"@
            && after.elevation == before.elevation,
        Some(p) => match before.elevation {
            None => r matches Ok(w) && w.command@ == script_call(p, script) && !w.advisory
                && after.elevation is None,
            Some(e) => if e@.program is None {
                r matches Ok(w) && w.command@ == script_call(p, script) && !w.advisory
                    && after.elevation == before.elevation
            } else {
                (after.elevation matches Some(f) && f@ == after_wrap(e@, already_elevated)) && (
                r matches Ok(w) && w.command@ == wrapped(e@, script_call(p, script), already_elevated)
                    && w.advisory == will_advise(e@, already_elevated))
            },
        },
    }
}

/// Running scripts one after another shows the notice of an elevation
/// prompt at most once: after a call that showed it, the next call does
/// not, and the flag that records it never goes back to unset.
pub proof fn lemma_script_notice_once(
    ps: PowershellView,
    c0: ExecutionContext,
    c1: ExecutionContext,
    c2: ExecutionContext,
    s1: Seq<char>,
    s2: Seq<char>,
    a1: bool,
    a2: bool,
    r1: Result<Wrapped, StepError>,
    r2: Result<Wrapped, StepError>,
)
    requires
        script_outcome(ps, c0, c1, s1, a1, r1),
        script_outcome(ps, c1, c2, s2, a2, r2),
    ensures
        (r1 matches Ok(w1) && w1.advisory) ==> !(r2 matches Ok(w2) && w2.advisory),
        (c0.elevation matches Some(e) && e@.prompt_shown) ==> (c1.elevation matches Some(f)
            && f@.prompt_shown),
        c0.elevation is Some <==> c1.elevation is Some,
{
}

impl Powershell {
    /// The arguments that every PowerShell call starts with.
    pub fn default_args() -> (r: Vec<String>)
        ensures
            views(r@) == default_args(),
    {
        let mut r: Vec<String> = Vec::new();
        r.push(String::from_str("-NoProfile"));
        r.push(String::from_str("-NoLogo"));
        r.push(String::from_str("-NonInteractive"));
        assert(views(r@) =~= default_args());
        r
    }

    /// Whether the elevation probe (`None`: it failed) answered `true`, in
    /// any ASCII case and with white space around it.
    pub fn is_process_elevated(probe: Option<String>) -> (r: bool)
        ensures
            r == (probe is Some && lowered(trimmed(probe->0@)) == "true"@),
    {
        match probe {
            Some(out) => {
                let t = trim(out.as_str());
                let l = lower_chars(&chars_of(t.as_str()));
                let want = chars_of("true");
                same_chars(&l, &want)
            },
            None => false,
        }
    }

    /// A session for `pwsh` if it was found, else for Windows PowerShell,
    /// and for neither on a terminal that cannot show their output. Its
    /// profile is not known yet.
    pub fn new(pwsh: Option<String>, powershell: Option<String>, dumb_terminal: bool) -> (r:
        Powershell)
        ensures
            r@.path == chosen_path(pwsh, powershell, dumb_terminal),
            r@.profile is None,
            r@.windows_update_support is None,
    {
        let path = if dumb_terminal {
            None
        } else {
            match pwsh {
                Some(p) => Some(p),
                None => powershell,
            }
        };
        Powershell { path, profile: None, windows_update_support: None }
    }

    /// A session for Windows PowerShell only.
    pub fn windows_powershell(powershell: Option<String>, dumb_terminal: bool) -> (r: Powershell)
        ensures
            r@.path == (if dumb_terminal {
                None
            } else {
                opt_view(powershell)
            }),
            r@.profile is None,
            r@.windows_update_support is None,
    {
        let path = if dumb_terminal {
            None
        } else {
            powershell
        };
        Powershell { path, profile: None, windows_update_support: None }
    }

    /// The command that prints the profile directory, if there is a
    /// PowerShell to ask.
    pub fn profile_command(&self) -> (r: Option<Command>)
        ensures
            match self@.path {
                Some(p) => r matches Some(c) && c@ == script_call(p, "Split-Path $profile"@),
                None => r is None,
            },
    {
        match &self.path {
            Some(p) => Some(script_command_for(p.as_str(), "Split-Path $profile")),
            None => None,
        }
    }

    /// This session with the profile directory that the profile command
    /// printed, trimmed (`None`: it failed, printed nothing, or the
    /// directory does not exist).
    pub fn with_profile(self, found: Option<String>) -> (r: Powershell)
        ensures
            r@.path == self@.path,
            r@.windows_update_support == self@.windows_update_support,
            r@.profile == match found {
                Some(s) => if trimmed(s@).len() > 0 {
                    Some(trimmed(s@))
                } else {
                    None
                },
                None => None,
            },
    {
        let mut ps = self;
        ps.profile = match found {
            Some(s) => {
                let t = trim(s.as_str());
                if t.as_str().is_empty() {
                    None
                } else {
                    Some(t)
                }
            },
            None => None,
        };
        ps
    }

    /// The profile directory.
    pub fn profile(&self) -> (r: Option<&String>)
        ensures
            match r {
                Some(p) => self@.profile == Some(p@),
                None => self@.profile is None,
            },
    {
        self.profile.as_ref()
    }

    /// The PowerShell program.
    pub fn path(&self) -> (r: Option<&String>)
        ensures
            match r {
                Some(p) => self@.path == Some(p@),
                None => self@.path is None,
            },
    {
        self.path.as_ref()
    }

    /// Whether the Windows Update module is available. The probe
    /// `has_module` runs at most once per session: its answer is kept and
    /// given back from then on. Without PowerShell the answer is `false`.
    pub fn supports_windows_update<F>(&mut self, has_module: F) -> (r: bool)
        where
            F: Fn() -> bool,
        requires
            has_module.requires(()),
        ensures
            final(self)@.path == old(self)@.path,
            final(self)@.profile == old(self)@.profile,
            final(self)@.windows_update_support == Some(r),
            match old(self)@.windows_update_support {
                Some(b) => r == b,
                None => if old(self)@.path is Some {
                    probe_gave(has_module, r)
                } else {
                    !r
                },
            },
    {
        match self.windows_update_support {
            Some(b) => b,
            None => {
                let r = match &self.path {
                    Some(_) => has_module(),
                    None => false,
                };
                self.windows_update_support = Some(r);
                r
            },
        }
    }

    /// The command that runs `script`, elevated when the context has an
    /// elevation program: the first elevation of the run asks for the
    /// notice, and the context's elevation state moves on as `wrap` says.
    /// Without an elevation program the script runs as it is. Without
    /// PowerShell the step is skipped.
    pub fn script_command(&self, ctx: &mut ExecutionContext, script: &str, already_elevated: bool) -> (r:
        Result<Wrapped, StepError>)
        ensures
            script_outcome(self@, *old(ctx), *final(ctx), script@, already_elevated, r),
    {
        let p = match &self.path {
            Some(p) => p,
            None => {
                return Err(StepError::BinaryNotFound { name: String::from_str("Powershell") });
            },
        };
        let cmd = script_command_for(p.as_str(), script);
        match &mut ctx.elevation {
            Some(e) => if e.program().is_some() {
                e.wrap(cmd, already_elevated)
            } else {
                Ok(Wrapped { command: cmd, advisory: false })
            },
            None => Ok(Wrapped { command: cmd, advisory: false }),
        }
    }
}

/// PowerShell at `path` running `script`.
pub fn script_command_for(path: &str, script: &str) -> (r: Command)
    ensures
        r@ == script_call(path@, script@),
{
    let c = Command::new(path).args(&Powershell::default_args()).arg("-Command").arg(script);
    assert(c@.args =~= default_args() + seq!["-Command"@, script@]);
    c
}

/// The command that asks whether this process belongs to the
/// administrators group.
pub fn elevation_probe_command() -> (r: Command)
    ensures
        r@.program == "powershell"@,
        r@.args == seq![
            "-NoProfile"@,
            "-Command"@,
            "[bool](([System.Security.Principal.WindowsIdentity]::GetCurrent()).groups -match 'S-1-5-32-544')"@,
        ],
{
    let c = Command::new("powershell").arg("-NoProfile").arg("-Command").arg(
        "[bool](([System.Security.Principal.WindowsIdentity]::GetCurrent()).groups -match 'S-1-5-32-544')",
    );
    assert(c@.args =~= seq![
        "-NoProfile"@,
        "-Command"@,
        "[bool](([System.Security.Principal.WindowsIdentity]::GetCurrent()).groups -match 'S-1-5-32-544')"@,
    ]);
    c
}

} // verus!

verus! {

/// Checks that the PowerShell Gallery answers before modules are updated.
pub const GALLERY_CHECK_TEMPLATE: &'static str = r#"$galleryAvailable = $false
Write-Host "{checking_connectivity}" -ForegroundColor Cyan
try {
  $probe = [System.Net.WebRequest]::Create("https://www.powershellgallery.com/api/v2")
  $probe.Method = "HEAD"
  $probe.Timeout = 10000
  $answer = $probe.GetResponse()
  $answer.Close()
  $galleryAvailable = $true
  Write-Host "{gallery_accessible}" -ForegroundColor Green
} catch {
  Write-Host "{gallery_not_accessible}" -ForegroundColor Red
  Write-Host "  $($_.Exception.Message)" -ForegroundColor Red
}"#;

/// Unloads, updates (with one retry) and reloads each module that was
/// installed from the gallery.
pub const MODULES_UPDATE_TEMPLATE: &'static str = r#"Get-Module -ListAvailable | Select-Object -Property Name -Unique | ForEach-Object {
  $moduleName = $_.Name
  try {
    if (Get-InstalledModule -Name $moduleName -ErrorAction SilentlyContinue) {
      Write-Host "{processing_module}" -ForegroundColor Cyan
      Write-Host "  {unloading_module}" -ForegroundColor Yellow
      Remove-Module -Name $moduleName -Force -ErrorAction SilentlyContinue
      Write-Host "  {updating_module}" -ForegroundColor Cyan
      $updateAttempts = 0
      $maxAttempts = 2
      $updated = $false
      while (-not $updated -and $updateAttempts -lt $maxAttempts) {
        $updateAttempts++
        try {
          {update_command}
          $updated = $true
        } catch {
          if ($updateAttempts -lt $maxAttempts) {
            Write-Host "    {retry_attempt}" -ForegroundColor Yellow
            Start-Sleep -Seconds 2
          } else {
            Write-Host "    {update_failed}" -ForegroundColor Red
          }
        }
      }
      try {
        Write-Host "  {reloading_module}" -ForegroundColor Green
        Import-Module $moduleName -ErrorAction Stop
        Write-Host "  {import_success}" -ForegroundColor Green
      } catch {
        Write-Host "  {import_failed}" -ForegroundColor Yellow
      }
    }
  } catch {
    Write-Host "{process_failed}" -ForegroundColor Red
  }
}"#;

/// The whole module update: the gallery check, then the updates if the
/// gallery answered.
pub const UPDATE_SCRIPT_TEMPLATE: &'static str = r#"Write-Host "{processing_modules}" -ForegroundColor Cyan
{gallery_check}
if ($galleryAvailable) {
{modules_update}
} else {
  Write-Host "{gallery_unreachable}" -ForegroundColor Red
  Write-Host "{still_loading}" -ForegroundColor Yellow
}
Write-Host "{processing_complete}" -ForegroundColor Green
Write-Host "{check_completed}" -ForegroundColor Green"#;

/// Asks the device management bridge to scan for Microsoft Store updates.
pub const MS_STORE_UPDATE_TEMPLATE: &'static str = r#"try {
  Write-Output "{attempting_store_update}"
  $result = (Get-CimInstance{verbose_flag} -Namespace "Root\cimv2\mdm\dmmap" -ClassName "MDM_EnterpriseModernAppManagement_AppManagement01" -ErrorAction Stop |
    Invoke-CimMethod{verbose_flag} -MethodName UpdateScanMethod -ErrorAction Stop).ReturnValue
  if ($result -eq 0) {
    Write-Output "{update_completed}"
  } else {
    Write-Output "FAIL_PRIMARY_NONZERO:$result"
  }
} catch {
  Write-Output "FAIL_PRIMARY_EXCEPTION:$($_.Exception.Message)"
}"#;

/// Opens the Microsoft Store's updates page.
pub const STORE_PAGE_SCRIPT: &'static str = r#"$Launcher = [Windows.System.Launcher,Windows.System,ContentType=WindowsRuntime]; $Launcher::LaunchUriAsync([uri]'ms-windows-store://downloadsandupdates').GetAwaiter().GetResult()"#;

/// The flag that forces module updates, when they are forced.
pub open spec fn force_flag(ctx: ExecutionContext) -> Seq<char> {
    if confirmed(ctx.config, Step::Powershell) || ctx.config.powershell_force_modules_update {
        " -Force"@
    } else {
        ""@
    }
}

/// The flag that makes PowerShell commands verbose, when the run is.
pub open spec fn verbose_flag(ctx: ExecutionContext) -> Seq<char> {
    if ctx.config.verbose {
        " -Verbose"@
    } else {
        ""@
    }
}

/// The command that updates one module.
pub open spec fn update_command(force: Seq<char>, verbose: Seq<char>) -> Seq<char> {
    "Update-Module -Name $moduleName"@ + verbose + force
}

/// The gallery check with its messages.
pub open spec fn gallery_script() -> Seq<char> {
    render_script(
        GALLERY_CHECK_TEMPLATE@,
        seq![
            ("checking_connectivity"@, "Checking connectivity to PowerShell Gallery..."@),
            ("gallery_accessible"@, "PowerShell Gallery is accessible"@),
            (
                "gallery_not_accessible"@,
                "PowerShell Gallery is not accessible. Module updates will be skipped."@,
            ),
        ],
    )
}

/// The module loop with its messages and the command `cmd` that updates one
/// module.
pub open spec fn modules_script(cmd: Seq<char>) -> Seq<char> {
    render_script(
        MODULES_UPDATE_TEMPLATE@,
        seq![
            ("processing_module"@, "Processing module: $moduleName"@),
            ("unloading_module"@, "Unloading module: $moduleName"@),
            ("updating_module"@, "Updating module: $moduleName"@),
            ("update_command"@, cmd),
            ("retry_attempt"@, "Retry attempt $updateAttempts of $maxAttempts..."@),
            ("update_failed"@, "Failed to update module after multiple attempts"@),
            ("reloading_module"@, "Reloading module: $moduleName"@),
            ("import_success"@, "Successfully imported module: $moduleName"@),
            (
                "import_failed"@,
                "Could not reload module: $moduleName - $($_.Exception.Message)"@,
            ),
            (
                "process_failed"@,
                "Failed to process module: $moduleName - $($_.Exception.Message)"@,
            ),
        ],
    )
}

/// The module update script for the given flags.
pub open spec fn update_script(force: Seq<char>, verbose: Seq<char>) -> Seq<char> {
    render_script(
        UPDATE_SCRIPT_TEMPLATE@,
        seq![
            ("processing_modules"@, "Processing PowerShell modules..."@),
            ("gallery_check"@, gallery_script()),
            ("modules_update"@, modules_script(update_command(force, verbose))),
            (
                "gallery_unreachable"@,
                "Unable to connect to PowerShell Gallery. Module updates skipped."@,
            ),
            ("still_loading"@, "Will still attempt to load existing modules"@),
            ("processing_complete"@, "PowerShell module processing complete."@),
            ("check_completed"@, "PowerShell Modules update check completed"@),
        ],
    )
}

impl Powershell {
    /// `text` without a leading locale prefix such as `en-GB.`.
    pub fn clean_translation(&self, text: &str) -> (r: String)
        ensures
            r@ == cleaned(text@),
    {
        let v = chars_of(text);
        let c = clean_chars(&v);
        string_of(&c)
    }

    /// The force and verbose flags of a module update: force when the step
    /// was confirmed or forcing is configured, verbose when the run is.
    pub fn get_update_flags(&self, ctx: &ExecutionContext) -> (r: (String, String))
        ensures
            r.0@ == force_flag(*ctx),
            r.1@ == verbose_flag(*ctx),
    {
        let force = if ctx.config.yes(Step::Powershell) || ctx.config.powershell_force_modules_update {
            String::from_str(" -Force")
        } else {
            String::from_str("")
        };
        let verbose = if ctx.config.verbose {
            String::from_str(" -Verbose")
        } else {
            String::from_str("")
        };
        (force, verbose)
    }

    /// The script that checks the gallery and updates every module
    /// installed from it.
    pub fn create_update_script(&self, ctx: &ExecutionContext) -> (r: String)
        ensures
            r@ == update_script(force_flag(*ctx), verbose_flag(*ctx)),
    {
        let (force, verbose) = self.get_update_flags(ctx);
        let mut cmd = String::from_str("Update-Module -Name $moduleName");
        cmd.append(verbose.as_str());
        cmd.append(force.as_str());
        let gallery = ScriptBuilder::new(GALLERY_CHECK_TEMPLATE).add_translation(
            "checking_connectivity",
            "Checking connectivity to PowerShell Gallery...",
        ).add_translation("gallery_accessible", "PowerShell Gallery is accessible").add_translation(
            "gallery_not_accessible",
            "PowerShell Gallery is not accessible. Module updates will be skipped.",
        );
        let gallery_text = gallery.build();
        let modules = ScriptBuilder::new(MODULES_UPDATE_TEMPLATE).add_translation(
            "processing_module",
            "Processing module: $moduleName",
        ).add_translation("unloading_module", "Unloading module: $moduleName").add_translation(
            "updating_module",
            "Updating module: $moduleName",
        ).with_param("update_command", cmd.as_str()).add_translation(
            "retry_attempt",
            "Retry attempt $updateAttempts of $maxAttempts...",
        ).add_translation(
            "update_failed",
            "Failed to update module after multiple attempts",
        ).add_translation("reloading_module", "Reloading module: $moduleName").add_translation(
            "import_success",
            "Successfully imported module: $moduleName",
        ).add_translation(
            "import_failed",
            "Could not reload module: $moduleName - $($_.Exception.Message)",
        ).add_translation(
            "process_failed",
            "Failed to process module: $moduleName - $($_.Exception.Message)",
        );
        let modules_text = modules.build();
        let whole = ScriptBuilder::new(UPDATE_SCRIPT_TEMPLATE).add_translation(
            "processing_modules",
            "Processing PowerShell modules...",
        ).with_param("gallery_check", gallery_text.as_str()).with_param(
            "modules_update",
            modules_text.as_str(),
        ).add_translation(
            "gallery_unreachable",
            "Unable to connect to PowerShell Gallery. Module updates skipped.",
        ).add_translation("still_loading", "Will still attempt to load existing modules").add_translation(
            "processing_complete",
            "PowerShell module processing complete.",
        ).add_translation("check_completed", "PowerShell Modules update check completed");
        proof {
            assert(gallery@.pairs =~= seq![
                ("checking_connectivity"@, "Checking connectivity to PowerShell Gallery..."@),
                ("gallery_accessible"@, "PowerShell Gallery is accessible"@),
                (
                    "gallery_not_accessible"@,
                    "PowerShell Gallery is not accessible. Module updates will be skipped."@,
                ),
            ]);
            assert(modules@.pairs =~= seq![
                ("processing_module"@, "Processing module: $moduleName"@),
                ("unloading_module"@, "Unloading module: $moduleName"@),
                ("updating_module"@, "Updating module: $moduleName"@),
                ("update_command"@, cmd@),
                ("retry_attempt"@, "Retry attempt $updateAttempts of $maxAttempts..."@),
                ("update_failed"@, "Failed to update module after multiple attempts"@),
                ("reloading_module"@, "Reloading module: $moduleName"@),
                ("import_success"@, "Successfully imported module: $moduleName"@),
                (
                    "import_failed"@,
                    "Could not reload module: $moduleName - $($_.Exception.Message)"@,
                ),
                (
                    "process_failed"@,
                    "Failed to process module: $moduleName - $($_.Exception.Message)"@,
                ),
            ]);
            assert(whole@.pairs =~= seq![
                ("processing_modules"@, "Processing PowerShell modules..."@),
                ("gallery_check"@, gallery_script()),
                ("modules_update"@, modules_script(update_command(force@, verbose@))),
                (
                    "gallery_unreachable"@,
                    "Unable to connect to PowerShell Gallery. Module updates skipped."@,
                ),
                ("still_loading"@, "Will still attempt to load existing modules"@),
                ("processing_complete"@, "PowerShell module processing complete."@),
                ("check_completed"@, "PowerShell Modules update check completed"@),
            ]);
        }
        whole.build()
    }

    /// The module update: the update script, run as `script_command` runs
    /// scripts.
    pub fn update_modules(&self, ctx: &mut ExecutionContext, already_elevated: bool) -> (r: Result<
        Wrapped,
        StepError,
    >)
        ensures
            script_outcome(
                self@,
                *old(ctx),
                *final(ctx),
                update_script(force_flag(*old(ctx)), verbose_flag(*old(ctx))),
                already_elevated,
                r,
            ),
    {
        let script = self.create_update_script(ctx);
        self.script_command(ctx, script.as_str(), already_elevated)
    }
}

} // verus!

verus! {

/// The flag that accepts every Windows update, when that is configured.
pub open spec fn accept_flag(ctx: ExecutionContext) -> Seq<char> {
    if ctx.config.accept_all_windows_updates {
        " -AcceptAll"@
    } else {
        ""@
    }
}

/// The Windows Update script for the given flags.
pub open spec fn windows_update_script(verbose: Seq<char>, accept: Seq<char>) -> Seq<char> {
    "Write-Output '"@ + cleaned("Starting Windows Update..."@) + "'; Install-WindowsUpdate"@
        + verbose + accept + " -Confirm:$false; Write-Output '"@ + cleaned(
        "Windows Update check completed"@,
    ) + "'"@
}

/// The reason given when the Windows Update module is missing.
pub open spec fn module_missing_reason() -> Seq<char> {
    "The PSWindowsUpdate module is not available. Please install it using 'Install-Module PSWindowsUpdate'"@
}

/// The Microsoft Store script for the given verbose flag.
pub open spec fn store_script(verbose: Seq<char>) -> Seq<char> {
    render_script(
        MS_STORE_UPDATE_TEMPLATE@,
        seq![
            (
                "attempting_store_update"@,
                "Attempting to update Microsoft Store apps using MDM method..."@,
            ),
            ("verbose_flag"@, verbose),
            ("update_completed"@, "Microsoft Store update check completed"@),
        ],
    )
}

/// The rank of an execution policy, from most to least restrictive.
pub open spec fn policy_rank(p: Seq<char>) -> Option<int> {
    if p == "Restricted"@ {
        Some(0)
    } else if p == "AllSigned"@ {
        Some(1)
    } else if p == "RemoteSigned"@ {
        Some(2)
    } else if p == "Unrestricted"@ {
        Some(3)
    } else if p == "Bypass"@ {
        Some(4)
    } else {
        None
    }
}

/// Whether the policy that `Get-ExecutionPolicy` printed is at least as
/// permissive as `policy`; an unknown policy on either side is not.
pub open spec fn policy_allows(current: Seq<char>, policy: Seq<char>) -> bool {
    policy_rank(trimmed(current)) is Some && policy_rank(policy) is Some && policy_rank(
        trimmed(current),
    )->0 >= policy_rank(policy)->0
}

/// The reason given when the execution policy is too strict.
pub open spec fn policy_reason() -> Seq<char> {
    "PowerShell execution policy is too restrictive. Please run 'Set-ExecutionPolicy RemoteSigned -Scope CurrentUser' in PowerShell (or use Unrestricted/Bypass if you're sure about the security implications)"@
}

fn policy_rank_of(p: &String) -> (r: Option<u8>)
    ensures
        match policy_rank(p@) {
            Some(k) => r == Some(k as u8),
            None => r is None,
        },
{
    if *p == String::from_str("Restricted") {
        Some(0)
    } else if *p == String::from_str("AllSigned") {
        Some(1)
    } else if *p == String::from_str("RemoteSigned") {
        Some(2)
    } else if *p == String::from_str("Unrestricted") {
        Some(3)
    } else if *p == String::from_str("Bypass") {
        Some(4)
    } else {
        None
    }
}

/// Whether the output of the module probe shows the module: it printed
/// something.
pub fn has_module(output: Option<String>) -> (r: bool)
    ensures
        r == (output matches Some(s) && s@.len() > 0),
{
    match output {
        Some(s) => !s.as_str().is_empty(),
        None => false,
    }
}

/// The command that lists the module `module_name` if it is available.
pub fn has_module_command(powershell: &str, module_name: &str) -> (r: Command)
    ensures
        r@.program == powershell@,
        r@.args == seq![
            "-NoProfile"@,
            "-NoLogo"@,
            "-Command"@,
            "Get-Module -ListAvailable "@ + module_name@ + " -ErrorAction SilentlyContinue"@,
        ],
        r@.cwd is None,
{
    let mut query = String::from_str("Get-Module -ListAvailable ");
    query.append(module_name);
    query.append(" -ErrorAction SilentlyContinue");
    let c = Command::new(powershell).arg("-NoProfile").arg("-NoLogo").arg("-Command").arg(
        query.as_str(),
    );
    assert(c@.args =~= seq![
        "-NoProfile"@,
        "-NoLogo"@,
        "-Command"@,
        "Get-Module -ListAvailable "@ + module_name@ + " -ErrorAction SilentlyContinue"@,
    ]);
    c
}

/// The Microsoft Store step's result: a failed scan stays a failure even
/// when the fallbacks ran.
pub fn microsoft_store_result(primary: Result<(), StepError>) -> (r: Result<(), StepError>)
    ensures
        primary is Ok ==> r is Ok,
        primary is Err ==> (r matches Err(StepError::Failed { reason }) && reason@
            == "Microsoft Store update failed. Administrator privileges may be required."@),
{
    match primary {
        Ok(()) => Ok(()),
        Err(_) => Err(
            StepError::Failed {
                reason: String::from_str(
                    "Microsoft Store update failed. Administrator privileges may be required.",
                ),
            },
        ),
    }
}

/// The command that resets the Microsoft Store, the last fallback.
pub fn wsreset_command() -> (r: Command)
    ensures
        r@.program == "wsreset.exe"@,
        r@.args == seq!["-i"@],
        r@.cwd is None,
{
    let c = Command::new("wsreset.exe").arg("-i");
    assert(c@.args =~= seq!["-i"@]);
    c
}

/// Whether a command for the step will ask for elevation and show the
/// notice of the prompt.
pub fn will_elevate_now(ctx: &ExecutionContext, already_elevated: bool) -> (r: bool)
    ensures
        r == will_elevate(*ctx, already_elevated),
{
    match &ctx.elevation {
        Some(e) => !already_elevated && e.program().is_some() && !e.prompt_shown(),
        None => false,
    }
}

impl Powershell {
    /// The Windows Update script: install every update, verbose and
    /// accepting all of them as configured.
    pub fn windows_update_script(&self, ctx: &ExecutionContext) -> (r: String)
        ensures
            r@ == windows_update_script(verbose_flag(*ctx), accept_flag(*ctx)),
    {
        let mut s = String::from_str("Write-Output '");
        let start = self.clean_translation("Starting Windows Update...");
        s.append(start.as_str());
        s.append("'; Install-WindowsUpdate");
        if ctx.config.verbose {
            s.append(" -Verbose");
        } else {
            s.append("");
        }
        if ctx.config.accept_all_windows_updates {
            s.append(" -AcceptAll");
        } else {
            s.append("");
        }
        s.append(" -Confirm:$false; Write-Output '");
        let done = self.clean_translation("Windows Update check completed");
        s.append(done.as_str());
        s.append("'");
        s
    }

    /// Windows Update through the PowerShell module. The module probe runs
    /// at most once per session; without the module the step is skipped.
    pub fn windows_update<F>(
        &mut self,
        ctx: &mut ExecutionContext,
        has_module: F,
        already_elevated: bool,
    ) -> (r: Result<Wrapped, StepError>)
        where
            F: Fn() -> bool,
        requires
            has_module.requires(()),
        ensures
            final(self)@.path == old(self)@.path,
            final(self)@.profile == old(self)@.profile,
            final(self)@.windows_update_support is Some,
            old(self)@.windows_update_support is Some ==> final(self)@.windows_update_support
                == old(self)@.windows_update_support,
            old(self)@.windows_update_support is None && old(self)@.path is Some ==> probe_gave(
                has_module,
                final(self)@.windows_update_support->0,
            ),
            old(self)@.windows_update_support is None && old(self)@.path is None
                ==> final(self)@.windows_update_support == Some(false),
            final(ctx).config == old(ctx).config,
            !final(self)@.windows_update_support->0 ==> (r matches Err(
                StepError::PreconditionUnmet { reason },
            ) && reason@ == module_missing_reason() && final(ctx).elevation == old(
                ctx,
            ).elevation),
            final(self)@.windows_update_support->0 ==> script_outcome(
                old(self)@,
                *old(ctx),
                *final(ctx),
                windows_update_script(verbose_flag(*old(ctx)), accept_flag(*old(ctx))),
                already_elevated,
                r,
            ),
    {
        if !self.supports_windows_update(has_module) {
            return Err(
                StepError::PreconditionUnmet {
                    reason: String::from_str(
                        "The PSWindowsUpdate module is not available. Please install it using 'Install-Module PSWindowsUpdate'",
                    ),
                },
            );
        }
        let script = self.windows_update_script(ctx);
        self.script_command(ctx, script.as_str(), already_elevated)
    }

    /// The Microsoft Store scan script.
    pub fn microsoft_store_script(&self, ctx: &ExecutionContext) -> (r: String)
        ensures
            r@ == store_script(verbose_flag(*ctx)),
    {
        let verbose = if ctx.config.verbose {
            String::from_str(" -Verbose")
        } else {
            String::from_str("")
        };
        let b = ScriptBuilder::new(MS_STORE_UPDATE_TEMPLATE).add_translation(
            "attempting_store_update",
            "Attempting to update Microsoft Store apps using MDM method...",
        ).with_param("verbose_flag", verbose.as_str()).add_translation(
            "update_completed",
            "Microsoft Store update check completed",
        );
        assert(b@.pairs =~= seq![
            (
                "attempting_store_update"@,
                "Attempting to update Microsoft Store apps using MDM method..."@,
            ),
            ("verbose_flag"@, verbose@),
            ("update_completed"@, "Microsoft Store update check completed"@),
        ]);
        b.build()
    }

    /// The Microsoft Store scan, run as `script_command` runs scripts.
    pub fn microsoft_store(&self, ctx: &mut ExecutionContext, already_elevated: bool) -> (r: Result<
        Wrapped,
        StepError,
    >)
        ensures
            script_outcome(
                self@,
                *old(ctx),
                *final(ctx),
                store_script(verbose_flag(*old(ctx))),
                already_elevated,
                r,
            ),
    {
        let script = self.microsoft_store_script(ctx);
        self.script_command(ctx, script.as_str(), already_elevated)
    }

    /// The first fallback of the Microsoft Store step: open its updates
    /// page.
    pub fn store_page_command(&self, ctx: &mut ExecutionContext, already_elevated: bool) -> (r:
        Result<Wrapped, StepError>)
        ensures
            script_outcome(self@, *old(ctx), *final(ctx), STORE_PAGE_SCRIPT@, already_elevated, r),
    {
        self.script_command(ctx, STORE_PAGE_SCRIPT, already_elevated)
    }

    /// The command that prints the current execution policy.
    pub fn execution_policy_command(&self) -> (r: Option<Command>)
        ensures
            match self@.path {
                Some(p) => r matches Some(c) && c@ == CommandView {
                    program: p,
                    args: seq!["-NoProfile"@, "-Command"@, "Get-ExecutionPolicy"@],
                    cwd: None,
                },
                None => r is None,
            },
    {
        match &self.path {
            Some(p) => {
                let c = Command::new(p.as_str()).arg("-NoProfile").arg("-Command").arg(
                    "Get-ExecutionPolicy",
                );
                assert(c@.args =~= seq!["-NoProfile"@, "-Command"@, "Get-ExecutionPolicy"@]);
                Some(c)
            },
            None => None,
        }
    }

    /// Whether the execution policy that the policy command printed
    /// (`None`: it failed) is at least as permissive as `policy`.
    pub fn is_execution_policy_set(&self, current: Option<String>, policy: &str) -> (r: bool)
        ensures
            r == (self@.path is Some && current is Some && policy_allows(current->0@, policy@)),
    {
        if self.path.is_none() {
            return false;
        }
        match current {
            Some(c) => {
                let t = trim(c.as_str());
                let want = String::from_str(policy);
                match (policy_rank_of(&t), policy_rank_of(&want)) {
                    (Some(a), Some(b)) => a >= b,
                    _ => false,
                }
            },
            None => false,
        }
    }

    /// Scripts may run only under a policy at least as permissive as
    /// `RemoteSigned`; under a stricter one the step is skipped.
    pub fn execution_policy_args_if_needed(&self, current: Option<String>) -> (r: Result<
        (),
        StepError,
    >)
        ensures
            r is Ok <==> (self@.path is Some && current is Some && policy_allows(
                current->0@,
                "RemoteSigned"@,
            )),
            r matches Err(e) ==> (e matches StepError::PreconditionUnmet { reason } && reason@
                == policy_reason()),
    {
        if !self.is_execution_policy_set(current, "RemoteSigned") {
            Err(
                StepError::PreconditionUnmet {
                    reason: String::from_str(
                        "PowerShell execution policy is too restrictive. Please run 'Set-ExecutionPolicy RemoteSigned -Scope CurrentUser' in PowerShell (or use Unrestricted/Bypass if you're sure about the security implications)",
                    ),
                },
            )
        } else {
            Ok(())
        }
    }

    /// The notice printed before an operation, unless an elevation prompt
    /// will show instead.
    pub fn scanning_notice(&self, will_elevate: bool) -> (r: Option<String>)
        ensures
            will_elevate ==> r is None,
            !will_elevate ==> (r matches Some(s) && s@ == cleaned("Scanning for updates..."@)),
    {
        if will_elevate {
            None
        } else {
            Some(self.clean_translation("Scanning for updates..."))
        }
    }

    /// The notice printed after an operation named `operation_name`: only
    /// after a success, and unless an elevation prompt showed.
    pub fn completion_notice(&self, operation_name: &str, will_elevate: bool, succeeded: bool) -> (r:
        Option<String>)
        ensures
            (will_elevate || !succeeded) ==> r is None,
            (!will_elevate && succeeded) ==> (r matches Some(s) && s@ == cleaned(
                operation_name@ + " check completed"@,
            )),
    {
        if will_elevate || !succeeded {
            None
        } else {
            let mut m = String::from_str(operation_name);
            m.append(" check completed");
            Some(self.clean_translation(m.as_str()))
        }
    }
}

} // verus!
