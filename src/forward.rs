//! Running this same tool inside each nested environment of the host (the
//! distributions of the Windows Subsystem for Linux), with its flags kept
//! inside the one command line that the environment's shell runs.
use vstd::prelude::*;

use crate::command::{Command, CommandView};
use crate::context::{confirmed, ExecutionContext, Step};
use crate::outcome::{is_skip, skips, StepError};
use crate::shell::{
    is_plain, lemma_plain_word_scan, lemma_quoted_scan, lemma_rendered_scan, lemma_scan_step,
    push_quoted, push_rendered, quoted, rendered, views, words, ScanMode,
};
use crate::text::{append_chars, chars_of, string_of, trim_chars, trimmed};

verus! {

/// Adds the line `cur`, trimmed, to `out` unless nothing is left of it.
pub open spec fn add_line(out: Seq<Seq<char>>, cur: Seq<char>) -> Seq<Seq<char>> {
    if trimmed(cur).len() > 0 {
        out.push(trimmed(cur))
    } else {
        out
    }
}

/// After reading `s`: the finished names, and the line read so far with NUL
/// and carriage-return characters left out.
pub open spec fn listing_state(s: Seq<char>) -> (Seq<Seq<char>>, Seq<char>)
    decreases s.len(),
{
    if s.len() == 0 {
        (Seq::empty(), Seq::empty())
    } else {
        let prev = listing_state(s.drop_last());
        let c = s.last();
        if c == '\n' {
            (add_line(prev.0, prev.1), Seq::empty())
        } else if c == '\0' || c == '\r' {
            prev
        } else {
            (prev.0, prev.1.push(c))
        }
    }
}

/// The environment names in a listing: one per line, without NUL and
/// carriage-return characters (the listing may come as UTF-16), trimmed, and
/// without empty lines.
pub open spec fn listed_names(s: Seq<char>) -> Seq<Seq<char>> {
    add_line(listing_state(s).0, listing_state(s).1)
}

fn finish_line(out: &mut Vec<String>, cur: &Vec<char>)
    ensures
        views(final(out)@) == add_line(views(old(out)@), cur@),
{
    let t = trim_chars(cur);
    if t.len() > 0 {
        let ghost before = views(out@);
        out.push(string_of(&t));
        assert(views(out@) =~= before.push(trimmed(cur@)));
    }
}

/// The environment names that a listing such as `wsl --list -q` prints.
pub fn get_wsl_distributions(output: &str) -> (r: Vec<String>)
    ensures
        views(r@) == listed_names(output@),
{
    let v = chars_of(output);
    let mut out: Vec<String> = Vec::new();
    let mut cur: Vec<char> = Vec::new();
    let mut i: usize = 0;
    assert(v@.take(0) =~= Seq::<char>::empty());
    assert(views(out@) =~= Seq::<Seq<char>>::empty());
    while i < v.len()
        invariant
            i <= v.len(),
            v@ == output@,
            (views(out@), cur@) == listing_state(v@.take(i as int)),
        decreases v.len() - i,
    {
        let c = v[i];
        assert(v@.take(i + 1).drop_last() =~= v@.take(i as int));
        assert(v@.take(i + 1).last() == c);
        if c == '\n' {
            finish_line(&mut out, &cur);
            cur = Vec::new();
            assert(cur@ =~= Seq::<char>::empty());
        } else if c == '\0' || c == '\r' {
        } else {
            cur.push(c);
        }
        i = i + 1;
    }
    assert(v@.take(v.len() as int) =~= v@);
    finish_line(&mut out, &cur);
    out
}

/// The reason given when the tool is in none of the environments.
pub open spec fn none_ran_reason() -> Seq<char> {
    "Could not find Topgrade in any WSL distribution"@
}

/// Whether the result `r` is a failure rather than a skip.
pub open spec fn is_failure(r: Result<(), StepError>) -> bool {
    r matches Err(e) && !is_skip(e)
}

/// Whether `r` is the combined result of the environments' results `rs`: a
/// success as soon as one environment succeeded; otherwise the first
/// failure, if any; otherwise (every environment skipped, or there were
/// none) a skip.
pub open spec fn forward_matches(rs: Seq<Result<(), StepError>>, r: Result<(), StepError>) -> bool {
    if exists|i: int| 0 <= i < rs.len() && #[trigger] rs[i] is Ok {
        r is Ok
    } else if exists|i: int| 0 <= i < rs.len() && #[trigger] is_failure(rs[i]) {
        exists|j: int|
            0 <= j < rs.len() && #[trigger] is_failure(rs[j]) && r == rs[j] && forall|k: int|
                0 <= k < j ==> !is_failure(#[trigger] rs[k])
    } else {
        r matches Err(StepError::NotApplicable { reason }) && reason@ == none_ran_reason()
    }
}

/// Whether `rs` holds one result that `invoke_in(i)` may return for each
/// environment `i < n`.
pub open spec fn results_of<F: Fn(usize) -> Result<(), StepError>>(
    invoke_in: F,
    n: usize,
    rs: Seq<Result<(), StepError>>,
) -> bool {
    rs.len() == n && forall|i: int| 0 <= i < n ==> invoke_in.ensures((i as usize,), #[trigger] rs[i])
}

/// Combines the environments' results: a success as soon as one
/// environment succeeded; otherwise the first failure, if any; otherwise
/// (every environment skipped, or there were none) a skip.
pub fn combine(rs: Vec<Result<(), StepError>>) -> (r: Result<(), StepError>)
    ensures
        forward_matches(rs@, r),
{
    let ghost all = rs@;
    let mut ran = false;
    let mut first: Option<usize> = None;
    let mut i: usize = 0;
    while i < rs.len()
        invariant
            i <= rs.len(),
            all == rs@,
            ran == exists|k: int| 0 <= k < i && #[trigger] all[k] is Ok,
            first is None ==> forall|k: int| 0 <= k < i ==> !is_failure(#[trigger] all[k]),
            first matches Some(j) ==> j < i && is_failure(all[j as int]) && forall|k: int|
                0 <= k < j ==> !is_failure(#[trigger] all[k]),
        decreases rs.len() - i,
    {
        match &rs[i] {
            Ok(()) => {
                assert(all[i as int] is Ok);
                ran = true;
            },
            Err(e) => {
                if first.is_none() && !skips(e) {
                    assert(is_failure(all[i as int]));
                    first = Some(i);
                }
            },
        }
        proof {
            if first is None {
                assert forall|k: int| 0 <= k < i + 1 implies !is_failure(#[trigger] all[k]) by {}
            }
        }
        i = i + 1;
    }
    if ran {
        return Ok(());
    }
    match first {
        Some(j) => {
            let mut v = rs;
            let e = v.remove(j);
            assert(e == all[j as int]);
            e
        },
        None => Err(
            StepError::NotApplicable {
                reason: String::from_str("Could not find Topgrade in any WSL distribution"),
            },
        ),
    }
}

/// A fan-out over `n` environments in progress: environment `i` is handed
/// out only after environments `0 .. i` each recorded exactly one result.
pub struct Forwarding {
    count: usize,
    results: Vec<Result<(), StepError>>,
}

/// What a `Forwarding` holds: how many environments there are, and the
/// results recorded so far, in environment order.
pub struct ForwardingView {
    pub count: nat,
    pub results: Seq<Result<(), StepError>>,
}

impl View for Forwarding {
    type V = ForwardingView;

    closed spec fn view(&self) -> ForwardingView {
        ForwardingView { count: self.count as nat, results: self.results@ }
    }
}

impl Forwarding {
    /// A fan-out over `count` environments, none of them run yet.
    pub fn new(count: usize) -> (r: Forwarding)
        ensures
            r@.count == count,
            r@.results == Seq::<Result<(), StepError>>::empty(),
    {
        Forwarding { count, results: Vec::new() }
    }

    /// The environment to run next: the first one without a result, until
    /// every one has one.
    pub fn next(&self) -> (r: Option<usize>)
        ensures
            self@.results.len() < self@.count ==> r == Some(self@.results.len() as usize),
            self@.results.len() >= self@.count ==> r is None,
    {
        if self.results.len() < self.count {
            Some(self.results.len())
        } else {
            None
        }
    }

    /// Records the result of the environment that `next` handed out.
    pub fn record(&mut self, result: Result<(), StepError>)
        requires
            old(self)@.results.len() < old(self)@.count,
        ensures
            final(self)@.count == old(self)@.count,
            final(self)@.results == old(self)@.results.push(result),
    {
        self.results.push(result);
    }

    /// The combined result, once every environment recorded one.
    pub fn finish(self) -> (r: Result<(), StepError>)
        requires
            self@.results.len() == self@.count,
        ensures
            forward_matches(self@.results, r),
    {
        combine(self.results)
    }
}

/// Runs `invoke_in(i)` for each environment `i < n`, one after the other in
/// that order, each exactly once, and combines the results as `combine`
/// does: successful once one environment succeeded, skipped when every
/// environment skipped.
pub fn forward<F>(n: usize, invoke_in: F) -> (r: Result<(), StepError>)
    where
        F: Fn(usize) -> Result<(), StepError>,
    requires
        forall|i: usize| i < n ==> invoke_in.requires((i,)),
    ensures
        exists|rs: Seq<Result<(), StepError>>| results_of(invoke_in, n, rs) && forward_matches(rs, r),
{
    let mut run = Forwarding::new(n);
    let mut done: usize = 0;
    while done < n
        invariant
            done <= n,
            run@.count == n,
            run@.results.len() == done,
            forall|k: usize| k < n ==> invoke_in.requires((k,)),
            results_of(invoke_in, done, run@.results),
        decreases n - done,
    {
        let i = match run.next() {
            Some(k) => k,
            None => done,
        };
        assert(i == done);
        let r = invoke_in(i);
        let ghost before = run@.results;
        run.record(r);
        proof {
            assert forall|k: int| 0 <= k < before.len() + 1 implies invoke_in.ensures(
                (k as usize,),
                #[trigger] run@.results[k],
            ) by {
                if k < before.len() {
                    assert(run@.results[k] == before[k]);
                }
            }
        }
        done = done + 1;
    }
    let ghost rs = run@.results;
    let r = run.finish();
    assert(results_of(invoke_in, n, rs));
    r
}

/// The name of the variable that tells the inner run which environment it
/// serves, with its `=`.
pub open spec fn prefix_assignment() -> Seq<char> {
    "TOPGRADE_PREFIX="@
}

/// The one command line that the environment's shell runs: the environment
/// variable, then `exec` of the tool with its flags, every word quoted.
pub open spec fn inner_line(dist: Seq<char>, tool: Seq<char>, flags: Seq<Seq<char>>) -> Seq<char> {
    prefix_assignment() + quoted(dist) + " exec"@ + rendered(seq![tool] + flags)
}

/// The flags handed on to the inner run.
pub open spec fn forwarded_flags(verbose: bool, yes: bool) -> Seq<Seq<char>> {
    (if verbose {
        seq!["-v"@]
    } else {
        Seq::empty()
    }) + (if yes {
        seq!["-y"@]
    } else {
        Seq::empty()
    })
}

/// The inner command line for `tool` with `flags` in environment `dist`.
pub fn inner_command_line(dist: &str, tool: &str, flags: &Vec<String>) -> (r: String)
    ensures
        r@ == inner_line(dist@, tool@, views(flags@)),
{
    let mut out = chars_of("TOPGRADE_PREFIX=");
    let d = chars_of(dist);
    push_quoted(&mut out, &d);
    let e = chars_of(" exec");
    append_chars(&mut out, &e);
    let mut words: Vec<String> = Vec::new();
    words.push(tool.to_owned());
    let mut i: usize = 0;
    while i < flags.len()
        invariant
            i <= flags.len(),
            words.len() == i + 1,
            words@[0]@ == tool@,
            forall|k: int| 0 <= k < i ==> (#[trigger] words@[k + 1])@ == flags@[k]@,
        decreases flags.len() - i,
    {
        let f = flags[i].clone();
        words.push(f);
        i = i + 1;
    }
    proof {
        assert forall|k: int| 0 <= k < words.len() implies (#[trigger] views(words@)[k]) == (seq![tool@] + views(flags@))[k] by {
            if k > 0 {
                assert(words@[(k - 1) + 1]@ == flags@[k - 1]@);
            }
        }
        assert(views(words@) =~= seq![tool@] + views(flags@));
    }
    push_rendered(&mut out, &words);
    string_of(&out)
}

/// Splitting the inner command line gives the variable assignment, `exec`,
/// the tool and exactly the forwarded flags: no flag is left outside the
/// line, and quotes and spaces in the names survive.
pub proof fn lemma_inner_line_round_trip(dist: Seq<char>, tool: Seq<char>, flags: Seq<Seq<char>>)
    ensures
        words(inner_line(dist, tool, flags)) == Some(
            seq![prefix_assignment() + dist, "exec"@, tool] + flags,
        ),
{
    reveal_strlit("TOPGRADE_PREFIX=");
    reveal_strlit(" exec");
    reveal_strlit("exec");
    let p = prefix_assignment();
    let ex = "exec"@;
    let rest = rendered(seq![tool] + flags);
    assert forall|i: int| 0 <= i < p.len() implies is_plain(#[trigger] p[i]) by {}
    assert forall|i: int| 0 <= i < ex.len() implies is_plain(#[trigger] ex[i]) by {}
    let after = " exec"@ + rest;
    assert(inner_line(dist, tool, flags) =~= p + (quoted(dist) + after));
    lemma_plain_word_scan(p, quoted(dist) + after);
    lemma_quoted_scan(ScanMode::Bare, p, dist, after);
    assert(after =~= seq![' '] + (ex + rest));
    lemma_scan_step(' ', ex + rest);
    lemma_plain_word_scan(ex, rest);
    lemma_rendered_scan(ex, seq![tool] + flags);
    assert(seq![p + dist] + (seq![ex] + (seq![tool] + flags)) =~= seq![p + dist, ex, tool]
        + flags);
}

/// The command that asks environment `dist` where the tool is installed.
pub fn tool_lookup_command(wsl: &str, dist: &str) -> (r: Command)
    ensures
        r@.program == wsl@,
        r@.args == seq!["-d"@, dist@, "bash"@, "-lc"@, "which topgrade"@],
        r@.cwd is None,
{
    let c = Command::new(wsl).arg("-d").arg(dist).arg("bash").arg("-lc").arg("which topgrade");
    assert(c@.args =~= seq!["-d"@, dist@, "bash"@, "-lc"@, "which topgrade"@]);
    c
}

/// The reason given when the tool is not in one environment.
pub open spec fn not_in_environment_reason() -> Seq<char> {
    "Could not find Topgrade installed in WSL"@
}

/// The command that runs the tool inside environment `dist`, given what the
/// lookup printed (`None`: the lookup failed). Without a tool there, the
/// environment is skipped. Otherwise the environment's shell gets one
/// command line holding the tool's path and the forwarded flags; nothing
/// follows it on the outer command.
pub fn upgrade_wsl_distribution(
    ctx: &ExecutionContext,
    wsl: &str,
    dist: &str,
    lookup: Option<String>,
) -> (r: Result<Command, StepError>)
    ensures
        match lookup {
            Some(out) if trimmed(out@).len() > 0 => r matches Ok(c) && c@ == CommandView {
                program: wsl@,
                args: seq![
                    "-d"@,
                    dist@,
                    "bash"@,
                    "-lc"@,
                    inner_line(
                        dist@,
                        trimmed(out@),
                        forwarded_flags(ctx.config.verbose, confirmed(ctx.config, Step::Wsl)),
                    ),
                ],
                cwd: None,
            },
            _ => r matches Err(StepError::NotApplicable { reason }) && reason@
                == not_in_environment_reason(),
        },
{
    let tool = match lookup {
        Some(out) => {
            let v = chars_of(out.as_str());
            let t = trim_chars(&v);
            if t.len() == 0 {
                return Err(
                    StepError::NotApplicable {
                        reason: String::from_str("Could not find Topgrade installed in WSL"),
                    },
                );
            }
            string_of(&t)
        },
        None => {
            return Err(
                StepError::NotApplicable {
                    reason: String::from_str("Could not find Topgrade installed in WSL"),
                },
            );
        },
    };
    let mut flags: Vec<String> = Vec::new();
    if ctx.config.verbose {
        flags.push(String::from_str("-v"));
    }
    if ctx.config.yes(Step::Wsl) {
        flags.push(String::from_str("-y"));
    }
    assert(views(flags@) =~= forwarded_flags(ctx.config.verbose, confirmed(ctx.config, Step::Wsl)));
    let line = inner_command_line(dist, tool.as_str(), &flags);
    let c = Command::new(wsl).arg("-d").arg(dist).arg("bash").arg("-lc").arg(line.as_str());
    assert(c@.args =~= seq!["-d"@, dist@, "bash"@, "-lc"@, line@]);
    Ok(c)
}

/// Runs the tool in every environment, `upgrade(i)` running it in
/// `distributions[i]`. Without the subsystem the step does not apply;
/// without its program it is skipped; otherwise the environments' results
/// are combined as `forward` does.
pub fn run_wsl_topgrade<F>(
    wsl_installed: bool,
    wsl: Option<String>,
    distributions: &Vec<String>,
    upgrade: F,
) -> (r: Result<(), StepError>)
    where
        F: Fn(usize) -> Result<(), StepError>,
    requires
        forall|i: usize| i < distributions.len() ==> upgrade.requires((i,)),
    ensures
        !wsl_installed ==> (r matches Err(StepError::NotApplicable { reason }) && reason@
            == "WSL not installed"@),
        wsl_installed && wsl is None ==> (r matches Err(StepError::BinaryNotFound { name })
            && name@ == "wsl"@),
        wsl_installed && wsl is Some ==> exists|rs: Seq<Result<(), StepError>>|
            results_of(upgrade, distributions.len(), rs) && forward_matches(rs, r),
{
    if !wsl_installed {
        return Err(StepError::NotApplicable { reason: String::from_str("WSL not installed") });
    }
    match wsl {
        None => Err(StepError::BinaryNotFound { name: String::from_str("wsl") }),
        Some(_) => forward(distributions.len(), upgrade),
    }
}

/// Whatever the environments did, one success makes the umbrella step a
/// success, and it is skipped when every environment skipped.
pub proof fn lemma_forward_outcome(rs: Seq<Result<(), StepError>>, r: Result<(), StepError>)
    requires
        forward_matches(rs, r),
    ensures
        (exists|i: int| 0 <= i < rs.len() && #[trigger] rs[i] is Ok) ==> r is Ok,
        (forall|i: int| 0 <= i < rs.len() ==> (#[trigger] rs[i] matches Err(e) && is_skip(e)))
            ==> (r matches Err(e) && is_skip(e)),
{
    if forall|i: int| 0 <= i < rs.len() ==> (#[trigger] rs[i] matches Err(e) && is_skip(e)) {
        assert(!exists|i: int| 0 <= i < rs.len() && #[trigger] rs[i] is Ok);
        assert(!exists|i: int| 0 <= i < rs.len() && #[trigger] is_failure(rs[i]));
    }
}

} // verus!
