//! Sequencing of steps and the summary of a run.
use vstd::prelude::*;

use crate::outcome::{outcome, outcome_of, OutcomeView, StepError, StepOutcome};

verus! {

/// The outcomes of a run's steps, in the order in which they ran.
#[derive(Clone, Debug)]
pub struct RunSummary {
    entries: Vec<(String, StepOutcome)>,
}

/// A run succeeds when none of its steps failed; skipped steps do not count.
pub open spec fn run_succeeded(s: Seq<(Seq<char>, OutcomeView)>) -> bool {
    forall|i: int| 0 <= i < s.len() ==> !(#[trigger] s[i].1 is Failed)
}

impl View for RunSummary {
    type V = Seq<(Seq<char>, OutcomeView)>;

    closed spec fn view(&self) -> Seq<(Seq<char>, OutcomeView)> {
        self.entries@.map_values(|e: (String, StepOutcome)| (e.0@, e.1@))
    }
}

impl RunSummary {
    /// A summary with no steps.
    pub fn new() -> (r: RunSummary)
        ensures
            r@ == Seq::<(Seq<char>, OutcomeView)>::empty(),
    {
        let r = RunSummary { entries: Vec::new() };
        assert(r@ =~= Seq::<(Seq<char>, OutcomeView)>::empty());
        r
    }

    /// Appends the classified outcome of the step `name` whose result was
    /// `result`.
    pub fn record(&mut self, name: &str, result: &Result<(), StepError>)
        ensures
            final(self)@ == old(self)@.push((name@, outcome_of(*result))),
    {
        let o = outcome(result);
        self.entries.push((name.to_owned(), o));
        assert(self@ =~= old(self)@.push((name@, outcome_of(*result))));
    }

    /// The number of recorded steps.
    pub fn len(&self) -> (r: usize)
        ensures
            r == self@.len(),
    {
        self.entries.len()
    }

    /// The recorded steps and their outcomes, in order.
    pub fn entries(&self) -> (r: &Vec<(String, StepOutcome)>)
        ensures
            r@.map_values(|e: (String, StepOutcome)| (e.0@, e.1@)) == self@,
    {
        &self.entries
    }

    /// Whether the run succeeded: no recorded step failed.
    pub fn succeeded(&self) -> (r: bool)
        ensures
            r == run_succeeded(self@),
    {
        let mut i: usize = 0;
        while i < self.entries.len()
            invariant
                i <= self.entries.len(),
                forall|j: int| 0 <= j < i ==> !(#[trigger] self@[j].1 is Failed),
            decreases self.entries.len() - i,
        {
            match &self.entries[i].1 {
                StepOutcome::Failed(_) => {
                    assert(self@[i as int].1 is Failed);
                    return false;
                },
                _ => {},
            }
            i = i + 1;
        }
        true
    }

    /// The exit status of the whole process: 0 when the run succeeded, 1
    /// otherwise.
    pub fn exit_code(&self) -> (r: i32)
        ensures
            r == 0 <==> run_succeeded(self@),
            r == 0 || r == 1,
    {
        if self.succeeded() {
            0
        } else {
            1
        }
    }
}

/// Whether `o` is the outcome of one result that `step(i)` may return.
pub open spec fn outcome_of_step<F: Fn(usize) -> Result<(), StepError>>(
    step: F,
    i: usize,
    o: OutcomeView,
) -> bool {
    exists|r: Result<(), StepError>| step.ensures((i,), r) && o == outcome_of(r)
}

/// Runs the steps `0 .. names.len()` one after the other, in that order,
/// with `step(i)` running step `i`, and records the outcome of each under
/// its name. A failing step does not stop the run.
pub fn run_all<F>(names: &Vec<String>, step: F) -> (s: RunSummary)
    where
        F: Fn(usize) -> Result<(), StepError>,
    requires
        forall|i: usize| i < names.len() ==> step.requires((i,)),
    ensures
        s@.len() == names.len(),
        forall|i: int| 0 <= i < names.len() ==> (#[trigger] s@[i]).0 == names@[i]@,
        forall|i: int|
            0 <= i < names.len() ==> outcome_of_step(step, i as usize, (#[trigger] s@[i]).1),
{
    let mut s = RunSummary::new();
    let mut i: usize = 0;
    while i < names.len()
        invariant
            i <= names.len(),
            forall|k: usize| k < names.len() ==> step.requires((k,)),
            s@.len() == i,
            forall|j: int| 0 <= j < i ==> (#[trigger] s@[j]).0 == names@[j]@,
            forall|j: int|
                0 <= j < i ==> outcome_of_step(step, j as usize, (#[trigger] s@[j]).1),
        decreases names.len() - i,
    {
        let r = step(i);
        s.record(names[i].as_str(), &r);
        assert(s@[i as int].1 == outcome_of(r));
        i = i + 1;
    }
    s
}

/// One failed step makes the whole run fail, whatever the other steps did.
pub proof fn lemma_failure_fails_run(s: Seq<(Seq<char>, OutcomeView)>, i: int)
    requires
        0 <= i < s.len(),
        s[i].1 is Failed,
    ensures
        !run_succeeded(s),
{
}

/// Skipped steps never make a run fail: a run whose steps all succeeded or
/// were skipped succeeds.
pub proof fn lemma_skips_keep_run_successful(s: Seq<(Seq<char>, OutcomeView)>)
    requires
        forall|i: int| 0 <= i < s.len() ==> (#[trigger] s[i].1 is Success) || s[i].1 is Skipped,
    ensures
        run_succeeded(s),
{
    assert forall|i: int| 0 <= i < s.len() implies !(#[trigger] s[i].1 is Failed) by {
        assert(s[i].1 is Success || s[i].1 is Skipped);
    }
}

} // verus!
