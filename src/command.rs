//! An argv-style description of one external command.
use vstd::prelude::*;

use crate::shell::{push_rendered, rendered, views};
use crate::text::{chars_of, string_of};

verus! {

/// A program path, its ordered arguments and an optional working directory.
#[derive(Clone, Debug, PartialEq, Eq)]
pub struct Command {
    pub program: String,
    pub args: Vec<String>,
    pub cwd: Option<String>,
}

/// What a `Command` holds, as character sequences.
pub struct CommandView {
    pub program: Seq<char>,
    pub args: Seq<Seq<char>>,
    pub cwd: Option<Seq<char>>,
}

/// The character view of an optional string.
pub open spec fn opt_view(o: Option<String>) -> Option<Seq<char>> {
    match o {
        Some(s) => Some(s@),
        None => None,
    }
}

impl View for Command {
    type V = CommandView;

    open spec fn view(&self) -> CommandView {
        CommandView { program: self.program@, args: views(self.args@), cwd: opt_view(self.cwd) }
    }
}

/// A copy of a list of strings.
pub fn copy_strings(v: &Vec<String>) -> (r: Vec<String>)
    ensures
        views(r@) == views(v@),
{
    let mut r: Vec<String> = Vec::new();
    let mut i: usize = 0;
    while i < v.len()
        invariant
            i <= v.len(),
            r.len() == i,
            forall|j: int| 0 <= j < i ==> (#[trigger] r@[j])@ == v@[j]@,
        decreases v.len() - i,
    {
        let s: String = v[i].clone();
        r.push(s);
        i = i + 1;
    }
    assert(views(r@) =~= views(v@));
    r
}

/// A copy of an optional string.
pub fn copy_opt(o: &Option<String>) -> (r: Option<String>)
    ensures
        opt_view(r) == opt_view(*o),
{
    match o {
        Some(s) => Some(s.clone()),
        None => None,
    }
}

impl Command {
    /// A command that runs `program` with no arguments.
    pub fn new(program: &str) -> (r: Command)
        ensures
            r@.program == program@,
            r@.args == Seq::<Seq<char>>::empty(),
            r@.cwd is None,
    {
        let r = Command { program: program.to_owned(), args: Vec::new(), cwd: None };
        assert(r@.args =~= Seq::<Seq<char>>::empty());
        r
    }

    /// This command with `a` appended to its arguments.
    pub fn arg(self, a: &str) -> (r: Command)
        ensures
            r@.program == self@.program,
            r@.args == self@.args.push(a@),
            r@.cwd == self@.cwd,
    {
        let ghost before = self@;
        let mut c = self;
        c.args.push(a.to_owned());
        assert(views(c.args@) =~= before.args.push(a@));
        c
    }

    /// This command with `list` appended to its arguments.
    pub fn args(self, list: &Vec<String>) -> (r: Command)
        ensures
            r@.program == self@.program,
            r@.args == self@.args + views(list@),
            r@.cwd == self@.cwd,
    {
        let ghost before = self@;
        let mut c = self;
        let mut i: usize = 0;
        while i < list.len()
            invariant
                i <= list.len(),
                c@.program == before.program,
                c@.cwd == before.cwd,
                c.args.len() == before.args.len() + i,
                forall|j: int| 0 <= j < before.args.len() ==> (#[trigger] c.args@[j])@ == before.args[j],
                forall|j: int| 0 <= j < i ==> (#[trigger] c.args@[before.args.len() + j])@ == list@[j]@,
            decreases list.len() - i,
        {
            let s: String = list[i].clone();
            c.args.push(s);
            i = i + 1;
        }
        proof {
            let n = before.args.len();
            assert forall|j: int| 0 <= j < c.args.len() implies (#[trigger] views(c.args@)[j]) == (before.args + views(list@))[j] by {
                if j >= n {
                    assert(c.args@[n + (j - n)]@ == list@[j - n]@);
                }
            }
            assert(views(c.args@) =~= before.args + views(list@));
        }
        c
    }

    /// This command, to be run in the directory `dir`.
    pub fn current_dir(self, dir: &str) -> (r: Command)
        ensures
            r@.program == self@.program,
            r@.args == self@.args,
            r@.cwd == Some(dir@),
    {
        let mut c = self;
        c.cwd = Some(dir.to_owned());
        c
    }

    /// A copy of this command.
    pub fn duplicate(&self) -> (r: Command)
        ensures
            r@ == self@,
    {
        Command {
            program: self.program.clone(),
            args: copy_strings(&self.args),
            cwd: copy_opt(&self.cwd),
        }
    }

    /// The program followed by the arguments, each quoted, as a reader or a
    /// shell would see the command.
    pub fn display(&self) -> (r: String)
        ensures
            r@ == self@.program + rendered(self@.args),
    {
        let mut out = chars_of(self.program.as_str());
        push_rendered(&mut out, &self.args);
        string_of(&out)
    }
}

} // verus!
