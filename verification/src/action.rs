//! The effects the library asks its caller to carry out. Planning functions
//! decide, in order, what to print, which folders and files to create and
//! which programs to run; the caller performs each action in turn.

use vstd::prelude::*;

verus! {

/// One effect to carry out.
#[derive(Debug, Clone, PartialEq, Eq)]
pub enum Action {
    /// Print the text followed by a line break.
    Say(String),
    /// Create the folder and all of its missing parents.
    MakeDir(String),
    /// Write the content (second field) to the file at the path (first field).
    /// Where the third field is `Some`, a failed write stops everything with
    /// that message; where it is `None`, a failed write is ignored.
    Write(String, String, Option<String>),
    /// Run the program with the arguments, wait for it, and stop everything
    /// unless it exits successfully.
    RunChecked(String, Vec<String>),
    /// Start the program with the arguments without waiting for it.
    Spawn(String, Vec<String>),
    /// Run the program with the arguments and wait for it; its outcome is ignored.
    RunQuiet(String, Vec<String>),
    /// Stop everything with the message.
    Fail(String),
}

/// The mathematical content of an [`Action`]: texts as `char` sequences.
pub enum Step {
    Say(Seq<char>),
    MakeDir(Seq<char>),
    Write(Seq<char>, Seq<char>, Option<Seq<char>>),
    RunChecked(Seq<char>, Seq<Seq<char>>),
    Spawn(Seq<char>, Seq<Seq<char>>),
    RunQuiet(Seq<char>, Seq<Seq<char>>),
    Fail(Seq<char>),
}

impl DeepView for Action {
    type V = Step;

    open spec fn deep_view(&self) -> Step {
        match self {
            Action::Say(t) => Step::Say(t@),
            Action::MakeDir(p) => Step::MakeDir(p@),
            Action::Write(p, c, e) => Step::Write(p@, c@, e.deep_view()),
            Action::RunChecked(prog, args) => Step::RunChecked(prog@, args.deep_view()),
            Action::Spawn(prog, args) => Step::Spawn(prog@, args.deep_view()),
            Action::RunQuiet(prog, args) => Step::RunQuiet(prog@, args.deep_view()),
            Action::Fail(m) => Step::Fail(m@),
        }
    }
}

/// Appends `a` to the plan `v`.
pub fn push_action(v: &mut Vec<Action>, a: Action)
    ensures
        final(v).deep_view() == old(v).deep_view().push(a.deep_view()),
{
    let ghost a_view = a.deep_view();
    v.push(a);
    assert(final(v).deep_view() =~= old(v).deep_view().push(a_view));
}

/// Appends the plan `w` to the plan `v`.
pub fn append_actions(v: &mut Vec<Action>, w: Vec<Action>)
    ensures
        final(v).deep_view() == old(v).deep_view() + w.deep_view(),
{
    let ghost w_view = w.deep_view();
    let mut w = w;
    v.append(&mut w);
    assert(final(v).deep_view() =~= old(v).deep_view() + w_view);
}

} // verus!
