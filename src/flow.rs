//! The shape every workflow shares: a state that, given the reply to the
//! last action, decides the next action. The caller performs each action
//! (runs the tool, asks the user) and hands the reply back.
use vstd::prelude::*;

use crate::branch::{BranchWait, branch_next, branch_step};
use crate::commit::{
    CommitPlan, CommitWait, commit_menu_next, commit_menu_step, commit_wait_next, commit_wait_step,
};
use crate::hint::failure_message;
use crate::hint::failure_text;
use crate::remote::{SyncTarget, SyncWait, sync_next, sync_step};
use crate::reset::{
    ResetWalk, reset_check_next, reset_check_step, reset_each_next, reset_each_step,
    reset_file_next, reset_file_step, reset_menu_next, reset_menu_step,
};
use crate::stage::{
    Purpose, listing_next, listing_step, picking_next, picking_step, rooting_next, rooting_step,
    stage_menu_next, stage_menu_step, unstage_menu_next, unstage_menu_step,
};
use crate::status::{FileClass, FileEntry};
use crate::text::{lemma_texts_push, owned, texts};

verus! {

/// How an invocation's output is handled.
#[derive(Clone, Copy, Debug, PartialEq, Eq, Structural)]
pub enum Mode {
    /// Output goes to the terminal.
    Visible,
    /// Standard output is discarded; error text is kept for the hint.
    Quiet,
    /// Both streams are kept; nothing is shown.
    Captured,
}

/// One invocation of the underlying tool.
#[derive(Clone, Debug)]
pub struct GitCall {
    pub args: Vec<String>,
    pub dir: Option<String>,
    pub mode: Mode,
}

/// A read-only question about the repository.
#[derive(Clone, Copy, Debug, PartialEq, Eq, Structural)]
pub enum Query {
    RepoRoot,
    Porcelain,
    Branches,
    CurrentBranch,
    HasCommits,
}

/// How a workflow ended.
#[derive(Clone, Copy, Debug, PartialEq, Eq, Structural)]
pub enum Outcome {
    /// The work was done.
    Done,
    /// There was nothing to do; not an error.
    NoOp,
    /// The request was refused before anything ran.
    Usage,
    /// An invocation failed.
    Failed,
}

/// What a workflow asks its caller to do next.
#[derive(Clone, Debug)]
pub enum Action {
    Git(GitCall),
    Query(Query),
    /// Pick one item; the first is the default.
    Choose { title: String, items: Vec<String> },
    /// Pick any number of items.
    ChooseMany { title: String, items: Vec<String> },
    /// Type a line of text.
    AskText { title: String },
    /// Answer yes or no; no is the default.
    Confirm { title: String },
    Finish { outcome: Outcome, message: String },
}

/// The answer to an action.
#[derive(Clone, Debug)]
pub enum Reply {
    /// The invocation succeeded.
    Success,
    /// The invocation failed with this error text.
    Failure(String),
    Chosen(usize),
    ChosenMany(Vec<usize>),
    Text(String),
    Confirmed(bool),
    Entries(Vec<FileEntry>),
    Root(String),
    Branches(Vec<String>),
    Branch(String),
    HasCommits(bool),
}

/// A line to print before the action is performed.
#[derive(Clone, Debug)]
pub struct Note {
    pub text: String,
    pub to_stderr: bool,
}

/// The next action, with the lines to print before it.
#[derive(Clone, Debug)]
pub struct Step {
    pub notes: Vec<Note>,
    pub action: Action,
}

/// Where a workflow stands: what it waits for, and what it has gathered.
#[derive(Debug)]
pub enum Flow {
    Running(Run),
    StageMenu,
    UnstageMenu,
    ResetMenu,
    CommitMenu(CommitPlan),
    /// Waiting for the status entries to offer files from.
    Listing(Purpose),
    /// Waiting for the user's pick among these files.
    Picking(Purpose, Vec<String>),
    /// Waiting for the repository root, to act on these paths there.
    Rooting(Purpose, Vec<String>),
    /// Waiting for the status, to reset one class of files.
    ResetCheck(FileClass),
    /// Waiting for the status of the next file to reset.
    ResetEach(ResetWalk),
    /// Running the invocations that reset one file.
    ResetFile(ResetWalk, Run),
    Commit(CommitWait, CommitPlan),
    Branch(BranchWait),
    Sync(SyncWait, SyncTarget),
    Ended,
}

/// A fixed list of invocations, run in order until one fails.
#[derive(Clone, Debug)]
pub struct Run {
    pub calls: Vec<GitCall>,
    /// Printed before each invocation, when not empty.
    pub notes: Vec<String>,
    /// The invocation whose reply is awaited.
    pub at: usize,
    pub done: String,
}

impl GitCall {
    pub open spec fn argv(&self) -> Seq<Seq<char>> {
        texts(self.args@)
    }

    pub open spec fn dir_view(&self) -> Option<Seq<char>> {
        match self.dir {
            Some(d) => Some(d@),
            None => None,
        }
    }

    /// A copy of this invocation.
    pub fn copy(&self) -> (r: GitCall)
        ensures
            same_call(r, *self),
    {
        let dir = match &self.dir {
            Some(d) => Some(d.clone()),
            None => None,
        };
        GitCall { args: with_all(no_args(), &self.args), dir, mode: self.mode }
    }
}

/// `a` and `b` invoke the tool the same way.
pub open spec fn same_call(a: GitCall, b: GitCall) -> bool {
    &&& a.argv() == b.argv()
    &&& a.dir_view() == b.dir_view()
    &&& a.mode == b.mode
}

/// `s` invokes the tool as `c` does.
pub open spec fn invokes(s: Step, c: GitCall) -> bool {
    s.action matches Action::Git(x) && same_call(x, c)
}

pub open spec fn argvs(calls: Seq<GitCall>) -> Seq<Seq<Seq<char>>> {
    calls.map_values(|c: GitCall| c.argv())
}

impl Run {
    pub open spec fn wf(&self) -> bool {
        &&& self.at < self.calls@.len()
        &&& self.notes@.len() == self.calls@.len()
    }
}

/// `s` ends the workflow with outcome `o`.
pub open spec fn ends(s: Step, o: Outcome) -> bool {
    s.action matches Action::Finish { outcome, .. } && outcome == o
}

/// `s` ends the workflow with outcome `o` and message `m`.
pub open spec fn ends_with(s: Step, o: Outcome, m: Seq<char>) -> bool {
    s.action matches Action::Finish { outcome, message } && outcome == o && message@ == m
}

/// `s` asks the query `q`.
pub open spec fn asks(s: Step, q: Query) -> bool {
    s.action matches Action::Query(x) && x == q
}

/// `r` starts running the invocations `plan`, issuing the first.
pub open spec fn issues(r: Run, s: Step, plan: Seq<Seq<Seq<char>>>) -> bool {
    &&& r.wf()
    &&& r.at == 0
    &&& argvs(r.calls@) == plan
    &&& invokes(s, r.calls@[0])
}

/// An empty argument list.
pub fn no_args() -> (r: Vec<String>)
    ensures
        texts(r@) == Seq::<Seq<char>>::empty(),
        r@.len() == 0,
{
    let v: Vec<String> = Vec::new();
    assert(texts(v@) =~= Seq::<Seq<char>>::empty());
    v
}

/// The argument list `[a]`.
pub fn args1(a: &str) -> (r: Vec<String>)
    ensures
        texts(r@) == seq![a@],
{
    let r = with(no_args(), a);
    assert(texts(r@) =~= seq![a@]);
    r
}

/// The argument list `[a, b]`.
pub fn args2(a: &str, b: &str) -> (r: Vec<String>)
    ensures
        texts(r@) == seq![a@, b@],
{
    let r = with(args1(a), b);
    assert(texts(r@) =~= seq![a@, b@]);
    r
}

/// The argument list `[a, b, c]`.
pub fn args3(a: &str, b: &str, c: &str) -> (r: Vec<String>)
    ensures
        texts(r@) == seq![a@, b@, c@],
{
    let r = with(args2(a, b), c);
    assert(texts(r@) =~= seq![a@, b@, c@]);
    r
}

/// The arguments `v` followed by `s`.
pub fn with(v: Vec<String>, s: &str) -> (r: Vec<String>)
    ensures
        texts(r@) == texts(v@).push(s@),
{
    let mut v = v;
    let x = owned(s);
    proof {
        lemma_texts_push(v@, x);
    }
    v.push(x);
    v
}

/// The arguments `v` followed by all of `w`.
pub fn with_all(v: Vec<String>, w: &Vec<String>) -> (r: Vec<String>)
    ensures
        texts(r@) == texts(v@) + texts(w@),
{
    let mut v = v;
    let ghost v0 = texts(v@);
    let mut i: usize = 0;
    while i < w.len()
        invariant
            i <= w@.len(),
            texts(v@) == v0 + texts(w@).take(i as int),
        decreases w.len() - i,
    {
        let x = w[i].clone();
        proof {
            lemma_texts_push(v@, x);
            assert(v0 + texts(w@).take(i + 1) =~= (v0 + texts(w@).take(i as int)).push(x@));
        }
        v.push(x);
        i = i + 1;
    }
    assert(texts(w@).take(i as int) =~= texts(w@));
    v
}

pub fn warn(text: String) -> (r: Note)
    ensures
        r.text@ == text@,
        r.to_stderr,
{
    Note { text, to_stderr: true }
}

/// A step with no lines to print.
pub fn step(action: Action) -> (r: Step)
    ensures
        r.action == action,
        r.notes@.len() == 0,
{
    Step { notes: Vec::new(), action }
}

/// A step that ends the workflow.
pub fn finish(outcome: Outcome, message: String) -> (r: Step)
    ensures
        r.action == (Action::Finish { outcome, message }),
        ends_with(r, outcome, message@),
{
    step(Action::Finish { outcome, message })
}

/// A step that asks a query.
pub fn query(q: Query) -> (r: Step)
    ensures
        asks(r, q),
{
    step(Action::Query(q))
}

/// The first step of running `calls`, printing `notes[i]` before call `i`.
pub fn start_run(calls: Vec<GitCall>, notes: Vec<String>, done: String) -> (r: (Run, Step))
    requires
        calls@.len() > 0,
        notes@.len() == calls@.len(),
    ensures
        issues(r.0, r.1, argvs(calls@)),
        r.0.calls@ == calls@,
        r.0.done == done,
{
    let first = calls[0].copy();
    let text = notes[0].clone();
    let mut shown: Vec<Note> = Vec::new();
    if !text.as_str().is_empty() {
        shown.push(Note { text, to_stderr: false });
    }
    (Run { calls, notes, at: 0, done }, Step { notes: shown, action: Action::Git(first) })
}

impl Run {
    /// The step after the reply to the current invocation.
    pub fn next(self, reply: Reply) -> (r: (Option<Run>, Step))
        requires
            self.wf(),
        ensures
            reply is Success && self.at + 1 < self.calls@.len() ==> (r.0 matches Some(n) && n.wf()
                && n.at == self.at + 1 && n.calls@ == self.calls@ && n.done == self.done
                && invokes(r.1, self.calls@[self.at + 1])),
            reply is Success && self.at + 1 == self.calls@.len() ==> r.0 is None && ends_with(
                r.1,
                Outcome::Done,
                self.done@,
            ),
            reply matches Reply::Failure(e) ==> r.0 is None && ends_with(
                r.1,
                Outcome::Failed,
                failure_text(self.calls@[self.at as int].argv(), e@),
            ),
            !(reply is Success) && !(reply is Failure) ==> r.0 is None && ends(r.1, Outcome::Failed),
    {
        match reply {
            Reply::Success => {
                if self.at < self.calls.len() - 1 {
                    let k = self.at + 1;
                    let c = self.calls[k].copy();
                    let text = self.notes[k].clone();
                    let mut shown: Vec<Note> = Vec::new();
                    if !text.as_str().is_empty() {
                        shown.push(Note { text, to_stderr: false });
                    }
                    let n = Run { calls: self.calls, notes: self.notes, at: k, done: self.done };
                    (Some(n), Step { notes: shown, action: Action::Git(c) })
                } else {
                    (None, finish(Outcome::Done, self.done))
                }
            },
            Reply::Failure(e) => {
                let m = failure_message(&self.calls[self.at].args, e.as_str());
                (None, finish(Outcome::Failed, m))
            },
            _ => (None, finish(Outcome::Failed, owned("unexpected reply to an invocation"))),
        }
    }
}

/// The workflow runs the invocations `plan`, issuing the first.
/// Each in the current directory.
pub open spec fn runs(r: (Flow, Step), plan: Seq<Seq<Seq<char>>>) -> bool {
    &&& r.0 matches Flow::Running(run) && issues(run, r.1, plan)
    &&& r.0 matches Flow::Running(run) && forall|i: int|
        0 <= i < run.calls@.len() ==> (#[trigger] run.calls@[i]).dir is None
}

/// The workflow runs the invocations `plan` in directory `dir`.
pub open spec fn runs_in(r: (Flow, Step), plan: Seq<Seq<Seq<char>>>, dir: Seq<char>) -> bool {
    &&& r.0 matches Flow::Running(run) && issues(run, r.1, plan)
    &&& r.0 matches Flow::Running(run) && forall|i: int|
        0 <= i < run.calls@.len() ==> #[trigger] run.calls@[i].dir_view() == Some(dir)
}

/// The workflow ended, with outcome `o`.
pub open spec fn ended(r: (Flow, Step), o: Outcome) -> bool {
    r.0 is Ended && ends(r.1, o)
}

/// The workflow ended, with outcome `o` and message `m`.
pub open spec fn ended_with(r: (Flow, Step), o: Outcome, m: Seq<char>) -> bool {
    r.0 is Ended && ends_with(r.1, o, m)
}

/// The workflow shows a single-choice menu with these items.
pub open spec fn offers(s: Step, choices: Seq<Seq<char>>) -> bool {
    s.action matches Action::Choose { items, .. } && texts(items@) == choices
}

/// An invocation in the current directory.
pub fn git(args: Vec<String>, mode: Mode) -> (r: GitCall)
    ensures
        r.argv() == texts(args@),
        r.dir is None,
        r.mode == mode,
{
    GitCall { args, dir: None, mode }
}

/// A workflow that runs one invocation and then reports `done`.
pub fn single(call: GitCall, note: &str, done: &str) -> (r: (Flow, Step))
    ensures
        r.0 matches Flow::Running(run) && issues(run, r.1, seq![call.argv()]),
        call.dir is None ==> runs(r, seq![call.argv()]),
        r.0 matches Flow::Running(run) && run.calls@.len() == 1 && run.calls@[0] == call
            && run.done@ == done@,
{
    let mut calls: Vec<GitCall> = Vec::new();
    calls.push(call);
    let mut notes: Vec<String> = Vec::new();
    notes.push(owned(note));
    let (run, s) = start_run(calls, notes, owned(done));
    assert(argvs(run.calls@) =~= seq![call.argv()]);
    (Flow::Running(run), s)
}

/// A workflow that ends at once.
pub fn end(outcome: Outcome, message: &str) -> (r: (Flow, Step))
    ensures
        ended_with(r, outcome, message@),
{
    (Flow::Ended, finish(outcome, owned(message)))
}

/// A single-choice menu.
pub fn menu(title: &str, items: Vec<String>) -> (r: Step)
    ensures
        r.action matches Action::Choose { items: i, .. } && i@ == items@,
{
    step(Action::Choose { title: owned(title), items })
}

/// The step after the reply to a run's current invocation.
pub open spec fn running_step(run: Run, reply: Reply, r: (Flow, Step)) -> bool {
    match reply {
        Reply::Success => if run.at + 1 < run.calls@.len() {
            &&& r.0 matches Flow::Running(n) && n.wf() && n.at == run.at + 1 && n.calls@
                == run.calls@ && n.done == run.done
            &&& invokes(r.1, run.calls@[run.at + 1])
        } else {
            ended_with(r, Outcome::Done, run.done@)
        },
        Reply::Failure(e) => ended_with(
            r,
            Outcome::Failed,
            failure_text(run.calls@[run.at as int].argv(), e@),
        ),
        _ => ended(r, Outcome::Failed),
    }
}

impl Flow {
    /// No invocation of the tool has been issued yet in a workflow that
    /// stands here: it has only asked questions.
    pub open spec fn pristine(&self) -> bool {
        match self {
            Flow::StageMenu | Flow::UnstageMenu | Flow::ResetMenu | Flow::CommitMenu(_)
            | Flow::Listing(_) | Flow::Picking(_, _) | Flow::Rooting(_, _) | Flow::ResetCheck(_)
            | Flow::Commit(_, _) | Flow::Branch(_) => true,
            _ => false,
        }
    }

    /// The step each state takes on a reply, and the laws every step keeps.
    pub open spec fn steps(self, reply: Reply, r: (Flow, Step)) -> bool {
        match self {
            Flow::Running(run) => run.wf() ==> running_step(run, reply, r),
            Flow::StageMenu => stage_menu_step(reply, r),
            Flow::UnstageMenu => unstage_menu_step(reply, r),
            Flow::ResetMenu => reset_menu_step(reply, r),
            Flow::CommitMenu(p) => commit_menu_step(p, reply, r),
            Flow::Listing(p) => listing_step(p, reply, r),
            Flow::Picking(p, files) => picking_step(p, texts(files@), reply, r),
            Flow::Rooting(p, paths) => paths@.len() > 0 ==> rooting_step(
                p,
                texts(paths@),
                reply,
                r,
            ),
            Flow::ResetCheck(c) => reset_check_step(c, reply, r),
            Flow::ResetEach(w) => w.wf() ==> reset_each_step(w, reply, r),
            Flow::ResetFile(w, run) => w.wf() && run.wf() ==> reset_file_step(w, run, reply, r),
            Flow::Commit(w, p) => commit_wait_step(w, p, reply, r),
            Flow::Branch(w) => branch_step(w, reply, r),
            Flow::Sync(w, t) => sync_step(w, t, reply, r),
            Flow::Ended => ended(r, Outcome::Failed),
        }
    }

    /// The next state and step, given the reply to the last action.
    pub fn next(self, reply: Reply) -> (r: (Flow, Step))
        ensures
            self.steps(reply, r),
            // A state where nothing has run yet is reached only from another such state,
            // by an action that runs nothing.
            r.0.pristine() ==> self.pristine() && !(r.1.action is Git),
            // An empty pick ends the workflow as a no-op.
            self is Picking && reply is ChosenMany && reply->ChosenMany_0@.len() == 0 ==> ended(
                r,
                Outcome::NoOp,
            ),
    {
        match self {
            Flow::Running(run) => {
                if run.at < run.calls.len() && run.notes.len() == run.calls.len() {
                    let (n, s) = run.next(reply);
                    match n {
                        Some(m) => (Flow::Running(m), s),
                        None => (Flow::Ended, s),
                    }
                } else {
                    end(Outcome::Failed, "the run has no invocation left")
                }
            },
            Flow::StageMenu => stage_menu_next(reply),
            Flow::UnstageMenu => unstage_menu_next(reply),
            Flow::ResetMenu => reset_menu_next(reply),
            Flow::CommitMenu(p) => commit_menu_next(p, reply),
            Flow::Listing(p) => listing_next(p, reply),
            Flow::Picking(p, files) => {
                proof {
                    if reply is ChosenMany {
                        let sel = reply->ChosenMany_0;
                        if sel@.len() == 0 {
                            assert(sel@.take(0) =~= sel@);
                        }
                    }
                }
                picking_next(p, files, reply)
            },
            Flow::Rooting(p, paths) => {
                if paths.len() > 0 {
                    rooting_next(p, paths, reply)
                } else {
                    end(Outcome::Failed, "no paths to act on")
                }
            },
            Flow::ResetCheck(c) => reset_check_next(c, reply),
            Flow::ResetEach(w) => {
                if w.i < w.files.len() {
                    reset_each_next(w, reply)
                } else {
                    end(Outcome::Failed, "no file left to reset")
                }
            },
            Flow::ResetFile(w, run) => {
                if w.i < w.files.len() && run.at < run.calls.len() && run.notes.len()
                    == run.calls.len() {
                    reset_file_next(w, run, reply)
                } else {
                    end(Outcome::Failed, "no file left to reset")
                }
            },
            Flow::Commit(w, p) => commit_wait_next(w, p, reply),
            Flow::Branch(w) => branch_next(w, reply),
            Flow::Sync(w, t) => sync_next(w, t, reply),
            Flow::Ended => end(Outcome::Failed, "the workflow has already ended"),
        }
    }
}

/// In every interactive flow, a pick of no files ends the workflow as a
/// no-op, and nothing has been invoked by the time the pick is asked for.
pub proof fn lemma_empty_pick_is_no_op(f: Flow, sel: Vec<usize>, r: (Flow, Step))
    requires
        f is Picking,
        f.steps(Reply::ChosenMany(sel), r),
        sel@.len() == 0,
    ensures
        f.pristine(),
        ended(r, Outcome::NoOp),
        !(r.1.action is Git),
{
    let files = f->Picking_1;
    assert(sel@ =~= Seq::<usize>::empty());
    assert(crate::stage::picked(texts(files@), sel@).len() == 0);
}

} // verus!
