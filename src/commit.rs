//! Committing: choose what to stage, validate the request, guard an amend,
//! then stage, commit and optionally push.
use vstd::prelude::*;

use crate::flow::{
    args1, args2, args3, Action, Flow, GitCall, Mode, Note, Outcome, Query, Reply, Step, argvs,
    asks, end, ended, ended_with, issues, menu, offers, query, runs, start_run, step, warn, with,
    with_all,
};
use crate::remote::opt_view;
use crate::stage::{Purpose, counted};
use crate::text::{join2, lemma_texts_push, owned, texts, trim, trimmed};

verus! {

/// Everything a commit has been asked to do.
#[derive(Debug)]
pub struct CommitPlan {
    pub message: String,
    /// Stage every change, untracked files included.
    pub all: bool,
    /// Commit only what is staged already.
    pub staged: bool,
    /// Stage changes to tracked files.
    pub unstaged: bool,
    pub push: bool,
    pub amend: bool,
    pub skip_hooks: bool,
    /// Files picked to stage.
    pub files: Vec<String>,
}

/// What a commit workflow waits for.
#[derive(Debug)]
pub enum CommitWait {
    Message,
    PushChoice,
    History,
    AmendChoice,
    Root,
    /// The current branch, to name it when pushing; holds the repository
    /// root where picked files are staged.
    Branch(Option<String>),
}

pub open spec fn commit_menu() -> Seq<Seq<char>> {
    seq!["Staged changes"@, "Unstaged changes"@, "All changes"@, "Custom"@]
}

/// The commit invocation's arguments.
pub open spec fn commit_argv(message: Seq<char>, amend: bool, skip_hooks: bool) -> Seq<Seq<char>> {
    seq!["commit"@] + (if amend {
        seq!["--amend"@]
    } else {
        seq![]
    }) + (if skip_hooks {
        seq!["--no-verify"@]
    } else {
        seq![]
    }) + seq!["-m"@, message]
}

/// The staging done before the commit: all changes, tracked changes, the
/// picked files, or nothing.
pub open spec fn staging_argvs(all: bool, unstaged: bool, files: Seq<Seq<char>>) -> Seq<
    Seq<Seq<char>>,
> {
    if all {
        seq![seq!["add"@, "-A"@]]
    } else if unstaged {
        seq![seq!["add"@, "-u"@]]
    } else if files.len() > 0 {
        seq![seq!["add"@] + files]
    } else {
        seq![]
    }
}

/// Every invocation of a commit, in order.
pub open spec fn commit_argvs(
    all: bool,
    unstaged: bool,
    files: Seq<Seq<char>>,
    message: Seq<char>,
    amend: bool,
    skip_hooks: bool,
    push: bool,
) -> Seq<Seq<Seq<char>>> {
    staging_argvs(all, unstaged, files) + seq![commit_argv(message, amend, skip_hooks)] + (if push {
        seq![seq!["push"@]]
    } else {
        seq![]
    })
}

/// A commit is refused when its message is blank, or when it asks to commit
/// only staged changes and also to stage more.
pub open spec fn commit_refused(message: Seq<char>, all: bool, staged: bool, unstaged: bool) -> bool {
    trimmed(message).len() == 0 || (staged && (all || unstaged))
}

impl CommitPlan {
    pub open spec fn refused(&self) -> bool {
        commit_refused(self.message@, self.all, self.staged, self.unstaged)
    }

    /// An amend asks for confirmation unless hooks are skipped.
    pub open spec fn guarded(&self) -> bool {
        self.amend && !self.skip_hooks
    }

    /// The picked files are staged from the repository root.
    pub open spec fn needs_root(&self) -> bool {
        !self.all && !self.unstaged && self.files@.len() > 0
    }

    pub open spec fn argvs(&self) -> Seq<Seq<Seq<char>>> {
        commit_argvs(
            self.all,
            self.unstaged,
            texts(self.files@),
            self.message@,
            self.amend,
            self.skip_hooks,
            self.push,
        )
    }
}

/// The message is asked for, for a commit of the picked `files` under the
/// flags of `plan`.
pub open spec fn message_asked(plan: CommitPlan, files: Seq<Seq<char>>, r: (Flow, Step)) -> bool {
    r.0 matches Flow::Commit(w, p) && w == CommitWait::Message && texts(p.files@) == files
        && p.amend == plan.amend && p.skip_hooks == plan.skip_hooks && !p.all && !p.staged
        && !p.unstaged && r.1.action is AskText
}

/// The commit's invocations start: the picked files, if any, are staged in
/// `root`; every other invocation runs in the current directory.
pub open spec fn runs_commit(r: (Flow, Step), p: CommitPlan, root: Option<Seq<char>>) -> bool {
    &&& r.0 matches Flow::Running(run) && issues(run, r.1, p.argvs())
    &&& r.0 matches Flow::Running(run) && forall|i: int|
        0 <= i < run.calls@.len() ==> #[trigger] run.calls@[i].dir_view() == if i == 0
            && p.needs_root() {
            root
        } else {
            None
        }
}

/// Before a push the current branch is asked for, to name it.
pub open spec fn branch_asked(p: CommitPlan, root: Option<Seq<char>>, r: (Flow, Step)) -> bool {
    &&& r.0 matches Flow::Commit(CommitWait::Branch(x), q) && q == p && opt_view(x) == root
    &&& asks(r.1, Query::CurrentBranch)
}

/// The validated commit goes ahead: the root is asked for when picked files
/// are staged, then the current branch when pushing, then the invocations
/// start.
pub open spec fn proceeded(p: CommitPlan, r: (Flow, Step)) -> bool {
    if p.needs_root() {
        r.0 == Flow::Commit(CommitWait::Root, p) && asks(r.1, Query::RepoRoot)
    } else if p.push {
        branch_asked(p, None, r)
    } else {
        runs_commit(r, p, None)
    }
}

/// A refused commit ends with the reason: a blank message first, then
/// `--staged` combined with staging more.
pub open spec fn refusal(m: Seq<char>, all: bool, staged: bool, unstaged: bool, r: (Flow, Step)) -> bool {
    &&& trimmed(m).len() == 0 ==> ended_with(r, Outcome::Usage, "commit message cannot be empty"@)
    &&& trimmed(m).len() > 0 && staged && (all || unstaged) ==> ended_with(
        r,
        Outcome::Usage,
        "cannot combine --staged with --all or --unstaged"@,
    )
}

/// A validated commit: refused, waiting on the amend guard, or going ahead.
pub open spec fn checked(p: CommitPlan, r: (Flow, Step)) -> bool {
    &&& refusal(p.message@, p.all, p.staged, p.unstaged, r)
    &&& p.refused() ==> ended(r, Outcome::Usage)
    &&& !p.refused() && p.guarded() ==> r.0 == Flow::Commit(CommitWait::History, p) && asks(
        r.1,
        Query::HasCommits,
    )
    &&& !p.refused() && !p.guarded() ==> proceeded(p, r)
}

/// How `commit` starts: with its menu when neither a message nor a scope
/// flag is given; else refused, waiting on the amend guard, or running.
pub open spec fn commit_started(
    message: Option<String>,
    all: bool,
    staged: bool,
    unstaged: bool,
    push: bool,
    amend: bool,
    skip_hooks: bool,
    r: (Flow, Step),
) -> bool {
    &&& message is None && !all && !staged && !unstaged ==> (r.0 matches Flow::CommitMenu(p)
            && p.amend == amend && p.skip_hooks == skip_hooks && offers(r.1, commit_menu()))
    &&& !(message is None && !all && !staged && !unstaged) ==> ({
            let m = match message {
                Some(s) => s@,
                None => seq![],
            };
            &&& refusal(m, all, staged, unstaged, r)
            &&& commit_refused(m, all, staged, unstaged) ==> ended(r, Outcome::Usage)
            &&& !commit_refused(m, all, staged, unstaged) && amend && !skip_hooks ==> (r.0 matches Flow::Commit(
                w,
                p,
            ) && w == CommitWait::History && p.message@ == m && p.all == all && p.staged == staged
                && p.unstaged == unstaged && p.push == push && p.amend && !p.skip_hooks
                && p.files@.len() == 0 && asks(r.1, Query::HasCommits))
            &&& !commit_refused(m, all, staged, unstaged) && !(amend && !skip_hooks) && push ==> (
            r.0 matches Flow::Commit(CommitWait::Branch(x), p) && x is None && p.message@ == m
                && p.all == all && p.staged == staged && p.unstaged == unstaged && p.push
                && p.amend == amend && p.skip_hooks == skip_hooks && p.files@.len() == 0 && asks(
                r.1,
                Query::CurrentBranch,
            ))
            &&& !commit_refused(m, all, staged, unstaged) && !(amend && !skip_hooks) && !push
                ==> runs(r, commit_argvs(all, unstaged, seq![], m, amend, skip_hooks, false))
        })
}

/// Starts `commit`: interactive when neither a message nor a scope flag is
/// given.
pub fn run_commit(
    message: Option<String>,
    all: bool,
    staged: bool,
    unstaged: bool,
    push: bool,
    amend: bool,
    skip_hooks: bool,
) -> (r: (Flow, Step))
    ensures
        commit_started(message, all, staged, unstaged, push, amend, skip_hooks, r),
{
    if message.is_none() && !all && !staged && !unstaged {
        let plan = CommitPlan {
            message: String::new(),
            all: false,
            staged: false,
            unstaged: false,
            push: false,
            amend,
            skip_hooks,
            files: Vec::new(),
        };
        let items = with(
            args3("Staged changes", "Unstaged changes", "All changes"),
            "Custom",
        );
        assert(texts(items@) =~= commit_menu());
        (Flow::CommitMenu(plan), menu("What would you like to commit?", items))
    } else {
        let text = match message {
            Some(s) => s,
            None => String::new(),
        };
        let plan = CommitPlan {
            message: text,
            all,
            staged,
            unstaged,
            push,
            amend,
            skip_hooks,
            files: Vec::new(),
        };
        assert(texts(plan.files@) =~= seq![]);
        let ghost p = plan;
        let r = commit_checks(plan);
        proof {
            if !p.refused() && !p.guarded() && !p.push {
                assert(texts(p.files@) =~= Seq::<Seq<char>>::empty());
                assert(checked(p, r));
                assert(!p.needs_root());
                let run = r.0->Running_0;
                assert forall|i: int| 0 <= i < run.calls@.len() implies (
                #[trigger] run.calls@[i]).dir is None by {
                    assert(run.calls@[i].dir_view() == None::<Seq<char>>);
                }
            }
        }
        r
    }
}

pub open spec fn commit_menu_step(plan: CommitPlan, reply: Reply, r: (Flow, Step)) -> bool {
    match reply {
        Reply::Chosen(k) => {
            &&& k == 3 ==> (r.0 matches Flow::Listing(Purpose::Commit(p)) && p.amend
                == plan.amend && p.skip_hooks == plan.skip_hooks && asks(r.1, Query::Porcelain))
            &&& k != 3 ==> (r.0 matches Flow::Commit(w, p) && w == CommitWait::Message
                && p.files@.len() == 0 && p.staged == (k == 0) && p.unstaged == (k == 1) && p.all
                == (k == 2) && p.amend == plan.amend && p.skip_hooks == plan.skip_hooks
                && r.1.action is AskText)
        },
        _ => ended(r, Outcome::Failed),
    }
}

fn ask_message() -> (r: Step)
    ensures
        r.action is AskText,
{
    step(Action::AskText { title: owned("Commit message") })
}

/// The commit menu's answer.
pub fn commit_menu_next(plan: CommitPlan, reply: Reply) -> (r: (Flow, Step))
    ensures
        commit_menu_step(plan, reply, r),
{
    match reply {
        Reply::Chosen(k) => {
            if k == 3 {
                (Flow::Listing(Purpose::Commit(plan)), query(Query::Porcelain))
            } else {
                let p = CommitPlan {
                    staged: k == 0,
                    unstaged: k == 1,
                    all: k == 2,
                    files: Vec::new(),
                    ..plan
                };
                (Flow::Commit(CommitWait::Message, p), ask_message())
            }
        },
        _ => end(Outcome::Failed, "unexpected reply to a menu"),
    }
}

/// Files were picked for a custom commit: ask for the message.
pub fn commit_after_pick(plan: CommitPlan, files: Vec<String>) -> (r: (Flow, Step))
    ensures
        message_asked(plan, texts(files@), r),
{
    let p = CommitPlan { all: false, staged: false, unstaged: false, files, ..plan };
    (Flow::Commit(CommitWait::Message, p), ask_message())
}

/// Validates a commit, then guards an amend or goes ahead.
pub fn commit_checks(plan: CommitPlan) -> (r: (Flow, Step))
    ensures
        checked(plan, r),
{
    let t = trim(plan.message.as_str());
    if t.as_str().is_empty() {
        end(Outcome::Usage, "commit message cannot be empty")
    } else if plan.staged && (plan.all || plan.unstaged) {
        end(Outcome::Usage, "cannot combine --staged with --all or --unstaged")
    } else if plan.amend && !plan.skip_hooks {
        (Flow::Commit(CommitWait::History, plan), query(Query::HasCommits))
    } else {
        commit_proceed(plan)
    }
}

/// An invocation in the current directory, its output captured.
fn captured(args: Vec<String>) -> (r: GitCall)
    ensures
        r.argv() == texts(args@),
        r.dir is None,
{
    GitCall { args, dir: None, mode: Mode::Captured }
}

/// Runs the commit's invocations; `root` is where picked files are staged,
/// `branch` the branch a push goes from.
fn commit_run(plan: CommitPlan, root: Option<String>, branch: Option<String>) -> (r: (Flow, Step))
    ensures
        runs_commit(r, plan, opt_view(root)),
{
    let mut calls: Vec<GitCall> = Vec::new();
    let mut notes: Vec<String> = Vec::new();
    let ghost files = texts(plan.files@);
    let ghost root_view = opt_view(root);
    let mut staged_line = String::new();
    if plan.all {
        calls.push(GitCall { args: args2("add", "-A"), dir: None, mode: Mode::Quiet });
        notes.push(String::new());
        staged_line = owned("→ Staged all files\n");
    } else if plan.unstaged {
        calls.push(GitCall { args: args2("add", "-u"), dir: None, mode: Mode::Quiet });
        notes.push(String::new());
        staged_line = owned("→ Staged tracked files\n");
    } else if plan.files.len() > 0 {
        staged_line = counted("→ Staged ", plan.files.len()).concat("\n");
        let args = with_all(args1("add"), &plan.files);
        assert(texts(args@) =~= seq!["add"@] + files);
        calls.push(GitCall { args, dir: root, mode: Mode::Quiet });
        notes.push(String::new());
    }
    assert(forall|i: int|
        0 <= i < calls@.len() ==> #[trigger] calls@[i].dir_view() == if i == 0
            && plan.needs_root() {
            root_view
        } else {
            None
        });
    assert(argvs(calls@) =~= staging_argvs(plan.all, plan.unstaged, files));
    let mut args = args1("commit");
    if plan.amend {
        args = with(args, "--amend");
    }
    if plan.skip_hooks {
        args = with(args, "--no-verify");
    }
    args = with(args, "-m");
    let m = plan.message.clone();
    proof {
        lemma_texts_push(args@, m);
    }
    args.push(m);
    assert(texts(args@) =~= commit_argv(plan.message@, plan.amend, plan.skip_hooks));
    let ghost before = argvs(calls@);
    let c = captured(args);
    calls.push(c);
    assert(argvs(calls@) =~= before.push(c.argv()));
    assert(forall|i: int|
        0 <= i < calls@.len() ==> #[trigger] calls@[i].dir_view() == if i == 0
            && plan.needs_root() {
            root_view
        } else {
            None
        });
    if plan.amend {
        notes.push(staged_line.concat("→ Committing (amend)..."));
    } else {
        notes.push(staged_line.concat("→ Committing..."));
    }
    let mut done = owned("✓ Commit created\nDone.");
    if plan.push {
        let ghost before = argvs(calls@);
        let c = captured(args1("push"));
        calls.push(c);
        assert(argvs(calls@) =~= before.push(c.argv()));
        assert(forall|i: int|
            0 <= i < calls@.len() ==> #[trigger] calls@[i].dir_view() == if i == 0
                && plan.needs_root() {
                root_view
            } else {
                None
            });
        let line = match &branch {
            Some(b) => join2("→ Pushing to ", b.as_str()).concat("..."),
            None => owned("→ Pushing..."),
        };
        notes.push(line);
        done = owned("✓ Commit created\n✓ Pushed successfully\nDone.");
    }
    assert(argvs(calls@) =~= plan.argvs());
    let (run, s) = start_run(calls, notes, done);
    (Flow::Running(run), s)
}

/// Goes ahead with a validated commit.
pub fn commit_proceed(plan: CommitPlan) -> (r: (Flow, Step))
    ensures
        proceeded(plan, r),
{
    if !plan.all && !plan.unstaged && plan.files.len() > 0 {
        (Flow::Commit(CommitWait::Root, plan), query(Query::RepoRoot))
    } else if plan.push {
        (Flow::Commit(CommitWait::Branch(None), plan), query(Query::CurrentBranch))
    } else {
        commit_run(plan, None, None)
    }
}

pub open spec fn commit_wait_step(w: CommitWait, p: CommitPlan, reply: Reply, r: (Flow, Step)) -> bool {
    match (w, reply) {
        (CommitWait::Message, Reply::Text(m)) => {
            &&& r.0 matches Flow::Commit(w2, q) && w2 == CommitWait::PushChoice && q == (CommitPlan {
                message: m,
                ..p
            })
            &&& r.1.action is Confirm
        },
        (CommitWait::PushChoice, Reply::Confirmed(b)) => checked(CommitPlan { push: b, ..p }, r),
        (CommitWait::History, Reply::HasCommits(b)) => if b {
            r.0 == Flow::Commit(CommitWait::AmendChoice, p) && r.1.action is Confirm
        } else {
            proceeded(p, r)
        },
        (CommitWait::AmendChoice, Reply::Confirmed(b)) => if b {
            proceeded(p, r)
        } else {
            ended_with(r, Outcome::NoOp, "Aborted."@)
        },
        (CommitWait::Root, Reply::Root(root)) => if p.push {
            branch_asked(p, Some(root@), r)
        } else {
            runs_commit(r, p, Some(root@))
        },
        (CommitWait::Branch(root), Reply::Branch(_)) => runs_commit(r, p, opt_view(root)),
        _ => ended(r, Outcome::Failed),
    }
}

/// A commit workflow's reply arrived.
pub fn commit_wait_next(w: CommitWait, p: CommitPlan, reply: Reply) -> (r: (Flow, Step))
    ensures
        commit_wait_step(w, p, reply, r),
{
    match (w, reply) {
        (CommitWait::Message, Reply::Text(m)) => {
            let q = CommitPlan { message: m, ..p };
            let s = step(Action::Confirm { title: owned("Push after committing?") });
            (Flow::Commit(CommitWait::PushChoice, q), s)
        },
        (CommitWait::PushChoice, Reply::Confirmed(b)) => commit_checks(CommitPlan { push: b, ..p }),
        (CommitWait::History, Reply::HasCommits(b)) => {
            if b {
                let mut notes: Vec<Note> = Vec::new();
                notes.push(
                    warn(
                        owned(
                            "⚠ Warning: amending a commit that may have been pushed can cause issues.",
                        ),
                    ),
                );
                notes.push(warn(owned("  Use --no-verify to skip this check if you're sure.")));
                let s = Step {
                    notes,
                    action: Action::Confirm { title: owned("Continue with amend?") },
                };
                (Flow::Commit(CommitWait::AmendChoice, p), s)
            } else {
                commit_proceed(p)
            }
        },
        (CommitWait::AmendChoice, Reply::Confirmed(b)) => {
            if b {
                commit_proceed(p)
            } else {
                end(Outcome::NoOp, "Aborted.")
            }
        },
        (CommitWait::Root, Reply::Root(root)) => {
            if p.push {
                (Flow::Commit(CommitWait::Branch(Some(root)), p), query(Query::CurrentBranch))
            } else {
                commit_run(p, Some(root), None)
            }
        },
        (CommitWait::Branch(root), Reply::Branch(b)) => commit_run(p, root, Some(b)),
        _ => end(Outcome::Failed, "unexpected reply in a commit"),
    }
}

/// A commit asked to take only staged changes and also to stage everything
/// is refused as a usage error before any invocation.
pub proof fn lemma_staged_with_all_refused(
    message: Option<String>,
    unstaged: bool,
    push: bool,
    amend: bool,
    skip_hooks: bool,
    r: (Flow, Step),
)
    requires
        commit_started(message, true, true, unstaged, push, amend, skip_hooks, r),
    ensures
        ended(r, Outcome::Usage),
        message matches Some(m) && trimmed(m@).len() > 0 ==> ended_with(
            r,
            Outcome::Usage,
            "cannot combine --staged with --all or --unstaged"@,
        ),
        !(r.1.action is Git),
{
}

} // verus!
