//! Exchanging commits with a remote: push, pull, and sync, which fetches,
//! pulls and pushes, deciding after each failure whether to go on.
use vstd::prelude::*;

use crate::flow::{
    args1, args2, Action, Flow, GitCall, Mode, Note, Outcome, Query, Reply, Step, asks, end, ended,
    ended_with, query, runs, single, warn, with,
};
use crate::hint::{failure_message, failure_text};
use crate::text::{lowercase_of, to_lowercase, contains, join2, occurs_in, owned, texts};

verus! {

/// The remote and branch a sync works with.
#[derive(Debug)]
pub struct SyncTarget {
    pub remote: Option<String>,
    pub branch: Option<String>,
}

/// What a sync waits for. A failure whose remedy names the current branch
/// keeps its message while the branch is asked for.
#[derive(Debug)]
pub enum SyncWait {
    Fetch,
    Pull,
    Push,
    PullUpstream(String),
    PushUpstream(String),
}

pub open spec fn opt_view(o: Option<String>) -> Option<Seq<char>> {
    match o {
        Some(s) => Some(s@),
        None => None,
    }
}

/// `verb`, then the remote, then the branch when a remote is given.
pub open spec fn remote_argv(verb: Seq<char>, remote: Option<Seq<char>>, branch: Option<
    Seq<char>,
>) -> Seq<Seq<char>> {
    seq![verb] + match remote {
        Some(r) => seq![r] + match branch {
            Some(b) => seq![b],
            None => seq![],
        },
        None => seq![],
    }
}

/// The remote a sync fetches from: the one given, else `origin`.
pub open spec fn fetch_argv(remote: Option<Seq<char>>) -> Seq<Seq<char>> {
    seq!["fetch"@, match remote {
        Some(r) => r,
        None => "origin"@,
    }]
}

/// The stage of a sync whose invocation failed.
#[derive(Clone, Copy, Debug, PartialEq, Eq, Structural)]
pub enum SyncStage {
    Fetch,
    Pull,
    Push,
}

/// What a sync does after a failed stage.
#[derive(Clone, Copy, Debug, PartialEq, Eq, Structural)]
pub enum Verdict {
    /// Stop with the failure.
    Abort,
    /// Stop with the failure, after asking for the current branch to name it
    /// in the remedy.
    Explain,
    /// Warn and go on to the next stage.
    GoOn,
}

// The markers below are matched against the lower-cased error text.
pub open spec fn is_network_error(e: Seq<char>) -> bool {
    occurs_in(e, "could not resolve host"@) || occurs_in(e, "network"@)
}

pub open spec fn is_conflict(e: Seq<char>) -> bool {
    occurs_in(e, "conflict"@)
}

pub open spec fn is_pull_no_upstream(e: Seq<char>) -> bool {
    occurs_in(e, "no tracking information"@)
}

pub open spec fn is_rejected(e: Seq<char>) -> bool {
    occurs_in(e, "rejected"@)
}

pub open spec fn is_push_no_upstream(e: Seq<char>) -> bool {
    occurs_in(e, "no upstream branch"@)
}

/// What a sync does when `stage` fails with lower-cased error text `l`: a
/// fetch stops only for want of a network; a pull stops on a conflict or for
/// want of an upstream, else the push is tried anyway; a push always stops.
pub open spec fn verdict_of(stage: SyncStage, l: Seq<char>) -> Verdict {
    match stage {
        SyncStage::Fetch => if is_network_error(l) {
            Verdict::Abort
        } else {
            Verdict::GoOn
        },
        SyncStage::Pull => if is_conflict(l) {
            Verdict::Abort
        } else if is_pull_no_upstream(l) {
            Verdict::Explain
        } else {
            Verdict::GoOn
        },
        SyncStage::Push => if is_push_no_upstream(l) && !is_rejected(l) {
            Verdict::Explain
        } else {
            Verdict::Abort
        },
    }
}

/// What a sync does when `stage` fails with lower-cased error text `lower`.
pub fn sync_verdict(stage: SyncStage, lower: &str) -> (r: Verdict)
    ensures
        r == verdict_of(stage, lower@),
{
    match stage {
        SyncStage::Fetch => {
            if contains(lower, "could not resolve host") || contains(lower, "network") {
                Verdict::Abort
            } else {
                Verdict::GoOn
            }
        },
        SyncStage::Pull => {
            if contains(lower, "conflict") {
                Verdict::Abort
            } else if contains(lower, "no tracking information") {
                Verdict::Explain
            } else {
                Verdict::GoOn
            }
        },
        SyncStage::Push => {
            if contains(lower, "no upstream branch") && !contains(lower, "rejected") {
                Verdict::Explain
            } else {
                Verdict::Abort
            }
        },
    }
}

/// The step's first line is the warning `w`, on the error stream.
pub open spec fn warned(s: Step, w: Seq<char>) -> bool {
    s.notes@.len() > 0 && s.notes@[0].to_stderr && s.notes@[0].text@ == w
}

impl SyncTarget {
    pub open spec fn pull_argv(&self) -> Seq<Seq<char>> {
        remote_argv("pull"@, opt_view(self.remote), opt_view(self.branch))
    }

    pub open spec fn push_argv(&self) -> Seq<Seq<char>> {
        remote_argv("push"@, opt_view(self.remote), opt_view(self.branch))
    }

    pub open spec fn fetch_argv(&self) -> Seq<Seq<char>> {
        fetch_argv(opt_view(self.remote))
    }
}

/// The sync moved on to `w`, invoking the tool with `argv`.
pub open spec fn sync_goes(t: SyncTarget, w: SyncWait, argv: Seq<Seq<char>>, r: (Flow, Step)) -> bool {
    &&& r.0 == Flow::Sync(w, t)
    &&& r.1.action matches Action::Git(c) && c.argv() == argv && c.dir is None
}

/// The arguments `verb [remote [branch]]`.
pub fn remote_args(verb: &str, remote: &Option<String>, branch: &Option<String>) -> (r: Vec<
    String,
>)
    ensures
        texts(r@) == remote_argv(verb@, opt_view(*remote), opt_view(*branch)),
{
    let mut args = args1(verb);
    match remote {
        Some(rm) => {
            args = with(args, rm.as_str());
            match branch {
                Some(b) => {
                    args = with(args, b.as_str());
                },
                None => {},
            }
        },
        None => {},
    }
    assert(texts(args@) =~= remote_argv(verb@, opt_view(*remote), opt_view(*branch)));
    args
}

/// How `push` starts: refused for a branch without a remote, else running.
pub open spec fn push_started(remote: Option<String>, branch: Option<String>, r: (Flow, Step)) -> bool {
    &&& remote is None && branch is Some ==> ended_with(
        r,
        Outcome::Usage,
        "cannot specify --branch without --remote"@,
    )
    &&& !(remote is None && branch is Some) ==> runs(
        r,
        seq![remote_argv("push"@, opt_view(remote), opt_view(branch))],
    )
}

/// A progress line: `lead`, then `prep` and the remote, then `/` and the
/// branch, each when given, then an ellipsis.
fn progress(lead: &str, prep: &str, remote: &Option<String>, branch: &Option<String>) -> (r: String)
    ensures
        r@ == lead@ + (match *remote {
            Some(x) => prep@ + x@,
            None => seq![],
        }) + (match *branch {
            Some(b) => "/"@ + b@,
            None => seq![],
        }) + "..."@,
{
    let mut line = owned(lead);
    match remote {
        Some(x) => {
            line = line.concat(prep).concat(x.as_str());
        },
        None => {},
    }
    match branch {
        Some(b) => {
            line = line.concat("/").concat(b.as_str());
        },
        None => {},
    }
    line.concat("...")
}

/// Starts `push`; a branch without a remote is refused.
pub fn run_push(remote: Option<String>, branch: Option<String>) -> (r: (Flow, Step))
    ensures
        push_started(remote, branch, r),
{
    if remote.is_none() && branch.is_some() {
        end(Outcome::Usage, "cannot specify --branch without --remote")
    } else {
        let args = remote_args("push", &remote, &branch);
        let call = GitCall { args, dir: None, mode: Mode::Captured };
        let line = progress("→ Pushing", " to ", &remote, &branch);
        single(call, line.as_str(), "✓ Pushed successfully")
    }
}

/// Starts `pull`.
pub fn run_pull(remote: Option<String>, branch: Option<String>) -> (r: (Flow, Step))
    ensures
        runs(r, seq![remote_argv("pull"@, opt_view(remote), opt_view(branch))]),
{
    let args = remote_args("pull", &remote, &branch);
    let call = GitCall { args, dir: None, mode: Mode::Captured };
    let line = progress("→ Pulling", " from ", &remote, &branch);
    single(call, line.as_str(), "✓ Pulled successfully")
}

fn remote_name(t: &SyncTarget) -> (r: String)
    ensures
        r@ == t.fetch_argv()[1],
{
    match &t.remote {
        Some(rm) => rm.clone(),
        None => owned("origin"),
    }
}

/// Starts `sync`: fetch first.
pub fn run_sync(remote: Option<String>, branch: Option<String>) -> (r: (Flow, Step))
    ensures
        sync_goes(SyncTarget { remote, branch }, SyncWait::Fetch, fetch_argv(opt_view(remote)), r),
{
    let t = SyncTarget { remote, branch };
    let name = remote_name(&t);
    let args = args2("fetch", name.as_str());
    assert(texts(args@) =~= fetch_argv(opt_view(t.remote)));
    let mut notes: Vec<Note> = Vec::new();
    notes.push(Note { text: join2("→ Fetching from ", name.as_str()).concat("..."), to_stderr: false });
    let s = Step { notes, action: Action::Git(GitCall { args, dir: None, mode: Mode::Captured }) };
    (Flow::Sync(SyncWait::Fetch, t), s)
}

/// The step that invokes `args`, after a warning `lead` (if any) and the
/// progress line `before`.
fn sync_call(args: Vec<String>, lead: Option<String>, before: &str) -> (r: Step)
    ensures
        r.action matches Action::Git(c) && c.argv() == texts(args@) && c.dir is None,
        lead matches Some(w) ==> warned(r, w@),
{
    let mut notes: Vec<Note> = Vec::new();
    match lead {
        Some(w) => notes.push(warn(w)),
        None => {},
    }
    notes.push(Note { text: owned(before), to_stderr: false });
    Step { notes, action: Action::Git(GitCall { args, dir: None, mode: Mode::Captured }) }
}

pub open spec fn sync_step(w: SyncWait, t: SyncTarget, reply: Reply, r: (Flow, Step)) -> bool {
    match (w, reply) {
        (SyncWait::Fetch, Reply::Success) => sync_goes(t, SyncWait::Pull, t.pull_argv(), r),
        (SyncWait::Fetch, Reply::Failure(e)) => if verdict_of(SyncStage::Fetch, lowercase_of(e@))
            == Verdict::Abort {
            ended_with(r, Outcome::Failed, failure_text(t.fetch_argv(), e@))
        } else {
            &&& sync_goes(t, SyncWait::Pull, t.pull_argv(), r)
            &&& warned(
                r.1,
                "⚠ Fetch failed: "@ + failure_text(t.fetch_argv(), e@)
                    + "\n  Continuing with local state..."@,
            )
        },
        (SyncWait::Pull, Reply::Success) => sync_goes(t, SyncWait::Push, t.push_argv(), r),
        (SyncWait::Pull, Reply::Failure(e)) => match verdict_of(SyncStage::Pull, lowercase_of(e@)) {
            Verdict::Abort => ended_with(r, Outcome::Failed, failure_text(t.pull_argv(), e@)),
            Verdict::Explain => explaining(t, true, failure_text(t.pull_argv(), e@), r),
            Verdict::GoOn => {
                &&& sync_goes(t, SyncWait::Push, t.push_argv(), r)
                &&& warned(
                    r.1,
                    "⚠ Pull failed: "@ + failure_text(t.pull_argv(), e@)
                        + "\n  Attempting to push local changes anyway..."@,
                )
            },
        },
        (SyncWait::Push, Reply::Success) => ended(r, Outcome::Done),
        (SyncWait::Push, Reply::Failure(e)) => if verdict_of(SyncStage::Push, lowercase_of(e@))
            == Verdict::Explain {
            explaining(t, false, failure_text(t.push_argv(), e@), r)
        } else {
            ended_with(r, Outcome::Failed, failure_text(t.push_argv(), e@))
        },
        (SyncWait::PullUpstream(m), Reply::Branch(_)) => ended_with(r, Outcome::Failed, m@),
        (SyncWait::PushUpstream(m), Reply::Branch(_)) => ended_with(r, Outcome::Failed, m@),
        _ => ended(r, Outcome::Failed),
    }
}

/// The sync failed with message `m` for want of an upstream (on pull, or on
/// push), and asks for the current branch to name it in the remedy.
pub open spec fn explaining(t: SyncTarget, on_pull: bool, m: Seq<char>, r: (Flow, Step)) -> bool {
    &&& on_pull ==> (r.0 matches Flow::Sync(SyncWait::PullUpstream(x), t2) && t2 == t && x@ == m)
    &&& !on_pull ==> (r.0 matches Flow::Sync(SyncWait::PushUpstream(x), t2) && t2 == t && x@ == m)
    &&& asks(r.1, Query::CurrentBranch)
}

/// A sync's reply arrived.
pub fn sync_next(w: SyncWait, t: SyncTarget, reply: Reply) -> (r: (Flow, Step))
    ensures
        sync_step(w, t, reply, r),
{
    match (w, reply) {
        (SyncWait::Fetch, Reply::Success) => {
            let args = remote_args("pull", &t.remote, &t.branch);
            let s = sync_call(args, None, "✓ Fetch complete\n→ Pulling changes...");
            (Flow::Sync(SyncWait::Pull, t), s)
        },
        (SyncWait::Fetch, Reply::Failure(e)) => {
            let fetch = args2("fetch", remote_name(&t).as_str());
            assert(texts(fetch@) =~= t.fetch_argv());
            let m = failure_message(&fetch, e.as_str());
            let lower = to_lowercase(e.as_str());
            if matches!(sync_verdict(SyncStage::Fetch, lower.as_str()), Verdict::Abort) {
                let mut notes: Vec<Note> = Vec::new();
                let text = join2("✗ Network error: cannot reach '", remote_name(&t).as_str()).concat("'");
                notes.push(warn(text));
                (Flow::Ended, Step { notes, action: Action::Finish { outcome: Outcome::Failed, message: m } })
            } else {
                let lead = join2("⚠ Fetch failed: ", m.as_str()).concat("\n  Continuing with local state...");
                let args = remote_args("pull", &t.remote, &t.branch);
                let s = sync_call(args, Some(lead), "→ Pulling changes...");
                (Flow::Sync(SyncWait::Pull, t), s)
            }
        },
        (SyncWait::Pull, Reply::Success) => {
            let args = remote_args("push", &t.remote, &t.branch);
            let s = sync_call(args, None, "✓ Pull complete\n→ Pushing changes...");
            (Flow::Sync(SyncWait::Push, t), s)
        },
        (SyncWait::Pull, Reply::Failure(e)) => {
            let pull = remote_args("pull", &t.remote, &t.branch);
            let m = failure_message(&pull, e.as_str());
            let lower = to_lowercase(e.as_str());
            let verdict = sync_verdict(SyncStage::Pull, lower.as_str());
            if matches!(verdict, Verdict::Abort) {
                let mut notes: Vec<Note> = Vec::new();
                notes.push(warn(owned("✗ Pull failed due to merge conflicts\n  Resolve conflicts manually:\n    1. Edit conflicting files (marked with <<<<<<<)\n    2. Run 'sgit stage .' to stage resolved files\n    3. Run 'sgit commit' to complete the merge")));
                (Flow::Ended, Step { notes, action: Action::Finish { outcome: Outcome::Failed, message: m } })
            } else if matches!(verdict, Verdict::Explain) {
                (Flow::Sync(SyncWait::PullUpstream(m), t), query(Query::CurrentBranch))
            } else {
                let lead = join2("⚠ Pull failed: ", m.as_str()).concat("\n  Attempting to push local changes anyway...");
                let args = remote_args("push", &t.remote, &t.branch);
                let s = sync_call(args, Some(lead), "→ Pushing changes...");
                (Flow::Sync(SyncWait::Push, t), s)
            }
        },
        (SyncWait::Push, Reply::Success) => {
            end(Outcome::Done, "✓ Sync complete: fetched, pulled, and pushed successfully.")
        },
        (SyncWait::Push, Reply::Failure(e)) => {
            let push = remote_args("push", &t.remote, &t.branch);
            let m = failure_message(&push, e.as_str());
            let lower = to_lowercase(e.as_str());
            let rejected = contains(lower.as_str(), "rejected");
            if matches!(sync_verdict(SyncStage::Push, lower.as_str()), Verdict::Explain) {
                (Flow::Sync(SyncWait::PushUpstream(m), t), query(Query::CurrentBranch))
            } else {
                let mut notes: Vec<Note> = Vec::new();
                if rejected {
                    notes.push(warn(owned("✗ Push rejected: remote has new commits\n  Run 'sgit pull' first to integrate remote changes.")));
                } else {
                    notes.push(warn(owned("✗ Push failed")));
                }
                (Flow::Ended, Step { notes, action: Action::Finish { outcome: Outcome::Failed, message: m } })
            }
        },
        (SyncWait::PullUpstream(m), Reply::Branch(cur)) => {
            let tip = join2("✗ Branch has no upstream configured\n  Try: git branch --set-upstream-to=", remote_name(&t).as_str());
            let tip = tip.concat("/").concat(cur.as_str());
            let mut notes: Vec<Note> = Vec::new();
            notes.push(warn(tip));
            (Flow::Ended, Step { notes, action: Action::Finish { outcome: Outcome::Failed, message: m } })
        },
        (SyncWait::PushUpstream(m), Reply::Branch(cur)) => {
            let tip = join2("✗ No upstream branch configured\n  Try: git push -u ", remote_name(&t).as_str());
            let tip = tip.concat(" ").concat(cur.as_str());
            let mut notes: Vec<Note> = Vec::new();
            notes.push(warn(tip));
            (Flow::Ended, Step { notes, action: Action::Finish { outcome: Outcome::Failed, message: m } })
        },
        _ => end(Outcome::Failed, "unexpected reply in a sync"),
    }
}

/// A fetch whose error text, in any case, says the host could not be
/// resolved ends the sync at once: no pull or push follows.
pub proof fn lemma_sync_network_failure_aborts(t: SyncTarget, e: String, r: (Flow, Step))
    requires
        sync_step(SyncWait::Fetch, t, Reply::Failure(e), r),
        occurs_in(lowercase_of(e@), "could not resolve host"@),
    ensures
        ended(r, Outcome::Failed),
        r.0 is Ended,
{
}

/// A fetch that fails with neither a network nor a conflict marker in its
/// error text, in any case, does not stop the sync: a warning is shown and
/// the pull comes next.
pub proof fn lemma_sync_other_fetch_failure_pulls(t: SyncTarget, e: String, r: (Flow, Step))
    requires
        sync_step(SyncWait::Fetch, t, Reply::Failure(e), r),
        !is_network_error(lowercase_of(e@)),
        !is_conflict(lowercase_of(e@)),
    ensures
        sync_goes(t, SyncWait::Pull, t.pull_argv(), r),
        r.1.notes@.len() > 0 && r.1.notes@[0].to_stderr,
{
}

} // verus!
