//! Discarding changes: everything, one class of files, or files the user
//! picks, each handled by its own state.
use vstd::prelude::*;

use crate::flow::{
    args2, args3, Flow, GitCall, Mode, Outcome, Query, Reply, Run, Step, argvs, asks, end, ended,
    ended_with, git, invokes, issues, menu, offers, query, runs, single, start_run, with,
};
use crate::stage::Purpose;
use crate::status::{
    FileClass, FileEntry, entries_view, get_staged_files, get_unstaged_files, get_untracked_files,
    paths_of_class,
};
use crate::text::{owned, texts};
use crate::hint::{failure_text, same_text};

verus! {

/// The files picked for a custom reset, and how far the reset has got.
#[derive(Debug)]
pub struct ResetWalk {
    pub files: Vec<String>,
    /// The file being reset.
    pub i: usize,
    pub root: String,
}

impl ResetWalk {
    pub open spec fn wf(&self) -> bool {
        self.i < self.files@.len()
    }
}

pub open spec fn reset_menu() -> Seq<Seq<char>> {
    seq![
        "All files"@,
        "Staged files only"@,
        "Unstaged changes only"@,
        "Tracked files only"@,
        "Untracked files only"@,
        "Custom files"@,
    ]
}

/// The state codes of `file` in the entries: the first entry with that
/// path, or blanks when it has none.
pub open spec fn status_of(es: Seq<(char, char, Seq<char>)>, file: Seq<char>) -> (char, char)
    decreases es.len(),
{
    if es.len() == 0 {
        (' ', ' ')
    } else if es[0].2 == file {
        (es[0].0, es[0].1)
    } else {
        status_of(es.drop_first(), file)
    }
}

/// The invocations that reset one file in state `(x, y)`:
/// - an untracked file is removed;
/// - a file added to the index is unstaged only: it is then untracked, so
///   there is no tracked content to restore, and the file itself is kept;
/// - any other staged change is unstaged, then the file is restored;
/// - a worktree change alone is discarded;
/// - a file with no change needs nothing.
pub open spec fn file_reset_argvs(x: char, y: char, file: Seq<char>) -> Seq<Seq<Seq<char>>> {
    if x == '?' && y == '?' {
        seq![seq!["clean"@, "-f"@, file]]
    } else if x == 'A' {
        seq![seq!["restore"@, "--staged"@, file]]
    } else if x != ' ' {
        seq![seq!["restore"@, "--staged"@, file], seq!["restore"@, file]]
    } else if y != ' ' && y != '?' {
        seq![seq!["restore"@, file]]
    } else {
        seq![]
    }
}

/// The invocations that reset one class of files, once some file is in it.
pub open spec fn class_reset_argv(c: FileClass) -> Seq<Seq<char>> {
    match c {
        FileClass::Staged => seq!["restore"@, "--staged"@, "."@],
        FileClass::UnstagedModified => seq!["restore"@, "."@],
        _ => seq!["clean"@, "-fd"@],
    }
}

/// The custom reset of `paths` in `root` has begun: the first file's state
/// is asked for.
pub open spec fn walk_started(paths: Seq<Seq<char>>, root: Seq<char>, r: (Flow, Step)) -> bool {
    r.0 matches Flow::ResetEach(w) && texts(w.files@) == paths && w.i == 0 && w.root@ == root
        && asks(r.1, Query::Porcelain)
}

/// The walk moved past file `w.i`: on to the next file, or done.
pub open spec fn advanced(w: ResetWalk, r: (Flow, Step)) -> bool {
    if w.i + 1 < w.files@.len() {
        r.0 matches Flow::ResetEach(n) && n.files == w.files && n.root == w.root && n.i == w.i
            + 1 && asks(r.1, Query::Porcelain)
    } else {
        ended_with(r, Outcome::Done, "✓ Selected files reset."@)
    }
}

/// The workflow for reset scope `k`, numbered as in the menu.
pub open spec fn reset_scope_step(k: usize, r: (Flow, Step)) -> bool {
    &&& k == 0 ==> runs(r, seq![seq!["reset"@, "--hard"@], seq!["clean"@, "-fd"@]])
    &&& k == 1 ==> r.0 == Flow::ResetCheck(FileClass::Staged) && asks(r.1, Query::Porcelain)
    &&& k == 2 ==> r.0 == Flow::ResetCheck(FileClass::UnstagedModified) && asks(
        r.1,
        Query::Porcelain,
    )
    &&& k == 3 ==> runs(r, seq![seq!["reset"@, "--hard"@]])
    &&& k == 4 ==> r.0 == Flow::ResetCheck(FileClass::Untracked) && asks(r.1, Query::Porcelain)
    &&& k == 5 ==> r.0 == Flow::Listing(Purpose::Reset) && asks(r.1, Query::Porcelain)
    &&& k > 5 ==> ended(r, Outcome::NoOp)
}

/// The workflow for reset scope `k`, numbered as in the menu.
pub fn reset_scope(k: usize) -> (r: (Flow, Step))
    ensures
        reset_scope_step(k, r),
{
    if k == 0 {
        let mut calls: Vec<GitCall> = Vec::new();
        calls.push(git(args2("reset", "--hard"), Mode::Quiet));
        calls.push(git(args2("clean", "-fd"), Mode::Quiet));
        let mut notes: Vec<String> = Vec::new();
        notes.push(String::new());
        notes.push(String::new());
        let (run, s) = start_run(calls, notes, owned("✓ All files reset."));
        assert(argvs(run.calls@) =~= seq![seq!["reset"@, "--hard"@], seq!["clean"@, "-fd"@]]);
        (Flow::Running(run), s)
    } else if k == 1 {
        (Flow::ResetCheck(FileClass::Staged), query(Query::Porcelain))
    } else if k == 2 {
        (Flow::ResetCheck(FileClass::UnstagedModified), query(Query::Porcelain))
    } else if k == 3 {
        single(git(args2("reset", "--hard"), Mode::Quiet), "", "✓ Tracked files reset.")
    } else if k == 4 {
        (Flow::ResetCheck(FileClass::Untracked), query(Query::Porcelain))
    } else if k == 5 {
        (Flow::Listing(Purpose::Reset), query(Query::Porcelain))
    } else {
        end(Outcome::NoOp, "")
    }
}

/// How `reset` starts: with its menu when no flag is given, else as the
/// first flag given asks.
pub open spec fn reset_started(
    all: bool,
    staged: bool,
    unstaged: bool,
    tracked_only: bool,
    untracked: bool,
    r: (Flow, Step),
) -> bool {
    &&& !all && !staged && !unstaged && !tracked_only && !untracked ==> r.0 is ResetMenu && offers(
        r.1,
        reset_menu(),
    )
    &&& all ==> reset_scope_step(0, r)
    &&& !all && staged ==> reset_scope_step(1, r)
    &&& !all && !staged && unstaged ==> reset_scope_step(2, r)
    &&& !all && !staged && !unstaged && tracked_only ==> reset_scope_step(3, r)
    &&& !all && !staged && !unstaged && !tracked_only && untracked ==> reset_scope_step(4, r)
}

/// Starts `reset`: interactive when no flag is given; otherwise the first
/// flag given, in the order all, staged, unstaged, tracked, untracked.
pub fn run_reset(all: bool, staged: bool, unstaged: bool, tracked_only: bool, untracked: bool) -> (r: (
    Flow,
    Step,
))
    ensures
        reset_started(all, staged, unstaged, tracked_only, untracked, r),
{
    if !all && !staged && !unstaged && !tracked_only && !untracked {
        let items = with(
            with(
                with(
                    args3("All files", "Staged files only", "Unstaged changes only"),
                    "Tracked files only",
                ),
                "Untracked files only",
            ),
            "Custom files",
        );
        assert(texts(items@) =~= reset_menu());
        (Flow::ResetMenu, menu("What would you like to reset?", items))
    } else if all {
        reset_scope(0)
    } else if staged {
        reset_scope(1)
    } else if unstaged {
        reset_scope(2)
    } else if tracked_only {
        reset_scope(3)
    } else {
        reset_scope(4)
    }
}

pub open spec fn reset_menu_step(reply: Reply, r: (Flow, Step)) -> bool {
    match reply {
        Reply::Chosen(k) => reset_scope_step(k, r),
        _ => ended(r, Outcome::Failed),
    }
}

/// The reset menu's answer.
pub fn reset_menu_next(reply: Reply) -> (r: (Flow, Step))
    ensures
        reset_menu_step(reply, r),
{
    match reply {
        Reply::Chosen(k) => reset_scope(k),
        _ => end(Outcome::Failed, "unexpected reply to a menu"),
    }
}

/// What is said when no file is in class `c`.
pub open spec fn nothing_text(c: FileClass) -> Seq<char> {
    match c {
        FileClass::Staged => "No staged files to reset."@,
        FileClass::UnstagedModified => "No unstaged changes to reset."@,
        FileClass::Untracked => "No untracked files to reset."@,
        FileClass::Other => seq![],
    }
}

pub open spec fn reset_check_step(c: FileClass, reply: Reply, r: (Flow, Step)) -> bool {
    match reply {
        Reply::Entries(es) => {
            let n = paths_of_class(entries_view(es@), c).len();
            &&& c == FileClass::Other ==> ended(r, Outcome::Failed)
            &&& c != FileClass::Other && n == 0 ==> ended_with(r, Outcome::NoOp, nothing_text(c))
            &&& c != FileClass::Other && n > 0 ==> runs(r, seq![class_reset_argv(c)])
        },
        _ => ended(r, Outcome::Failed),
    }
}

/// The status arrived for a reset of one class: reset it, or say there is
/// nothing to reset.
pub fn reset_check_next(c: FileClass, reply: Reply) -> (r: (Flow, Step))
    ensures
        reset_check_step(c, reply, r),
{
    match reply {
        Reply::Entries(es) => {
            match c {
                FileClass::Staged => {
                    if get_staged_files(&es).len() == 0 {
                        end(Outcome::NoOp, "No staged files to reset.")
                    } else {
                        let args = args3("restore", "--staged", ".");
                        single(git(args, Mode::Quiet), "", "✓ Staged files reset.")
                    }
                },
                FileClass::UnstagedModified => {
                    if get_unstaged_files(&es).len() == 0 {
                        end(Outcome::NoOp, "No unstaged changes to reset.")
                    } else {
                        let args = args2("restore", ".");
                        single(git(args, Mode::Quiet), "", "✓ Unstaged changes reset.")
                    }
                },
                FileClass::Untracked => {
                    if get_untracked_files(&es).len() == 0 {
                        end(Outcome::NoOp, "No untracked files to reset.")
                    } else {
                        let args = args2("clean", "-fd");
                        single(git(args, Mode::Quiet), "", "✓ Untracked files removed.")
                    }
                },
                FileClass::Other => end(Outcome::Failed, "no reset is defined for that class"),
            }
        },
        _ => end(Outcome::Failed, "unexpected reply to a status query"),
    }
}

/// Starts the custom reset of `paths` in `root`.
pub fn reset_walk_start(paths: Vec<String>, root: String) -> (r: (Flow, Step))
    requires
        paths@.len() > 0,
    ensures
        walk_started(texts(paths@), root@, r),
{
    (Flow::ResetEach(ResetWalk { files: paths, i: 0, root }), query(Query::Porcelain))
}

/// The state codes of `file`, as `status_of` gives them.
pub fn find_status(es: &Vec<FileEntry>, file: &str) -> (r: (char, char))
    ensures
        r == status_of(entries_view(es@), file@),
{
    let ghost v = entries_view(es@);
    let mut k: usize = 0;
    assert(v.subrange(0, v.len() as int) =~= v);
    while k < es.len()
        invariant
            k <= es@.len(),
            v == entries_view(es@),
            status_of(v, file@) == status_of(v.subrange(k as int, v.len() as int), file@),
        decreases es.len() - k,
    {
        let ghost rest = v.subrange(k as int, v.len() as int);
        assert(rest[0] == es@[k as int]@);
        if same_text(es[k].path.as_str(), file) {
            return (es[k].index, es[k].worktree);
        }
        assert(rest.drop_first() =~= v.subrange(k + 1, v.len() as int));
        k = k + 1;
    }
    assert(v.subrange(k as int, v.len() as int) =~= Seq::<(char, char, Seq<char>)>::empty());
    (' ', ' ')
}

/// Leaves file `w.i` behind: on to the next file, or done.
fn advance(w: ResetWalk) -> (r: (Flow, Step))
    requires
        w.wf(),
    ensures
        advanced(w, r),
{
    if w.i < w.files.len() - 1 {
        let n = ResetWalk { files: w.files, i: w.i + 1, root: w.root };
        (Flow::ResetEach(n), query(Query::Porcelain))
    } else {
        end(Outcome::Done, "✓ Selected files reset.")
    }
}

pub open spec fn reset_each_step(w: ResetWalk, reply: Reply, r: (Flow, Step)) -> bool {
    match reply {
        Reply::Entries(es) => {
            let file = w.files@[w.i as int]@;
            let st = status_of(entries_view(es@), file);
            let plan = file_reset_argvs(st.0, st.1, file);
            &&& plan.len() == 0 ==> advanced(w, r)
            &&& plan.len() > 0 ==> resetting(w, plan, r)
        },
        _ => ended(r, Outcome::Failed),
    }
}

/// The invocations `plan` that reset file `w.i` start, in the root.
pub open spec fn resetting(w: ResetWalk, plan: Seq<Seq<Seq<char>>>, r: (Flow, Step)) -> bool {
    &&& r.0 matches Flow::ResetFile(n, run) && n == w && issues(run, r.1, plan)
    &&& r.0 matches Flow::ResetFile(n, run) && forall|j: int|
        0 <= j < run.calls@.len() ==> #[trigger] run.calls@[j].dir_view() == Some(w.root@)
}

/// An invocation in the repository root.
fn git_at(args: Vec<String>, root: &String) -> (r: GitCall)
    ensures
        r.argv() == texts(args@),
        r.dir_view() == Some(root@),
        r.mode == Mode::Quiet,
{
    GitCall { args, dir: Some(root.clone()), mode: Mode::Quiet }
}

/// The status arrived for the file being reset: reset it.
pub fn reset_each_next(w: ResetWalk, reply: Reply) -> (r: (Flow, Step))
    requires
        w.wf(),
    ensures
        reset_each_step(w, reply, r),
{
    match reply {
        Reply::Entries(es) => {
            let file = w.files[w.i].as_str();
            let (x, y) = find_status(&es, file);
            let mut calls: Vec<GitCall> = Vec::new();
            if x == '?' && y == '?' {
                calls.push(git_at(args3("clean", "-f", file), &w.root));
            } else if x == 'A' {
                calls.push(git_at(args3("restore", "--staged", file), &w.root));
            } else if x != ' ' {
                calls.push(git_at(args3("restore", "--staged", file), &w.root));
                calls.push(git_at(args2("restore", file), &w.root));
            } else if y != ' ' && y != '?' {
                calls.push(git_at(args2("restore", file), &w.root));
            }
            let ghost plan = file_reset_argvs(x, y, w.files@[w.i as int]@);
            assert(argvs(calls@) =~= plan);
            if calls.len() == 0 {
                advance(w)
            } else {
                let mut notes: Vec<String> = Vec::new();
                let mut k: usize = 0;
                while k < calls.len()
                    invariant
                        k <= calls@.len(),
                        notes@.len() == k,
                    decreases calls.len() - k,
                {
                    notes.push(String::new());
                    k = k + 1;
                }
                let (run, s) = start_run(calls, notes, String::new());
                (Flow::ResetFile(w, run), s)
            }
        },
        _ => end(Outcome::Failed, "unexpected reply to a status query"),
    }
}

pub open spec fn reset_file_step(w: ResetWalk, run: Run, reply: Reply, r: (Flow, Step)) -> bool {
    &&& reply is Success && run.at + 1 == run.calls@.len() ==> advanced(w, r)
    &&& reply is Success && run.at + 1 < run.calls@.len() ==> (r.0 matches Flow::ResetFile(
        n,
        m,
    ) && n == w && m.wf() && m.at == run.at + 1 && m.calls@ == run.calls@ && invokes(
        r.1,
        run.calls@[run.at + 1],
    ))
    &&& reply matches Reply::Failure(e) ==> ended_with(
        r,
        Outcome::Failed,
        failure_text(run.calls@[run.at as int].argv(), e@),
    )
    &&& !(reply is Success) && !(reply is Failure) ==> ended(r, Outcome::Failed)
}

/// An invocation for the file being reset returned.
pub fn reset_file_next(w: ResetWalk, run: Run, reply: Reply) -> (r: (Flow, Step))
    requires
        w.wf(),
        run.wf(),
    ensures
        reset_file_step(w, run, reply, r),
{
    let last = run.at == run.calls.len() - 1;
    if matches!(reply, Reply::Success) && last {
        advance(w)
    } else {
        let (n, s) = run.next(reply);
        match n {
            Some(m) => (Flow::ResetFile(w, m), s),
            None => (Flow::Ended, s),
        }
    }
}

} // verus!
