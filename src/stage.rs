//! Staging and unstaging, and the file selection the interactive flows
//! share: list the candidates, let the user pick, find the repository root.
use vstd::prelude::*;

use crate::commit::{CommitPlan, commit_after_pick, message_asked};
use crate::flow::{
    no_args, args1, args2, args3, Action, Flow, GitCall, Mode, Outcome, Query, Reply, Step, asks,
    end, ended, ended_with, git, menu, offers, query, runs, runs_in, single, step, with, with_all,
};
use crate::reset::{reset_walk_start, walk_started};
use crate::status::{
    FileClass, entries_view, get_all_uncommitted_files, get_staged_files, get_unstaged_files,
    paths_of_class,
};
use crate::text::{decimal, decimal_of, join2, lemma_texts_push, owned, texts};

verus! {

/// What a file selection is for.
#[derive(Debug)]
pub enum Purpose {
    Stage,
    Unstage,
    Reset,
    Commit(CommitPlan),
}

/// The arguments that stage `targets`, the whole tree when none is given.
pub open spec fn stage_argv(targets: Seq<Seq<char>>) -> Seq<Seq<char>> {
    seq!["add"@] + if targets.len() == 0 {
        seq!["."@]
    } else {
        targets
    }
}

/// The arguments that unstage `targets`, everything when none is given.
pub open spec fn unstage_argv(targets: Seq<Seq<char>>) -> Seq<Seq<char>> {
    seq!["restore"@, "--staged"@] + if targets.len() == 0 {
        seq!["."@]
    } else {
        targets
    }
}

/// Staging some paths and then unstaging the same paths name exactly the
/// same paths, in the same order, in both invocations.
pub proof fn lemma_stage_unstage_same_paths(paths: Seq<Seq<char>>)
    ensures
        stage_argv(paths).subrange(1, stage_argv(paths).len() as int) == unstage_argv(
            paths,
        ).subrange(2, unstage_argv(paths).len() as int),
        paths.len() > 0 ==> stage_argv(paths).subrange(1, stage_argv(paths).len() as int)
            == paths,
{
    assert(stage_argv(paths).subrange(1, stage_argv(paths).len() as int) =~= unstage_argv(
        paths,
    ).subrange(2, unstage_argv(paths).len() as int));
    if paths.len() > 0 {
        assert(stage_argv(paths).subrange(1, stage_argv(paths).len() as int) =~= paths);
    }
}

/// The files offered for selection, from the repository's status entries.
pub open spec fn candidates(p: Purpose, es: Seq<(char, char, Seq<char>)>) -> Seq<Seq<char>> {
    match p {
        Purpose::Stage => paths_of_class(es, FileClass::UnstagedModified),
        Purpose::Unstage => paths_of_class(es, FileClass::Staged),
        _ => es.map_values(|e: (char, char, Seq<char>)| e.2),
    }
}

/// The files at the chosen positions, in the order chosen; positions past
/// the end are ignored.
pub open spec fn picked(files: Seq<Seq<char>>, sel: Seq<usize>) -> Seq<Seq<char>> {
    sel.filter_map(
        |i: usize|
            if i < files.len() {
                Some(files[i as int])
            } else {
                None
            },
    )
}

pub open spec fn stage_menu() -> Seq<Seq<char>> {
    seq!["All files"@, "Tracked files only"@, "Specific files"@]
}

pub open spec fn unstage_menu() -> Seq<Seq<char>> {
    seq!["All staged files"@, "Specific files"@]
}

/// `lead`, then the count, then " file(s)".
pub fn counted(lead: &str, n: usize) -> (r: String)
    ensures
        r@ == lead@ + decimal_of(n as nat) + " file(s)"@,
{
    let d = decimal(n);
    let s = join2(lead, d.as_str());
    s.concat(" file(s)")
}

/// The arguments with which to stage all files.
fn add_all() -> (r: Vec<String>)
    ensures
        texts(r@) == seq!["add"@, "-A"@],
{
    args2("add", "-A")
}

/// The arguments with which to stage changes to tracked files.
fn add_tracked() -> (r: Vec<String>)
    ensures
        texts(r@) == seq!["add"@, "-u"@],
{
    args2("add", "-u")
}

fn unstage_all() -> (r: Vec<String>)
    ensures
        texts(r@) == seq!["restore"@, "--staged"@, "."@],
{
    args3("restore", "--staged", ".")
}

/// How `stage` starts: with its menu when no target and no flag is given,
/// else by staging everything, tracked changes, or the targets.
pub open spec fn stage_started(
    targets: Seq<Seq<char>>,
    all: bool,
    tracked_only: bool,
    r: (Flow, Step),
) -> bool {
    &&& targets.len() == 0 && !all && !tracked_only ==> r.0 is StageMenu && offers(
        r.1,
        stage_menu(),
    )
    &&& all ==> runs(r, seq![seq!["add"@, "-A"@]])
    &&& !all && tracked_only ==> runs(r, seq![seq!["add"@, "-u"@]])
    &&& !all && !tracked_only && targets.len() > 0 ==> runs(r, seq![stage_argv(targets)])
}

/// Starts `stage`: interactive when no target and no flag is given.
pub fn stage_targets(targets: &Vec<String>, all: bool, tracked_only: bool) -> (r: (Flow, Step))
    ensures
        stage_started(texts(targets@), all, tracked_only, r),
{
    if targets.len() == 0 && !all && !tracked_only {
        let items = args3("All files", "Tracked files only", "Specific files");
        (Flow::StageMenu, menu("What would you like to stage?", items))
    } else if all {
        single(git(add_all(), Mode::Quiet), "", "✓ Staged all files")
    } else if tracked_only {
        single(git(add_tracked(), Mode::Quiet), "", "✓ Staged tracked files")
    } else {
        let args = with_all(args1("add"), targets);
        assert(texts(args@) =~= stage_argv(texts(targets@)));
        single(git(args, Mode::Quiet), "", "✓ Staged files")
    }
}

pub open spec fn stage_menu_step(reply: Reply, r: (Flow, Step)) -> bool {
    match reply {
        Reply::Chosen(k) => {
            &&& k == 0 ==> runs(r, seq![seq!["add"@, "-A"@]])
            &&& k == 1 ==> runs(r, seq![seq!["add"@, "-u"@]])
            &&& k == 2 ==> r.0 == Flow::Listing(Purpose::Stage) && asks(r.1, Query::Porcelain)
            &&& k > 2 ==> ended(r, Outcome::NoOp)
        },
        _ => ended(r, Outcome::Failed),
    }
}

/// The stage menu's answer.
pub fn stage_menu_next(reply: Reply) -> (r: (Flow, Step))
    ensures
        stage_menu_step(reply, r),
{
    match reply {
        Reply::Chosen(0) => single(git(add_all(), Mode::Quiet), "", "✓ Staged all files"),
        Reply::Chosen(1) => single(git(add_tracked(), Mode::Quiet), "", "✓ Staged tracked files"),
        Reply::Chosen(2) => (Flow::Listing(Purpose::Stage), query(Query::Porcelain)),
        Reply::Chosen(_) => end(Outcome::NoOp, ""),
        _ => end(Outcome::Failed, "unexpected reply to a menu"),
    }
}

/// How `unstage` starts: with its menu when no target and no flag is
/// given, else by unstaging everything or the targets.
pub open spec fn unstage_started(targets: Seq<Seq<char>>, all: bool, r: (Flow, Step)) -> bool {
    &&& targets.len() == 0 && !all ==> r.0 is UnstageMenu && offers(r.1, unstage_menu())
    &&& all ==> runs(r, seq![seq!["restore"@, "--staged"@, "."@]])
    &&& !all && targets.len() > 0 ==> runs(r, seq![unstage_argv(targets)])
}

/// Starts `unstage`: interactive when no target and no flag is given.
pub fn restore_stage(targets: &Vec<String>, all: bool) -> (r: (Flow, Step))
    ensures
        unstage_started(texts(targets@), all, r),
{
    if targets.len() == 0 && !all {
        let items = args2("All staged files", "Specific files");
        (Flow::UnstageMenu, menu("What would you like to unstage?", items))
    } else if all {
        single(git(unstage_all(), Mode::Quiet), "", "✓ All files unstaged")
    } else {
        let args = with_all(args2("restore", "--staged"), targets);
        assert(texts(args@) =~= unstage_argv(texts(targets@)));
        single(git(args, Mode::Quiet), "", "✓ Files unstaged")
    }
}

pub open spec fn unstage_menu_step(reply: Reply, r: (Flow, Step)) -> bool {
    match reply {
        Reply::Chosen(k) => {
            &&& k == 0 ==> runs(r, seq![seq!["restore"@, "--staged"@, "."@]])
            &&& k == 1 ==> r.0 == Flow::Listing(Purpose::Unstage) && asks(r.1, Query::Porcelain)
            &&& k > 1 ==> ended(r, Outcome::NoOp)
        },
        _ => ended(r, Outcome::Failed),
    }
}

/// The unstage menu's answer.
pub fn unstage_menu_next(reply: Reply) -> (r: (Flow, Step))
    ensures
        unstage_menu_step(reply, r),
{
    match reply {
        Reply::Chosen(0) => single(git(unstage_all(), Mode::Quiet), "", "✓ All files unstaged"),
        Reply::Chosen(1) => (Flow::Listing(Purpose::Unstage), query(Query::Porcelain)),
        Reply::Chosen(_) => end(Outcome::NoOp, ""),
        _ => end(Outcome::Failed, "unexpected reply to a menu"),
    }
}

/// The files at the chosen positions.
pub fn pick(files: &Vec<String>, sel: &Vec<usize>) -> (r: Vec<String>)
    ensures
        texts(r@) == picked(texts(files@), sel@),
{
    let ghost fs = texts(files@);
    let ghost f = |i: usize|
        if i < fs.len() {
            Some(fs[i as int])
        } else {
            None
        };
    let mut out: Vec<String> = Vec::new();
    let mut k: usize = 0;
    while k < sel.len()
        invariant
            k <= sel@.len(),
            fs == texts(files@),
            f == (|i: usize|
                if i < fs.len() {
                    Some(fs[i as int])
                } else {
                    None
                }),
            texts(out@) == sel@.take(k as int).filter_map(f),
        decreases sel.len() - k,
    {
        proof {
            sel@.lemma_filter_map_take_succ(f, k as int);
        }
        let i = sel[k];
        if i < files.len() {
            let x = files[i].clone();
            proof {
                lemma_texts_push(out@, x);
            }
            out.push(x);
        }
        k = k + 1;
    }
    assert(sel@.take(k as int) =~= sel@);
    out
}

/// What the multi-select is titled, and what is said when there is nothing
/// to offer.
fn purpose_texts(p: &Purpose) -> (r: (&'static str, &'static str))
    ensures
        r.1@ == none_text(*p),
{
    match p {
        Purpose::Stage => ("Select files to stage", "No unstaged files to stage."),
        Purpose::Unstage => ("Select files to unstage", "No staged files to unstage."),
        Purpose::Reset => ("Select files to reset", "No files to reset."),
        Purpose::Commit(_) => ("Select files to stage", "No files to commit."),
    }
}

/// What is said when there is nothing to offer for `p`.
pub open spec fn none_text(p: Purpose) -> Seq<char> {
    match p {
        Purpose::Stage => "No unstaged files to stage."@,
        Purpose::Unstage => "No staged files to unstage."@,
        Purpose::Reset => "No files to reset."@,
        Purpose::Commit(_) => "No files to commit."@,
    }
}

pub open spec fn listing_step(p: Purpose, reply: Reply, r: (Flow, Step)) -> bool {
    match reply {
        Reply::Entries(es) => {
            let files = candidates(p, entries_view(es@));
            &&& files.len() == 0 ==> ended_with(r, Outcome::NoOp, none_text(p))
            &&& files.len() > 0 ==> offered(p, files, r)
        },
        _ => ended(r, Outcome::Failed),
    }
}

/// The user is asked to pick among `files`, for `p`.
pub open spec fn offered(p: Purpose, files: Seq<Seq<char>>, r: (Flow, Step)) -> bool {
    &&& r.0 matches Flow::Picking(q, fs) && q == p && texts(fs@) == files
    &&& r.1.action matches Action::ChooseMany { items, .. } && texts(items@) == files
}

/// The status entries arrived: offer the candidate files.
pub fn listing_next(p: Purpose, reply: Reply) -> (r: (Flow, Step))
    ensures
        listing_step(p, reply, r),
{
    match reply {
        Reply::Entries(es) => {
            let files = match &p {
                Purpose::Stage => get_unstaged_files(&es),
                Purpose::Unstage => get_staged_files(&es),
                _ => get_all_uncommitted_files(&es),
            };
            let (title, none) = purpose_texts(&p);
            if files.len() == 0 {
                end(Outcome::NoOp, none)
            } else {
                let items = with_all(no_args(), &files);
                let s = step(Action::ChooseMany { title: owned(title), items });
                (Flow::Picking(p, files), s)
            }
        },
        _ => end(Outcome::Failed, "unexpected reply to a status query"),
    }
}

pub open spec fn picking_step(
    p: Purpose,
    files: Seq<Seq<char>>,
    reply: Reply,
    r: (Flow, Step),
) -> bool {
    match reply {
        Reply::ChosenMany(sel) => {
            let paths = picked(files, sel@);
            &&& paths.len() == 0 ==> ended_with(r, Outcome::NoOp, "No files selected."@)
            &&& paths.len() > 0 && !(p is Commit) ==> root_asked(p, paths, r)
            &&& paths.len() > 0 && p is Commit ==> message_asked(p->Commit_0, paths, r)
        },
        _ => ended(r, Outcome::Failed),
    }
}

/// The repository root is asked for, to act on `paths` for `p`.
pub open spec fn root_asked(p: Purpose, paths: Seq<Seq<char>>, r: (Flow, Step)) -> bool {
    &&& r.0 matches Flow::Rooting(q, ps) && q == p && texts(ps@) == paths
    &&& asks(r.1, Query::RepoRoot)
}

/// The user's selection arrived.
pub fn picking_next(p: Purpose, files: Vec<String>, reply: Reply) -> (r: (Flow, Step))
    ensures
        picking_step(p, texts(files@), reply, r),
{
    match reply {
        Reply::ChosenMany(sel) => {
            let paths = pick(&files, &sel);
            if paths.len() == 0 {
                end(Outcome::NoOp, "No files selected.")
            } else {
                match p {
                    Purpose::Commit(plan) => commit_after_pick(plan, paths),
                    _ => (Flow::Rooting(p, paths), query(Query::RepoRoot)),
                }
            }
        },
        _ => end(Outcome::Failed, "unexpected reply to a selection"),
    }
}

pub open spec fn rooting_step(
    p: Purpose,
    paths: Seq<Seq<char>>,
    reply: Reply,
    r: (Flow, Step),
) -> bool {
    match reply {
        Reply::Root(root) => match p {
            Purpose::Stage => runs_in(r, seq![seq!["add"@] + paths], root@),
            Purpose::Unstage => runs_in(r, seq![seq!["restore"@, "--staged"@] + paths], root@),
            Purpose::Reset => walk_started(paths, root@, r),
            Purpose::Commit(_) => ended(r, Outcome::Failed),
        },
        _ => ended(r, Outcome::Failed),
    }
}

/// The repository root arrived: act on the chosen paths there.
pub fn rooting_next(p: Purpose, paths: Vec<String>, reply: Reply) -> (r: (Flow, Step))
    requires
        paths@.len() > 0,
    ensures
        rooting_step(p, texts(paths@), reply, r),
{
    match reply {
        Reply::Root(root) => {
            match p {
                Purpose::Stage => {
                    let done = counted("✓ Staged ", paths.len());
                    let args = with_all(args1("add"), &paths);
                    assert(texts(args@) =~= seq!["add"@] + texts(paths@));
                    let call = GitCall { args, dir: Some(root), mode: Mode::Quiet };
                    let r = single(call, "", done.as_str());
                    assert(r.0 matches Flow::Running(run) && run.calls@[0].dir_view() == Some(root@));
                    r
                },
                Purpose::Unstage => {
                    let done = counted("✓ Unstaged ", paths.len());
                    let args = with_all(args2("restore", "--staged"), &paths);
                    assert(texts(args@) =~= seq!["restore"@, "--staged"@] + texts(paths@));
                    let call = GitCall { args, dir: Some(root), mode: Mode::Quiet };
                    let r = single(call, "", done.as_str());
                    assert(r.0 matches Flow::Running(run) && run.calls@[0].dir_view() == Some(root@));
                    r
                },
                Purpose::Reset => reset_walk_start(paths, root),
                Purpose::Commit(_) => end(Outcome::Failed, "unexpected repository root"),
            }
        },
        _ => end(Outcome::Failed, "unexpected reply to a root query"),
    }
}

} // verus!
