//! Creating a branch, and picking one to switch to.
use vstd::prelude::*;

use crate::flow::{
    args2, Action, Flow, GitCall, Mode, Outcome, Query, Reply, Step, argvs, asks, end, ended,
    ended_with, finish, git, menu, offers, query, runs, single, start_run, step, with,
};
use crate::hint::same_text;
use crate::text::{
    contains_whitespace, has_white_space, join2, lemma_texts_push, owned, texts, trim, trimmed,
};

verus! {

/// What the branch picker waits for.
#[derive(Debug)]
pub enum BranchWait {
    Names,
    Current(Vec<String>),
    Choice(Vec<String>, String),
    NewName,
}

/// A usable branch name, once trimmed: not empty, no white space inside.
pub open spec fn valid_branch_name(n: Seq<char>) -> bool {
    trimmed(n).len() > 0 && !has_white_space(trimmed(n))
}

/// The picker's items: each branch, the current one marked, then an entry
/// to create a new branch.
pub open spec fn branch_items(bs: Seq<Seq<char>>, cur: Seq<char>) -> Seq<Seq<char>> {
    bs.map_values(
        |b: Seq<char>|
            if b == cur {
                b + " (current)"@
            } else {
                b
            },
    ).push("Create new branch..."@)
}

/// The workflow that creates branch `name` and switches to it, or refuses
/// the name.
pub open spec fn creates(name: Seq<char>, r: (Flow, Step)) -> bool {
    &&& trimmed(name).len() == 0 ==> ended_with(r, Outcome::Usage, "branch name cannot be empty"@)
    &&& trimmed(name).len() > 0 && has_white_space(trimmed(name)) ==> ended_with(
        r,
        Outcome::Usage,
        "branch name cannot contain whitespace"@,
    )
    &&& valid_branch_name(name) ==> runs(
        r,
        seq![seq!["branch"@, trimmed(name)], seq!["checkout"@, trimmed(name)]],
    )
}

/// Creates branch `name`, trimmed, and switches to it; an empty name or one
/// with white space inside is refused before anything runs.
pub fn create_branch(name: &str) -> (r: (Flow, Step))
    ensures
        creates(name@, r),
{
    let n = trim(name);
    if n.as_str().is_empty() {
        end(Outcome::Usage, "branch name cannot be empty")
    } else if contains_whitespace(n.as_str()) {
        end(Outcome::Usage, "branch name cannot contain whitespace")
    } else {
        let mut calls: Vec<GitCall> = Vec::new();
        calls.push(git(args2("branch", n.as_str()), Mode::Quiet));
        calls.push(git(args2("checkout", n.as_str()), Mode::Quiet));
        let mut notes: Vec<String> = Vec::new();
        notes.push(String::new());
        notes.push(String::new());
        let done = join2("✓ Created and switched to branch '", n.as_str()).concat("'");
        let (run, s) = start_run(calls, notes, done);
        assert(argvs(run.calls@) =~= seq![seq!["branch"@, n@], seq!["checkout"@, n@]]);
        (Flow::Running(run), s)
    }
}

/// Starts the branch picker.
pub fn run_branch_interactive() -> (r: (Flow, Step))
    ensures
        r.0 matches Flow::Branch(w) && w is Names && asks(r.1, Query::Branches),
{
    (Flow::Branch(BranchWait::Names), query(Query::Branches))
}

/// The picker's items.
pub fn picker_items(bs: &Vec<String>, cur: &String) -> (r: Vec<String>)
    ensures
        texts(r@) == branch_items(texts(bs@), cur@),
{
    let ghost f = |b: Seq<char>|
        if b == cur@ {
            b + " (current)"@
        } else {
            b
        };
    let mut out: Vec<String> = Vec::new();
    let mut i: usize = 0;
    while i < bs.len()
        invariant
            i <= bs@.len(),
            f == (|b: Seq<char>|
                if b == cur@ {
                    b + " (current)"@
                } else {
                    b
                }),
            texts(out@) == texts(bs@).take(i as int).map_values(f),
        decreases bs.len() - i,
    {
        let b = &bs[i];
        let item = if same_text(b.as_str(), cur.as_str()) {
            join2(b.as_str(), " (current)")
        } else {
            b.clone()
        };
        proof {
            lemma_texts_push(out@, item);
            assert(texts(bs@).take(i + 1).map_values(f) =~= texts(bs@).take(i as int).map_values(
                f,
            ).push(item@));
        }
        out.push(item);
        i = i + 1;
    }
    assert(texts(bs@).take(i as int) =~= texts(bs@));
    with(out, "Create new branch...")
}

pub open spec fn branch_step(w: BranchWait, reply: Reply, r: (Flow, Step)) -> bool {
    match (w, reply) {
        (BranchWait::Names, Reply::Branches(bs)) => r.0 == Flow::Branch(BranchWait::Current(bs))
            && asks(r.1, Query::CurrentBranch),
        (BranchWait::Current(bs), Reply::Branch(cur)) => r.0 == Flow::Branch(
            BranchWait::Choice(bs, cur),
        ) && offers(r.1, branch_items(texts(bs@), cur@)),
        (BranchWait::Choice(bs, cur), Reply::Chosen(k)) => {
            &&& k == bs@.len() ==> r.0 == Flow::Branch(BranchWait::NewName) && r.1.action is AskText
            &&& k < bs@.len() && bs@[k as int]@ == cur@ ==> ended_with(
                r,
                Outcome::NoOp,
                "Already on branch '"@ + cur@ + "'."@,
            )
            &&& k < bs@.len() && bs@[k as int]@ != cur@ ==> runs(
                r,
                seq![seq!["checkout"@, bs@[k as int]@]],
            )
            &&& k > bs@.len() ==> ended(r, Outcome::Failed)
        },
        (BranchWait::NewName, Reply::Text(n)) => creates(n@, r),
        _ => ended(r, Outcome::Failed),
    }
}

/// A branch picker's reply arrived.
pub fn branch_next(w: BranchWait, reply: Reply) -> (r: (Flow, Step))
    ensures
        branch_step(w, reply, r),
{
    match (w, reply) {
        (BranchWait::Names, Reply::Branches(bs)) => {
            (Flow::Branch(BranchWait::Current(bs)), query(Query::CurrentBranch))
        },
        (BranchWait::Current(bs), Reply::Branch(cur)) => {
            let items = picker_items(&bs, &cur);
            (Flow::Branch(BranchWait::Choice(bs, cur)), menu("Select a branch to checkout", items))
        },
        (BranchWait::Choice(bs, cur), Reply::Chosen(k)) => {
            if k == bs.len() {
                let s = step(Action::AskText { title: owned("New branch name") });
                (Flow::Branch(BranchWait::NewName), s)
            } else if k < bs.len() {
                let b = bs[k].as_str();
                if same_text(b, cur.as_str()) {
                    let m = join2("Already on branch '", b).concat("'.");
                    (Flow::Ended, finish(Outcome::NoOp, m))
                } else {
                    let done = join2("✓ Switched to branch '", b).concat("'");
                    single(
                        git(args2("checkout", b), Mode::Quiet),
                        "",
                        done.as_str(),
                    )
                }
            } else {
                end(Outcome::Failed, "no such branch in the list")
            }
        },
        (BranchWait::NewName, Reply::Text(n)) => create_branch(n.as_str()),
        _ => end(Outcome::Failed, "unexpected reply in the branch picker"),
    }
}

/// A branch name that is empty or holds white space, once trimmed, is
/// refused as a usage error, whether given on the command line or typed at
/// the prompt, and no invocation follows.
pub proof fn lemma_bad_branch_name_refused(name: String, direct: (Flow, Step), typed: (Flow, Step))
    requires
        creates(name@, direct),
        branch_step(BranchWait::NewName, Reply::Text(name), typed),
        !valid_branch_name(name@),
    ensures
        ended(direct, Outcome::Usage),
        !(direct.1.action is Git),
        ended(typed, Outcome::Usage),
        !(typed.1.action is Git),
{
}

} // verus!
