//! Turning a failed invocation's error text into a message with a hint on
//! what to do next.
use vstd::prelude::*;

use crate::text::{
    contains, join2, occurs_in, owned, texts, to_lowercase, lowercase_of, trim, trimmed,
};

verus! {

/// The remediation that matches a failure's error text.
#[derive(Clone, Copy, Debug, PartialEq, Eq, Structural)]
pub enum Hint {
    NotInRepository,
    NothingStaged,
    PushNoUpstream,
    PushRejected,
    Network,
    PullNoUpstream,
    Conflict,
    WouldOverwrite,
    NoSuchBranch,
    BranchExists,
    PermissionDenied,
    NoHint,
}

pub open spec fn has(l: Seq<char>, s: &str) -> bool {
    occurs_in(l, s@)
}

/// The hint for error text `l` (already lower-cased) of subcommand `cmd`:
/// the first row of the table that matches.
pub open spec fn hint_kind(l: Seq<char>, cmd: Seq<char>) -> Hint {
    if has(l, "not a git repository") {
        Hint::NotInRepository
    } else if cmd == "commit"@ && (has(l, "nothing to commit") || has(
        l,
        "no changes added to commit",
    ) || has(l, "nothing added to commit")) {
        Hint::NothingStaged
    } else if cmd == "push"@ && has(l, "no upstream branch") {
        Hint::PushNoUpstream
    } else if cmd == "push"@ && has(l, "rejected") {
        Hint::PushRejected
    } else if cmd == "push"@ && (has(l, "could not resolve host") || has(l, "network")) {
        Hint::Network
    } else if cmd == "pull"@ && has(l, "there is no tracking information") {
        Hint::PullNoUpstream
    } else if cmd == "pull"@ && has(l, "conflict") {
        Hint::Conflict
    } else if (cmd == "checkout"@ || cmd == "switch"@) && has(l, "would be overwritten") {
        Hint::WouldOverwrite
    } else if (cmd == "checkout"@ || cmd == "switch"@) && has(l, "did not match") {
        Hint::NoSuchBranch
    } else if cmd == "branch"@ && has(l, "already exists") {
        Hint::BranchExists
    } else if has(l, "permission denied") {
        Hint::PermissionDenied
    } else {
        Hint::NoHint
    }
}

/// The sentence shown for each hint.
pub open spec fn hint_sentence(h: Hint) -> Seq<char> {
    match h {
        Hint::NotInRepository => "not in a git repository - run 'sgit init' or cd into a repo first"@,
        Hint::NothingStaged => "nothing to commit - use 'sgit stage' to stage changes first"@,
        Hint::PushNoUpstream => "set upstream with 'git push -u origin <branch>' or use 'sgit push' from a tracked branch"@,
        Hint::PushRejected => "remote has new commits - try 'sgit pull' first, then push again"@,
        Hint::Network => "check your network connection"@,
        Hint::PullNoUpstream => "branch has no upstream - try 'git branch --set-upstream-to=origin/<branch>'"@,
        Hint::Conflict => "resolve merge conflicts, then commit the resolution"@,
        Hint::WouldOverwrite => "commit or stash your changes before switching branches"@,
        Hint::NoSuchBranch => "branch name may be misspelled - check 'sgit branch' for available branches"@,
        Hint::BranchExists => "branch name already in use, choose a different name"@,
        Hint::PermissionDenied => "check file permissions or run with appropriate privileges"@,
        Hint::NoHint => seq![],
    }
}

/// The hint as appended to a failure message: on a line of its own, or
/// nothing.
pub open spec fn hint_suffix(h: Hint) -> Seq<char> {
    if h == Hint::NoHint {
        seq![]
    } else {
        "\n  hint: "@ + hint_sentence(h)
    }
}

/// The error text as shown under a failure: trimmed and indented on a line
/// of its own, or nothing when it is blank.
pub open spec fn stderr_block(stderr: Seq<char>) -> Seq<char> {
    if trimmed(stderr).len() == 0 {
        seq![]
    } else {
        "\n  "@ + trimmed(stderr)
    }
}

/// The arguments joined by single spaces.
pub open spec fn joined(v: Seq<Seq<char>>) -> Seq<char>
    decreases v.len(),
{
    if v.len() == 0 {
        seq![]
    } else if v.len() == 1 {
        v[0]
    } else {
        joined(v.drop_last()) + " "@ + v.last()
    }
}

/// The subcommand of an argument list: its first argument, or nothing.
pub open spec fn subcommand(args: Seq<Seq<char>>) -> Seq<char> {
    if args.len() > 0 {
        args[0]
    } else {
        seq![]
    }
}

/// The message for a failed invocation with arguments `args` and error text
/// `stderr`.
pub open spec fn failure_text(args: Seq<Seq<char>>, stderr: Seq<char>) -> Seq<char> {
    "git "@ + joined(args) + " failed:"@ + stderr_block(stderr) + hint_suffix(
        hint_kind(lowercase_of(stderr), subcommand(args)),
    )
}

/// Whether two strings hold the same characters.
pub fn same_text(a: &str, b: &str) -> (r: bool)
    ensures
        r == (a@ == b@),
{
    let x = owned(a);
    let y = owned(b);
    x == y
}

/// The hint for lower-cased error text `lower` of subcommand `cmd`.
pub fn classify_hint(lower: &str, cmd: &str) -> (r: Hint)
    ensures
        r == hint_kind(lower@, cmd@),
{
    let is_commit = same_text(cmd, "commit");
    let is_push = same_text(cmd, "push");
    let is_pull = same_text(cmd, "pull");
    let is_switch = same_text(cmd, "checkout") || same_text(cmd, "switch");
    let is_branch = same_text(cmd, "branch");
    if contains(lower, "not a git repository") {
        Hint::NotInRepository
    } else if is_commit && (contains(lower, "nothing to commit") || contains(
        lower,
        "no changes added to commit",
    ) || contains(lower, "nothing added to commit")) {
        Hint::NothingStaged
    } else if is_push && contains(lower, "no upstream branch") {
        Hint::PushNoUpstream
    } else if is_push && contains(lower, "rejected") {
        Hint::PushRejected
    } else if is_push && (contains(lower, "could not resolve host") || contains(
        lower,
        "network",
    )) {
        Hint::Network
    } else if is_pull && contains(lower, "there is no tracking information") {
        Hint::PullNoUpstream
    } else if is_pull && contains(lower, "conflict") {
        Hint::Conflict
    } else if is_switch && contains(lower, "would be overwritten") {
        Hint::WouldOverwrite
    } else if is_switch && contains(lower, "did not match") {
        Hint::NoSuchBranch
    } else if is_branch && contains(lower, "already exists") {
        Hint::BranchExists
    } else if contains(lower, "permission denied") {
        Hint::PermissionDenied
    } else {
        Hint::NoHint
    }
}

impl Hint {
    /// The hint's suffix for a failure message.
    pub fn suffix(&self) -> (r: String)
        ensures
            r@ == hint_suffix(*self),
    {
        let sentence = match self {
            Hint::NotInRepository => "not in a git repository - run 'sgit init' or cd into a repo first",
            Hint::NothingStaged => "nothing to commit - use 'sgit stage' to stage changes first",
            Hint::PushNoUpstream => "set upstream with 'git push -u origin <branch>' or use 'sgit push' from a tracked branch",
            Hint::PushRejected => "remote has new commits - try 'sgit pull' first, then push again",
            Hint::Network => "check your network connection",
            Hint::PullNoUpstream => "branch has no upstream - try 'git branch --set-upstream-to=origin/<branch>'",
            Hint::Conflict => "resolve merge conflicts, then commit the resolution",
            Hint::WouldOverwrite => "commit or stash your changes before switching branches",
            Hint::NoSuchBranch => "branch name may be misspelled - check 'sgit branch' for available branches",
            Hint::BranchExists => "branch name already in use, choose a different name",
            Hint::PermissionDenied => "check file permissions or run with appropriate privileges",
            Hint::NoHint => {
                return String::new();
            },
        };
        join2("\n  hint: ", sentence)
    }
}

/// The hint for lower-cased error text, as appended to a failure message.
pub fn hint_for_lowered(lower: &str, cmd: &str) -> (r: String)
    ensures
        r@ == hint_suffix(hint_kind(lower@, cmd@)),
{
    classify_hint(lower, cmd).suffix()
}

/// The hint for a failure of `args` with error text `stderr`.
pub fn suggest_hint_for_git_error(stderr: &str, args: &Vec<String>) -> (r: String)
    ensures
        r@ == hint_suffix(hint_kind(lowercase_of(stderr@), subcommand(texts(args@)))),
{
    let lower = to_lowercase(stderr);
    if args.len() > 0 {
        assert(texts(args@)[0] == args@[0]@);
        hint_for_lowered(lower.as_str(), args[0].as_str())
    } else {
        proof {
            reveal_strlit("");
            assert(""@ =~= subcommand(texts(args@)));
        }
        hint_for_lowered(lower.as_str(), "")
    }
}

/// The error text as shown under a failure.
pub fn format_stderr(stderr: &str) -> (r: String)
    ensures
        r@ == stderr_block(stderr@),
{
    let t = trim(stderr);
    if t.as_str().is_empty() {
        String::new()
    } else {
        join2("\n  ", t.as_str())
    }
}

/// The arguments joined by single spaces.
pub fn join_args(args: &Vec<String>) -> (r: String)
    ensures
        r@ == joined(texts(args@)),
{
    let mut out = String::new();
    let mut i: usize = 0;
    while i < args.len()
        invariant
            i <= args@.len(),
            out@ == joined(texts(args@).take(i as int)),
        decreases args.len() - i,
    {
        let ghost prev = texts(args@).take(i as int);
        let ghost next = texts(args@).take(i + 1);
        assert(next.drop_last() =~= prev);
        if i == 0 {
            out = args[0].clone();
            assert(next =~= seq![args@[0]@]);
        } else {
            out = out.concat(" ");
            out = out.concat(args[i].as_str());
        }
        i = i + 1;
    }
    assert(texts(args@).take(i as int) =~= texts(args@));
    out
}

/// The message for a failed invocation: the command, its error text and a
/// hint.
pub fn failure_message(args: &Vec<String>, stderr: &str) -> (r: String)
    ensures
        r@ == failure_text(texts(args@), stderr@),
{
    let head = join2("git ", join_args(args).as_str());
    let head = head.concat(" failed:");
    let body = format_stderr(stderr);
    let hint = suggest_hint_for_git_error(stderr, args);
    let msg = head.concat(body.as_str());
    let msg = msg.concat(hint.as_str());
    assert(msg@ =~= failure_text(texts(args@), stderr@));
    msg
}

} // verus!
