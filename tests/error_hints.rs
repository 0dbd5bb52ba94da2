use sgit::hint::{
    classify_hint, failure_message, format_stderr, hint_for_lowered, join_args,
    suggest_hint_for_git_error, Hint,
};
use sgit::text::{contains, decimal, split_lines, trim};

fn args(v: &[&str]) -> Vec<String> {
    v.iter().map(|s| s.to_string()).collect()
}

#[test]
fn hint_not_a_repository_for_any_command() {
    assert_eq!(classify_hint("fatal: not a git repository", "status"), Hint::NotInRepository);
    assert_eq!(classify_hint("fatal: not a git repository", "push"), Hint::NotInRepository);
}

#[test]
fn hint_nothing_to_commit_only_for_commit() {
    assert_eq!(classify_hint("nothing to commit, working tree clean", "commit"), Hint::NothingStaged);
    assert_eq!(classify_hint("no changes added to commit", "commit"), Hint::NothingStaged);
    assert_eq!(classify_hint("nothing added to commit but untracked files", "commit"), Hint::NothingStaged);
    assert_eq!(classify_hint("nothing to commit", "push"), Hint::NoHint);
}

#[test]
fn hint_push_rows_in_table_order() {
    assert_eq!(classify_hint("fatal: the current branch has no upstream branch", "push"), Hint::PushNoUpstream);
    assert_eq!(classify_hint("! [rejected] main -> main (fetch first)", "push"), Hint::PushRejected);
    assert_eq!(classify_hint("could not resolve host: example.com", "push"), Hint::Network);
    assert_eq!(classify_hint("network is unreachable", "push"), Hint::Network);
    assert_eq!(classify_hint("rejected because no upstream branch", "push"), Hint::PushNoUpstream);
}

#[test]
fn hint_pull_rows() {
    assert_eq!(classify_hint("there is no tracking information for the current branch", "pull"), Hint::PullNoUpstream);
    assert_eq!(classify_hint("conflict (content): merge conflict in a.txt", "pull"), Hint::Conflict);
    assert_eq!(classify_hint("conflict", "fetch"), Hint::NoHint);
}

#[test]
fn hint_switch_and_branch_rows() {
    assert_eq!(classify_hint("your local changes would be overwritten by checkout", "checkout"), Hint::WouldOverwrite);
    assert_eq!(classify_hint("your local changes would be overwritten", "switch"), Hint::WouldOverwrite);
    assert_eq!(classify_hint("pathspec 'x' did not match any file", "checkout"), Hint::NoSuchBranch);
    assert_eq!(classify_hint("a branch named 'x' already exists", "branch"), Hint::BranchExists);
    assert_eq!(classify_hint("already exists", "checkout"), Hint::NoHint);
}

#[test]
fn hint_permission_denied_for_any_command() {
    assert_eq!(classify_hint("error: permission denied", "add"), Hint::PermissionDenied);
    assert_eq!(classify_hint("something else", "add"), Hint::NoHint);
    assert_eq!(classify_hint("", ""), Hint::NoHint);
}

#[test]
fn hint_suffix_text() {
    assert_eq!(
        hint_for_lowered("! [rejected]", "push"),
        "\n  hint: remote has new commits - try 'sgit pull' first, then push again"
    );
    assert_eq!(hint_for_lowered("all fine", "push"), "");
}

#[test]
fn suggest_hint_lowercases_the_error_text() {
    let h = suggest_hint_for_git_error("FATAL: Not A Git Repository", &args(&["status"]));
    assert_eq!(h, "\n  hint: not in a git repository - run 'sgit init' or cd into a repo first");
    let h = suggest_hint_for_git_error("Nothing To Commit", &args(&["commit", "-m", "x"]));
    assert_eq!(h, "\n  hint: nothing to commit - use 'sgit stage' to stage changes first");
    assert_eq!(suggest_hint_for_git_error("Nothing To Commit", &args(&[])), "");
    let h = suggest_hint_for_git_error("ERROR: Permission Denied", &args(&["add"]));
    assert_eq!(h, "\n  hint: check file permissions or run with appropriate privileges");
}

#[test]
fn format_stderr_trims_and_indents() {
    assert_eq!(format_stderr("  fatal: bad thing \n"), "\n  fatal: bad thing");
    assert_eq!(format_stderr(" \n\t "), "");
    assert_eq!(format_stderr(""), "");
}

#[test]
fn join_args_uses_single_spaces() {
    assert_eq!(join_args(&args(&["commit", "-m", "a message"])), "commit -m a message");
    assert_eq!(join_args(&args(&["status"])), "status");
    assert_eq!(join_args(&args(&[])), "");
}

#[test]
fn failure_message_has_command_text_and_hint() {
    let m = failure_message(&args(&["push"]), "To origin\n ! [rejected] main -> main\n");
    assert_eq!(
        m,
        "git push failed:\n  To origin\n ! [rejected] main -> main\n  hint: remote has new commits - try 'sgit pull' first, then push again"
    );
    assert_eq!(failure_message(&args(&["add", "x"]), "  "), "git add x failed:");
}

#[test]
fn trim_removes_unicode_white_space_at_both_ends() {
    assert_eq!(trim("  a b \t\n"), "a b");
    assert_eq!(trim("\u{a0}x\u{3000}"), "x");
    assert_eq!(trim("   "), "");
    assert_eq!(trim(""), "");
}

#[test]
fn split_lines_matches_std_lines() {
    for s in ["a\nb", "a\r\nb\r\n", "\n\nx", "", "one", "a\n\n", "x\ry\n"] {
        let ours = split_lines(s);
        let std_lines: Vec<String> = s.lines().map(|l| l.to_string()).collect();
        assert_eq!(ours, std_lines, "input {:?}", s);
    }
}

#[test]
fn contains_finds_substrings() {
    assert!(contains("fatal: could not resolve host", "could not resolve host"));
    assert!(contains("abc", ""));
    assert!(!contains("ab", "abc"));
    assert!(!contains("CONFLICT", "conflict"));
}

#[test]
fn decimal_writes_numbers() {
    assert_eq!(decimal(0), "0");
    assert_eq!(decimal(7), "7");
    assert_eq!(decimal(10), "10");
    assert_eq!(decimal(1234), "1234");
}
