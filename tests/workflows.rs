use sgit::cli::{start, Cli, Launch, SgitCommand};
use sgit::flow::{Action, Flow, Mode, Outcome, Query, Reply, Step};
use sgit::status::FileEntry;

/// What a scripted run of a workflow did.
struct Trace {
    /// The arguments of every invocation issued, in order.
    calls: Vec<Vec<String>>,
    /// The directory of every invocation issued.
    dirs: Vec<Option<String>>,
    /// Every action, by kind, in order.
    kinds: Vec<&'static str>,
    /// How it ended, if it did.
    end: Option<(Outcome, String)>,
    /// Every line printed before an action, in order.
    notes: Vec<String>,
}

fn kind(a: &Action) -> &'static str {
    match a {
        Action::Git(_) => "git",
        Action::Query(_) => "query",
        Action::Choose { .. } => "choose",
        Action::ChooseMany { .. } => "choose-many",
        Action::AskText { .. } => "ask-text",
        Action::Confirm { .. } => "confirm",
        Action::Finish { .. } => "finish",
    }
}

/// Runs a workflow, answering its actions with `replies` in order.
fn drive(first: (Flow, Step), replies: Vec<Reply>) -> Trace {
    let (mut flow, mut step) = first;
    let mut t = Trace { calls: Vec::new(), dirs: Vec::new(), kinds: Vec::new(), end: None, notes: Vec::new() };
    let mut replies = replies.into_iter();
    loop {
        t.kinds.push(kind(&step.action));
        for n in &step.notes {
            t.notes.push(n.text.clone());
        }
        match &step.action {
            Action::Finish { outcome, message } => {
                t.end = Some((*outcome, message.clone()));
                return t;
            }
            Action::Git(c) => {
                t.calls.push(c.args.clone());
                t.dirs.push(c.dir.clone());
            }
            _ => {}
        }
        match replies.next() {
            Some(r) => {
                let (f, s) = flow.next(r);
                flow = f;
                step = s;
            }
            None => return t,
        }
    }
}

fn strs(v: &[&str]) -> Vec<String> {
    v.iter().map(|s| s.to_string()).collect()
}

fn entry(index: char, worktree: char, path: &str) -> FileEntry {
    FileEntry { index, worktree, path: path.to_string() }
}

fn outcome(t: &Trace) -> Outcome {
    t.end.as_ref().expect("the workflow did not end").0
}

fn stage(targets: &[&str], all: bool, tracked_only: bool) -> SgitCommand {
    SgitCommand::Stage { targets: strs(targets), all, tracked_only }
}

fn commit(message: Option<&str>, all: bool, staged: bool, unstaged: bool) -> SgitCommand {
    SgitCommand::Commit {
        message: message.map(|m| m.to_string()),
        all,
        staged,
        unstaged,
        push: false,
        amend: false,
        skip_hooks: false,
    }
}

#[test]
fn stage_all_then_commit_message_scenario() {
    // A tree with two modified files and one untracked file.
    let t = drive(start(stage(&[], true, false)), vec![Reply::Success]);
    assert_eq!(t.calls, vec![strs(&["add", "-A"])]);
    assert_eq!(outcome(&t), Outcome::Done);
    let t = drive(start(commit(Some("msg"), false, false, false)), vec![Reply::Success]);
    assert_eq!(t.calls, vec![strs(&["commit", "-m", "msg"])]);
    assert_eq!(outcome(&t), Outcome::Done);
}

#[test]
fn commit_staged_with_all_is_refused_before_any_invocation() {
    let t = drive(start(commit(Some("msg"), true, true, false)), vec![]);
    assert!(t.calls.is_empty());
    assert_eq!(t.kinds, vec!["finish"]);
    assert_eq!(outcome(&t), Outcome::Usage);
    assert_eq!(t.end.unwrap().1, "cannot combine --staged with --all or --unstaged");
    let t = drive(start(commit(Some("msg"), false, true, true)), vec![]);
    assert_eq!(outcome(&t), Outcome::Usage);
    assert!(t.calls.is_empty());
}

#[test]
fn commit_blank_message_is_refused() {
    let t = drive(start(commit(Some("   "), true, false, false)), vec![]);
    assert_eq!(outcome(&t), Outcome::Usage);
    assert_eq!(t.end.unwrap().1, "commit message cannot be empty");
    let t = drive(start(commit(None, false, true, false)), vec![]);
    assert_eq!(outcome(&t), Outcome::Usage);
    assert!(t.calls.is_empty());
}

#[test]
fn commit_all_with_push_and_flags() {
    let cmd = SgitCommand::Commit {
        message: Some("fix".to_string()),
        all: true,
        staged: false,
        unstaged: false,
        push: true,
        amend: false,
        skip_hooks: true,
    };
    let t = drive(
        start(cmd),
        vec![Reply::Branch("main".to_string()), Reply::Success, Reply::Success, Reply::Success],
    );
    assert_eq!(t.kinds[0], "query");
    assert!(t.notes.contains(&"→ Staged all files\n→ Committing...".to_string()));
    assert!(t.notes.contains(&"→ Pushing to main...".to_string()));
    assert_eq!(t.end.as_ref().unwrap().1, "✓ Commit created\n✓ Pushed successfully\nDone.");
    assert_eq!(
        t.calls,
        vec![
            strs(&["add", "-A"]),
            strs(&["commit", "--no-verify", "-m", "fix"]),
            strs(&["push"]),
        ]
    );
    assert_eq!(outcome(&t), Outcome::Done);
}

#[test]
fn commit_unstaged_stages_tracked_changes() {
    let t = drive(start(commit(Some("m"), false, false, true)), vec![Reply::Success, Reply::Success]);
    assert_eq!(t.calls, vec![strs(&["add", "-u"]), strs(&["commit", "-m", "m"])]);
}

#[test]
fn commit_amend_asks_when_history_exists() {
    let cmd = SgitCommand::Commit {
        message: Some("m".to_string()),
        all: false,
        staged: false,
        unstaged: false,
        push: false,
        amend: true,
        skip_hooks: false,
    };
    // Declined: nothing runs.
    let t = drive(start(cmd), vec![Reply::HasCommits(true), Reply::Confirmed(false)]);
    assert!(t.calls.is_empty());
    assert_eq!(t.kinds, vec!["query", "confirm", "finish"]);
    assert_eq!(outcome(&t), Outcome::NoOp);
    assert_eq!(t.end.unwrap().1, "Aborted.");
}

#[test]
fn commit_amend_without_history_goes_ahead() {
    let cmd = SgitCommand::Commit {
        message: Some("m".to_string()),
        all: false,
        staged: false,
        unstaged: false,
        push: false,
        amend: true,
        skip_hooks: false,
    };
    let t = drive(start(cmd), vec![Reply::HasCommits(false), Reply::Success]);
    assert_eq!(t.calls, vec![strs(&["commit", "--amend", "-m", "m"])]);
    assert_eq!(outcome(&t), Outcome::Done);
}

#[test]
fn commit_interactive_custom_files() {
    let entries = vec![entry(' ', 'M', "a.rs"), entry('?', '?', "b.rs"), entry('M', ' ', "c.rs")];
    let t = drive(
        start(commit(None, false, false, false)),
        vec![
            Reply::Chosen(3),
            Reply::Entries(entries),
            Reply::ChosenMany(vec![2, 0]),
            Reply::Text("work".to_string()),
            Reply::Confirmed(false),
            Reply::Root("/repo".to_string()),
            Reply::Success,
            Reply::Success,
        ],
    );
    assert_eq!(t.calls, vec![strs(&["add", "c.rs", "a.rs"]), strs(&["commit", "-m", "work"])]);
    assert_eq!(t.dirs[0], Some("/repo".to_string()));
    assert_eq!(outcome(&t), Outcome::Done);
}

#[test]
fn commit_interactive_empty_selection_is_a_no_op() {
    let entries = vec![entry(' ', 'M', "a.rs")];
    let t = drive(
        start(commit(None, false, false, false)),
        vec![Reply::Chosen(3), Reply::Entries(entries), Reply::ChosenMany(vec![])],
    );
    assert!(t.calls.is_empty());
    assert_eq!(outcome(&t), Outcome::NoOp);
    assert_eq!(t.end.unwrap().1, "No files selected.");
}

#[test]
fn commit_interactive_blank_message_is_refused() {
    let t = drive(
        start(commit(None, false, false, false)),
        vec![Reply::Chosen(0), Reply::Text("  ".to_string()), Reply::Confirmed(true)],
    );
    assert!(t.calls.is_empty());
    assert_eq!(outcome(&t), Outcome::Usage);
}

#[test]
fn stage_interactive_empty_selection_runs_nothing() {
    let entries = vec![entry(' ', 'M', "a.rs"), entry(' ', 'M', "b.rs")];
    let t = drive(
        start(stage(&[], false, false)),
        vec![Reply::Chosen(2), Reply::Entries(entries), Reply::ChosenMany(vec![])],
    );
    assert!(t.calls.is_empty());
    assert_eq!(t.kinds, vec!["choose", "query", "choose-many", "finish"]);
    assert_eq!(outcome(&t), Outcome::NoOp);
}

#[test]
fn stage_interactive_nothing_to_offer() {
    let entries = vec![entry('?', '?', "new.txt")];
    let t = drive(start(stage(&[], false, false)), vec![Reply::Chosen(2), Reply::Entries(entries)]);
    assert!(t.calls.is_empty());
    assert_eq!(outcome(&t), Outcome::NoOp);
    assert_eq!(t.end.unwrap().1, "No unstaged files to stage.");
}

#[test]
fn stage_interactive_specific_files_in_root() {
    let entries = vec![entry(' ', 'M', "a.rs"), entry('M', ' ', "s.rs"), entry(' ', 'D', "d.rs")];
    let t = drive(
        start(stage(&[], false, false)),
        vec![
            Reply::Chosen(2),
            Reply::Entries(entries),
            Reply::ChosenMany(vec![1]),
            Reply::Root("/r".to_string()),
            Reply::Success,
        ],
    );
    assert_eq!(t.calls, vec![strs(&["add", "d.rs"])]);
    assert_eq!(t.dirs, vec![Some("/r".to_string())]);
    assert_eq!(t.end.unwrap(), (Outcome::Done, "✓ Staged 1 file(s)".to_string()));
}

#[test]
fn stage_direct_forms() {
    assert_eq!(drive(start(stage(&[], false, true)), vec![]).calls, vec![strs(&["add", "-u"])]);
    assert_eq!(
        drive(start(stage(&["a", "b c"], false, false)), vec![]).calls,
        vec![strs(&["add", "a", "b c"])]
    );
    let t = drive(start(stage(&[], false, false)), vec![Reply::Chosen(0), Reply::Success]);
    assert_eq!(t.calls, vec![strs(&["add", "-A"])]);
}

#[test]
fn stage_then_unstage_names_the_same_paths() {
    let paths = ["src/a.rs", "src/b.rs"];
    let s = drive(start(stage(&paths, false, false)), vec![]);
    let u = drive(start(SgitCommand::Unstage { targets: strs(&paths), all: false }), vec![]);
    assert_eq!(s.calls, vec![strs(&["add", "src/a.rs", "src/b.rs"])]);
    assert_eq!(u.calls, vec![strs(&["restore", "--staged", "src/a.rs", "src/b.rs"])]);
    assert_eq!(s.calls[0][1..], u.calls[0][2..]);
}

#[test]
fn unstage_forms() {
    let t = drive(start(SgitCommand::Unstage { targets: vec![], all: true }), vec![Reply::Success]);
    assert_eq!(t.calls, vec![strs(&["restore", "--staged", "."])]);
    let entries = vec![entry('M', ' ', "a.rs"), entry(' ', 'M', "b.rs"), entry('A', ' ', "c.rs")];
    let t = drive(
        start(SgitCommand::Unstage { targets: vec![], all: false }),
        vec![
            Reply::Chosen(1),
            Reply::Entries(entries),
            Reply::ChosenMany(vec![0, 1]),
            Reply::Root("/r".to_string()),
            Reply::Success,
        ],
    );
    assert_eq!(t.calls, vec![strs(&["restore", "--staged", "a.rs", "c.rs"])]);
    assert_eq!(t.end.unwrap().1, "✓ Unstaged 2 file(s)");
}

#[test]
fn reset_direct_scopes() {
    let reset = |all, staged, unstaged, tracked_only, untracked| SgitCommand::Reset {
        all,
        staged,
        unstaged,
        tracked_only,
        untracked,
    };
    let t = drive(start(reset(true, true, false, false, false)), vec![Reply::Success, Reply::Success]);
    assert_eq!(t.calls, vec![strs(&["reset", "--hard"]), strs(&["clean", "-fd"])]);
    assert_eq!(outcome(&t), Outcome::Done);
    let t = drive(start(reset(false, false, false, true, false)), vec![Reply::Success]);
    assert_eq!(t.calls, vec![strs(&["reset", "--hard"])]);
    let t = drive(start(reset(false, true, false, false, false)), vec![Reply::Entries(vec![entry(' ', 'M', "a")])]);
    assert!(t.calls.is_empty());
    assert_eq!(t.end.unwrap(), (Outcome::NoOp, "No staged files to reset.".to_string()));
    let t = drive(start(reset(false, false, true, false, false)), vec![Reply::Entries(vec![entry(' ', 'M', "a")]), Reply::Success]);
    assert_eq!(t.calls, vec![strs(&["restore", "."])]);
    let t = drive(start(reset(false, false, false, false, true)), vec![Reply::Entries(vec![entry('?', '?', "n")]), Reply::Success]);
    assert_eq!(t.calls, vec![strs(&["clean", "-fd"])]);
}

#[test]
fn reset_custom_walks_each_file() {
    let first = vec![entry('?', '?', "new.txt"), entry('M', 'M', "both.rs"), entry(' ', 'M', "wt.rs")];
    let second = vec![entry('M', 'M', "both.rs"), entry(' ', 'M', "wt.rs")];
    let third = vec![entry(' ', 'M', "wt.rs")];
    let t = drive(
        start(SgitCommand::Reset { all: false, staged: false, unstaged: false, tracked_only: false, untracked: false }),
        vec![
            Reply::Chosen(5),
            Reply::Entries(first.clone()),
            Reply::ChosenMany(vec![0, 1, 2]),
            Reply::Root("/r".to_string()),
            Reply::Entries(first),
            Reply::Success,
            Reply::Entries(second),
            Reply::Success,
            Reply::Success,
            Reply::Entries(third),
            Reply::Success,
        ],
    );
    assert_eq!(
        t.calls,
        vec![
            strs(&["clean", "-f", "new.txt"]),
            strs(&["restore", "--staged", "both.rs"]),
            strs(&["restore", "both.rs"]),
            strs(&["restore", "wt.rs"]),
        ]
    );
    assert!(t.dirs.iter().all(|d| d.as_deref() == Some("/r")));
    assert_eq!(t.end.unwrap(), (Outcome::Done, "✓ Selected files reset.".to_string()));
}

#[test]
fn reset_custom_empty_selection_runs_nothing() {
    let t = drive(
        start(SgitCommand::Reset { all: false, staged: false, unstaged: false, tracked_only: false, untracked: false }),
        vec![Reply::Chosen(5), Reply::Entries(vec![entry(' ', 'M', "a")]), Reply::ChosenMany(vec![])],
    );
    assert!(t.calls.is_empty());
    assert_eq!(outcome(&t), Outcome::NoOp);
}

#[test]
fn branch_create_trims_and_runs_branch_then_checkout() {
    let t = drive(
        start(SgitCommand::Branch { create: Some("  feature ".to_string()) }),
        vec![Reply::Success, Reply::Success],
    );
    assert_eq!(t.calls, vec![strs(&["branch", "feature"]), strs(&["checkout", "feature"])]);
    assert_eq!(t.end.unwrap(), (Outcome::Done, "✓ Created and switched to branch 'feature'".to_string()));
}

#[test]
fn branch_create_rejects_empty_and_white_space_names() {
    for name in ["", "   ", "my feature", "a\tb"] {
        let t = drive(start(SgitCommand::Branch { create: Some(name.to_string()) }), vec![]);
        assert!(t.calls.is_empty(), "name {:?}", name);
        assert_eq!(outcome(&t), Outcome::Usage, "name {:?}", name);
    }
}

#[test]
fn branch_interactive_new_name_is_validated_too() {
    let bs = strs(&["main", "dev"]);
    for name in ["", "  ", "my feature"] {
        let t = drive(
            start(SgitCommand::Branch { create: None }),
            vec![
                Reply::Branches(bs.clone()),
                Reply::Branch("main".to_string()),
                Reply::Chosen(2),
                Reply::Text(name.to_string()),
            ],
        );
        assert!(t.calls.is_empty(), "name {:?}", name);
        assert_eq!(outcome(&t), Outcome::Usage);
    }
}

#[test]
fn branch_interactive_menu_marks_current_and_switches() {
    let bs = strs(&["main", "dev"]);
    let (f, s) = start(SgitCommand::Branch { create: None });
    assert!(matches!(s.action, Action::Query(Query::Branches)));
    let (f, s) = f.next(Reply::Branches(bs));
    assert!(matches!(s.action, Action::Query(Query::CurrentBranch)));
    let (f, s) = f.next(Reply::Branch("main".to_string()));
    match &s.action {
        Action::Choose { items, .. } => {
            assert_eq!(items, &strs(&["main (current)", "dev", "Create new branch..."]))
        }
        other => panic!("unexpected {:?}", other),
    }
    let (_, s) = f.next(Reply::Chosen(1));
    match &s.action {
        Action::Git(c) => assert_eq!(c.args, strs(&["checkout", "dev"])),
        other => panic!("unexpected {:?}", other),
    }
}

#[test]
fn branch_interactive_current_is_a_no_op() {
    let t = drive(
        start(SgitCommand::Branch { create: None }),
        vec![Reply::Branches(strs(&["main"])), Reply::Branch("main".to_string()), Reply::Chosen(0)],
    );
    assert!(t.calls.is_empty());
    assert_eq!(t.end.unwrap(), (Outcome::NoOp, "Already on branch 'main'.".to_string()));
}

#[test]
fn push_branch_without_remote_is_refused() {
    let t = drive(start(SgitCommand::Push { remote: None, branch: Some("main".to_string()) }), vec![]);
    assert!(t.calls.is_empty());
    assert_eq!(outcome(&t), Outcome::Usage);
    let t = drive(
        start(SgitCommand::Push { remote: Some("up".to_string()), branch: Some("main".to_string()) }),
        vec![Reply::Success],
    );
    assert_eq!(t.calls, vec![strs(&["push", "up", "main"])]);
    let t = drive(start(SgitCommand::Push { remote: Some("up".to_string()), branch: None }), vec![]);
    assert_eq!(t.calls, vec![strs(&["push", "up"])]);
}

#[test]
fn pull_takes_optional_qualifiers() {
    let t = drive(start(SgitCommand::Pull { remote: None, branch: None }), vec![Reply::Success]);
    assert_eq!(t.calls, vec![strs(&["pull"])]);
    assert_eq!(t.end.unwrap(), (Outcome::Done, "✓ Pulled successfully".to_string()));
    let t = drive(start(SgitCommand::Pull { remote: None, branch: Some("x".to_string()) }), vec![]);
    assert_eq!(t.calls, vec![strs(&["pull"])]);
}

#[test]
fn sync_network_failure_aborts_at_once() {
    let t = drive(
        start(SgitCommand::Sync { remote: None, branch: None }),
        vec![Reply::Failure("fatal: unable to access: Could not resolve host: github.com could not resolve host".to_string())],
    );
    assert_eq!(t.calls, vec![strs(&["fetch", "origin"])]);
    assert_eq!(outcome(&t), Outcome::Failed);
}

#[test]
fn sync_other_fetch_failure_goes_on_to_pull_and_push() {
    let t = drive(
        start(SgitCommand::Sync { remote: Some("up".to_string()), branch: Some("main".to_string()) }),
        vec![Reply::Failure("fatal: couldn't find remote ref".to_string()), Reply::Success, Reply::Success],
    );
    assert_eq!(
        t.calls,
        vec![strs(&["fetch", "up"]), strs(&["pull", "up", "main"]), strs(&["push", "up", "main"])]
    );
    assert_eq!(
        t.end.unwrap(),
        (Outcome::Done, "✓ Sync complete: fetched, pulled, and pushed successfully.".to_string())
    );
}

#[test]
fn sync_pull_conflict_aborts_before_push() {
    let t = drive(
        start(SgitCommand::Sync { remote: None, branch: None }),
        vec![Reply::Success, Reply::Failure("CONFLICT (content): Merge conflict in a".to_string())],
    );
    assert_eq!(t.calls, vec![strs(&["fetch", "origin"]), strs(&["pull"])]);
    let (o, m) = t.end.unwrap();
    assert_eq!(o, Outcome::Failed);
    assert!(m.starts_with("git pull failed:\n  CONFLICT (content): Merge conflict in a"));
}

#[test]
fn sync_pull_without_upstream_names_the_branch_then_fails() {
    let t = drive(
        start(SgitCommand::Sync { remote: None, branch: None }),
        vec![
            Reply::Success,
            Reply::Failure("There is no tracking information for the current branch.".to_string()),
            Reply::Branch("topic".to_string()),
        ],
    );
    assert_eq!(t.calls.len(), 2);
    assert_eq!(t.kinds, vec!["git", "git", "query", "finish"]);
    assert_eq!(outcome(&t), Outcome::Failed);
}

#[test]
fn sync_other_pull_failure_still_pushes() {
    let t = drive(
        start(SgitCommand::Sync { remote: None, branch: None }),
        vec![Reply::Success, Reply::Failure("fatal: refusing".to_string()), Reply::Failure("! [rejected]".to_string())],
    );
    assert_eq!(t.calls, vec![strs(&["fetch", "origin"]), strs(&["pull"]), strs(&["push"])]);
    let (o, m) = t.end.unwrap();
    assert_eq!(o, Outcome::Failed);
    assert!(m.ends_with("hint: remote has new commits - try 'sgit pull' first, then push again"));
}

#[test]
fn simple_commands_issue_one_invocation() {
    let one = |cmd: SgitCommand| drive(start(cmd), vec![Reply::Success]);
    assert_eq!(one(SgitCommand::Init).calls, vec![strs(&["init"])]);
    assert_eq!(one(SgitCommand::Status { short: true }).calls, vec![strs(&["status", "-sb"])]);
    assert_eq!(one(SgitCommand::Status { short: false }).calls, vec![strs(&["status"])]);
    assert_eq!(
        one(SgitCommand::Log { short: true }).calls,
        vec![strs(&["log", "--oneline", "--decorate", "-n", "20"])]
    );
    assert_eq!(one(SgitCommand::Log { short: false }).calls, vec![strs(&["log", "--decorate", "-n", "40"])]);
    assert_eq!(one(SgitCommand::Diff { path: None, staged: true }).calls, vec![strs(&["diff", "--staged"])]);
    assert_eq!(
        one(SgitCommand::Diff { path: Some("a.rs".to_string()), staged: false }).calls,
        vec![strs(&["diff", "a.rs"])]
    );
    assert_eq!(one(SgitCommand::Diff { path: None, staged: false }).calls, vec![strs(&["diff"])]);
}

#[test]
fn failed_invocation_ends_with_hinted_message() {
    let t = drive(start(commit(Some("m"), false, false, false)), vec![Reply::Failure("nothing to commit, working tree clean\n".to_string())]);
    assert_eq!(
        t.end.unwrap(),
        (
            Outcome::Failed,
            "git commit -m m failed:\n  nothing to commit, working tree clean\n  hint: nothing to commit - use 'sgit stage' to stage changes first".to_string()
        )
    );
}

#[test]
fn modes_follow_the_command() {
    let (_, s) = start(SgitCommand::Status { short: false });
    assert!(matches!(s.action, Action::Git(ref c) if c.mode == Mode::Visible));
    let (_, s) = start(stage(&[], true, false));
    assert!(matches!(s.action, Action::Git(ref c) if c.mode == Mode::Quiet));
    let (_, s) = start(SgitCommand::Pull { remote: None, branch: None });
    assert!(matches!(s.action, Action::Git(ref c) if c.mode == Mode::Captured));
}

#[test]
fn launch_checks_the_repository_except_for_init() {
    assert!(matches!(Cli { explain: true, command: None }.launch(), Launch::Explain));
    assert!(matches!(Cli { explain: false, command: None }.launch(), Launch::Missing));
    assert!(matches!(
        Cli { explain: false, command: Some(SgitCommand::Init) }.launch(),
        Launch::Begin { check_repo: false, .. }
    ));
    assert!(matches!(
        Cli { explain: false, command: Some(SgitCommand::Status { short: false }) }.launch(),
        Launch::Begin { check_repo: true, .. }
    ));
}

#[test]
fn an_ended_workflow_stays_ended() {
    let (f, _) = start(commit(Some(""), false, false, false));
    let (f, s) = f.next(Reply::Success);
    assert!(matches!(f, Flow::Ended));
    assert!(matches!(s.action, Action::Finish { outcome: Outcome::Failed, .. }));
}

fn custom_reset_of(state: (char, char)) -> Trace {
    let es = vec![entry(state.0, state.1, "f.rs")];
    drive(
        start(SgitCommand::Reset { all: false, staged: false, unstaged: false, tracked_only: false, untracked: false }),
        vec![
            Reply::Chosen(5),
            Reply::Entries(es.clone()),
            Reply::ChosenMany(vec![0]),
            Reply::Root("/r".to_string()),
            Reply::Entries(es),
            Reply::Success,
            Reply::Success,
        ],
    )
}

#[test]
fn reset_custom_staged_file_is_unstaged_then_restored() {
    let t = custom_reset_of(('M', ' '));
    assert_eq!(t.calls, vec![strs(&["restore", "--staged", "f.rs"]), strs(&["restore", "f.rs"])]);
    let t = custom_reset_of(('D', ' '));
    assert_eq!(t.calls, vec![strs(&["restore", "--staged", "f.rs"]), strs(&["restore", "f.rs"])]);
    assert_eq!(outcome(&t), Outcome::Done);
}

#[test]
fn reset_custom_added_file_is_only_unstaged() {
    let t = custom_reset_of(('A', ' '));
    assert_eq!(t.calls, vec![strs(&["restore", "--staged", "f.rs"])]);
    let t = custom_reset_of(('A', 'M'));
    assert_eq!(t.calls, vec![strs(&["restore", "--staged", "f.rs"])]);
    assert_eq!(outcome(&t), Outcome::Done);
}

#[test]
fn reset_custom_failure_carries_the_error_text() {
    let es = vec![entry(' ', 'M', "f.rs")];
    let t = drive(
        start(SgitCommand::Reset { all: false, staged: false, unstaged: false, tracked_only: false, untracked: false }),
        vec![
            Reply::Chosen(5),
            Reply::Entries(es.clone()),
            Reply::ChosenMany(vec![0]),
            Reply::Root("/r".to_string()),
            Reply::Entries(es),
            Reply::Failure("error: permission denied".to_string()),
        ],
    );
    assert_eq!(
        t.end.unwrap(),
        (
            Outcome::Failed,
            "git restore f.rs failed:\n  error: permission denied\n  hint: check file permissions or run with appropriate privileges".to_string()
        )
    );
}

#[test]
fn sync_network_marker_matches_in_any_case() {
    let t = drive(
        start(SgitCommand::Sync { remote: None, branch: None }),
        vec![Reply::Failure("fatal: unable to access 'https://x/': Could not resolve host: x".to_string())],
    );
    assert_eq!(t.calls, vec![strs(&["fetch", "origin"])]);
    assert_eq!(outcome(&t), Outcome::Failed);
    let t = drive(
        start(SgitCommand::Sync { remote: None, branch: None }),
        vec![Reply::Failure("fatal: Network is unreachable".to_string())],
    );
    assert_eq!(t.calls.len(), 1);
    assert_eq!(outcome(&t), Outcome::Failed);
}

#[test]
fn sync_unresolved_conflict_stops_before_push() {
    let t = drive(
        start(SgitCommand::Sync { remote: None, branch: None }),
        vec![Reply::Success, Reply::Failure("fatal: Exiting because of an unresolved conflict.".to_string())],
    );
    assert_eq!(t.calls, vec![strs(&["fetch", "origin"]), strs(&["pull"])]);
    assert_eq!(outcome(&t), Outcome::Failed);
}

#[test]
fn sync_passed_over_failures_are_warned_about() {
    let t = drive(
        start(SgitCommand::Sync { remote: None, branch: None }),
        vec![
            Reply::Failure("fatal: couldn't find remote ref".to_string()),
            Reply::Failure("fatal: refusing to merge unrelated histories".to_string()),
            Reply::Success,
        ],
    );
    assert_eq!(t.calls.len(), 3);
    assert!(t.notes.iter().any(|n| n.starts_with("⚠ Fetch failed: git fetch origin failed:")));
    assert!(t.notes.iter().any(|n| n.starts_with("⚠ Pull failed: git pull failed:")
        && n.ends_with("Attempting to push local changes anyway...")));
    assert_eq!(outcome(&t), Outcome::Done);
}

#[test]
fn sync_push_without_upstream_any_case_names_the_branch() {
    let t = drive(
        start(SgitCommand::Sync { remote: None, branch: None }),
        vec![
            Reply::Success,
            Reply::Success,
            Reply::Failure("fatal: The current branch topic has No Upstream Branch.".to_string()),
            Reply::Branch("topic".to_string()),
        ],
    );
    assert_eq!(t.kinds, vec!["git", "git", "git", "query", "finish"]);
    assert!(t.notes.iter().any(|n| n.ends_with("git push -u origin topic")));
}

#[test]
fn direct_invocations_run_in_the_current_directory() {
    assert_eq!(drive(start(stage(&["a"], false, false)), vec![]).dirs, vec![None]);
    assert_eq!(drive(start(stage(&[], true, false)), vec![]).dirs, vec![None]);
    let t = drive(start(SgitCommand::Branch { create: Some("x".to_string()) }), vec![Reply::Success]);
    assert_eq!(t.dirs, vec![None, None]);
    let t = drive(start(SgitCommand::Sync { remote: None, branch: None }), vec![Reply::Success, Reply::Success]);
    assert_eq!(t.dirs, vec![None, None, None]);
}

#[test]
fn commit_custom_stages_in_root_and_commits_here() {
    let entries = vec![entry(' ', 'M', "a.rs")];
    let t = drive(
        start(commit(None, false, false, false)),
        vec![
            Reply::Chosen(3),
            Reply::Entries(entries),
            Reply::ChosenMany(vec![0]),
            Reply::Text("w".to_string()),
            Reply::Confirmed(true),
            Reply::Root("/repo".to_string()),
            Reply::Branch("dev".to_string()),
            Reply::Success,
            Reply::Success,
            Reply::Success,
        ],
    );
    assert_eq!(t.calls, vec![strs(&["add", "a.rs"]), strs(&["commit", "-m", "w"]), strs(&["push"])]);
    assert_eq!(t.dirs, vec![Some("/repo".to_string()), None, None]);
    assert!(t.notes.contains(&"→ Staged 1 file(s)\n→ Committing...".to_string()));
    assert!(t.notes.contains(&"→ Pushing to dev...".to_string()));
}

#[test]
fn refusals_and_notices_have_their_texts() {
    let t = drive(start(SgitCommand::Push { remote: None, branch: Some("main".to_string()) }), vec![]);
    assert_eq!(t.end.unwrap(), (Outcome::Usage, "cannot specify --branch without --remote".to_string()));
    let t = drive(
        start(SgitCommand::Unstage { targets: vec![], all: false }),
        vec![Reply::Chosen(1), Reply::Entries(vec![entry(' ', 'M', "a")])],
    );
    assert_eq!(t.end.unwrap(), (Outcome::NoOp, "No staged files to unstage.".to_string()));
    let reset = |unstaged, untracked| SgitCommand::Reset {
        all: false,
        staged: false,
        unstaged,
        tracked_only: false,
        untracked,
    };
    let t = drive(start(reset(true, false)), vec![Reply::Entries(vec![])]);
    assert_eq!(t.end.unwrap(), (Outcome::NoOp, "No unstaged changes to reset.".to_string()));
    let t = drive(start(reset(false, true)), vec![Reply::Entries(vec![])]);
    assert_eq!(t.end.unwrap(), (Outcome::NoOp, "No untracked files to reset.".to_string()));
}

#[test]
fn push_and_pull_progress_names_remote_and_branch() {
    let t = drive(
        start(SgitCommand::Push { remote: Some("up".to_string()), branch: Some("main".to_string()) }),
        vec![Reply::Success],
    );
    assert_eq!(t.notes, vec!["→ Pushing to up/main...".to_string()]);
    let t = drive(start(SgitCommand::Pull { remote: Some("up".to_string()), branch: None }), vec![Reply::Success]);
    assert_eq!(t.notes, vec!["→ Pulling from up...".to_string()]);
}

#[test]
fn stage_tracked_reports_tracked_files() {
    let t = drive(start(stage(&[], false, true)), vec![Reply::Success]);
    assert_eq!(t.end.unwrap(), (Outcome::Done, "✓ Staged tracked files".to_string()));
}
