//! The commands, and how each one starts its workflow.
use vstd::prelude::*;

use crate::branch::{BranchWait, create_branch, creates, run_branch_interactive};
use crate::commit::{commit_started, run_commit};
use crate::flow::{Flow, Mode, Step, args1, args2, args3, asks, git, runs, single, with, Query};
use crate::remote::{
    SyncTarget, SyncWait, fetch_argv, opt_view, push_started, remote_argv, run_pull, run_push,
    run_sync, sync_goes,
};
use crate::reset::{reset_started, run_reset};
use crate::stage::{restore_stage, stage_started, stage_targets, unstage_started};
use crate::text::texts;

verus! {

/// A subcommand and its arguments.
#[derive(Debug)]
pub enum SgitCommand {
    Init,
    Stage { targets: Vec<String>, all: bool, tracked_only: bool },
    Unstage { targets: Vec<String>, all: bool },
    Status { short: bool },
    Commit {
        message: Option<String>,
        all: bool,
        staged: bool,
        unstaged: bool,
        push: bool,
        amend: bool,
        skip_hooks: bool,
    },
    Log { short: bool },
    Diff { path: Option<String>, staged: bool },
    Reset { all: bool, staged: bool, unstaged: bool, tracked_only: bool, untracked: bool },
    Branch { create: Option<String> },
    Push { remote: Option<String>, branch: Option<String> },
    Pull { remote: Option<String>, branch: Option<String> },
    Sync { remote: Option<String>, branch: Option<String> },
}

/// The whole command line.
#[derive(Debug)]
pub struct Cli {
    /// Print what each command does, and stop.
    pub explain: bool,
    pub command: Option<SgitCommand>,
}

/// What to do with a command line.
#[derive(Debug)]
pub enum Launch {
    /// Print the explanations; no repository is needed.
    Explain,
    /// No subcommand was given.
    Missing,
    /// Run the command, after checking for a repository when `check_repo`.
    Begin { command: SgitCommand, check_repo: bool },
}

impl Cli {
    /// What to do with this command line: explain, complain, or run the
    /// command, checking for a repository first unless it is `init`.
    pub fn launch(self) -> (r: Launch)
        ensures
            self.explain ==> r is Explain,
            !self.explain && self.command is None ==> r is Missing,
            !self.explain && self.command is Some ==> (r matches Launch::Begin { command, check_repo }
                && command == self.command->0 && check_repo == !(command is Init)),
    {
        if self.explain {
            Launch::Explain
        } else {
            match self.command {
                None => Launch::Missing,
                Some(command) => {
                    let check_repo = !matches!(command, SgitCommand::Init);
                    Launch::Begin { command, check_repo }
                },
            }
        }
    }
}

pub open spec fn log_argv(short: bool) -> Seq<Seq<char>> {
    if short {
        seq!["log"@, "--oneline"@, "--decorate"@, "-n"@, "20"@]
    } else {
        seq!["log"@, "--decorate"@, "-n"@, "40"@]
    }
}

pub open spec fn diff_argv(path: Option<Seq<char>>, staged: bool) -> Seq<Seq<char>> {
    if staged {
        seq!["diff"@, "--staged"@]
    } else {
        match path {
            Some(p) => seq!["diff"@, p],
            None => seq!["diff"@],
        }
    }
}

/// How each command's workflow starts.
pub open spec fn started(cmd: SgitCommand, r: (Flow, Step)) -> bool {
    match cmd {
        SgitCommand::Init => runs(r, seq![seq!["init"@]]),
        SgitCommand::Stage { targets, all, tracked_only } => stage_started(
            texts(targets@),
            all,
            tracked_only,
            r,
        ),
        SgitCommand::Unstage { targets, all } => unstage_started(texts(targets@), all, r),
        SgitCommand::Status { short } => runs(
            r,
            seq![
                if short {
                    seq!["status"@, "-sb"@]
                } else {
                    seq!["status"@]
                },
            ],
        ),
        SgitCommand::Commit { message, all, staged, unstaged, push, amend, skip_hooks } => commit_started(
            message,
            all,
            staged,
            unstaged,
            push,
            amend,
            skip_hooks,
            r,
        ),
        SgitCommand::Log { short } => runs(r, seq![log_argv(short)]),
        SgitCommand::Diff { path, staged } => runs(r, seq![diff_argv(opt_view(path), staged)]),
        SgitCommand::Reset { all, staged, unstaged, tracked_only, untracked } => reset_started(
            all,
            staged,
            unstaged,
            tracked_only,
            untracked,
            r,
        ),
        SgitCommand::Branch { create } => match create {
            Some(name) => creates(name@, r),
            None => r.0 == Flow::Branch(BranchWait::Names) && asks(r.1, Query::Branches),
        },
        SgitCommand::Push { remote, branch } => push_started(remote, branch, r),
        SgitCommand::Pull { remote, branch } => runs(
            r,
            seq![remote_argv("pull"@, opt_view(remote), opt_view(branch))],
        ),
        SgitCommand::Sync { remote, branch } => sync_goes(
            SyncTarget { remote, branch },
            SyncWait::Fetch,
            fetch_argv(opt_view(remote)),
            r,
        ),
    }
}

/// Starts the workflow of a command.
pub fn start(cmd: SgitCommand) -> (r: (Flow, Step))
    ensures
        started(cmd, r),
        r.0.pristine() ==> !(r.1.action is Git),
{
    match cmd {
        SgitCommand::Init => single(git(args1("init"), Mode::Quiet), "", "✓ Initialized Git repository"),
        SgitCommand::Stage { targets, all, tracked_only } => stage_targets(&targets, all, tracked_only),
        SgitCommand::Unstage { targets, all } => restore_stage(&targets, all),
        SgitCommand::Status { short } => {
            let args = if short {
                args2("status", "-sb")
            } else {
                args1("status")
            };
            single(git(args, Mode::Visible), "", "")
        },
        SgitCommand::Commit { message, all, staged, unstaged, push, amend, skip_hooks } => {
            run_commit(message, all, staged, unstaged, push, amend, skip_hooks)
        },
        SgitCommand::Log { short } => {
            let args = if short {
                with(with(args3("log", "--oneline", "--decorate"), "-n"), "20")
            } else {
                with(args3("log", "--decorate", "-n"), "40")
            };
            assert(texts(args@) =~= log_argv(short));
            single(git(args, Mode::Visible), "", "")
        },
        SgitCommand::Diff { path, staged } => {
            let args = if staged {
                args2("diff", "--staged")
            } else {
                match &path {
                    Some(p) => args2("diff", p.as_str()),
                    None => args1("diff"),
                }
            };
            single(git(args, Mode::Visible), "", "")
        },
        SgitCommand::Reset { all, staged, unstaged, tracked_only, untracked } => {
            run_reset(all, staged, unstaged, tracked_only, untracked)
        },
        SgitCommand::Branch { create } => match create {
            Some(name) => create_branch(name.as_str()),
            None => run_branch_interactive(),
        },
        SgitCommand::Push { remote, branch } => run_push(remote, branch),
        SgitCommand::Pull { remote, branch } => run_pull(remote, branch),
        SgitCommand::Sync { remote, branch } => run_sync(remote, branch),
    }
}

} // verus!
