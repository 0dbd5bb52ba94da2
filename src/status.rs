//! Reading the repository's state: status lines, branch listings and the
//! repository root, as the underlying tool prints them.
use vstd::prelude::*;

use crate::text::{
    lines_of, occurs_in, texts, trimmed, chars_of, contains, join2, owned, split_lines, string_of,
    trim, lemma_texts_push,
};

verus! {

broadcast use vstd::seq_lib::group_seq_properties;

/// Where a reported path stands, read off its two-character status code.
#[derive(Clone, Copy, Debug, PartialEq, Eq, Structural)]
pub enum FileClass {
    Untracked,
    UnstagedModified,
    Staged,
    Other,
}

/// One line of the status listing: index state, worktree state and path.
#[derive(Clone, Debug)]
pub struct FileEntry {
    pub index: char,
    pub worktree: char,
    pub path: String,
}

impl View for FileEntry {
    type V = (char, char, Seq<char>);

    open spec fn view(&self) -> (char, char, Seq<char>) {
        (self.index, self.worktree, self.path@)
    }
}

/// Why the repository root could not be found.
#[derive(Clone, Debug)]
pub enum RootError {
    NotInRepository,
    QueryFailed(String),
}

pub open spec fn is_staged_code(x: char) -> bool {
    x == 'M' || x == 'A' || x == 'D' || x == 'R' || x == 'C'
}

pub open spec fn class_of(x: char, y: char) -> FileClass {
    if x == '?' && y == '?' {
        FileClass::Untracked
    } else if x == ' ' && y != ' ' && y != '?' {
        FileClass::UnstagedModified
    } else if is_staged_code(x) {
        FileClass::Staged
    } else {
        FileClass::Other
    }
}

/// The entry a status line describes, if it is long enough to hold a code,
/// a separator and a path.
pub open spec fn entry_of_line(l: Seq<char>) -> Option<(char, char, Seq<char>)> {
    if l.len() < 4 {
        None
    } else {
        Some((l[0], l[1], l.subrange(3, l.len() as int)))
    }
}

/// The entries of a status listing, in the order reported.
pub open spec fn porcelain_entries(out: Seq<char>) -> Seq<(char, char, Seq<char>)> {
    lines_of(out).filter_map(|l: Seq<char>| entry_of_line(l))
}

pub open spec fn entries_view(v: Seq<FileEntry>) -> Seq<(char, char, Seq<char>)> {
    v.map_values(|e: FileEntry| e@)
}

proof fn lemma_entries_push(v: Seq<FileEntry>, e: FileEntry)
    ensures
        entries_view(v.push(e)) == entries_view(v).push(e@),
{
    assert(entries_view(v.push(e)) =~= entries_view(v).push(e@));
}

/// The path of an entry of class `c`.
pub open spec fn path_if(e: (char, char, Seq<char>), c: FileClass) -> Option<Seq<char>> {
    if class_of(e.0, e.1) == c {
        Some(e.2)
    } else {
        None
    }
}

/// The paths of the entries of class `c`, in order.
pub open spec fn paths_of_class(es: Seq<(char, char, Seq<char>)>, c: FileClass) -> Seq<Seq<char>> {
    es.filter_map(|e: (char, char, Seq<char>)| path_if(e, c))
}

/// The branch names of a listing: each line trimmed, blank lines dropped.
pub open spec fn branch_names(out: Seq<char>) -> Seq<Seq<char>> {
    lines_of(out).filter_map(
        |l: Seq<char>|
            if trimmed(l).len() > 0 {
                Some(trimmed(l))
            } else {
                None
            },
    )
}

pub open spec fn not_in_repo_text() -> Seq<char> {
    "not in a git repository - run 'sgit init' or cd into a repo first"@
}

pub fn classify(x: char, y: char) -> (r: FileClass)
    ensures
        r == class_of(x, y),
{
    if x == '?' && y == '?' {
        FileClass::Untracked
    } else if x == ' ' && y != ' ' && y != '?' {
        FileClass::UnstagedModified
    } else if x == 'M' || x == 'A' || x == 'D' || x == 'R' || x == 'C' {
        FileClass::Staged
    } else {
        FileClass::Other
    }
}

/// Classification is a partition: each entry has exactly one class, and
/// each of the three named classes holds exactly the codes that define it.
pub proof fn lemma_classes_partition(x: char, y: char)
    ensures
        (class_of(x, y) == FileClass::Untracked) <==> (x == '?' && y == '?'),
        (class_of(x, y) == FileClass::UnstagedModified) <==> (x == ' ' && y != ' ' && y
            != '?'),
        (class_of(x, y) == FileClass::Staged) <==> is_staged_code(x),
        (class_of(x, y) == FileClass::Other) <==> !((x == '?' && y == '?') || (x == ' ' && y
            != ' ' && y != '?') || is_staged_code(x)),
{
}

/// The status entries of the output of `status --porcelain`.
pub fn get_porcelain_lines(stdout: &str) -> (r: Vec<FileEntry>)
    ensures
        entries_view(r@) == porcelain_entries(stdout@),
{
    let lines = split_lines(stdout);
    let ghost ls = texts(lines@);
    let ghost f = |l: Seq<char>| entry_of_line(l);
    let mut out: Vec<FileEntry> = Vec::new();
    let mut i: usize = 0;
    while i < lines.len()
        invariant
            i <= lines@.len(),
            ls == texts(lines@),
            ls == lines_of(stdout@),
            f == (|l: Seq<char>| entry_of_line(l)),
            entries_view(out@) == ls.take(i as int).filter_map(f),
        decreases lines.len() - i,
    {
        let line = &lines[i];
        proof {
            ls.lemma_filter_map_take_succ(f, i as int);
        }
        let cs = chars_of(line.as_str());
        if cs.len() >= 4 {
            let path = string_of(&cs, 3, cs.len());
            let e = FileEntry { index: cs[0], worktree: cs[1], path };
            proof {
                lemma_entries_push(out@, e);
                assert(e@ == entry_of_line(ls[i as int])->0);
            }
            out.push(e);
        }
        i = i + 1;
    }
    assert(ls.take(ls.len() as int) =~= ls);
    out
}

fn paths_in_class(entries: &Vec<FileEntry>, c: FileClass) -> (r: Vec<String>)
    ensures
        texts(r@) == paths_of_class(entries_view(entries@), c),
{
    let ghost es = entries_view(entries@);
    let ghost f = |e: (char, char, Seq<char>)| path_if(e, c);
    let mut out: Vec<String> = Vec::new();
    let mut i: usize = 0;
    while i < entries.len()
        invariant
            i <= entries@.len(),
            es == entries_view(entries@),
            f == (|e: (char, char, Seq<char>)| path_if(e, c)),
            texts(out@) == es.take(i as int).filter_map(f),
        decreases entries.len() - i,
    {
        let e = &entries[i];
        proof {
            es.lemma_filter_map_take_succ(f, i as int);
        }
        if classify(e.index, e.worktree) == c {
            let p = e.path.clone();
            proof {
                lemma_texts_push(out@, p);
            }
            out.push(p);
        }
        i = i + 1;
    }
    assert(es.take(es.len() as int) =~= es);
    out
}

/// Paths with worktree edits and nothing staged.
pub fn get_unstaged_files(entries: &Vec<FileEntry>) -> (r: Vec<String>)
    ensures
        texts(r@) == paths_of_class(entries_view(entries@), FileClass::UnstagedModified),
{
    paths_in_class(entries, FileClass::UnstagedModified)
}

/// Paths with a change in the index.
pub fn get_staged_files(entries: &Vec<FileEntry>) -> (r: Vec<String>)
    ensures
        texts(r@) == paths_of_class(entries_view(entries@), FileClass::Staged),
{
    paths_in_class(entries, FileClass::Staged)
}

/// Paths the underlying tool does not track.
pub fn get_untracked_files(entries: &Vec<FileEntry>) -> (r: Vec<String>)
    ensures
        texts(r@) == paths_of_class(entries_view(entries@), FileClass::Untracked),
{
    paths_in_class(entries, FileClass::Untracked)
}

/// Every reported path, whatever its state.
pub fn get_all_uncommitted_files(entries: &Vec<FileEntry>) -> (r: Vec<String>)
    ensures
        texts(r@) == entries_view(entries@).map_values(|e: (char, char, Seq<char>)| e.2),
{
    let mut out: Vec<String> = Vec::new();
    let mut i: usize = 0;
    while i < entries.len()
        invariant
            i <= entries@.len(),
            texts(out@) == entries_view(entries@).take(i as int).map_values(
                |e: (char, char, Seq<char>)| e.2,
            ),
        decreases entries.len() - i,
    {
        let p = entries[i].path.clone();
        proof {
            lemma_texts_push(out@, p);
            assert(entries_view(entries@).take(i + 1).map_values(|e: (char, char, Seq<char>)| e.2)
                =~= entries_view(entries@).take(i as int).map_values(
                |e: (char, char, Seq<char>)| e.2,
            ).push(p@));
        }
        out.push(p);
        i = i + 1;
    }
    assert(entries_view(entries@).take(i as int) =~= entries_view(entries@));
    out
}

/// The branch names of the output of `branch --format=%(refname:short)`.
pub fn get_branches(stdout: &str) -> (r: Vec<String>)
    ensures
        texts(r@) == branch_names(stdout@),
{
    let lines = split_lines(stdout);
    let ghost ls = texts(lines@);
    let ghost f = |l: Seq<char>|
        if trimmed(l).len() > 0 {
            Some(trimmed(l))
        } else {
            None
        };
    let mut out: Vec<String> = Vec::new();
    let mut i: usize = 0;
    while i < lines.len()
        invariant
            i <= lines@.len(),
            ls == texts(lines@),
            ls == lines_of(stdout@),
            f == (|l: Seq<char>|
                if trimmed(l).len() > 0 {
                    Some(trimmed(l))
                } else {
                    None
                }),
            texts(out@) == ls.take(i as int).filter_map(f),
        decreases lines.len() - i,
    {
        proof {
            ls.lemma_filter_map_take_succ(f, i as int);
        }
        let name = trim(lines[i].as_str());
        if name.as_str().is_empty() {
        } else {
            proof {
                lemma_texts_push(out@, name);
            }
            out.push(name);
        }
        i = i + 1;
    }
    assert(ls.take(ls.len() as int) =~= ls);
    out
}

/// The checked-out branch from the output of `branch --show-current`; empty
/// when no branch is checked out.
pub fn get_current_branch(stdout: &str) -> (r: String)
    ensures
        r@ == trimmed(stdout@),
{
    trim(stdout)
}

/// The repository root from the outcome of `rev-parse --show-toplevel`.
pub fn get_repo_root(success: bool, stdout: &str, stderr: &str) -> (r: Result<String, RootError>)
    ensures
        success && trimmed(stdout@).len() > 0 ==> (r matches Ok(p) && p@ == trimmed(stdout@)),
        success && trimmed(stdout@).len() == 0 ==> r matches Err(RootError::NotInRepository),
        !success && occurs_in(stderr@, "not a git repository"@) ==> r matches Err(
            RootError::NotInRepository,
        ),
        !success && !occurs_in(stderr@, "not a git repository"@) ==> (r matches Err(
            RootError::QueryFailed(m),
        ) && m@ == "failed to get repo root: "@ + trimmed(stderr@)),
{
    if success {
        let path = trim(stdout);
        if path.as_str().is_empty() {
            Err(RootError::NotInRepository)
        } else {
            Ok(path)
        }
    } else if contains(stderr, "not a git repository") {
        Err(RootError::NotInRepository)
    } else {
        let t = trim(stderr);
        Err(RootError::QueryFailed(join2("failed to get repo root: ", t.as_str())))
    }
}

impl RootError {
    /// The message reported for this error.
    pub fn message(&self) -> (r: String)
        ensures
            self is NotInRepository ==> r@ == not_in_repo_text(),
            self matches RootError::QueryFailed(m) ==> r@ == m@,
    {
        match self {
            RootError::NotInRepository => owned(
                "not in a git repository - run 'sgit init' or cd into a repo first",
            ),
            RootError::QueryFailed(m) => m.clone(),
        }
    }
}

} // verus!
