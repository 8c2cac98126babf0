//! The commit history miner and its data model: identities, change kinds,
//! per-file change records, log entries, the mining configuration, and the
//! mining run itself.

use vstd::prelude::*;

use crate::classify::{classify_all, flatten_changes, lemma_classify_all_wf, lemma_flatten_wf};
use crate::coauthors::{coauthors_of, find_coauthors};
use crate::gitio;
use crate::hex::hex_string;

verus! {

/// Simplified user info: blank strings stand for missing fields, never `None`.
#[derive(Debug, PartialEq)]
pub struct User {
    pub name: String,
    pub email: String,
}

/// The mathematical value of a [`User`]: its two fields as character sequences.
pub struct UserView {
    pub name: Seq<char>,
    pub email: Seq<char>,
}

impl View for User {
    type V = UserView;

    open spec fn view(&self) -> UserView {
        UserView { name: self.name@, email: self.email@ }
    }
}

impl User {
    pub fn new(name: &str, email: &str) -> (u: User)
        ensures
            u@.name == name@,
            u@.email == email@,
    {
        User { name: name.to_owned(), email: email.to_owned() }
    }
}

/// The kinds of change to a single file that the log records.
#[derive(Debug, PartialEq, Eq, Clone, Copy)]
pub enum CommitChange {
    Add,
    Rename,
    Delete,
    Modify,
    Copied,
}

/// One file-level change of one commit, with its line statistics.
#[derive(Debug, PartialEq, Clone)]
pub struct FileChange {
    pub file: String,
    pub old_file: Option<String>,
    pub change: CommitChange,
    pub lines_added: usize,
    pub lines_deleted: usize,
}

impl FileChange {
    /// The previous path is recorded exactly for renames and copies.
    pub open spec fn wf(self) -> bool {
        self.old_file is Some <==> (self.change is Rename || self.change is Copied)
    }
}

/// Every change of the list is well formed.
pub open spec fn all_changes_wf(changes: Seq<FileChange>) -> bool {
    forall|i: int| 0 <= i < changes.len() ==> #[trigger] changes[i].wf()
}

/// One commit of the mined log.
#[derive(Debug, PartialEq)]
pub struct GitLogEntry {
    pub id: String,
    pub summary: String,
    pub parents: Vec<String>,
    pub committer: User,
    pub commit_time: i64,
    pub author: User,
    pub author_time: i64,
    pub co_authors: Vec<User>,
    pub file_changes: Vec<FileChange>,
}

impl GitLogEntry {
    pub open spec fn wf(self) -> bool {
        all_changes_wf(self.file_changes@)
    }
}

/// The mined log: one entry per commit, in revision-walk order.
#[derive(Debug, PartialEq)]
pub struct GitLog {
    pub entries: Vec<GitLogEntry>,
}

impl GitLog {
    pub open spec fn wf(self) -> bool {
        forall|i: int| 0 <= i < self.entries@.len() ==> #[trigger] self.entries@[i].wf()
    }
}

/// Mining configuration: whether merge commits contribute file changes.
#[derive(Debug, PartialEq, Eq, Clone, Copy)]
pub struct GitLogConfig {
    /// Include file changes of merge commits in the log; excluded by default,
    /// as `git log` excludes merge diffs from file-history views.
    pub include_merges: bool,
}

impl Default for GitLogConfig {
    fn default() -> (c: GitLogConfig)
        ensures
            c.include_merges == false,
    {
        GitLogConfig { include_merges: false }
    }
}

/// The raw status of a file-level delta between two trees, as the
/// repository collaborator reports it.
#[derive(Debug, PartialEq, Eq, Clone, Copy)]
pub enum DeltaStatus {
    Unmodified,
    Added,
    Deleted,
    Modified,
    Renamed,
    Copied,
    Ignored,
    Untracked,
    Typechange,
    Unreadable,
    Conflicted,
}

/// One raw delta: its status and the paths of its old and new file records.
#[derive(Debug, PartialEq, Clone)]
pub struct DeltaRecord {
    pub status: DeltaStatus,
    pub old_path: Option<String>,
    pub new_path: Option<String>,
}

/// The kind of an object met on the revision walk.
#[derive(Debug, PartialEq, Eq, Clone, Copy)]
pub enum ObjectKind {
    Any,
    Commit,
    Tree,
    Blob,
    Tag,
}

/// A fatal mining failure; recoverable conditions never surface here.
#[derive(Debug, PartialEq)]
pub enum GitError {
    /// No repository is discoverable from the starting path.
    RepositoryNotFound { message: String },
    /// The repository has no usable head to seed the revision walk.
    HeadUnavailable { message: String },
    /// An object, tree, diff or patch could not be read or decoded.
    ReadFailure { message: String },
}

/// A read failure around the given collaborator error.
fn read_failure(error: &git2::Error) -> (r: GitError)
    ensures
        r is ReadFailure,
{
    GitError::ReadFailure { message: gitio::error_message(error) }
}

/// The identity a signature's fields denote: fixed placeholders stand in
/// for fields that are absent or unreadable.
pub fn user_from_parts(name: Option<String>, email: Option<String>) -> (u: User)
    ensures
        u@.name == match name {
            Some(n) => n@,
            None => "[invalid name]"@,
        },
        u@.email == match email {
            Some(e) => e@,
            None => "[invalid email]"@,
        },
{
    User {
        name: match name {
            Some(n) => n,
            None => "[invalid name]".to_owned(),
        },
        email: match email {
            Some(e) => e,
            None => "[invalid email]".to_owned(),
        },
    }
}

/// Print one object id as lowercase hexadecimal text.
fn oid_to_hex(oid: &git2::Oid) -> String {
    hex_string(gitio::oid_bytes(oid).as_slice())
}

/// Read one signature into an identity.
fn signature_to_user(signature: &git2::Signature<'_>) -> User {
    user_from_parts(gitio::signature_name(signature), gitio::signature_email(signature))
}

/// Whether a walked object of this kind contributes a log entry: exactly
/// the commits do; an object of any other kind is skipped, never an
/// error.
pub fn keeps(kind: ObjectKind) -> (b: bool)
    ensures
        b == (kind is Commit),
{
    match kind {
        ObjectKind::Commit => true,
        _ => false,
    }
}

/// The entry's summary line: the text when the commit has one, else the
/// fixed placeholder — a missing summary degrades, never fails.
pub fn summary_or_placeholder(summary: Option<String>) -> (r: String)
    ensures
        r@ == match summary {
            Some(s) => s@,
            None => "[no message]"@,
        },
{
    match summary {
        Some(s) => s,
        None => "[no message]".to_owned(),
    }
}

/// The entry's co-authors: the parser's result when the commit has a
/// message, and none otherwise.
pub fn coauthors_of_message(message: Option<String>) -> (r: Vec<User>)
    ensures
        r@.map_values(|u: User| u@) == match message {
            Some(m) => coauthors_of(m@),
            None => Seq::<UserView>::empty(),
        },
{
    match message {
        Some(m) => find_coauthors(m.as_str()),
        None => {
            let r: Vec<User> = Vec::new();
            proof {
                assert(r@.map_values(|u: User| u@) =~= Seq::<UserView>::empty());
            }
            r
        },
    }
}

/// The line counts one delta contributes: the patch's counts when a
/// patch could be computed, and zero each way when none could — not an
/// error condition.
pub fn counts_or_zero(counts: Option<(usize, usize)>) -> (r: (usize, usize))
    ensures
        r == match counts {
            Some(c) => c,
            None => (0usize, 0usize),
        },
{
    match counts {
        Some(c) => c,
        None => (0, 0),
    }
}

/// Compute one diff, run rename detection over it, and classify every
/// delta together with its line counts; a delta without a computable
/// patch contributes zero counts rather than failing.
pub fn scan_diffs<'r>(
    repo: &'r git2::Repository,
    commit_tree: &git2::Tree<'r>,
    parent_tree: Option<&git2::Tree<'r>>,
) -> (r: Result<Vec<FileChange>, GitError>)
    ensures
        r matches Ok(changes) ==> all_changes_wf(changes@),
{
    let mut diff = match gitio::diff_trees(repo, parent_tree, commit_tree) {
        Ok(d) => d,
        Err(e) => return Err(read_failure(&e)),
    };
    if let Err(e) = gitio::diff_find_similar(&mut diff) {
        return Err(read_failure(&e));
    }
    let raw = gitio::diff_deltas(&diff);
    let mut deltas: Vec<DeltaRecord> = Vec::new();
    let mut stats: Vec<(usize, usize)> = Vec::new();
    let mut i: usize = 0;
    while i < raw.len()
        invariant
            i <= raw@.len(),
            deltas@.len() == i,
            stats@.len() == i,
        decreases raw@.len() - i,
    {
        deltas.push(gitio::read_delta(&raw[i]));
        let counts = match gitio::patch_from_diff(&diff, i) {
            Ok(Some(patch)) => match gitio::patch_line_stats(&patch) {
                Ok(c) => counts_or_zero(Some(c)),
                Err(e) => return Err(read_failure(&e)),
            },
            Ok(None) => counts_or_zero(None),
            Err(e) => return Err(read_failure(&e)),
        };
        stats.push(counts);
        i = i + 1;
    }
    let changes = classify_all(&deltas, &stats);
    proof {
        lemma_classify_all_wf(deltas@, stats@);
    }
    Ok(changes)
}

/// Decide which parent trees to diff the commit against and concatenate
/// the classified results: a root commit is diffed against the empty
/// tree, so its whole snapshot classifies as additions; a merge commit
/// contributes no changes unless the configuration includes them; any
/// other commit is diffed against each parent in parent order, results
/// concatenated without deduplication.
pub fn commit_file_changes<'r>(
    repo: &'r git2::Repository,
    commit: &git2::Commit<'r>,
    parent_count: usize,
    commit_tree: &git2::Tree<'r>,
    config: &GitLogConfig,
) -> (r: Result<Vec<FileChange>, GitError>)
    ensures
        parent_count > 1 && !config.include_merges ==> (r matches Ok(changes) && changes@
            =~= Seq::<FileChange>::empty()),
        r matches Ok(changes) ==> all_changes_wf(changes@),
{
    if parent_count == 0 {
        scan_diffs(repo, commit_tree, None)
    } else if parent_count > 1 && !config.include_merges {
        Ok(Vec::new())
    } else {
        let mut per_parent: Vec<Vec<FileChange>> = Vec::new();
        let mut i: usize = 0;
        while i < parent_count
            invariant
                parent_count <= 1 || config.include_merges,
                forall|a: int| 0 <= a < per_parent@.len() ==> all_changes_wf(
                    (#[trigger] per_parent@[a])@,
                ),
            decreases parent_count - i,
        {
            let parent = match gitio::commit_parent(commit, i) {
                Ok(p) => p,
                Err(e) => return Err(read_failure(&e)),
            };
            let parent_tree = match gitio::commit_tree(&parent) {
                Ok(t) => t,
                Err(e) => return Err(read_failure(&e)),
            };
            let changes = scan_diffs(repo, commit_tree, Some(&parent_tree))?;
            per_parent.push(changes);
            i = i + 1;
        }
        let ghost lists = per_parent@.map_values(|v: Vec<FileChange>| v@);
        let flat = flatten_changes(per_parent);
        proof {
            assert forall|a: int| 0 <= a < lists.len() implies all_changes_wf(
                #[trigger] lists[a],
            ) by {
                assert(lists[a] == per_parent@[a]@);
            }
            lemma_flatten_wf(lists, lists.len() as int);
        }
        Ok(flat)
    }
}

/// Build one log entry from one commit: its id, summary, parent ids,
/// identities and times, the co-authors parsed from its message, and the
/// per-file changes the configuration calls for. A missing summary
/// degrades to a fixed placeholder; a missing message yields no
/// co-authors.
pub fn summarise_commit<'r>(
    repo: &'r git2::Repository,
    oid: &git2::Oid,
    config: &GitLogConfig,
) -> (r: Result<GitLogEntry, GitError>)
    ensures
        r matches Ok(entry) ==> entry.wf(),
{
    let commit = match gitio::find_commit(repo, oid) {
        Ok(c) => c,
        Err(e) => return Err(read_failure(&e)),
    };
    let author = gitio::commit_author(&commit);
    let committer = gitio::commit_committer(&commit);
    let author_time = gitio::signature_time_seconds(&author);
    let commit_time = gitio::signature_time_seconds(&committer);
    let co_authors = coauthors_of_message(gitio::commit_message(&commit));
    let commit_tree = match gitio::commit_tree(&commit) {
        Ok(t) => t,
        Err(e) => return Err(read_failure(&e)),
    };
    let parent_count = gitio::commit_parent_count(&commit);
    let file_changes = commit_file_changes(repo, &commit, parent_count, &commit_tree, config)?;
    let parent_oids = gitio::commit_parent_ids(&commit);
    let mut parents: Vec<String> = Vec::new();
    let mut i: usize = 0;
    while i < parent_oids.len()
        invariant
            i <= parent_oids@.len(),
        decreases parent_oids@.len() - i,
    {
        parents.push(oid_to_hex(&parent_oids[i]));
        i = i + 1;
    }
    let summary = summary_or_placeholder(gitio::commit_summary(&commit));
    Ok(
        GitLogEntry {
            id: oid_to_hex(oid),
            summary,
            parents,
            committer: signature_to_user(&committer),
            commit_time,
            author: signature_to_user(&author),
            author_time,
            co_authors,
            file_changes,
        },
    )
}

/// Mine the commit history: discover the repository at or above
/// `start_dir`, seed a revision walk from the current head, and summarize
/// every commit the walk yields, in walk order. A walked object of any
/// other kind is skipped; any failure reading an object is fatal and no
/// partial log is returned.
pub fn log(start_dir: &str, config: Option<GitLogConfig>) -> (r: Result<GitLog, GitError>)
    ensures
        r matches Ok(lg) ==> lg.wf(),
{
    let config = match config {
        Some(c) => c,
        None => GitLogConfig::default(),
    };
    let repo = match gitio::repo_discover(start_dir) {
        Ok(r) => r,
        Err(e) => return Err(
            GitError::RepositoryNotFound { message: gitio::error_message(&e) },
        ),
    };
    let odb = match gitio::repo_odb(&repo) {
        Ok(o) => o,
        Err(e) => return Err(read_failure(&e)),
    };
    let mut revwalk = match gitio::repo_revwalk(&repo) {
        Ok(w) => w,
        Err(e) => return Err(read_failure(&e)),
    };
    if let Err(e) = gitio::walk_push_head(&mut revwalk) {
        return Err(GitError::HeadUnavailable { message: gitio::error_message(&e) });
    }
    let oids = gitio::walk_oids(revwalk);
    let mut entries: Vec<GitLogEntry> = Vec::new();
    let mut w: usize = 0;
    while w < oids.len()
        invariant
            w <= oids@.len(),
            forall|i: int| 0 <= i < entries@.len() ==> (#[trigger] entries@[i]).wf(),
        decreases oids@.len() - w,
    {
        match &oids[w] {
            Err(e) => return Err(read_failure(e)),
            Ok(oid) => match gitio::object_kind(&odb, oid) {
                Err(e) => return Err(read_failure(&e)),
                Ok(kind) => if keeps(kind) {
                    let entry = summarise_commit(&repo, oid, &config)?;
                    entries.push(entry);
                },
            },
        }
        w = w + 1;
    }
    Ok(GitLog { entries })
}

/// A simplified per-repository record: the distinct author names seen on
/// the walked commits.
#[derive(Debug, PartialEq)]
pub struct GitData {
    pub authors: Vec<String>,
    pub last_change: i64,
}

/// No name appears twice.
pub open spec fn distinct_names(names: Seq<String>) -> bool {
    forall|i: int, j: int| 0 <= i < j < names.len() ==> names[i]@ != names[j]@
}

/// Whether the list already holds the name.
fn contains_name(names: &Vec<String>, name: &String) -> (b: bool)
    ensures
        b == exists|i: int| 0 <= i < names@.len() && (#[trigger] names@[i])@ == name@,
{
    let mut i: usize = 0;
    while i < names.len()
        invariant
            i <= names@.len(),
            forall|j: int| 0 <= j < i ==> (#[trigger] names@[j])@ != name@,
        decreases names@.len() - i,
    {
        if names[i] == *name {
            return true;
        }
        i = i + 1;
    }
    false
}

/// Walk the repository reachable from `filename` and collect the author
/// name of every commit, first appearance first, each name once.
pub fn parse_file(filename: &str) -> (r: Result<GitData, GitError>)
    ensures
        r matches Ok(d) ==> distinct_names(d.authors@) && d.last_change == 0,
{
    let repo = match gitio::repo_discover(filename) {
        Ok(r) => r,
        Err(e) => return Err(
            GitError::RepositoryNotFound { message: gitio::error_message(&e) },
        ),
    };
    let odb = match gitio::repo_odb(&repo) {
        Ok(o) => o,
        Err(e) => return Err(read_failure(&e)),
    };
    let mut revwalk = match gitio::repo_revwalk(&repo) {
        Ok(w) => w,
        Err(e) => return Err(read_failure(&e)),
    };
    if let Err(e) = gitio::walk_push_head(&mut revwalk) {
        return Err(GitError::HeadUnavailable { message: gitio::error_message(&e) });
    }
    let oids = gitio::walk_oids(revwalk);
    let mut authors: Vec<String> = Vec::new();
    let mut w: usize = 0;
    while w < oids.len()
        invariant
            w <= oids@.len(),
            distinct_names(authors@),
        decreases oids@.len() - w,
    {
        match &oids[w] {
            Err(e) => return Err(read_failure(e)),
            Ok(oid) => match gitio::object_kind(&odb, oid) {
                Err(e) => return Err(read_failure(&e)),
                Ok(kind) => if keeps(kind) {
                    let commit = match gitio::find_commit(&repo, oid) {
                        Ok(c) => c,
                        Err(e) => return Err(read_failure(&e)),
                    };
                    let author = gitio::commit_author(&commit);
                    let name = match gitio::signature_name(&author) {
                        Some(n) => n,
                        None => "UNKNOWN AUTHOR".to_owned(),
                    };
                    if !contains_name(&authors, &name) {
                        authors.push(name);
                    }
                },
            },
        }
        w = w + 1;
    }
    Ok(GitData { authors, last_change: 0 })
}

} // verus!
