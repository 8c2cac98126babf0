use git2::{Oid, Repository, Signature, Time};
use repo_miner::git_logger::{
    log, parse_file, CommitChange, GitError, GitLog, GitLogConfig, GitLogEntry, User,
};
use tempfile::TempDir;

fn new_repo() -> (TempDir, Repository) {
    let dir = TempDir::new().unwrap();
    let repo = Repository::init_bare(dir.path()).unwrap();
    (dir, repo)
}

fn author_sig(name: &str, secs: i64) -> Signature<'static> {
    let email = format!("{}@example.com", name);
    Signature::new(name, &email, &Time::new(secs, 0)).unwrap()
}

fn write_tree(repo: &Repository, files: &[(&str, &str)]) -> Oid {
    let mut builder = repo.treebuilder(None).unwrap();
    for (name, content) in files {
        let blob = repo.blob(content.as_bytes()).unwrap();
        builder.insert(name, blob, 0o100644).unwrap();
    }
    builder.write().unwrap()
}

fn commit_with_author(
    repo: &Repository,
    author: &str,
    message: &str,
    files: &[(&str, &str)],
    parents: &[Oid],
    secs: i64,
) -> Oid {
    let tree = repo.find_tree(write_tree(repo, files)).unwrap();
    let sig = author_sig(author, secs);
    let parent_commits: Vec<git2::Commit> = parents
        .iter()
        .map(|p| repo.find_commit(*p).unwrap())
        .collect();
    let parent_refs: Vec<&git2::Commit> = parent_commits.iter().collect();
    repo.commit(None, &sig, &sig, message, &tree, &parent_refs)
        .unwrap()
}

fn commit(
    repo: &Repository,
    message: &str,
    files: &[(&str, &str)],
    parents: &[Oid],
    secs: i64,
) -> Oid {
    commit_with_author(repo, "tester", message, files, parents, secs)
}

fn mine(dir: &TempDir, config: Option<GitLogConfig>) -> GitLog {
    log(dir.path().to_str().unwrap(), config).unwrap()
}

fn entry<'a>(mined: &'a GitLog, id: Oid) -> &'a GitLogEntry {
    let hex = id.to_string();
    mined
        .entries
        .iter()
        .find(|e| e.id == hex)
        .expect("entry not found")
}

#[test]
fn mined_log_has_one_entry_per_commit() {
    let (dir, repo) = new_repo();
    let c1 = commit(&repo, "first", &[("a.txt", "x\n")], &[], 1);
    let c2 = commit(&repo, "second", &[("a.txt", "x\ny\n")], &[c1], 2);
    let c3 = commit(&repo, "third", &[("a.txt", "x\ny\nz\n")], &[c2], 3);
    repo.set_head_detached(c3).unwrap();

    let mined = mine(&dir, None);
    assert_eq!(mined.entries.len(), 3);
    assert_eq!(entry(&mined, c1).summary, "first");
    assert_eq!(entry(&mined, c2).summary, "second");
    assert_eq!(entry(&mined, c3).summary, "third");
}

#[test]
fn root_commit_changes_are_all_adds() {
    let (dir, repo) = new_repo();
    let root = commit(&repo, "root", &[("a.txt", "x\ny\n"), ("b.txt", "z\n")], &[], 1);
    repo.set_head_detached(root).unwrap();

    let mined = mine(&dir, None);
    let changes = &entry(&mined, root).file_changes;
    assert_eq!(changes.len(), 2);
    for change in changes {
        assert_eq!(change.change, CommitChange::Add);
        assert_eq!(change.old_file, None);
        assert_eq!(change.lines_deleted, 0);
    }
    assert_eq!(changes[0].file, "a.txt");
    assert_eq!(changes[0].lines_added, 2);
    assert_eq!(changes[1].file, "b.txt");
    assert_eq!(changes[1].lines_added, 1);
}

#[test]
fn merge_changes_excluded_by_default() {
    let (dir, repo) = new_repo();
    let base = commit(&repo, "base", &[("base.txt", "base\n")], &[], 1);
    let c1 = commit(
        &repo,
        "one",
        &[("base.txt", "base\n"), ("one.txt", "1\n")],
        &[base],
        2,
    );
    let c2 = commit(
        &repo,
        "two",
        &[("base.txt", "base\n"), ("two.txt", "2\n")],
        &[base],
        3,
    );
    let merge = commit(
        &repo,
        "merge",
        &[
            ("base.txt", "base\n"),
            ("one.txt", "1\n"),
            ("two.txt", "2\n"),
        ],
        &[c1, c2],
        4,
    );
    repo.set_head_detached(merge).unwrap();

    let mined = mine(&dir, None);
    assert_eq!(mined.entries.len(), 4);
    assert_eq!(entry(&mined, merge).file_changes.len(), 0);
    assert_eq!(entry(&mined, c1).file_changes.len(), 1);
    assert_eq!(entry(&mined, c2).file_changes.len(), 1);
}

#[test]
fn merge_changes_concatenate_per_parent() {
    let (dir, repo) = new_repo();
    let base = commit(&repo, "base", &[("base.txt", "base\n")], &[], 1);
    let c1 = commit(
        &repo,
        "one",
        &[("base.txt", "base\n"), ("one.txt", "1\n")],
        &[base],
        2,
    );
    let c2 = commit(
        &repo,
        "two",
        &[("base.txt", "base\n"), ("two.txt", "2\n")],
        &[base],
        3,
    );
    let merge = commit(
        &repo,
        "merge",
        &[
            ("base.txt", "base\n"),
            ("one.txt", "1\n"),
            ("two.txt", "2\n"),
        ],
        &[c1, c2],
        4,
    );
    repo.set_head_detached(merge).unwrap();

    let mined = mine(&dir, Some(GitLogConfig {
        include_merges: true,
    }));
    let changes = &entry(&mined, merge).file_changes;
    assert_eq!(changes.len(), 2);
    assert_eq!(changes[0].file, "two.txt");
    assert_eq!(changes[0].change, CommitChange::Add);
    assert_eq!(changes[1].file, "one.txt");
    assert_eq!(changes[1].change, CommitChange::Add);

    let parents = &entry(&mined, merge).parents;
    assert_eq!(parents, &vec![c1.to_string(), c2.to_string()]);
}

#[test]
fn mining_twice_is_identical() {
    let (dir, repo) = new_repo();
    let c1 = commit(&repo, "first", &[("a.txt", "x\n")], &[], 1);
    let c2 = commit(
        &repo,
        "second\n\nCo-authored-by: valid user <valid@thing.com>",
        &[("a.txt", "x\ny\n"), ("b.txt", "z\n")],
        &[c1],
        2,
    );
    repo.set_head_detached(c2).unwrap();

    let first = mine(&dir, None);
    let second = mine(&dir, None);
    assert_eq!(first, second);
}

#[test]
fn coauthors_flow_into_the_log_entry() {
    let (dir, repo) = new_repo();
    let c1 = commit(
        &repo,
        "subject\n\nCo-authored-by: valid user <valid@thing.com>\nCo-authored-by: other@thing.com",
        &[("a.txt", "x\n")],
        &[],
        1,
    );
    repo.set_head_detached(c1).unwrap();

    let mined = mine(&dir, None);
    let e = entry(&mined, c1);
    assert_eq!(e.summary, "subject");
    assert_eq!(
        e.co_authors,
        vec![
            User::new("valid user", "valid@thing.com"),
            User::new("", "other@thing.com"),
        ]
    );
}

#[test]
fn empty_message_yields_empty_summary_and_no_coauthors() {
    let (dir, repo) = new_repo();
    let c1 = commit(&repo, "", &[("a.txt", "x\n")], &[], 1);
    repo.set_head_detached(c1).unwrap();

    let mined = mine(&dir, None);
    let e = entry(&mined, c1);
    assert_eq!(e.summary, "");
    assert_eq!(e.co_authors.len(), 0);
}

#[test]
fn identities_and_times_are_recorded() {
    let (dir, repo) = new_repo();
    let c1 = commit_with_author(&repo, "alice", "first", &[("a.txt", "x\n")], &[], 17);
    repo.set_head_detached(c1).unwrap();

    let mined = mine(&dir, None);
    let e = entry(&mined, c1);
    assert_eq!(e.author, User::new("alice", "alice@example.com"));
    assert_eq!(e.committer, User::new("alice", "alice@example.com"));
    assert_eq!(e.author_time, 17);
    assert_eq!(e.commit_time, 17);
}

#[test]
fn modified_file_reports_line_stats() {
    let (dir, repo) = new_repo();
    let c1 = commit(&repo, "first", &[("a.txt", "x\ny\n")], &[], 1);
    let c2 = commit(&repo, "second", &[("a.txt", "x\nz\n")], &[c1], 2);
    repo.set_head_detached(c2).unwrap();

    let mined = mine(&dir, None);
    let changes = &entry(&mined, c2).file_changes;
    assert_eq!(changes.len(), 1);
    assert_eq!(changes[0].file, "a.txt");
    assert_eq!(changes[0].change, CommitChange::Modify);
    assert_eq!(changes[0].lines_added, 1);
    assert_eq!(changes[0].lines_deleted, 1);
}

#[test]
fn renames_are_detected_not_reported_as_delete_and_add() {
    let (dir, repo) = new_repo();
    let content = "the same content\nover several\nlines\n";
    let c1 = commit(&repo, "first", &[("old_name.txt", content)], &[], 1);
    let c2 = commit(&repo, "second", &[("new_name.txt", content)], &[c1], 2);
    repo.set_head_detached(c2).unwrap();

    let mined = mine(&dir, None);
    let changes = &entry(&mined, c2).file_changes;
    assert_eq!(changes.len(), 1);
    assert_eq!(changes[0].change, CommitChange::Rename);
    assert_eq!(changes[0].file, "new_name.txt");
    assert_eq!(changes[0].old_file, Some("old_name.txt".to_owned()));
}

#[test]
fn missing_repository_is_reported() {
    let dir = TempDir::new().unwrap();
    let result = log(dir.path().to_str().unwrap(), None);
    assert!(matches!(result, Err(GitError::RepositoryNotFound { .. })));
}

#[test]
fn unborn_head_is_reported() {
    let (dir, _repo) = new_repo();
    let result = log(dir.path().to_str().unwrap(), None);
    assert!(matches!(result, Err(GitError::HeadUnavailable { .. })));
}

#[test]
fn parse_file_collects_distinct_authors() {
    let (dir, repo) = new_repo();
    let c1 = commit_with_author(&repo, "alice", "first", &[("a.txt", "x\n")], &[], 1);
    let c2 = commit_with_author(&repo, "bob", "second", &[("a.txt", "x\ny\n")], &[c1], 2);
    let c3 = commit_with_author(&repo, "alice", "third", &[("a.txt", "y\n")], &[c2], 3);
    repo.set_head_detached(c3).unwrap();

    let data = parse_file(dir.path().to_str().unwrap()).unwrap();
    assert_eq!(data.last_change, 0);
    assert_eq!(data.authors.len(), 2);
    assert!(data.authors.contains(&"alice".to_owned()));
    assert!(data.authors.contains(&"bob".to_owned()));
}
