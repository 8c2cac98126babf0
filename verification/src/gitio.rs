//! The trusted boundary to the repository-access collaborator, the git2
//! crate: declarations of its handle types and one thin wrapper per
//! function that the miner calls. Everything the policy decides on is
//! converted to plain values at this boundary.

use vstd::prelude::*;

use crate::git_logger::{DeltaRecord, DeltaStatus, ObjectKind};

verus! {

#[verifier::external_type_specification]
#[verifier::external_body]
pub struct ExRepository(git2::Repository);

#[verifier::external_type_specification]
#[verifier::external_body]
pub struct ExOdb<'repo>(git2::Odb<'repo>);

#[verifier::external_type_specification]
#[verifier::external_body]
pub struct ExRevwalk<'repo>(git2::Revwalk<'repo>);

#[verifier::external_type_specification]
#[verifier::external_body]
pub struct ExOid(git2::Oid);

#[verifier::external_type_specification]
#[verifier::external_body]
pub struct ExCommit<'repo>(git2::Commit<'repo>);

#[verifier::external_type_specification]
#[verifier::external_body]
pub struct ExSignature<'a>(git2::Signature<'a>);

#[verifier::external_type_specification]
#[verifier::external_body]
pub struct ExTree<'repo>(git2::Tree<'repo>);

#[verifier::external_type_specification]
#[verifier::external_body]
pub struct ExDiff<'repo>(git2::Diff<'repo>);

#[verifier::external_type_specification]
#[verifier::external_body]
pub struct ExDiffDelta<'a>(git2::DiffDelta<'a>);

#[verifier::external_type_specification]
#[verifier::external_body]
pub struct ExPatch<'buffers>(git2::Patch<'buffers>);

#[verifier::external_type_specification]
#[verifier::external_body]
pub struct ExGitError(git2::Error);

/// Relies on git2::Repository::discover: opens the repository containing
/// the given path, searching upward through ancestor directories.
#[verifier::external_body]
pub(crate) fn repo_discover(start_dir: &str) -> Result<git2::Repository, git2::Error> {
    git2::Repository::discover(start_dir)
}

/// Relies on git2::Repository::odb: opens the repository's object
/// database.
#[verifier::external_body]
pub(crate) fn repo_odb<'r>(repo: &'r git2::Repository) -> Result<git2::Odb<'r>, git2::Error> {
    repo.odb()
}

/// Relies on git2::Repository::revwalk: creates an empty revision walk.
#[verifier::external_body]
pub(crate) fn repo_revwalk<'r>(repo: &'r git2::Repository) -> Result<
    git2::Revwalk<'r>,
    git2::Error,
> {
    repo.revwalk()
}

/// Relies on git2::Revwalk::push_head: seeds the walk from the current
/// head reference.
#[verifier::external_body]
pub(crate) fn walk_push_head(walk: &mut git2::Revwalk<'_>) -> Result<(), git2::Error> {
    walk.push_head()
}

/// Relies on the Iterator impl of git2::Revwalk: every object id the walk
/// yields, in the collaborator's order.
#[verifier::external_body]
pub(crate) fn walk_oids(walk: git2::Revwalk<'_>) -> Vec<Result<git2::Oid, git2::Error>> {
    walk.collect()
}

/// Relies on git2::Odb::read and git2::OdbObject::kind: reads one object
/// and reports its kind, variant for variant.
#[verifier::external_body]
pub(crate) fn object_kind(odb: &git2::Odb<'_>, oid: &git2::Oid) -> Result<ObjectKind, git2::Error> {
    let object = odb.read(*oid)?;
    Ok(
        match object.kind() {
            git2::ObjectType::Any => ObjectKind::Any,
            git2::ObjectType::Commit => ObjectKind::Commit,
            git2::ObjectType::Tree => ObjectKind::Tree,
            git2::ObjectType::Blob => ObjectKind::Blob,
            git2::ObjectType::Tag => ObjectKind::Tag,
        },
    )
}

/// Relies on git2::Repository::find_commit: loads the commit with the
/// given id.
#[verifier::external_body]
pub(crate) fn find_commit<'r>(repo: &'r git2::Repository, oid: &git2::Oid) -> Result<
    git2::Commit<'r>,
    git2::Error,
> {
    repo.find_commit(*oid)
}

/// Relies on git2::Commit::author: the author signature of the commit.
#[verifier::external_body]
pub(crate) fn commit_author<'c>(commit: &'c git2::Commit<'_>) -> git2::Signature<'c> {
    commit.author()
}

/// Relies on git2::Commit::committer: the committer signature of the
/// commit.
#[verifier::external_body]
pub(crate) fn commit_committer<'c>(commit: &'c git2::Commit<'_>) -> git2::Signature<'c> {
    commit.committer()
}

/// Relies on git2::Signature::name: the name on the signature, or nothing
/// when it is not valid text.
#[verifier::external_body]
pub(crate) fn signature_name(signature: &git2::Signature<'_>) -> Option<String> {
    signature.name().ok().map(|n| n.to_owned())
}

/// Relies on git2::Signature::email: the email on the signature, or
/// nothing when it is not valid text.
#[verifier::external_body]
pub(crate) fn signature_email(signature: &git2::Signature<'_>) -> Option<String> {
    signature.email().ok().map(|e| e.to_owned())
}

/// Relies on git2::Signature::when and git2::Time::seconds: the
/// signature's time in seconds from the epoch.
#[verifier::external_body]
pub(crate) fn signature_time_seconds(signature: &git2::Signature<'_>) -> i64 {
    signature.when().seconds()
}

/// Relies on git2::Commit::message: the full commit message, or nothing
/// when it is absent or not valid text.
#[verifier::external_body]
pub(crate) fn commit_message(commit: &git2::Commit<'_>) -> Option<String> {
    commit.message().ok().map(|m| m.to_owned())
}

/// Relies on git2::Commit::summary: the first paragraph of the message,
/// trimmed and squashed, or nothing when it is absent or not valid text.
#[verifier::external_body]
pub(crate) fn commit_summary(commit: &git2::Commit<'_>) -> Option<String> {
    match commit.summary() {
        Ok(Some(s)) => Some(s.to_owned()),
        Ok(None) => None,
        Err(_) => None,
    }
}

/// Relies on git2::Commit::parent_count: how many parents the commit has.
#[verifier::external_body]
pub(crate) fn commit_parent_count(commit: &git2::Commit<'_>) -> usize {
    commit.parent_count()
}

/// Relies on git2::Commit::parent: the commit's parent at the given
/// position, in parent order.
#[verifier::external_body]
pub(crate) fn commit_parent<'r>(commit: &git2::Commit<'r>, i: usize) -> Result<
    git2::Commit<'r>,
    git2::Error,
> {
    commit.parent(i)
}

/// Relies on git2::Commit::parent_ids: the ids of the commit's parents,
/// in parent order.
#[verifier::external_body]
pub(crate) fn commit_parent_ids(commit: &git2::Commit<'_>) -> Vec<git2::Oid> {
    commit.parent_ids().collect()
}

/// Relies on git2::Commit::tree: the tree the commit points to.
#[verifier::external_body]
pub(crate) fn commit_tree<'r>(commit: &git2::Commit<'r>) -> Result<git2::Tree<'r>, git2::Error> {
    commit.tree()
}

/// Relies on git2::Oid::as_bytes: the id's raw bytes.
#[verifier::external_body]
pub(crate) fn oid_bytes(oid: &git2::Oid) -> Vec<u8> {
    oid.as_bytes().to_vec()
}

/// Relies on git2::Repository::diff_tree_to_tree: the diff from the old
/// tree (the empty tree when absent) to the new tree, with default
/// options.
#[verifier::external_body]
pub(crate) fn diff_trees<'r>(
    repo: &'r git2::Repository,
    old: Option<&git2::Tree<'r>>,
    new: &git2::Tree<'r>,
) -> Result<git2::Diff<'r>, git2::Error> {
    repo.diff_tree_to_tree(old, Some(new), None)
}

/// Relies on git2::Diff::find_similar: transforms the diff in place,
/// marking renames and copies, with default options.
#[verifier::external_body]
pub(crate) fn diff_find_similar(diff: &mut git2::Diff<'_>) -> Result<(), git2::Error> {
    diff.find_similar(None)
}

/// Relies on git2::Diff::deltas: every delta of the diff, in the diff's
/// order.
#[verifier::external_body]
pub(crate) fn diff_deltas<'d>(diff: &'d git2::Diff<'_>) -> Vec<git2::DiffDelta<'d>> {
    diff.deltas().collect()
}

/// Relies on git2::DiffDelta::status: the delta's status, variant for
/// variant.
#[verifier::external_body]
pub(crate) fn delta_status(delta: &git2::DiffDelta<'_>) -> DeltaStatus {
    match delta.status() {
        git2::Delta::Unmodified => DeltaStatus::Unmodified,
        git2::Delta::Added => DeltaStatus::Added,
        git2::Delta::Deleted => DeltaStatus::Deleted,
        git2::Delta::Modified => DeltaStatus::Modified,
        git2::Delta::Renamed => DeltaStatus::Renamed,
        git2::Delta::Copied => DeltaStatus::Copied,
        git2::Delta::Ignored => DeltaStatus::Ignored,
        git2::Delta::Untracked => DeltaStatus::Untracked,
        git2::Delta::Typechange => DeltaStatus::Typechange,
        git2::Delta::Unreadable => DeltaStatus::Unreadable,
        git2::Delta::Conflicted => DeltaStatus::Conflicted,
    }
}

/// Relies on git2::DiffDelta::old_file and git2::DiffFile::path: the path
/// of the delta's old file record, as text.
#[verifier::external_body]
pub(crate) fn delta_old_path(delta: &git2::DiffDelta<'_>) -> Option<String> {
    delta.old_file().path().map(|p| p.to_string_lossy().into_owned())
}

/// Relies on git2::DiffDelta::new_file and git2::DiffFile::path: the path
/// of the delta's new file record, as text.
#[verifier::external_body]
pub(crate) fn delta_new_path(delta: &git2::DiffDelta<'_>) -> Option<String> {
    delta.new_file().path().map(|p| p.to_string_lossy().into_owned())
}

/// Relies on git2::Patch::from_diff: the patch for the delta at the given
/// position of the diff, or nothing where no patch can be made.
#[verifier::external_body]
pub(crate) fn patch_from_diff<'b>(diff: &git2::Diff<'b>, idx: usize) -> Result<
    Option<git2::Patch<'b>>,
    git2::Error,
> {
    git2::Patch::from_diff(diff, idx)
}

/// Relies on git2::Patch::line_stats: the patch's added and deleted line
/// counts, the context count dropped.
#[verifier::external_body]
pub(crate) fn patch_line_stats(patch: &git2::Patch<'_>) -> Result<(usize, usize), git2::Error> {
    let (_context, added, deleted) = patch.line_stats()?;
    Ok((added, deleted))
}

/// Relies on git2::Error::message: the error's message text.
#[verifier::external_body]
pub(crate) fn error_message(error: &git2::Error) -> String {
    error.message().to_owned()
}

/// Read one delta into a plain record: its status and both paths.
pub(crate) fn read_delta(delta: &git2::DiffDelta<'_>) -> DeltaRecord {
    DeltaRecord {
        status: delta_status(delta),
        old_path: delta_old_path(delta),
        new_path: delta_new_path(delta),
    }
}

} // verus!
