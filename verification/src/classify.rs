//! The delta classifier: maps one raw file-level delta plus its line
//! statistics to a normalized [`FileChange`], and classifies whole delta
//! lists.
//!
//! The five recognized statuses are Added, Deleted, Modified, Renamed and
//! Copied; every other status is dropped from the result list. A recognized
//! delta whose needed path record is absent is likewise dropped rather than
//! failing, a deliberate lenience for unusual object graphs.

use vstd::prelude::*;

use crate::git_logger::{all_changes_wf, CommitChange, DeltaRecord, DeltaStatus, FileChange};

verus! {

/// What one raw delta classifies to: the new-file path names additions,
/// modifications, renames and copies; the old-file path names deletions;
/// renames and copies also carry the old-file path as the previous path.
pub open spec fn classify_spec(delta: DeltaRecord, lines_added: usize, lines_deleted: usize) -> Option<
    FileChange,
> {
    match delta.status {
        DeltaStatus::Added => match delta.new_path {
            Some(p) => Some(
                FileChange {
                    file: p,
                    old_file: None,
                    change: CommitChange::Add,
                    lines_added,
                    lines_deleted,
                },
            ),
            None => None,
        },
        DeltaStatus::Renamed => match (delta.old_path, delta.new_path) {
            (Some(old), Some(new)) => Some(
                FileChange {
                    file: new,
                    old_file: Some(old),
                    change: CommitChange::Rename,
                    lines_added,
                    lines_deleted,
                },
            ),
            _ => None,
        },
        DeltaStatus::Deleted => match delta.old_path {
            Some(p) => Some(
                FileChange {
                    file: p,
                    old_file: None,
                    change: CommitChange::Delete,
                    lines_added,
                    lines_deleted,
                },
            ),
            None => None,
        },
        DeltaStatus::Modified => match delta.new_path {
            Some(p) => Some(
                FileChange {
                    file: p,
                    old_file: None,
                    change: CommitChange::Modify,
                    lines_added,
                    lines_deleted,
                },
            ),
            None => None,
        },
        DeltaStatus::Copied => match (delta.old_path, delta.new_path) {
            (Some(old), Some(new)) => Some(
                FileChange {
                    file: new,
                    old_file: Some(old),
                    change: CommitChange::Copied,
                    lines_added,
                    lines_deleted,
                },
            ),
            _ => None,
        },
        _ => None,
    }
}

/// A status is recognized when the classifier represents it in the log.
pub open spec fn recognized(status: DeltaStatus) -> bool {
    status is Added || status is Deleted || status is Modified || status is Renamed
        || status is Copied
}

/// Classify one raw delta together with its line counts.
pub fn summarise_delta(delta: &DeltaRecord, lines_added: usize, lines_deleted: usize) -> (r: Option<
    FileChange,
>)
    ensures
        r == classify_spec(*delta, lines_added, lines_deleted),
{
    match delta.status {
        DeltaStatus::Added => match &delta.new_path {
            Some(p) => Some(
                FileChange {
                    file: p.clone(),
                    old_file: None,
                    change: CommitChange::Add,
                    lines_added,
                    lines_deleted,
                },
            ),
            None => None,
        },
        DeltaStatus::Renamed => match (&delta.old_path, &delta.new_path) {
            (Some(old), Some(new)) => Some(
                FileChange {
                    file: new.clone(),
                    old_file: Some(old.clone()),
                    change: CommitChange::Rename,
                    lines_added,
                    lines_deleted,
                },
            ),
            _ => None,
        },
        DeltaStatus::Deleted => match &delta.old_path {
            Some(p) => Some(
                FileChange {
                    file: p.clone(),
                    old_file: None,
                    change: CommitChange::Delete,
                    lines_added,
                    lines_deleted,
                },
            ),
            None => None,
        },
        DeltaStatus::Modified => match &delta.new_path {
            Some(p) => Some(
                FileChange {
                    file: p.clone(),
                    old_file: None,
                    change: CommitChange::Modify,
                    lines_added,
                    lines_deleted,
                },
            ),
            None => None,
        },
        DeltaStatus::Copied => match (&delta.old_path, &delta.new_path) {
            (Some(old), Some(new)) => Some(
                FileChange {
                    file: new.clone(),
                    old_file: Some(old.clone()),
                    change: CommitChange::Copied,
                    lines_added,
                    lines_deleted,
                },
            ),
            _ => None,
        },
        _ => None,
    }
}

/// The classifier is total over the five recognized statuses whenever the
/// path records it reads are present, and drops every delta of any other
/// status; a dropped delta never fails the run.
pub proof fn lemma_classification_totality(delta: DeltaRecord, la: usize, ld: usize)
    ensures
        recognized(delta.status) && delta.old_path is Some && delta.new_path is Some
            ==> classify_spec(delta, la, ld) is Some,
        !recognized(delta.status) ==> classify_spec(delta, la, ld) is None,
{
}

/// Every classified change satisfies the previous-path invariant.
pub proof fn lemma_classified_wf(delta: DeltaRecord, la: usize, ld: usize)
    ensures
        classify_spec(delta, la, ld) matches Some(fc) ==> fc.wf(),
{
}

/// What one classification contributes to the change list: one record, or
/// nothing for a dropped delta.
pub open spec fn contribution(r: Option<FileChange>) -> Seq<FileChange> {
    match r {
        Some(fc) => seq![fc],
        None => Seq::empty(),
    }
}

/// The concatenated classification of the first `n` deltas, each paired
/// with its line counts, in delta order.
pub open spec fn classify_upto(
    deltas: Seq<DeltaRecord>,
    stats: Seq<(usize, usize)>,
    n: int,
) -> Seq<FileChange>
    decreases n,
{
    if n <= 0 {
        Seq::empty()
    } else {
        classify_upto(deltas, stats, n - 1) + contribution(
            classify_spec(deltas[n - 1], stats[n - 1].0, stats[n - 1].1),
        )
    }
}

/// The classification of a whole delta list: recognized deltas in order,
/// dropped ones absent.
pub open spec fn classify_all_spec(
    deltas: Seq<DeltaRecord>,
    stats: Seq<(usize, usize)>,
) -> Seq<FileChange> {
    classify_upto(deltas, stats, deltas.len() as int)
}

/// Classify a delta list, pairing each delta with its line counts.
pub fn classify_all(deltas: &Vec<DeltaRecord>, stats: &Vec<(usize, usize)>) -> (r: Vec<FileChange>)
    requires
        deltas@.len() == stats@.len(),
    ensures
        r@ == classify_all_spec(deltas@, stats@),
{
    let mut out: Vec<FileChange> = Vec::new();
    let mut i: usize = 0;
    while i < deltas.len()
        invariant
            i <= deltas@.len(),
            deltas@.len() == stats@.len(),
            out@ == classify_upto(deltas@, stats@, i as int),
        decreases deltas@.len() - i,
    {
        let (la, ld) = stats[i];
        match summarise_delta(&deltas[i], la, ld) {
            Some(fc) => {
                out.push(fc);
            },
            None => {},
        }
        proof {
            assert(out@ =~= classify_upto(deltas@, stats@, i + 1));
        }
        i = i + 1;
    }
    out
}

/// Every change classified out of the first `n` deltas is well formed.
proof fn lemma_upto_wf(deltas: Seq<DeltaRecord>, stats: Seq<(usize, usize)>, n: int)
    ensures
        forall|j: int|
            0 <= j < classify_upto(deltas, stats, n).len() ==> #[trigger] classify_upto(
                deltas,
                stats,
                n,
            )[j].wf(),
    decreases n,
{
    if n > 0 {
        lemma_upto_wf(deltas, stats, n - 1);
        lemma_classified_wf(deltas[n - 1], stats[n - 1].0, stats[n - 1].1);
        let prev = classify_upto(deltas, stats, n - 1);
        let whole = classify_upto(deltas, stats, n);
        assert forall|j: int| 0 <= j < whole.len() implies #[trigger] whole[j].wf() by {
            if j < prev.len() {
                assert(whole[j] == prev[j]);
            }
        }
    }
}

/// Every change in a classified delta list is well formed.
pub proof fn lemma_classify_all_wf(deltas: Seq<DeltaRecord>, stats: Seq<(usize, usize)>)
    ensures
        all_changes_wf(classify_all_spec(deltas, stats)),
{
    lemma_upto_wf(deltas, stats, deltas.len() as int);
}

proof fn lemma_upto_adds(deltas: Seq<DeltaRecord>, stats: Seq<(usize, usize)>, n: int)
    requires
        forall|i: int| 0 <= i < deltas.len() ==> #[trigger] deltas[i].status is Added,
        n <= deltas.len(),
    ensures
        forall|j: int|
            0 <= j < classify_upto(deltas, stats, n).len() ==> (#[trigger] classify_upto(
                deltas,
                stats,
                n,
            )[j].change is Add && classify_upto(deltas, stats, n)[j].old_file is None),
    decreases n,
{
    if n > 0 {
        lemma_upto_adds(deltas, stats, n - 1);
    }
}

/// A root commit is diffed against the empty tree, so the repository
/// collaborator reports each file of the initial snapshot as an added
/// delta; classifying such a delta list yields only additions, none with a
/// previous path.
pub proof fn lemma_root_commit_changes(deltas: Seq<DeltaRecord>, stats: Seq<(usize, usize)>)
    requires
        forall|i: int| 0 <= i < deltas.len() ==> #[trigger] deltas[i].status is Added,
    ensures
        forall|j: int|
            0 <= j < classify_all_spec(deltas, stats).len() ==> (#[trigger] classify_all_spec(
                deltas,
                stats,
            )[j].change is Add && classify_all_spec(deltas, stats)[j].old_file is None),
{
    lemma_upto_adds(deltas, stats, deltas.len() as int);
}

/// The concatenation of the first `n` per-parent change lists, in parent
/// order.
pub open spec fn flatten_upto(lists: Seq<Seq<FileChange>>, n: int) -> Seq<FileChange>
    decreases n,
{
    if n <= 0 {
        Seq::empty()
    } else {
        flatten_upto(lists, n - 1) + lists[n - 1]
    }
}

/// A concatenation of well-formed change lists is well formed.
pub proof fn lemma_flatten_wf(lists: Seq<Seq<FileChange>>, n: int)
    requires
        forall|a: int| 0 <= a < lists.len() ==> all_changes_wf(#[trigger] lists[a]),
        n <= lists.len(),
    ensures
        all_changes_wf(flatten_upto(lists, n)),
    decreases n,
{
    if n > 0 {
        lemma_flatten_wf(lists, n - 1);
        let prev = flatten_upto(lists, n - 1);
        let whole = flatten_upto(lists, n);
        assert forall|j: int| 0 <= j < whole.len() implies #[trigger] whole[j].wf() by {
            if j < prev.len() {
                assert(whole[j] == prev[j]);
            } else {
                assert(whole[j] == lists[n - 1][j - prev.len()]);
            }
        }
    }
}

/// Concatenate per-parent change lists, in parent order, without
/// deduplication: a file touched relative to two parents appears twice.
pub fn flatten_changes(lists: Vec<Vec<FileChange>>) -> (r: Vec<FileChange>)
    ensures
        r@ == flatten_upto(lists@.map_values(|v: Vec<FileChange>| v@), lists@.len() as int),
{
    let ghost orig: Seq<Seq<FileChange>> = lists@.map_values(|v: Vec<FileChange>| v@);
    let mut lists = lists;
    let mut out: Vec<FileChange> = Vec::new();
    while lists.len() > 0
        invariant
            lists@.len() <= orig.len(),
            lists@.map_values(|v: Vec<FileChange>| v@) =~= orig.skip(
                orig.len() - lists@.len(),
            ),
            out@ == flatten_upto(orig, orig.len() - lists@.len()),
        decreases lists@.len(),
    {
        let ghost k: int = orig.len() - lists@.len();
        let ghost before: Seq<Vec<FileChange>> = lists@;
        let mut taken: Vec<FileChange> = lists.remove(0);
        proof {
            assert(before.map_values(|v: Vec<FileChange>| v@)[0] == before[0]@);
            assert(taken@ == orig[k]);
            assert forall|i: int|
                0 <= i < lists@.len() implies lists@.map_values(|v: Vec<FileChange>| v@)[i]
                == #[trigger] orig.skip(k + 1)[i] by {
                assert(lists@[i] == before[i + 1]);
                assert(before.map_values(|v: Vec<FileChange>| v@)[i + 1] == before[i + 1]@);
                assert(orig.skip(k)[i + 1] == orig[k + 1 + i]);
                assert(orig.skip(k + 1)[i] == orig[k + 1 + i]);
            }
            assert(lists@.map_values(|v: Vec<FileChange>| v@) =~= orig.skip(k + 1));
        }
        out.append(&mut taken);
        proof {
            assert(out@ =~= flatten_upto(orig, k + 1));
        }
    }
    out
}

} // verus!
