//! The two totals of a scan, and the operations that build them up.
//!
//! The totals of a list of files are defined as plain sums over natural
//! numbers. The executable operations work on 64-bit totals and notice when a
//! sum leaves that range: a partial result is an `Option`, and `None` means
//! that a total has passed `u64::MAX`. Merging partial results is associative
//! and commutative, so the way a list is cut up and the order in which the
//! pieces are merged make no difference to what comes out.

use crate::laws::{law_dominance, lemma_fold_is_totals};
use crate::metadata::FileMetadata;
use vstd::prelude::*;

verus! {

/// Sum of the sizes of all files, every hard-linked copy counted for itself.
pub open spec fn total_with_links(files: Seq<FileMetadata>) -> nat
    decreases files.len(),
{
    if files.len() == 0 {
        0
    } else {
        total_with_links(files.drop_last()) + files.last().size as nat
    }
}

/// Sum of the sizes of the files with a single link. A file with more than
/// one link adds nothing, whichever of its links is looked at.
pub open spec fn total_without_duplicate_links(files: Seq<FileMetadata>) -> nat
    decreases files.len(),
{
    if files.len() == 0 {
        0
    } else {
        total_without_duplicate_links(files.drop_last()) + files.last().unshared_size()
    }
}

/// The result of a scan, in bytes.
#[derive(Clone, Copy, Debug, PartialEq, Eq, Structural)]
pub struct AggregateResult {
    /// Every file at its full size.
    pub total_with_links: u64,
    /// Only the files whose data no other directory entry shares.
    pub total_without_duplicate_links: u64,
}

impl AggregateResult {
    /// The totals of no files at all.
    pub open spec fn spec_zero() -> AggregateResult {
        AggregateResult { total_with_links: 0, total_without_duplicate_links: 0 }
    }

    /// The totals of no files at all.
    #[verifier::when_used_as_spec(spec_zero)]
    pub fn zero() -> (totals: AggregateResult)
        ensures
            totals == Self::spec_zero(),
    {
        AggregateResult { total_with_links: 0, total_without_duplicate_links: 0 }
    }

    /// The totals of `files` as 64-bit numbers, or `None` where the sum of
    /// all sizes is above `u64::MAX`.
    pub open spec fn of(files: Seq<FileMetadata>) -> Option<AggregateResult> {
        if total_with_links(files) <= u64::MAX {
            Some(
                AggregateResult {
                    total_with_links: total_with_links(files) as u64,
                    total_without_duplicate_links: total_without_duplicate_links(files) as u64,
                },
            )
        } else {
            None
        }
    }

    /// Whether the second total is no larger than the first, as it is for
    /// the totals of any list of files.
    pub open spec fn wf(&self) -> bool {
        self.total_without_duplicate_links <= self.total_with_links
    }
}

/// The partial result that a fold starts from, and that merging leaves
/// unchanged.
pub open spec fn spec_empty() -> Option<AggregateResult> {
    Some(AggregateResult::spec_zero())
}

/// A partial result with one more file taken in.
pub open spec fn spec_add_file(acc: Option<AggregateResult>, file: FileMetadata) -> Option<
    AggregateResult,
> {
    match acc {
        Some(t) => {
            let with = t.total_with_links + file.size;
            let without = t.total_without_duplicate_links + file.unshared_size();
            if with <= u64::MAX && without <= u64::MAX {
                Some(
                    AggregateResult {
                        total_with_links: with as u64,
                        total_without_duplicate_links: without as u64,
                    },
                )
            } else {
                None
            }
        },
        None => None,
    }
}

/// Two partial results merged: both totals added, field by field.
pub open spec fn spec_combine(a: Option<AggregateResult>, b: Option<AggregateResult>) -> Option<
    AggregateResult,
> {
    match (a, b) {
        (Some(x), Some(y)) => {
            let with = x.total_with_links + y.total_with_links;
            let without = x.total_without_duplicate_links + y.total_without_duplicate_links;
            if with <= u64::MAX && without <= u64::MAX {
                Some(
                    AggregateResult {
                        total_with_links: with as u64,
                        total_without_duplicate_links: without as u64,
                    },
                )
            } else {
                None
            }
        },
        _ => None,
    }
}

/// What folding `files` from left to right gives, one `spec_add_file` per
/// file, starting from `spec_empty`.
pub open spec fn spec_fold(files: Seq<FileMetadata>) -> Option<AggregateResult>
    decreases files.len(),
{
    if files.len() == 0 {
        spec_empty()
    } else {
        spec_add_file(spec_fold(files.drop_last()), files.last())
    }
}

/// The partial result of no files.
#[verifier::when_used_as_spec(spec_empty)]
pub fn empty() -> (acc: Option<AggregateResult>)
    ensures
        acc == spec_empty(),
{
    Some(AggregateResult::zero())
}

/// Takes one file into a partial result: its size goes into the first total
/// always, into the second only if the file is not shared. Gives `None` if
/// `acc` is `None` or a total would pass `u64::MAX`.
#[verifier::when_used_as_spec(spec_add_file)]
pub fn add_file(acc: Option<AggregateResult>, file: FileMetadata) -> (next: Option<
    AggregateResult,
>)
    ensures
        next == spec_add_file(acc, file),
{
    match acc {
        Some(t) => {
            let unshared: u64 = if file.is_shared() {
                0
            } else {
                file.size
            };
            match (
                t.total_with_links.checked_add(file.size),
                t.total_without_duplicate_links.checked_add(unshared),
            ) {
                (Some(with), Some(without)) => Some(
                    AggregateResult {
                        total_with_links: with,
                        total_without_duplicate_links: without,
                    },
                ),
                _ => None,
            }
        },
        None => None,
    }
}

/// Merges two partial results. Gives `None` if either is `None` or a total
/// would pass `u64::MAX`.
#[verifier::when_used_as_spec(spec_combine)]
pub fn combine(a: Option<AggregateResult>, b: Option<AggregateResult>) -> (merged: Option<
    AggregateResult,
>)
    ensures
        merged == spec_combine(a, b),
{
    match (a, b) {
        (Some(x), Some(y)) => {
            match (
                x.total_with_links.checked_add(y.total_with_links),
                x.total_without_duplicate_links.checked_add(y.total_without_duplicate_links),
            ) {
                (Some(with), Some(without)) => Some(
                    AggregateResult {
                        total_with_links: with,
                        total_without_duplicate_links: without,
                    },
                ),
                _ => None,
            }
        },
        _ => None,
    }
}

/// Folds a list of files from left to right on the calling thread.
///
/// Gives the two totals, or `None` where the sum of all sizes is above
/// `u64::MAX`.
pub fn fold_files(files: &Vec<FileMetadata>) -> (totals: Option<AggregateResult>)
    ensures
        totals == AggregateResult::of(files@),
        totals is Some <==> total_with_links(files@) <= u64::MAX,
        totals matches Some(t) ==> t.total_with_links == total_with_links(files@)
            && t.total_without_duplicate_links == total_without_duplicate_links(files@)
            && t.wf(),
{
    let mut acc = empty();
    let n = files.len();
    let mut i: usize = 0;
    while i < n
        invariant
            n == files.len(),
            i <= n,
            acc == spec_fold(files@.take(i as int)),
        decreases n - i,
    {
        proof {
            assert(files@.take(i + 1).drop_last() =~= files@.take(i as int));
        }
        acc = add_file(acc, files[i]);
        i = i + 1;
    }
    proof {
        assert(files@.take(n as int) =~= files@);
        lemma_fold_is_totals(files@);
        law_dominance(files@);
    }
    acc
}

} // verus!
