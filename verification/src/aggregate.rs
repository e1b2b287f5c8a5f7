//! Adding up the files of a scan on many threads.
//!
//! The work is handed to rayon, which cuts the list into runs of neighbouring
//! files, folds every run on its own and merges the partial results pairwise.
//! Where it cuts and in which shape it merges depends on the machine and on
//! the moment. `Reduction` describes every way in which that can go, and
//! `law_every_reduction_gives_the_totals` shows that all of them end in the
//! same totals.

use crate::laws::{law_dominance, law_every_reduction_gives_the_totals};
use crate::metadata::FileMetadata;
use crate::totals::{
    add_file, combine, empty, spec_combine, spec_empty, spec_fold, total_with_links,
    total_without_duplicate_links, AggregateResult,
};
use rayon::iter::{IntoParallelRefIterator, ParallelIterator};
use vstd::prelude::*;

verus! {

/// One way of splitting a list of files and merging the partial results.
///
/// Read from left to right, the leaves hold the list in its order. The shape
/// of the tree is the order in which partial results are merged.
pub enum Reduction {
    /// An empty partial result, put in where there was nothing to fold.
    Empty,
    /// A run of neighbouring files, folded from left to right.
    Chunk(Seq<FileMetadata>),
    /// Two neighbouring parts, each reduced on its own, then merged.
    Merge(Box<Reduction>, Box<Reduction>),
}

impl Reduction {
    /// The files that the reduction covers, in their order.
    pub open spec fn files(self) -> Seq<FileMetadata>
        decreases self,
    {
        match self {
            Reduction::Empty => Seq::empty(),
            Reduction::Chunk(run) => run,
            Reduction::Merge(left, right) => left.files() + right.files(),
        }
    }

    /// The partial result that the reduction ends in.
    pub open spec fn outcome(self) -> Option<AggregateResult>
        decreases self,
    {
        match self {
            Reduction::Empty => spec_empty(),
            Reduction::Chunk(run) => spec_fold(run),
            Reduction::Merge(left, right) => spec_combine(left.outcome(), right.outcome()),
        }
    }
}

/// Whether some way of splitting `files` and merging the parts ends in
/// `totals`.
pub open spec fn reduces_to(files: Seq<FileMetadata>, totals: Option<AggregateResult>) -> bool {
    exists|run: Reduction| run.files() == files && run.outcome() == totals
}

/// Runs rayon's `fold` and `reduce` over the files.
///
/// Trusted: `rayon::iter::ParallelIterator::fold` and
/// `rayon::iter::ParallelIterator::reduce` on the parallel iterator of a
/// slice. The contract claims what rayon documents of the two: the list is
/// cut into runs of neighbouring items, every run is folded from left to
/// right starting from the identity, the partial results are merged in
/// pairs, left before right, and the identity may be merged in at any place.
/// It claims nothing about where the cuts fall or in which shape the merges
/// happen. The identity, the fold step and the merge that rayon is given are
/// `empty`, `add_file` and `combine`, none of which can fail. rayon starts
/// its thread pool when it is first used, and panics if the system lets it
/// start no thread, whatever the input.
#[verifier::external_body]
fn fold_reduce(files: &Vec<FileMetadata>) -> (totals: Option<AggregateResult>)
    ensures
        reduces_to(files@, totals),
{
    files.par_iter().fold(|| empty(), |acc, file| add_file(acc, *file)).reduce(
        || empty(),
        |a, b| combine(a, b),
    )
}

/// Adds up a list of files on rayon's thread pool.
///
/// Gives the two totals, or `None` where the sum of all sizes is above
/// `u64::MAX`. The result does not depend on how the work was split.
pub fn aggregate(files: &Vec<FileMetadata>) -> (totals: Option<AggregateResult>)
    ensures
        totals == AggregateResult::of(files@),
        totals is Some <==> total_with_links(files@) <= u64::MAX,
        totals matches Some(t) ==> t.total_with_links == total_with_links(files@)
            && t.total_without_duplicate_links == total_without_duplicate_links(files@)
            && t.wf(),
{
    let totals = fold_reduce(files);
    proof {
        let run = choose|run: Reduction| run.files() == files@ && run.outcome() == totals;
        law_every_reduction_gives_the_totals(run);
        law_dominance(files@);
    }
    totals
}

} // verus!
