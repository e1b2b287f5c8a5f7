//! A whole scan: from what was found under a root to the two totals.
//!
//! Looking at the filesystem is the caller's part. It says what the root
//! turned out to be and hands over one probe for every entry that the walk
//! came across. A root that is missing or is no directory is the one thing
//! that makes a scan fail. Entries that could not be read are passed over.

use crate::aggregate::aggregate;
use crate::metadata::{collect_metadata, readable_files, EntryProbe};
use crate::totals::{
    fold_files, total_with_links, total_without_duplicate_links, AggregateResult,
};
use vstd::prelude::*;

verus! {

/// What the root path turned out to be when the scan began.
#[derive(Clone, Copy, Debug, PartialEq, Eq, Structural)]
pub enum RootStatus {
    /// Nothing exists at the path.
    Missing,
    /// Something exists at the path, but it is not a directory.
    NotADirectory,
    /// The path names a directory.
    Directory,
}

/// Why a scan gave no totals.
#[derive(Clone, Copy, Debug, PartialEq, Eq, Structural)]
pub enum ScanError {
    /// The root path does not exist.
    RootNotFound,
    /// The root path exists, but is not a directory.
    RootNotADirectory,
}

/// Whether the sizes of all files that the scan counts add up to no more
/// than `u64::MAX`, the largest total that a scan can report.
pub open spec fn spec_within_ceiling(probes: Seq<EntryProbe>) -> bool {
    total_with_links(readable_files(probes)) <= u64::MAX
}

/// Tests whether the totals of these probes fit into 64 bits, as
/// `calculate_folder_size` asks of its input.
pub fn within_ceiling(probes: &Vec<EntryProbe>) -> (fits: bool)
    ensures
        fits == spec_within_ceiling(probes@),
{
    let files = collect_metadata(probes);
    fold_files(&files).is_some()
}

/// Computes the two totals of a directory tree.
///
/// `root` says what the root path is, `probes` holds what was found under
/// it, in any order. The scan fails if and only if the root is missing or is
/// no directory, and then no totals are produced. Otherwise every regular
/// file whose metadata was read counts with its size towards
/// `total_with_links`, and towards `total_without_duplicate_links` if it has
/// no more than one link; everything else among the probes is passed over.
///
/// The totals are 64-bit numbers: the sizes must add up to no more than
/// `u64::MAX`, which `within_ceiling` tests.
pub fn calculate_folder_size(root: RootStatus, probes: &Vec<EntryProbe>) -> (result: Result<
    AggregateResult,
    ScanError,
>)
    requires
        root is Directory ==> spec_within_ceiling(probes@),
    ensures
        result is Ok <==> root is Directory,
        result == Err::<AggregateResult, ScanError>(ScanError::RootNotFound) <==> root is Missing,
        result == Err::<AggregateResult, ScanError>(ScanError::RootNotADirectory)
            <==> root is NotADirectory,
        result matches Ok(totals) ==> {
            &&& totals.total_with_links == total_with_links(readable_files(probes@))
            &&& totals.total_without_duplicate_links == total_without_duplicate_links(
                readable_files(probes@),
            )
            &&& totals.total_without_duplicate_links <= totals.total_with_links
        },
{
    match root {
        RootStatus::Missing => Err(ScanError::RootNotFound),
        RootStatus::NotADirectory => Err(ScanError::RootNotADirectory),
        RootStatus::Directory => {
            let files = collect_metadata(probes);
            Ok(aggregate(&files).unwrap())
        },
    }
}

} // verus!
