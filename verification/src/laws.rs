//! What holds of the totals whatever the tree looks like.
//!
//! Each function here is a theorem about the definitions in `totals`,
//! `aggregate` and `metadata`. They are what makes it sound to add up in
//! parallel, in any order, and to pass over entries that could not be read.

use crate::aggregate::Reduction;
use crate::metadata::{readable_files, EntryProbe, FileMetadata};
use crate::totals::{
    spec_combine, spec_empty, spec_fold, total_with_links, total_without_duplicate_links,
    AggregateResult,
};
use vstd::prelude::*;

verus! {

/// The totals of a list and of a list appended to it add up.
pub proof fn lemma_totals_of_concat(a: Seq<FileMetadata>, b: Seq<FileMetadata>)
    ensures
        total_with_links(a + b) == total_with_links(a) + total_with_links(b),
        total_without_duplicate_links(a + b) == total_without_duplicate_links(a)
            + total_without_duplicate_links(b),
    decreases b.len(),
{
    if b.len() > 0 {
        assert((a + b).drop_last() =~= a + b.drop_last());
        lemma_totals_of_concat(a, b.drop_last());
    }
}

/// Dominance: the total that leaves shared files out is never above the
/// total that counts every file, whatever the files are.
pub proof fn law_dominance(files: Seq<FileMetadata>)
    ensures
        total_without_duplicate_links(files) <= total_with_links(files),
    decreases files.len(),
{
    if files.len() > 0 {
        law_dominance(files.drop_last());
    }
}

/// A left-to-right fold computes the totals, and fails exactly when the sum
/// of all sizes does not fit.
pub proof fn lemma_fold_is_totals(files: Seq<FileMetadata>)
    ensures
        spec_fold(files) == AggregateResult::of(files),
    decreases files.len(),
{
    if files.len() > 0 {
        lemma_fold_is_totals(files.drop_last());
        law_dominance(files.drop_last());
        law_dominance(files);
    }
}

/// Merging the totals of two lists gives the totals of the two lists put
/// together.
pub proof fn lemma_combine_is_concat(a: Seq<FileMetadata>, b: Seq<FileMetadata>)
    ensures
        spec_combine(AggregateResult::of(a), AggregateResult::of(b)) == AggregateResult::of(a + b),
{
    lemma_totals_of_concat(a, b);
    law_dominance(a);
    law_dominance(b);
    law_dominance(a + b);
}

/// Merging is associative: it does not matter which two of three partial
/// results are merged first.
pub proof fn law_combine_associative(
    a: Option<AggregateResult>,
    b: Option<AggregateResult>,
    c: Option<AggregateResult>,
)
    ensures
        spec_combine(spec_combine(a, b), c) == spec_combine(a, spec_combine(b, c)),
{
}

/// Merging is commutative: it does not matter which partial result comes
/// first.
pub proof fn law_combine_commutative(a: Option<AggregateResult>, b: Option<AggregateResult>)
    ensures
        spec_combine(a, b) == spec_combine(b, a),
{
}

/// Merging with the empty partial result changes nothing.
pub proof fn law_combine_identity(a: Option<AggregateResult>)
    ensures
        spec_combine(spec_empty(), a) == a,
        spec_combine(a, spec_empty()) == a,
{
}

/// The partial results of the chunks of a list, each chunk folded on its
/// own, merged one after the other.
pub open spec fn merge_chunks(chunks: Seq<Seq<FileMetadata>>) -> Option<AggregateResult>
    decreases chunks.len(),
{
    if chunks.len() == 0 {
        spec_empty()
    } else {
        spec_combine(merge_chunks(chunks.drop_last()), spec_fold(chunks.last()))
    }
}

/// Invariance under partition: cut a list of files into any number of
/// chunks, of any lengths, fold each chunk on its own and merge the results;
/// what comes out is what folding the whole list in one go gives.
pub proof fn law_partition_invariance(chunks: Seq<Seq<FileMetadata>>)
    ensures
        merge_chunks(chunks) == spec_fold(chunks.flatten()),
        merge_chunks(chunks) == AggregateResult::of(chunks.flatten()),
    decreases chunks.len(),
{
    chunks.lemma_flatten_and_flatten_alt_are_equivalent();
    lemma_fold_is_totals(chunks.flatten());
    if chunks.len() > 0 {
        let before = chunks.drop_last();
        law_partition_invariance(before);
        before.lemma_flatten_and_flatten_alt_are_equivalent();
        lemma_fold_is_totals(chunks.last());
        lemma_combine_is_concat(before.flatten(), chunks.last());
    }
}

/// However a list of files is split and in whatever shape the parts are
/// merged, the outcome is the totals of the whole list, or `None` where the
/// sum of all sizes is above `u64::MAX`.
pub proof fn law_every_reduction_gives_the_totals(run: Reduction)
    ensures
        run.outcome() == AggregateResult::of(run.files()),
    decreases run,
{
    match run {
        Reduction::Empty => {},
        Reduction::Chunk(files) => {
            lemma_fold_is_totals(files);
        },
        Reduction::Merge(left, right) => {
            law_every_reduction_gives_the_totals(*left);
            law_every_reduction_gives_the_totals(*right);
            lemma_combine_is_concat(left.files(), right.files());
        },
    }
}

/// Taking one file out of a list takes its size out of the totals.
pub proof fn lemma_totals_of_remove(files: Seq<FileMetadata>, at: int)
    requires
        0 <= at < files.len(),
    ensures
        total_with_links(files) == total_with_links(files.remove(at)) + files[at].size,
        total_without_duplicate_links(files) == total_without_duplicate_links(files.remove(at))
            + files[at].unshared_size(),
{
    let head = files.take(at);
    let one = seq![files[at]];
    let tail = files.skip(at + 1);
    assert(files =~= head + one + tail);
    lemma_totals_of_concat(head, one);
    lemma_totals_of_concat(head + one, tail);
    lemma_totals_of_concat(head, tail);
    assert(total_with_links(one.drop_last()) == 0);
    assert(total_without_duplicate_links(one.drop_last()) == 0);
}

/// Order independence: two lists that hold the same files, in whatever
/// order, have the same totals.
pub proof fn law_order_independence(a: Seq<FileMetadata>, b: Seq<FileMetadata>)
    requires
        a.to_multiset() == b.to_multiset(),
    ensures
        total_with_links(a) == total_with_links(b),
        total_without_duplicate_links(a) == total_without_duplicate_links(b),
        AggregateResult::of(a) == AggregateResult::of(b),
        spec_fold(a) == spec_fold(b),
    decreases a.len(),
{
    broadcast use vstd::seq_lib::group_to_multiset_ensures;

    lemma_fold_is_totals(a);
    lemma_fold_is_totals(b);
    if a.len() == 0 {
        assert(b.to_multiset().len() == b.len());
    } else {
        let file = a.last();
        assert(a =~= a.drop_last().push(file));
        assert(a.to_multiset().count(file) > 0);
        let at = choose|at: int| 0 <= at < b.len() && b[at] == file;
        assert(a.drop_last().to_multiset() =~= a.to_multiset().remove(file));
        law_order_independence(a.drop_last(), b.remove(at));
        lemma_totals_of_remove(b, at);
    }
}

/// No-shared-files equivalence: where no file has more than one link, the
/// two totals are the same.
pub proof fn law_no_shared_files(files: Seq<FileMetadata>)
    requires
        forall|i: int| 0 <= i < files.len() ==> !(#[trigger] files[i]).is_shared(),
    ensures
        total_with_links(files) == total_without_duplicate_links(files),
    decreases files.len(),
{
    if files.len() > 0 {
        law_no_shared_files(files.drop_last());
    }
}

/// The two totals differ as soon as one file is shared and not empty.
pub proof fn law_shared_file_shows(files: Seq<FileMetadata>, at: int)
    requires
        0 <= at < files.len(),
        files[at].is_shared(),
        files[at].size > 0,
    ensures
        total_without_duplicate_links(files) < total_with_links(files),
{
    lemma_totals_of_remove(files, at);
    law_dominance(files.remove(at));
}

/// The files of two lists of probes, one after the other, are the files of
/// the two lists put together.
pub proof fn lemma_readable_files_of_concat(a: Seq<EntryProbe>, b: Seq<EntryProbe>)
    ensures
        readable_files(a + b) == readable_files(a) + readable_files(b),
    decreases b.len(),
{
    if b.len() > 0 {
        assert((a + b).drop_last() =~= a + b.drop_last());
        lemma_readable_files_of_concat(a, b.drop_last());
    }
}

/// Skip resilience: an entry that could not be read, or that is no regular
/// file, leaves the files that a scan counts as they are, wherever among the
/// probes it turns up. The totals of all other entries are untouched.
pub proof fn law_skipped_entry_changes_nothing(
    probes: Seq<EntryProbe>,
    at: int,
    skipped: EntryProbe,
)
    requires
        0 <= at <= probes.len(),
        FileMetadata::spec_from_probe(skipped) is None,
    ensures
        readable_files(probes.insert(at, skipped)) == readable_files(probes),
        total_with_links(readable_files(probes.insert(at, skipped))) == total_with_links(
            readable_files(probes),
        ),
        total_without_duplicate_links(readable_files(probes.insert(at, skipped)))
            == total_without_duplicate_links(readable_files(probes)),
{
    let head = probes.take(at);
    let one = seq![skipped];
    let tail = probes.skip(at);
    assert(probes.insert(at, skipped) =~= head + one + tail);
    assert(probes =~= head + tail);
    lemma_readable_files_of_concat(head, one);
    lemma_readable_files_of_concat(head + one, tail);
    lemma_readable_files_of_concat(head, tail);
    assert(readable_files(one.drop_last()) =~= Seq::<FileMetadata>::empty());
}

/// Taking one probe out of a list takes what it stands for out of the
/// totals, and nothing else.
pub proof fn lemma_totals_of_remove_probe(probes: Seq<EntryProbe>, at: int)
    requires
        0 <= at < probes.len(),
    ensures
        total_with_links(readable_files(probes)) == total_with_links(
            readable_files(probes.remove(at)),
        ) + total_with_links(readable_files(seq![probes[at]])),
        total_without_duplicate_links(readable_files(probes)) == total_without_duplicate_links(
            readable_files(probes.remove(at)),
        ) + total_without_duplicate_links(readable_files(seq![probes[at]])),
{
    let head = probes.take(at);
    let one = seq![probes[at]];
    let tail = probes.skip(at + 1);
    assert(probes =~= head + one + tail);
    lemma_readable_files_of_concat(head, one);
    lemma_readable_files_of_concat(head + one, tail);
    lemma_readable_files_of_concat(head, tail);
    lemma_totals_of_concat(readable_files(head), readable_files(one));
    lemma_totals_of_concat(readable_files(head) + readable_files(one), readable_files(tail));
    lemma_totals_of_concat(readable_files(head), readable_files(tail));
}

/// The order in which a walk comes across the entries of a tree makes no
/// difference to the totals of a scan.
pub proof fn law_walk_order_independence(a: Seq<EntryProbe>, b: Seq<EntryProbe>)
    requires
        a.to_multiset() == b.to_multiset(),
    ensures
        total_with_links(readable_files(a)) == total_with_links(readable_files(b)),
        total_without_duplicate_links(readable_files(a)) == total_without_duplicate_links(
            readable_files(b),
        ),
    decreases a.len(),
{
    broadcast use vstd::seq_lib::group_to_multiset_ensures;

    if a.len() == 0 {
        assert(b.to_multiset().len() == b.len());
    } else {
        let last = a.len() - 1;
        let probe = a[last];
        assert(a.to_multiset().count(probe) > 0);
        let at = choose|at: int| 0 <= at < b.len() && b[at] == probe;
        assert(a.remove(last) =~= a.drop_last());
        law_walk_order_independence(a.drop_last(), b.remove(at));
        lemma_totals_of_remove_probe(a, last);
        lemma_totals_of_remove_probe(b, at);
    }
}

} // verus!
