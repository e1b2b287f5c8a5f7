//! What a scan learns about one directory entry.

use vstd::prelude::*;

verus! {

/// Size and hard-link count of a regular file, both from one metadata query.
#[derive(Clone, Copy, Debug, PartialEq, Eq, Structural)]
pub struct FileMetadata {
    /// Length of the file's content in bytes.
    pub size: u64,
    /// Number of directory entries that point at the file's data, as the
    /// filesystem reports it.
    pub link_count: u64,
}

/// What came of looking at one entry that the tree walk produced.
#[derive(Clone, Copy, Debug)]
pub enum EntryProbe {
    /// The walk could not read the entry: permission denied, an I/O error,
    /// or the entry vanished while the walk was under way.
    Unreadable,
    /// The entry is a directory, a socket, a device or anything else that
    /// is not a regular file. The root itself is such an entry.
    NotRegularFile,
    /// The entry was listed, but its metadata could not be read.
    MetadataUnavailable,
    /// A regular file. `link_count` is `None` where the platform reports no
    /// hard-link count.
    RegularFile { size: u64, link_count: Option<u64> },
}

impl FileMetadata {
    /// A file is shared when more than one directory entry points at its data.
    pub open spec fn spec_is_shared(&self) -> bool {
        self.link_count > 1
    }

    /// Whether the file's data is shared with another directory entry.
    #[verifier::when_used_as_spec(spec_is_shared)]
    pub fn is_shared(&self) -> (shared: bool)
        ensures
            shared == (self.link_count > 1),
    {
        self.link_count > 1
    }

    /// How many bytes the file adds to the total that leaves shared files out.
    pub open spec fn unshared_size(&self) -> nat {
        if self.is_shared() {
            0
        } else {
            self.size as nat
        }
    }

    /// The metadata that a probe stands for, if it stands for any.
    ///
    /// Only a regular file whose metadata was read has any. Where the
    /// platform gave no link count, the file counts as having one link: on
    /// such a platform every file is taken as unshared.
    pub open spec fn spec_from_probe(probe: EntryProbe) -> Option<FileMetadata> {
        match probe {
            EntryProbe::RegularFile { size, link_count } => Some(
                FileMetadata {
                    size,
                    link_count: match link_count {
                        Some(n) => n,
                        None => 1,
                    },
                },
            ),
            _ => None,
        }
    }

    /// Turns a probe into metadata, or into nothing where the entry is to be
    /// passed over.
    #[verifier::when_used_as_spec(spec_from_probe)]
    pub fn from_probe(probe: EntryProbe) -> (metadata: Option<FileMetadata>)
        ensures
            metadata == Self::spec_from_probe(probe),
    {
        match probe {
            EntryProbe::RegularFile { size, link_count } => {
                let link_count: u64 = match link_count {
                    Some(n) => n,
                    None => 1,
                };
                Some(FileMetadata { size, link_count })
            },
            _ => None,
        }
    }
}

/// The files among `probes` that a scan counts, in the order of the probes.
///
/// Every probe that stands for no metadata is passed over, and the rest of
/// the list is taken in as if it had not been there.
pub open spec fn readable_files(probes: Seq<EntryProbe>) -> Seq<FileMetadata>
    decreases probes.len(),
{
    if probes.len() == 0 {
        Seq::empty()
    } else {
        let before = readable_files(probes.drop_last());
        match FileMetadata::spec_from_probe(probes.last()) {
            Some(file) => before.push(file),
            None => before,
        }
    }
}

/// Keeps the regular files whose metadata was read and drops everything
/// else, without a trace of what was dropped.
pub fn collect_metadata(probes: &Vec<EntryProbe>) -> (files: Vec<FileMetadata>)
    ensures
        files@ == readable_files(probes@),
{
    let mut files: Vec<FileMetadata> = Vec::new();
    let n = probes.len();
    let mut i: usize = 0;
    while i < n
        invariant
            n == probes.len(),
            i <= n,
            files@ == readable_files(probes@.take(i as int)),
        decreases n - i,
    {
        proof {
            assert(probes@.take(i + 1).drop_last() =~= probes@.take(i as int));
        }
        match FileMetadata::from_probe(probes[i]) {
            Some(file) => {
                files.push(file);
            },
            None => {},
        }
        i = i + 1;
    }
    proof {
        assert(probes@.take(n as int) =~= probes@);
    }
    files
}

} // verus!
