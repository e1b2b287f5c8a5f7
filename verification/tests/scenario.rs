use hardlink_size::metadata::EntryProbe;
use hardlink_size::scan::{calculate_folder_size, within_ceiling, RootStatus, ScanError};
use hardlink_size::totals::AggregateResult;

fn file(size: u64, links: u64) -> EntryProbe {
    EntryProbe::RegularFile { size, link_count: Some(links) }
}

fn totals(with: u64, without: u64) -> AggregateResult {
    AggregateResult { total_with_links: with, total_without_duplicate_links: without }
}

/// The root, a.txt, b.txt and c.txt (two links to the same 200 bytes), d/
/// and d/e.txt.
fn small_tree() -> Vec<EntryProbe> {
    vec![
        EntryProbe::NotRegularFile,
        file(100, 1),
        file(200, 2),
        file(200, 2),
        EntryProbe::NotRegularFile,
        file(50, 1),
    ]
}

#[test]
fn hard_linked_pair_counts_twice_with_links_and_not_at_all_without() {
    let probes = small_tree();
    assert!(within_ceiling(&probes));
    assert_eq!(calculate_folder_size(RootStatus::Directory, &probes), Ok(totals(550, 150)));
}

#[test]
fn empty_directory_has_zero_totals() {
    let only_the_root = vec![EntryProbe::NotRegularFile];
    assert_eq!(calculate_folder_size(RootStatus::Directory, &only_the_root), Ok(totals(0, 0)));
    assert_eq!(calculate_folder_size(RootStatus::Directory, &Vec::new()), Ok(totals(0, 0)));
}

#[test]
fn missing_root_is_an_error() {
    assert_eq!(
        calculate_folder_size(RootStatus::Missing, &Vec::new()),
        Err(ScanError::RootNotFound)
    );
}

#[test]
fn missing_root_gives_no_totals_even_with_probes() {
    assert_eq!(
        calculate_folder_size(RootStatus::Missing, &small_tree()),
        Err(ScanError::RootNotFound)
    );
}

#[test]
fn root_that_is_a_file_is_an_error() {
    assert_eq!(
        calculate_folder_size(RootStatus::NotADirectory, &vec![file(10, 1)]),
        Err(ScanError::RootNotADirectory)
    );
}

#[test]
fn unreadable_entry_leaves_the_other_totals_alone() {
    let expected = calculate_folder_size(RootStatus::Directory, &small_tree());
    for at in 0..=small_tree().len() {
        let mut probes = small_tree();
        probes.insert(at, EntryProbe::Unreadable);
        assert_eq!(calculate_folder_size(RootStatus::Directory, &probes), expected);
        assert_eq!(calculate_folder_size(RootStatus::Directory, &probes), Ok(totals(550, 150)));
    }
}

#[test]
fn file_without_metadata_leaves_the_other_totals_alone() {
    let mut probes = small_tree();
    probes.insert(3, EntryProbe::MetadataUnavailable);
    probes.push(EntryProbe::MetadataUnavailable);
    assert_eq!(calculate_folder_size(RootStatus::Directory, &probes), Ok(totals(550, 150)));
}

#[test]
fn tree_of_nothing_readable_has_zero_totals() {
    let probes = vec![
        EntryProbe::NotRegularFile,
        EntryProbe::Unreadable,
        EntryProbe::MetadataUnavailable,
        EntryProbe::Unreadable,
    ];
    assert_eq!(calculate_folder_size(RootStatus::Directory, &probes), Ok(totals(0, 0)));
}

#[test]
fn order_of_probes_does_not_matter() {
    let mut probes = small_tree();
    let expected = Ok(totals(550, 150));
    for _ in 0..probes.len() {
        probes.rotate_left(1);
        assert_eq!(calculate_folder_size(RootStatus::Directory, &probes), expected);
    }
    probes.reverse();
    assert_eq!(calculate_folder_size(RootStatus::Directory, &probes), expected);
}

#[test]
fn platform_without_link_counts_takes_every_file_as_unshared() {
    let probes = vec![
        EntryProbe::RegularFile { size: 100, link_count: None },
        EntryProbe::RegularFile { size: 200, link_count: None },
    ];
    assert_eq!(calculate_folder_size(RootStatus::Directory, &probes), Ok(totals(300, 300)));
}

#[test]
fn totals_up_to_the_ceiling_are_exact() {
    let probes = vec![file(u64::MAX - 5, 1), file(5, 3)];
    assert!(within_ceiling(&probes));
    assert_eq!(
        calculate_folder_size(RootStatus::Directory, &probes),
        Ok(totals(u64::MAX, u64::MAX - 5))
    );
}

#[test]
fn totals_above_the_ceiling_are_noticed() {
    assert!(!within_ceiling(&vec![file(u64::MAX, 1), file(1, 1)]));
    assert!(!within_ceiling(&vec![file(u64::MAX, 2), file(1, 2)]));
    assert!(!within_ceiling(&vec![file(1 << 63, 1), EntryProbe::Unreadable, file(1 << 63, 1)]));
    assert!(within_ceiling(&vec![file(u64::MAX, 2), EntryProbe::Unreadable]));
    assert!(within_ceiling(&Vec::new()));
}
