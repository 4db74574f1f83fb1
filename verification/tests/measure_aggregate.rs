use osx::aggregate::{
    failed_rows, skipped_rows, split_filenames, success_rows, update_aggregated_log_map,
    AggregateMap, Report,
};
use osx::engine::Outcome;
use osx::measure::{calculate_size, measure_path, measure_tree, FsEntry, FsTree};

fn file(name: &str, size: u64) -> FsEntry {
    FsEntry { name: name.to_string(), node: FsTree::File { size } }
}

#[test]
fn measuring_a_file_returns_its_length() {
    let r = measure_tree("/f", &FsTree::File { size: 42 }).unwrap();
    assert_eq!(r.0, 42);
    assert!(r.1.is_empty());
}

#[test]
fn measuring_a_symlink_does_not_follow_it() {
    let r = measure_tree("/l", &FsTree::Symlink { size: 11 }).unwrap();
    assert_eq!(r.0, 11);
    assert!(r.1.is_empty());
}

#[test]
fn measuring_a_directory_sums_children_recursively() {
    let tree = FsTree::Dir {
        entries: vec![
            file("a", 100),
            FsEntry { name: "sub".to_string(), node: FsTree::Dir { entries: vec![file("b", 25)] } },
            FsEntry { name: "link".to_string(), node: FsTree::Symlink { size: 5 } },
        ],
    };
    let r = measure_tree("/root", &tree).unwrap();
    assert_eq!(r.0, 130);
    assert!(r.1.is_empty());
}

#[test]
fn unreadable_children_are_skipped_not_fatal() {
    let tree = FsTree::Dir {
        entries: vec![
            file("a", 7),
            FsEntry { name: "locked".to_string(), node: FsTree::Unreadable },
            FsEntry {
                name: "sub".to_string(),
                node: FsTree::Dir {
                    entries: vec![FsEntry { name: "inner".to_string(), node: FsTree::Unreadable }],
                },
            },
        ],
    };
    let r = measure_tree("/root", &tree).unwrap();
    assert_eq!(r.0, 7);
    assert_eq!(r.1, vec!["/root/locked".to_string(), "/root/sub/inner".to_string()]);
}

#[test]
fn calculate_size_formats_the_measured_total() {
    let tree = FsTree::Dir { entries: vec![file("a", 1024), file("b", 512)] };
    let (size, human) = calculate_size("/root", &tree).unwrap();
    assert_eq!(size, 1536);
    assert_eq!(human, "1.50 KB");
    assert!(calculate_size("/locked", &FsTree::Unreadable).is_none());
}

#[test]
fn unreadable_root_is_the_one_failure() {
    assert!(measure_tree("/locked", &FsTree::Unreadable).is_none());
}

#[test]
fn missing_path_measures_as_zero() {
    let r = measure_path("/nowhere", &None).unwrap();
    assert_eq!(r.0, 0);
    assert!(r.1.is_empty());
}

#[test]
fn empty_directory_measures_as_zero() {
    let r = measure_tree("/empty", &FsTree::Dir { entries: Vec::new() }).unwrap();
    assert_eq!(r.0, 0);
}

#[test]
fn report_total_tracks_recorded_successes() {
    let mut rep = Report::new();
    rep.record(Outcome::Success {
        path: "/a".to_string(),
        category: "X".to_string(),
        bytes_freed: 100,
    });
    rep.record(Outcome::Failure { path: "/b".to_string(), error: "gone".to_string() });
    rep.record(Outcome::Skip { path: "/c".to_string(), reason: "empty".to_string() });
    rep.record(Outcome::Success {
        path: "/d".to_string(),
        category: "X".to_string(),
        bytes_freed: 23,
    });
    assert_eq!(rep.total_freed, 123);
    assert_eq!(rep.successes.len(), 2);
    assert_eq!(rep.failures.len(), 1);
    assert_eq!(rep.skips.len(), 1);
}

#[test]
fn report_total_saturates_instead_of_overflowing() {
    let mut rep = Report::new();
    rep.record(Outcome::Success {
        path: "/a".to_string(),
        category: "X".to_string(),
        bytes_freed: u64::MAX,
    });
    rep.record(Outcome::Success {
        path: "/b".to_string(),
        category: "X".to_string(),
        bytes_freed: 10,
    });
    assert_eq!(rep.total_freed, u64::MAX);
}

#[test]
fn success_rows_end_with_a_total_row() {
    let mut rep = Report::new();
    rep.record(Outcome::Success {
        path: "/a".to_string(),
        category: "User Caches".to_string(),
        bytes_freed: 1024,
    });
    let rows = success_rows(&rep);
    assert_eq!(rows.len(), 2);
    assert_eq!(rows[0].cleaner_name, "User Caches");
    assert_eq!(rows[0].path, "/a");
    assert_eq!(rows[0].size, "1.00 KB");
    assert_eq!(rows[1].path, "Total");
    assert_eq!(rows[1].cleaner_name, "");
    assert_eq!(rows[1].size, "1.00 KB");
}

#[test]
fn failure_and_skip_rows_mirror_their_outcomes() {
    let mut rep = Report::new();
    rep.record(Outcome::Failure { path: "/b".to_string(), error: "gone".to_string() });
    rep.record(Outcome::Skip { path: "/c".to_string(), reason: "busy".to_string() });
    let fr = failed_rows(&rep);
    assert_eq!(fr.len(), 1);
    assert_eq!(fr[0].path, "/b");
    assert_eq!(fr[0].error, "gone");
    let sr = skipped_rows(&rep);
    assert_eq!(sr.len(), 1);
    assert_eq!(sr[0].path, "/c");
    assert_eq!(sr[0].reason, "busy");
}

#[test]
fn aggregation_groups_files_under_their_parent() {
    let mut map = AggregateMap::new();
    update_aggregated_log_map(&mut map, "Large Files", "/Users/me/Movies/a.mov", 100);
    update_aggregated_log_map(&mut map, "Large Files", "/Users/me/Movies/b.mov", 50);
    update_aggregated_log_map(&mut map, "User Caches", "/Users/me/Library/Caches", 7);
    assert_eq!(map.entries.len(), 2);
    assert_eq!(map.entries[0].0, "Large Files: /Users/me/Movies");
    assert_eq!(map.entries[0].1, 150);
    assert_eq!(map.entries[1].0, "User Caches: /Users/me/Library");
    assert_eq!(map.entries[1].1, 7);
}

#[test]
fn aggregation_key_uses_path_itself_without_separator() {
    let mut map = AggregateMap::new();
    update_aggregated_log_map(&mut map, "X", "plain", 3);
    assert_eq!(map.entries[0].0, "X: plain");
    let mut map2 = AggregateMap::new();
    update_aggregated_log_map(&mut map2, "X", "/file", 4);
    assert_eq!(map2.entries[0].0, "X: /");
}

#[test]
fn split_filenames_splits_at_first_separator() {
    let (name, path) = split_filenames("Trash Bins: /Users/me/.Trash");
    assert_eq!(name, "Trash Bins");
    assert_eq!(path, "/Users/me/.Trash");
    let (name2, path2) = split_filenames("no separator here");
    assert_eq!(name2, "");
    assert_eq!(path2, "no separator here");
    let (name3, path3) = split_filenames("a: b: c");
    assert_eq!(name3, "a");
    assert_eq!(path3, "b: c");
}
