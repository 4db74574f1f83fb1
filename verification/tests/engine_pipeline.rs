use osx::engine::{
    act_live_one, act_live_phase, act_simulate, probe_one, probe_phase, ActObservation, Candidate,
    Measurement, Outcome, PathToCheck, ProbeInput, ProbeStep, SafetyConfig,
};
use osx::ignore::{is_ignored, is_ignored_substring, is_path_prefix_exec};
use osx::pipeline::{cleanup_simulation, partition_ignored};

fn cand(path: &str, category: &str) -> Candidate {
    Candidate { path: path.to_string(), canonical: path.to_string(), category: category.to_string() }
}

fn input(path: &str, category: &str, m: Measurement) -> ProbeInput {
    ProbeInput { candidate: cand(path, category), measurement: m }
}

fn cfg() -> SafetyConfig {
    SafetyConfig { temp_root: "/private/tmp".to_string(), active_tmp: Some("/tmp/active".to_string()) }
}

#[test]
fn prefix_containment_on_component_boundaries() {
    assert!(is_path_prefix_exec("/tmp/a", "/tmp/a"));
    assert!(is_path_prefix_exec("/tmp/a", "/tmp/a/sub"));
    assert!(is_path_prefix_exec("/tmp/a/", "/tmp/a/sub"));
    assert!(!is_path_prefix_exec("/tmp/a", "/tmp/ab"));
    assert!(!is_path_prefix_exec("/tmp/a/sub", "/tmp/a"));
}

#[test]
fn ignore_filter_excludes_pattern_and_descendants() {
    let pats = vec!["/tmp/a".to_string()];
    assert!(is_ignored("/tmp/a", &pats));
    assert!(is_ignored("/tmp/a/sub", &pats));
    assert!(!is_ignored("/tmp/b", &pats));
    assert!(!is_ignored("/tmp/ab", &pats));
}

#[test]
fn substring_mode_trims_patterns() {
    let pats = vec![" Caches ".to_string()];
    assert!(is_ignored_substring("/Users/me/Library/Caches/app", &pats));
    assert!(!is_ignored_substring("/Users/me/Library/Logs/app", &pats));
}

#[test]
fn probe_skips_active_temp_root_regardless_of_size() {
    let c = cfg();
    let big = input("/private/tmp", "Temporary Files", Measurement::Measured(999_999));
    match probe_one(&big, &c) {
        ProbeStep::Report(Outcome::Skip { path, reason }) => {
            assert_eq!(path, "/private/tmp");
            assert_eq!(reason, "Active system temporary directory");
        }
        _ => panic!("temp root must be skipped"),
    }
    let active = input("/tmp/active", "Temporary Files", Measurement::Measured(0));
    match probe_one(&active, &c) {
        ProbeStep::Report(Outcome::Skip { reason, .. }) => {
            assert_eq!(reason, "Active system temporary directory");
        }
        _ => panic!("active temp dir must be skipped"),
    }
}

#[test]
fn probe_reports_vanished_path_as_failure() {
    let c = cfg();
    match probe_one(&input("/gone", "Trash Bins", Measurement::Missing), &c) {
        ProbeStep::Report(Outcome::Failure { path, error }) => {
            assert_eq!(path, "/gone");
            assert_eq!(error, "Not found");
        }
        _ => panic!("missing path must be a failure"),
    }
}

#[test]
fn probe_reports_failed_measurement_as_skip() {
    let c = cfg();
    let m = Measurement::Failed("permission denied".to_string());
    match probe_one(&input("/locked", "User Caches", m), &c) {
        ProbeStep::Report(Outcome::Skip { reason, .. }) => {
            assert_eq!(reason, "Size check failed: permission denied");
        }
        _ => panic!("failed measurement must be a skip"),
    }
}

#[test]
fn probe_drops_empty_paths_silently() {
    let c = cfg();
    match probe_one(&input("/tmp/empty", "User Logs", Measurement::Measured(0)), &c) {
        ProbeStep::Drop => {}
        _ => panic!("empty path must be dropped"),
    }
}

#[test]
fn probe_keeps_sized_paths_with_formatted_size() {
    let c = cfg();
    match probe_one(&input("/tmp/a", "User Caches", Measurement::Measured(1024)), &c) {
        ProbeStep::Keep(item) => {
            assert_eq!(item.path, "/tmp/a");
            assert_eq!(item.initial_size, 1024);
            assert_eq!(item.formatted_size, "1.00 KB");
            assert_eq!(item.cleaner_name, "User Caches");
        }
        _ => panic!("sized path must be kept"),
    }
}

#[test]
fn probe_phase_splits_kept_and_reported() {
    let c = cfg();
    let inputs = vec![
        input("/tmp/a", "X", Measurement::Measured(10)),
        input("/gone", "X", Measurement::Missing),
        input("/tmp/zero", "X", Measurement::Measured(0)),
    ];
    let (kept, reported) = probe_phase(&inputs, &c);
    assert_eq!(kept.len(), 1);
    assert_eq!(kept[0].path, "/tmp/a");
    assert_eq!(reported.len(), 1);
    assert!(matches!(&reported[0], Outcome::Failure { .. }));
}

#[test]
fn simulation_act_records_probed_sizes() {
    let items = vec![
        PathToCheck {
            path: "/a".to_string(),
            initial_size: 100,
            formatted_size: "100 bytes".to_string(),
            cleaner_name: "X".to_string(),
        },
        PathToCheck {
            path: "/b".to_string(),
            initial_size: 50,
            formatted_size: "50 bytes".to_string(),
            cleaner_name: "Y".to_string(),
        },
    ];
    let (outs, total) = act_simulate(&items);
    assert_eq!(outs.len(), 2);
    assert_eq!(total, 150);
    match &outs[0] {
        Outcome::Success { path, category, bytes_freed } => {
            assert_eq!(path, "/a");
            assert_eq!(category, "X");
            assert_eq!(*bytes_freed, 100);
        }
        _ => panic!("simulation records successes"),
    }
}

#[test]
fn live_act_failure_on_delete_error() {
    let item = PathToCheck {
        path: "/busy".to_string(),
        initial_size: 10,
        formatted_size: "10 bytes".to_string(),
        cleaner_name: "X".to_string(),
    };
    let obs = ActObservation {
        delete_error: Some("resource busy".to_string()),
        remeasured: Measurement::Measured(10),
    };
    match act_live_one(&item, &obs) {
        Outcome::Failure { path, error } => {
            assert_eq!(path, "/busy");
            assert_eq!(error, "resource busy");
        }
        _ => panic!("delete error must be a failure"),
    }
}

#[test]
fn live_act_freed_is_size_difference() {
    let item = PathToCheck {
        path: "/dir".to_string(),
        initial_size: 2 * 1024 * 1024,
        formatted_size: "2.00 MB".to_string(),
        cleaner_name: "X".to_string(),
    };
    // Deletion succeeded and re-measurement reaches zero: all bytes freed.
    let gone = ActObservation { delete_error: None, remeasured: Measurement::Measured(0) };
    match act_live_one(&item, &gone) {
        Outcome::Success { bytes_freed, .. } => assert_eq!(bytes_freed, 2 * 1024 * 1024),
        _ => panic!("full deletion must be a success"),
    }
    // Re-measurement still shows the old size: nothing freed, surfaced as a skip.
    let stuck = ActObservation {
        delete_error: None,
        remeasured: Measurement::Measured(2 * 1024 * 1024),
    };
    match act_live_one(&item, &stuck) {
        Outcome::Skip { reason, .. } => assert_eq!(reason, "No space freed"),
        _ => panic!("no space freed must be a skip"),
    }
    // Re-measurement larger than before: freed clamps to zero, never negative.
    let grew = ActObservation {
        delete_error: None,
        remeasured: Measurement::Measured(3 * 1024 * 1024),
    };
    match act_live_one(&item, &grew) {
        Outcome::Skip { reason, .. } => assert_eq!(reason, "No space freed"),
        _ => panic!("grown path must be a skip"),
    }
}

#[test]
fn live_act_missing_after_delete_counts_all_bytes() {
    let item = PathToCheck {
        path: "/f".to_string(),
        initial_size: 77,
        formatted_size: "77 bytes".to_string(),
        cleaner_name: "X".to_string(),
    };
    let obs = ActObservation { delete_error: None, remeasured: Measurement::Missing };
    match act_live_one(&item, &obs) {
        Outcome::Success { bytes_freed, .. } => assert_eq!(bytes_freed, 77),
        _ => panic!("vanished path must count as freed"),
    }
}

#[test]
fn live_act_remeasure_failure_is_skip() {
    let item = PathToCheck {
        path: "/f".to_string(),
        initial_size: 77,
        formatted_size: "77 bytes".to_string(),
        cleaner_name: "X".to_string(),
    };
    let obs = ActObservation {
        delete_error: None,
        remeasured: Measurement::Failed("io error".to_string()),
    };
    match act_live_one(&item, &obs) {
        Outcome::Skip { reason, .. } => {
            assert_eq!(reason, "Failed to get size after cleanup: io error");
        }
        _ => panic!("remeasure failure must be a skip"),
    }
}

#[test]
fn live_act_phase_yields_one_outcome_per_result() {
    let items = vec![
        PathToCheck {
            path: "/a".to_string(),
            initial_size: 5,
            formatted_size: "5 bytes".to_string(),
            cleaner_name: "X".to_string(),
        },
        PathToCheck {
            path: "/b".to_string(),
            initial_size: 6,
            formatted_size: "6 bytes".to_string(),
            cleaner_name: "X".to_string(),
        },
    ];
    let obs = vec![
        ActObservation { delete_error: None, remeasured: Measurement::Measured(0) },
        ActObservation { delete_error: Some("denied".to_string()), remeasured: Measurement::Measured(6) },
    ];
    let outs = act_live_phase(&items, &obs);
    assert_eq!(outs.len(), 2);
    assert!(matches!(&outs[0], Outcome::Success { .. }));
    assert!(matches!(&outs[1], Outcome::Failure { .. }));
}

#[test]
fn partition_separates_ignored_candidates() {
    let cands = vec![cand("/tmp/a", "X"), cand("/tmp/a/sub", "X"), cand("/tmp/b", "X")];
    let pats = vec!["/tmp/a".to_string()];
    let (kept, dropped) = partition_ignored(&cands, &pats);
    assert_eq!(kept.len(), 1);
    assert_eq!(kept[0].path, "/tmp/b");
    assert_eq!(dropped.len(), 2);
    assert_eq!(dropped[0].path, "/tmp/a");
    assert_eq!(dropped[1].path, "/tmp/a/sub");
}

#[test]
fn simulation_counts_only_nonzero_candidates() {
    // One 1 MiB candidate and one empty candidate, no ignores: the
    // report holds one success at 1 MiB and the total equals it.
    let c = cfg();
    let inputs = vec![
        input("/tmp/a", "Temporary Files", Measurement::Measured(1024 * 1024)),
        input("/tmp/b", "Temporary Files", Measurement::Measured(0)),
    ];
    let rep = cleanup_simulation(&inputs, &Vec::new(), &c);
    assert_eq!(rep.successes.len(), 1);
    match &rep.successes[0] {
        Outcome::Success { path, bytes_freed, .. } => {
            assert_eq!(path, "/tmp/a");
            assert_eq!(*bytes_freed, 1024 * 1024);
        }
        _ => panic!("only /tmp/a succeeds"),
    }
    assert_eq!(rep.total_freed, 1024 * 1024);
    assert!(rep.failures.is_empty());
    assert!(rep.skips.is_empty());
    assert!(rep.ignored.is_empty());
}

#[test]
fn simulation_twice_gives_identical_totals() {
    let c = cfg();
    let inputs = vec![
        input("/tmp/a", "X", Measurement::Measured(500)),
        input("/gone", "X", Measurement::Missing),
        input("/tmp/c", "X", Measurement::Measured(250)),
    ];
    let first = cleanup_simulation(&inputs, &Vec::new(), &c);
    let second = cleanup_simulation(&inputs, &Vec::new(), &c);
    assert_eq!(first.total_freed, second.total_freed);
    assert_eq!(first.total_freed, 750);
}

#[test]
fn simulation_excludes_ignored_candidates_entirely() {
    // Both the pattern path and its descendant are excluded before
    // probing; they appear only in the ignored log and the total is
    // untouched.
    let c = cfg();
    let pats = vec!["/tmp/a".to_string()];
    let inputs = vec![
        input("/tmp/a", "X", Measurement::Measured(100)),
        input("/tmp/a/sub", "X", Measurement::Measured(200)),
    ];
    let rep = cleanup_simulation(&inputs, &pats, &c);
    assert!(rep.successes.is_empty());
    assert!(rep.failures.is_empty());
    assert!(rep.skips.is_empty());
    assert_eq!(rep.total_freed, 0);
    assert_eq!(rep.ignored, vec!["/tmp/a".to_string(), "/tmp/a/sub".to_string()]);
}

#[test]
fn simulation_conserves_every_surviving_candidate() {
    let c = cfg();
    let inputs = vec![
        input("/tmp/a", "X", Measurement::Measured(10)),
        input("/gone", "X", Measurement::Missing),
        input("/private/tmp", "X", Measurement::Measured(7)),
        input("/tmp/zero", "X", Measurement::Measured(0)),
        input("/locked", "X", Measurement::Failed("denied".to_string())),
    ];
    let rep = cleanup_simulation(&inputs, &Vec::new(), &c);
    // One success, one failure, two skips, one silent empty drop.
    assert_eq!(rep.successes.len(), 1);
    assert_eq!(rep.failures.len(), 1);
    assert_eq!(rep.skips.len(), 2);
    assert_eq!(rep.ignored.len(), 0);
    assert_eq!(
        rep.successes.len() + rep.failures.len() + rep.skips.len(),
        inputs.len() - 1
    );
}
