use osx::sources::{
    BrowserCachesCleaner, CrashReporterLogsCleaner, FileEntry, GlobEntry, LargeFilesCleaner,
    SystemCachesCleaner, TempChild, TemporaryFilesCleaner, TrashCleaner, UserCachesCleaner,
    UserLogsCleaner, filter_directories, LARGE_FILE_THRESHOLD_BYTES,
};
use osx::uninstall::{
    find_launch_agents_for_app, find_pkg_receipts, launch_agent_dirs, receipt_dirs, uninstall_one,
    CliTool, FoundFile, MacApp, UninstallOutcome,
};

#[test]
fn fixed_categories_build_known_paths() {
    assert_eq!(SystemCachesCleaner::new().name(), "System Caches");
    let sys = SystemCachesCleaner::new().find_paths();
    assert_eq!(sys, vec!["/Library/Caches".to_string(), "/System/Library/Caches".to_string()]);

    assert_eq!(UserCachesCleaner::new().name(), "User Caches");
    let user = UserCachesCleaner::new().find_paths("/Users/me");
    assert_eq!(user, vec!["/Users/me/Library/Caches".to_string()]);

    assert_eq!(UserLogsCleaner::new().name(), "User Logs");
    let logs = UserLogsCleaner::new().find_paths("/Users/me");
    assert_eq!(logs, vec!["/Users/me/Library/Logs".to_string()]);

    assert_eq!(CrashReporterLogsCleaner::new().name(), "Crash Reporter Logs");
    let crash = CrashReporterLogsCleaner::new().find_paths("/Users/me");
    assert_eq!(crash, vec!["/Users/me/Library/Application Support/CrashReporter".to_string()]);
}

#[test]
fn temp_category_excludes_root_and_active_dir() {
    let cleaner = TemporaryFilesCleaner::new();
    assert_eq!(cleaner.name(), "Temporary Files");
    assert_eq!(
        cleaner.temp_roots(),
        vec!["/tmp".to_string(), "/private/tmp".to_string(), "/var/tmp".to_string()]
    );
    let children = vec![
        TempChild { path: "/private/tmp".to_string(), canonical: "/private/tmp".to_string() },
        TempChild { path: "/private/tmp/job".to_string(), canonical: "/private/tmp/job".to_string() },
        TempChild { path: "/tmp/active".to_string(), canonical: "/private/tmp/active".to_string() },
        TempChild { path: "/private/tmp/active".to_string(), canonical: "/private/tmp/active".to_string() },
    ];
    let active = Some("/private/tmp/active".to_string());
    let kept = cleaner.filter_children(&children, "/private/tmp", &active);
    // The root itself, the active dir by identity and the active dir by
    // canonical form are all excluded.
    assert_eq!(kept, vec!["/private/tmp/job".to_string()]);
}

#[test]
fn trash_category_combines_home_and_volumes() {
    let cleaner = TrashCleaner::new();
    assert_eq!(cleaner.name(), "Trash Bins");
    assert_eq!(cleaner.volumes_pattern(), "/Volumes/*/.Trashes");
    let vols = vec!["/Volumes/USB/.Trashes".to_string()];
    let paths = cleaner.find_paths("/Users/me", &vols);
    assert_eq!(paths, vec!["/Users/me/.Trash".to_string(), "/Volumes/USB/.Trashes".to_string()]);
}

#[test]
fn browser_category_expands_known_layouts() {
    let cleaner = BrowserCachesCleaner::new();
    assert_eq!(cleaner.name(), "Browser Caches");
    let pats = cleaner.cache_patterns("/Users/me");
    assert_eq!(pats.len(), 15);
    assert_eq!(pats[0], "/Users/me/Library/Caches/Google/Chrome/Default/Cache");
    assert_eq!(pats[8], "/Users/me/Library/Caches/Firefox/Profiles/*/cache2");
    assert_eq!(
        pats[14],
        "/Users/me/Library/Application Support/BraveSoftware/Brave-Browser/*/Code Cache"
    );
}

#[test]
fn glob_matches_keep_directories_only() {
    let entries = vec![
        GlobEntry { path: "/a/Cache".to_string(), is_dir: true },
        GlobEntry { path: "/a/Cache.log".to_string(), is_dir: false },
        GlobEntry { path: "/b/Cache".to_string(), is_dir: true },
    ];
    assert_eq!(
        filter_directories(&entries),
        vec!["/a/Cache".to_string(), "/b/Cache".to_string()]
    );
}

#[test]
fn large_files_threshold_is_inclusive() {
    let cleaner = LargeFilesCleaner::new();
    assert_eq!(cleaner.name(), "Large Files");
    assert_eq!(LARGE_FILE_THRESHOLD_BYTES, 100 * 1024 * 1024);
    assert_eq!(
        cleaner.user_dirs("/Users/me")[0],
        "/Users/me/Downloads"
    );
    let files = vec![
        FileEntry { path: "/d/big.mov".to_string(), size: LARGE_FILE_THRESHOLD_BYTES },
        FileEntry { path: "/d/small.txt".to_string(), size: LARGE_FILE_THRESHOLD_BYTES - 1 },
        FileEntry { path: "/d/huge.iso".to_string(), size: u64::MAX },
    ];
    assert_eq!(
        cleaner.filter_large_files(&files, LARGE_FILE_THRESHOLD_BYTES),
        vec!["/d/big.mov".to_string(), "/d/huge.iso".to_string()]
    );
}

#[test]
fn mac_app_template_covers_bundle_and_library_paths() {
    let app = MacApp::new("Foo");
    assert_eq!(app.name(), "Foo");
    let paths = app.find_related_paths("/Users/me");
    assert_eq!(paths.len(), 22);
    assert_eq!(paths[0], "/Applications/Foo.app");
    assert_eq!(paths[3], "/Library/Preferences/com.Foo.plist");
    assert_eq!(paths[4], "/Users/me/Library/Preferences/com.Foo.plist");
    assert_eq!(paths[8], "/Users/me/Library/Group Containers/*Foo.*");
    assert_eq!(paths[9], "/Users/me/Library/Application Support/CrashReporter/Foo_*.plist");
    assert_eq!(paths[21], "/Users/me/Library/Fonts/Foo");
}

#[test]
fn cli_tool_template_adds_cellars_only_when_present() {
    let tool = CliTool::new("mytool");
    assert_eq!(tool.name(), "mytool");
    let bare = tool.find_related_paths(false, false);
    assert_eq!(bare.len(), 10);
    assert_eq!(bare[0], "/usr/local/bin/mytool");
    assert_eq!(bare[4], "/Library/Frameworks/mytool.framework");
    assert_eq!(bare[6], "/usr/local/share/man/man1/mytool.1");
    assert_eq!(bare[9], "/etc/paths.d/mytool");
    let both = tool.find_related_paths(true, true);
    assert_eq!(both.len(), 12);
    assert_eq!(both[10], "/opt/homebrew/Cellar/mytool");
    assert_eq!(both[11], "/usr/local/Cellar/mytool");
}

#[test]
fn heuristic_dirs_are_the_known_locations() {
    assert_eq!(
        launch_agent_dirs("/Users/me"),
        vec![
            "/Library/LaunchAgents".to_string(),
            "/Library/LaunchDaemons".to_string(),
            "/Users/me/Library/LaunchAgents".to_string(),
        ]
    );
    assert_eq!(
        receipt_dirs(),
        vec!["/var/db/receipts".to_string(), "/Library/Receipts".to_string()]
    );
}

#[test]
fn launch_agent_heuristic_needs_name_and_plist_suffix() {
    let entries = vec![
        FoundFile {
            path: "/Library/LaunchAgents/com.foo.agent.plist".to_string(),
            file_name: "com.foo.agent.plist".to_string(),
        },
        FoundFile {
            path: "/Library/LaunchAgents/com.FOO.daemon.plist".to_string(),
            file_name: "com.FOO.daemon.plist".to_string(),
        },
        FoundFile {
            path: "/Library/LaunchAgents/com.foo.agent.txt".to_string(),
            file_name: "com.foo.agent.txt".to_string(),
        },
        FoundFile {
            path: "/Library/LaunchAgents/com.bar.agent.plist".to_string(),
            file_name: "com.bar.agent.plist".to_string(),
        },
    ];
    let hits = find_launch_agents_for_app(&entries, "foo");
    assert_eq!(
        hits,
        vec![
            "/Library/LaunchAgents/com.foo.agent.plist".to_string(),
            "/Library/LaunchAgents/com.FOO.daemon.plist".to_string(),
        ]
    );
}

#[test]
fn receipt_heuristic_matches_name_case_insensitively() {
    let entries = vec![
        FoundFile { path: "/var/db/receipts/com.Foo.pkg.bom".to_string(), file_name: "com.Foo.pkg.bom".to_string() },
        FoundFile { path: "/var/db/receipts/com.other.bom".to_string(), file_name: "com.other.bom".to_string() },
    ];
    let hits = find_pkg_receipts(&entries, "FOO");
    assert_eq!(hits, vec!["/var/db/receipts/com.Foo.pkg.bom".to_string()]);
}

#[test]
fn uninstall_decision_covers_every_case() {
    assert!(matches!(uninstall_one(false, false, None), UninstallOutcome::NotFound));
    assert!(matches!(uninstall_one(false, true, None), UninstallOutcome::NotFound));
    assert!(matches!(uninstall_one(true, true, None), UninstallOutcome::WouldDelete));
    assert!(matches!(uninstall_one(true, false, None), UninstallOutcome::Removed));
    match uninstall_one(true, false, Some("locked".to_string())) {
        UninstallOutcome::RemoveFailed(e) => assert_eq!(e, "locked"),
        _ => panic!("delete error must be carried through"),
    }
}

#[test]
fn uninstall_missing_bundle_is_not_found_and_run_goes_on() {
    // An uninstall of "Foo" whose bundle does not exist: the bundle path
    // is reported as not found, the remaining paths are still handled.
    let app = MacApp::new("Foo");
    let paths = app.find_related_paths("/Users/me");
    let mut not_found = 0;
    let mut processed = 0;
    for p in &paths {
        let exists = false;
        match uninstall_one(exists, false, None) {
            UninstallOutcome::NotFound => {
                if p == "/Applications/Foo.app" {
                    not_found += 1;
                }
            }
            _ => panic!("missing paths must be not found"),
        }
        processed += 1;
    }
    assert_eq!(not_found, 1);
    assert_eq!(processed, paths.len());
}
