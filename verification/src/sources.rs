//! The category sources: one per cleanup category, each a side-effect
//! free producer of candidate paths.
//!
//! Fixed-path categories build a small known set of paths from the home
//! directory. Pattern-based categories expose the glob patterns they
//! scan and a verified filter over what the scan observed. The
//! threshold category exposes the directories it walks and the
//! size-threshold filter. The temporary-files category filters the
//! observed children of the temp roots, excluding each root itself and
//! the active temporary directory.

use vstd::prelude::*;

use crate::textutil::str_eq;

verus! {

/// Joins a directory and a suffix into one path string.
fn join(base: &str, suffix: &str) -> (r: String)
    ensures
        r@ == base@ + suffix@,
{
    String::from_str(base).concat(suffix)
}

/// Cleans the system-wide cache locations.
pub struct SystemCachesCleaner;

impl SystemCachesCleaner {
    pub fn new() -> (r: Self) {
        SystemCachesCleaner
    }

    /// The category's name.
    pub fn name(&self) -> (r: &'static str)
        ensures
            r@ == "System Caches"@,
    {
        "System Caches"
    }

    /// The fixed system cache locations.
    pub fn find_paths(&self) -> (r: Vec<String>)
        ensures
            r@.len() == 2,
            r@[0]@ == "/Library/Caches"@,
            r@[1]@ == "/System/Library/Caches"@,
    {
        let mut v: Vec<String> = Vec::new();
        v.push(String::from_str("/Library/Caches"));
        v.push(String::from_str("/System/Library/Caches"));
        v
    }
}

/// Cleans the user's cache directory.
pub struct UserCachesCleaner;

impl UserCachesCleaner {
    pub fn new() -> (r: Self) {
        UserCachesCleaner
    }

    /// The category's name.
    pub fn name(&self) -> (r: &'static str)
        ensures
            r@ == "User Caches"@,
    {
        "User Caches"
    }

    /// The user cache directory under `home`.
    pub fn find_paths(&self, home: &str) -> (r: Vec<String>)
        ensures
            r@.len() == 1,
            r@[0]@ == home@ + "/Library/Caches"@,
    {
        let mut v: Vec<String> = Vec::new();
        v.push(join(home, "/Library/Caches"));
        v
    }
}

/// Cleans the user's log directory.
pub struct UserLogsCleaner;

impl UserLogsCleaner {
    pub fn new() -> (r: Self) {
        UserLogsCleaner
    }

    /// The category's name.
    pub fn name(&self) -> (r: &'static str)
        ensures
            r@ == "User Logs"@,
    {
        "User Logs"
    }

    /// The user log directory under `home`.
    pub fn find_paths(&self, home: &str) -> (r: Vec<String>)
        ensures
            r@.len() == 1,
            r@[0]@ == home@ + "/Library/Logs"@,
    {
        let mut v: Vec<String> = Vec::new();
        v.push(join(home, "/Library/Logs"));
        v
    }
}

/// Cleans the crash reporter's log directory.
pub struct CrashReporterLogsCleaner;

impl CrashReporterLogsCleaner {
    pub fn new() -> (r: Self) {
        CrashReporterLogsCleaner
    }

    /// The category's name.
    pub fn name(&self) -> (r: &'static str)
        ensures
            r@ == "Crash Reporter Logs"@,
    {
        "Crash Reporter Logs"
    }

    /// The crash reporter directory under `home`.
    pub fn find_paths(&self, home: &str) -> (r: Vec<String>)
        ensures
            r@.len() == 1,
            r@[0]@ == home@ + "/Library/Application Support/CrashReporter"@,
    {
        let mut v: Vec<String> = Vec::new();
        v.push(join(home, "/Library/Application Support/CrashReporter"));
        v
    }
}

/// An immediate child of a temp root, as observed by the caller:
/// `canonical` is its canonicalized path where canonicalization
/// succeeded, and the path itself where it did not.
pub struct TempChild {
    pub path: String,
    pub canonical: String,
}

impl Clone for TempChild {
    fn clone(&self) -> (r: Self)
        ensures
            r == *self,
    {
        TempChild { path: self.path.clone(), canonical: self.canonical.clone() }
    }
}

/// Whether a temp-root child may become a candidate: it is not the root
/// itself, and neither its path nor its canonical form is the active
/// temporary directory.
pub open spec fn temp_child_allowed(
    c: TempChild,
    root_canonical: Seq<char>,
    active_tmp: Option<String>,
) -> bool {
    &&& c.path@ != root_canonical
    &&& match active_tmp {
        Some(a) => c.path@ != a@ && c.canonical@ != a@,
        None => true,
    }
}

/// The paths of the children that pass the safety checks, in order.
pub open spec fn allowed_temp_children(
    children: Seq<TempChild>,
    root_canonical: Seq<char>,
    active_tmp: Option<String>,
) -> Seq<String>
    decreases children.len(),
{
    if children.len() == 0 {
        Seq::empty()
    } else {
        let rest = allowed_temp_children(children.drop_last(), root_canonical, active_tmp);
        if temp_child_allowed(children.last(), root_canonical, active_tmp) {
            rest.push(children.last().path)
        } else {
            rest
        }
    }
}

/// Cleans the contents of the temporary directories.
pub struct TemporaryFilesCleaner;

impl TemporaryFilesCleaner {
    pub fn new() -> (r: Self) {
        TemporaryFilesCleaner
    }

    /// The category's name.
    pub fn name(&self) -> (r: &'static str)
        ensures
            r@ == "Temporary Files"@,
    {
        "Temporary Files"
    }

    /// The temp roots whose children are scanned. The roots themselves
    /// are never candidates.
    pub fn temp_roots(&self) -> (r: Vec<String>)
        ensures
            r@.len() == 3,
            r@[0]@ == "/tmp"@,
            r@[1]@ == "/private/tmp"@,
            r@[2]@ == "/var/tmp"@,
    {
        let mut v: Vec<String> = Vec::new();
        v.push(String::from_str("/tmp"));
        v.push(String::from_str("/private/tmp"));
        v.push(String::from_str("/var/tmp"));
        v
    }

    /// Filters the observed children of one canonicalized temp root:
    /// the root itself and the active temporary directory (by identity
    /// or by canonical path) never become candidates.
    pub fn filter_children(
        &self,
        children: &Vec<TempChild>,
        root_canonical: &str,
        active_tmp: &Option<String>,
    ) -> (r: Vec<String>)
        ensures
            r@ == allowed_temp_children(children@, root_canonical@, *active_tmp),
    {
        let mut out: Vec<String> = Vec::new();
        let mut j: usize = 0;
        while j < children.len()
            invariant
                0 <= j <= children@.len(),
                out@ == allowed_temp_children(
                    children@.take(j as int),
                    root_canonical@,
                    *active_tmp,
                ),
            decreases children@.len() - j,
        {
            proof {
                assert(children@.take(j + 1).drop_last() =~= children@.take(j as int));
                assert(children@.take(j + 1).last() == children@[j as int]);
            }
            let c = &children[j];
            let not_root = !str_eq(c.path.as_str(), root_canonical);
            let not_active = match active_tmp {
                Some(a) => !(c.path == *a) && !(c.canonical == *a),
                None => true,
            };
            if not_root && not_active {
                out.push(c.path.clone());
            }
            j += 1;
        }
        proof {
            assert(children@.take(children@.len() as int) =~= children@);
        }
        out
    }
}

/// Cleans the trash bins: the user's own and those of mounted volumes.
pub struct TrashCleaner;

impl TrashCleaner {
    pub fn new() -> (r: Self) {
        TrashCleaner
    }

    /// The category's name.
    pub fn name(&self) -> (r: &'static str)
        ensures
            r@ == "Trash Bins"@,
    {
        "Trash Bins"
    }

    /// The glob pattern for the trash bins of mounted volumes.
    pub fn volumes_pattern(&self) -> (r: &'static str)
        ensures
            r@ == "/Volumes/*/.Trashes"@,
    {
        "/Volumes/*/.Trashes"
    }

    /// The user's trash bin followed by the observed volume trash
    /// directories.
    pub fn find_paths(&self, home: &str, volume_trashes: &Vec<String>) -> (r: Vec<String>)
        ensures
            r@.len() == 1 + volume_trashes@.len(),
            r@[0]@ == home@ + "/.Trash"@,
            forall|i: int|
                0 <= i < volume_trashes@.len() ==> r@[i + 1] == #[trigger] volume_trashes@[i],
    {
        let mut v: Vec<String> = Vec::new();
        v.push(join(home, "/.Trash"));
        let mut j: usize = 0;
        while j < volume_trashes.len()
            invariant
                0 <= j <= volume_trashes@.len(),
                v@.len() == 1 + j,
                v@[0]@ == home@ + "/.Trash"@,
                forall|i: int| 0 <= i < j ==> v@[i + 1] == #[trigger] volume_trashes@[i],
            decreases volume_trashes@.len() - j,
        {
            v.push(volume_trashes[j].clone());
            j += 1;
        }
        v
    }
}

/// A path observed by a glob scan, with whether it is a directory.
pub struct GlobEntry {
    pub path: String,
    pub is_dir: bool,
}

impl Clone for GlobEntry {
    fn clone(&self) -> (r: Self)
        ensures
            r == *self,
    {
        GlobEntry { path: self.path.clone(), is_dir: self.is_dir }
    }
}

/// The paths of the entries that are directories, in order.
pub open spec fn directory_paths(entries: Seq<GlobEntry>) -> Seq<String>
    decreases entries.len(),
{
    if entries.len() == 0 {
        Seq::empty()
    } else {
        let rest = directory_paths(entries.drop_last());
        if entries.last().is_dir {
            rest.push(entries.last().path)
        } else {
            rest
        }
    }
}

/// Keeps the entries that are directories; anything else a pattern
/// matched is discarded.
pub fn filter_directories(entries: &Vec<GlobEntry>) -> (r: Vec<String>)
    ensures
        r@ == directory_paths(entries@),
{
    let mut out: Vec<String> = Vec::new();
    let mut j: usize = 0;
    while j < entries.len()
        invariant
            0 <= j <= entries@.len(),
            out@ == directory_paths(entries@.take(j as int)),
        decreases entries@.len() - j,
    {
        proof {
            assert(entries@.take(j + 1).drop_last() =~= entries@.take(j as int));
            assert(entries@.take(j + 1).last() == entries@[j as int]);
        }
        if entries[j].is_dir {
            out.push(entries[j].path.clone());
        }
        j += 1;
    }
    proof {
        assert(entries@.take(entries@.len() as int) =~= entries@);
    }
    out
}

/// Cleans the cache directories of the known browsers.
pub struct BrowserCachesCleaner;

impl BrowserCachesCleaner {
    pub fn new() -> (r: Self) {
        BrowserCachesCleaner
    }

    /// The category's name.
    pub fn name(&self) -> (r: &'static str)
        ensures
            r@ == "Browser Caches"@,
    {
        "Browser Caches"
    }

    /// The glob patterns over the known browser cache layouts under
    /// `home`: the default and per-profile cache directories of Chrome
    /// and Brave, and the Firefox profile caches.
    pub fn cache_patterns(&self, home: &str) -> (r: Vec<String>)
        ensures
            r@.len() == 15,
            r@[0]@ == home@ + "/Library/Caches/Google/Chrome/Default/Cache"@,
            r@[1]@ == home@ + "/Library/Application Support/Google/Chrome/Default/Cache"@,
            r@[2]@ == home@ + "/Library/Application Support/Google/Chrome/Default/Code Cache"@,
            r@[3]@ == home@
                + "/Library/Application Support/Google/Chrome/Default/Service Worker/CacheStorage"@,
            r@[4]@ == home@ + "/Library/Caches/Google/Chrome/*/Cache"@,
            r@[5]@ == home@ + "/Library/Application Support/Google/Chrome/*/Cache"@,
            r@[6]@ == home@ + "/Library/Application Support/Google/Chrome/*/Code Cache"@,
            r@[7]@ == home@
                + "/Library/Application Support/Google/Chrome/*/Service Worker/CacheStorage"@,
            r@[8]@ == home@ + "/Library/Caches/Firefox/Profiles/*/cache2"@,
            r@[9]@ == home@ + "/Library/Caches/BraveSoftware/Brave-Browser/Default/Cache"@,
            r@[10]@ == home@
                + "/Library/Application Support/BraveSoftware/Brave-Browser/Default/Cache"@,
            r@[11]@ == home@
                + "/Library/Application Support/BraveSoftware/Brave-Browser/Default/Code Cache"@,
            r@[12]@ == home@ + "/Library/Caches/BraveSoftware/Brave-Browser/*/Cache"@,
            r@[13]@ == home@
                + "/Library/Application Support/BraveSoftware/Brave-Browser/*/Cache"@,
            r@[14]@ == home@
                + "/Library/Application Support/BraveSoftware/Brave-Browser/*/Code Cache"@,
    {
        let mut v: Vec<String> = Vec::new();
        v.push(join(home, "/Library/Caches/Google/Chrome/Default/Cache"));
        v.push(join(home, "/Library/Application Support/Google/Chrome/Default/Cache"));
        v.push(join(home, "/Library/Application Support/Google/Chrome/Default/Code Cache"));
        v.push(
            join(
                home,
                "/Library/Application Support/Google/Chrome/Default/Service Worker/CacheStorage",
            ),
        );
        v.push(join(home, "/Library/Caches/Google/Chrome/*/Cache"));
        v.push(join(home, "/Library/Application Support/Google/Chrome/*/Cache"));
        v.push(join(home, "/Library/Application Support/Google/Chrome/*/Code Cache"));
        v.push(
            join(home, "/Library/Application Support/Google/Chrome/*/Service Worker/CacheStorage"),
        );
        v.push(join(home, "/Library/Caches/Firefox/Profiles/*/cache2"));
        v.push(join(home, "/Library/Caches/BraveSoftware/Brave-Browser/Default/Cache"));
        v.push(join(home, "/Library/Application Support/BraveSoftware/Brave-Browser/Default/Cache"));
        v.push(
            join(
                home,
                "/Library/Application Support/BraveSoftware/Brave-Browser/Default/Code Cache",
            ),
        );
        v.push(join(home, "/Library/Caches/BraveSoftware/Brave-Browser/*/Cache"));
        v.push(join(home, "/Library/Application Support/BraveSoftware/Brave-Browser/*/Cache"));
        v.push(join(home, "/Library/Application Support/BraveSoftware/Brave-Browser/*/Code Cache"));
        v
    }
}

/// A file observed by a directory walk, with its size. Only entries
/// whose metadata could be read and which are plain files belong here.
pub struct FileEntry {
    pub path: String,
    pub size: u64,
}

impl Clone for FileEntry {
    fn clone(&self) -> (r: Self)
        ensures
            r == *self,
    {
        FileEntry { path: self.path.clone(), size: self.size }
    }
}

/// The paths of the files at least `threshold` bytes large, in order.
pub open spec fn large_file_paths(files: Seq<FileEntry>, threshold: u64) -> Seq<String>
    decreases files.len(),
{
    if files.len() == 0 {
        Seq::empty()
    } else {
        let rest = large_file_paths(files.drop_last(), threshold);
        if files.last().size >= threshold {
            rest.push(files.last().path)
        } else {
            rest
        }
    }
}

/// Bytes in one binary megabyte, for the large-file threshold.
pub const MIB: u64 = 1024 * 1024;

/// The default threshold above which a file counts as large.
pub const LARGE_FILE_THRESHOLD_BYTES: u64 = 100 * MIB;

/// Finds individual files at least a threshold large in the common
/// user directories.
pub struct LargeFilesCleaner;

impl LargeFilesCleaner {
    pub fn new() -> (r: Self) {
        LargeFilesCleaner
    }

    /// The category's name.
    pub fn name(&self) -> (r: &'static str)
        ensures
            r@ == "Large Files"@,
    {
        "Large Files"
    }

    /// The user directories that are walked for large files.
    pub fn user_dirs(&self, home: &str) -> (r: Vec<String>)
        ensures
            r@.len() == 6,
            r@[0]@ == home@ + "/Downloads"@,
            r@[1]@ == home@ + "/Desktop"@,
            r@[2]@ == home@ + "/Documents"@,
            r@[3]@ == home@ + "/Movies"@,
            r@[4]@ == home@ + "/Music"@,
            r@[5]@ == home@ + "/Pictures"@,
    {
        let mut v: Vec<String> = Vec::new();
        v.push(join(home, "/Downloads"));
        v.push(join(home, "/Desktop"));
        v.push(join(home, "/Documents"));
        v.push(join(home, "/Movies"));
        v.push(join(home, "/Music"));
        v.push(join(home, "/Pictures"));
        v
    }

    /// Keeps the observed files whose size meets or exceeds the
    /// threshold; directories are never candidates here.
    pub fn filter_large_files(&self, files: &Vec<FileEntry>, threshold: u64) -> (r: Vec<String>)
        ensures
            r@ == large_file_paths(files@, threshold),
    {
        let mut out: Vec<String> = Vec::new();
        let mut j: usize = 0;
        while j < files.len()
            invariant
                0 <= j <= files@.len(),
                out@ == large_file_paths(files@.take(j as int), threshold),
            decreases files@.len() - j,
        {
            proof {
                assert(files@.take(j + 1).drop_last() =~= files@.take(j as int));
                assert(files@.take(j + 1).last() == files@[j as int]);
            }
            if files[j].size >= threshold {
                out.push(files[j].path.clone());
            }
            j += 1;
        }
        proof {
            assert(files@.take(files@.len() as int) =~= files@);
        }
        out
    }
}

} // verus!
