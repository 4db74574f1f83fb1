//! The uninstall sources and the single-phase uninstall flow.
//!
//! An application bundle or a CLI tool is removed by deleting a fixed
//! template of paths derived from its name, widened by two heuristic
//! expansions over observed directory listings: launch agents and
//! daemons whose file name contains the target name (ignoring ASCII
//! case) and ends in the property-list extension, and package receipts
//! whose file name contains the target name. Each path is handled
//! independently and best-effort; the decision per path is a total
//! function of what was observed.

use vstd::prelude::*;

use crate::textutil::{contains_seq, ends_with_seq, lower_seq, str_contains_ci, str_ends_with};

verus! {

/// Joins path fragments around the target name.
fn wrap(prefix: &str, name: &str, suffix: &str) -> (r: String)
    ensures
        r@ == prefix@ + name@ + suffix@,
{
    String::from_str(prefix).concat(name).concat(suffix)
}

/// Prefixes the target name with a directory.
fn prefixed(prefix: &str, name: &str) -> (r: String)
    ensures
        r@ == prefix@ + name@,
{
    String::from_str(prefix).concat(name)
}

/// A directory entry observed by the caller: the full path and the
/// file name it ends in.
pub struct FoundFile {
    pub path: String,
    pub file_name: String,
}

impl Clone for FoundFile {
    fn clone(&self) -> (r: Self)
        ensures
            r == *self,
    {
        FoundFile { path: self.path.clone(), file_name: self.file_name.clone() }
    }
}

/// Whether a file name marks a launch agent or daemon of the target:
/// it contains the target name ignoring ASCII case and ends in
/// `.plist`.
pub open spec fn launch_agent_matches(file_name: Seq<char>, target: Seq<char>) -> bool {
    contains_seq(lower_seq(file_name), lower_seq(target)) && ends_with_seq(file_name, ".plist"@)
}

/// The paths of the entries whose names mark launch agents of the
/// target, in order.
pub open spec fn matching_launch_agents(entries: Seq<FoundFile>, target: Seq<char>) -> Seq<String>
    decreases entries.len(),
{
    if entries.len() == 0 {
        Seq::empty()
    } else {
        let rest = matching_launch_agents(entries.drop_last(), target);
        if launch_agent_matches(entries.last().file_name@, target) {
            rest.push(entries.last().path)
        } else {
            rest
        }
    }
}

/// Whether a file name marks a package receipt of the target: it
/// contains the target name ignoring ASCII case.
pub open spec fn receipt_matches(file_name: Seq<char>, target: Seq<char>) -> bool {
    contains_seq(lower_seq(file_name), lower_seq(target))
}

/// The paths of the entries whose names mark package receipts of the
/// target, in order.
pub open spec fn matching_receipts(entries: Seq<FoundFile>, target: Seq<char>) -> Seq<String>
    decreases entries.len(),
{
    if entries.len() == 0 {
        Seq::empty()
    } else {
        let rest = matching_receipts(entries.drop_last(), target);
        if receipt_matches(entries.last().file_name@, target) {
            rest.push(entries.last().path)
        } else {
            rest
        }
    }
}

/// The directories scanned for launch agents and daemons.
pub fn launch_agent_dirs(home: &str) -> (r: Vec<String>)
    ensures
        r@.len() == 3,
        r@[0]@ == "/Library/LaunchAgents"@,
        r@[1]@ == "/Library/LaunchDaemons"@,
        r@[2]@ == home@ + "/Library/LaunchAgents"@,
{
    let mut v: Vec<String> = Vec::new();
    v.push(String::from_str("/Library/LaunchAgents"));
    v.push(String::from_str("/Library/LaunchDaemons"));
    v.push(String::from_str(home).concat("/Library/LaunchAgents"));
    v
}

/// The directories scanned for package receipts.
pub fn receipt_dirs() -> (r: Vec<String>)
    ensures
        r@.len() == 2,
        r@[0]@ == "/var/db/receipts"@,
        r@[1]@ == "/Library/Receipts"@,
{
    let mut v: Vec<String> = Vec::new();
    v.push(String::from_str("/var/db/receipts"));
    v.push(String::from_str("/Library/Receipts"));
    v
}

/// Keeps the observed entries whose file names mark launch agents or
/// daemons of the target, by the case-insensitive substring heuristic.
pub fn find_launch_agents_for_app(entries: &Vec<FoundFile>, app_name: &str) -> (r: Vec<String>)
    ensures
        r@ == matching_launch_agents(entries@, app_name@),
{
    let mut out: Vec<String> = Vec::new();
    let mut j: usize = 0;
    while j < entries.len()
        invariant
            0 <= j <= entries@.len(),
            out@ == matching_launch_agents(entries@.take(j as int), app_name@),
        decreases entries@.len() - j,
    {
        proof {
            assert(entries@.take(j + 1).drop_last() =~= entries@.take(j as int));
            assert(entries@.take(j + 1).last() == entries@[j as int]);
        }
        let e = &entries[j];
        if str_contains_ci(e.file_name.as_str(), app_name) && str_ends_with(
            e.file_name.as_str(),
            ".plist",
        ) {
            out.push(e.path.clone());
        }
        j += 1;
    }
    proof {
        assert(entries@.take(entries@.len() as int) =~= entries@);
    }
    out
}

/// Keeps the observed entries whose file names mark package receipts
/// of the target, by the case-insensitive substring heuristic.
pub fn find_pkg_receipts(entries: &Vec<FoundFile>, app_name: &str) -> (r: Vec<String>)
    ensures
        r@ == matching_receipts(entries@, app_name@),
{
    let mut out: Vec<String> = Vec::new();
    let mut j: usize = 0;
    while j < entries.len()
        invariant
            0 <= j <= entries@.len(),
            out@ == matching_receipts(entries@.take(j as int), app_name@),
        decreases entries@.len() - j,
    {
        proof {
            assert(entries@.take(j + 1).drop_last() =~= entries@.take(j as int));
            assert(entries@.take(j + 1).last() == entries@[j as int]);
        }
        let e = &entries[j];
        if str_contains_ci(e.file_name.as_str(), app_name) {
            out.push(e.path.clone());
        }
        j += 1;
    }
    proof {
        assert(entries@.take(entries@.len() as int) =~= entries@);
    }
    out
}

/// An application bundle to uninstall, by its exact name.
pub struct MacApp {
    pub name: String,
}

impl MacApp {
    /// A new uninstall target for the application called `name`.
    pub fn new(name: &str) -> (r: Self)
        ensures
            r.name@ == name@,
    {
        MacApp { name: String::from_str(name) }
    }

    /// The application's name.
    pub fn name(&self) -> (r: &str)
        ensures
            r@ == self.name@,
    {
        self.name.as_str()
    }

    /// The fixed template of paths tied to an application bundle: the
    /// bundle itself, its support data, preferences, caches, logs,
    /// container patterns, crash reports, and plug-in locations, both
    /// system-wide and under `home`.
    pub fn find_related_paths(&self, home: &str) -> (r: Vec<String>)
        ensures
            r@.len() == 22,
            r@[0]@ == "/Applications/"@ + self.name@ + ".app"@,
            r@[1]@ == "/Library/Application Support/"@ + self.name@,
            r@[2]@ == home@ + "/Library/Application Support/"@ + self.name@,
            r@[3]@ == "/Library/Preferences/com."@ + self.name@ + ".plist"@,
            r@[4]@ == home@ + "/Library/Preferences/com."@ + self.name@ + ".plist"@,
            r@[5]@ == home@ + "/Library/Caches/"@ + self.name@,
            r@[6]@ == home@ + "/Library/Logs/"@ + self.name@,
            r@[7]@ == home@ + "/Library/Containers/"@ + self.name@ + ".*"@,
            r@[8]@ == home@ + "/Library/Group Containers/*"@ + self.name@ + ".*"@,
            r@[9]@ == home@ + "/Library/Application Support/CrashReporter/"@ + self.name@
                + "_*.plist"@,
            r@[10]@ == "/Library/Input Methods/"@ + self.name@,
            r@[11]@ == "/Library/Screen Savers/"@ + self.name@,
            r@[12]@ == "/Library/Widgets/"@ + self.name@,
            r@[13]@ == "/Library/QuickLook/"@ + self.name@,
            r@[14]@ == "/Library/Internet Plug-Ins/"@ + self.name@,
            r@[15]@ == "/Library/Fonts/"@ + self.name@,
            r@[16]@ == home@ + "/Library/Input Methods/"@ + self.name@,
            r@[17]@ == home@ + "/Library/Screen Savers/"@ + self.name@,
            r@[18]@ == home@ + "/Library/Widgets/"@ + self.name@,
            r@[19]@ == home@ + "/Library/QuickLook/"@ + self.name@,
            r@[20]@ == home@ + "/Library/Internet Plug-Ins/"@ + self.name@,
            r@[21]@ == home@ + "/Library/Fonts/"@ + self.name@,
    {
        let name = self.name.as_str();
        let mut v: Vec<String> = Vec::new();
        v.push(wrap("/Applications/", name, ".app"));
        v.push(prefixed("/Library/Application Support/", name));
        v.push(String::from_str(home).concat("/Library/Application Support/").concat(name));
        v.push(wrap("/Library/Preferences/com.", name, ".plist"));
        v.push(
            String::from_str(home).concat("/Library/Preferences/com.").concat(name).concat(
                ".plist",
            ),
        );
        v.push(String::from_str(home).concat("/Library/Caches/").concat(name));
        v.push(String::from_str(home).concat("/Library/Logs/").concat(name));
        v.push(String::from_str(home).concat("/Library/Containers/").concat(name).concat(".*"));
        v.push(
            String::from_str(home).concat("/Library/Group Containers/*").concat(name).concat(".*"),
        );
        v.push(
            String::from_str(home).concat("/Library/Application Support/CrashReporter/").concat(
                name,
            ).concat("_*.plist"),
        );
        v.push(prefixed("/Library/Input Methods/", name));
        v.push(prefixed("/Library/Screen Savers/", name));
        v.push(prefixed("/Library/Widgets/", name));
        v.push(prefixed("/Library/QuickLook/", name));
        v.push(prefixed("/Library/Internet Plug-Ins/", name));
        v.push(prefixed("/Library/Fonts/", name));
        v.push(String::from_str(home).concat("/Library/Input Methods/").concat(name));
        v.push(String::from_str(home).concat("/Library/Screen Savers/").concat(name));
        v.push(String::from_str(home).concat("/Library/Widgets/").concat(name));
        v.push(String::from_str(home).concat("/Library/QuickLook/").concat(name));
        v.push(String::from_str(home).concat("/Library/Internet Plug-Ins/").concat(name));
        v.push(String::from_str(home).concat("/Library/Fonts/").concat(name));
        v
    }
}

/// A command-line tool to uninstall, by its name.
pub struct CliTool {
    pub name: String,
}

impl CliTool {
    /// A new uninstall target for the CLI tool called `name`.
    pub fn new(name: &str) -> (r: Self)
        ensures
            r.name@ == name@,
    {
        CliTool { name: String::from_str(name) }
    }

    /// The tool's name.
    pub fn name(&self) -> (r: &str)
        ensures
            r@ == self.name@,
    {
        self.name.as_str()
    }

    /// The fixed template of paths tied to a CLI tool: binaries,
    /// libraries, frameworks, manuals, documentation and configuration,
    /// plus the package-manager cellar directories where the caller
    /// observed them to exist.
    pub fn find_related_paths(&self, homebrew_cellar: bool, usr_local_cellar: bool) -> (r: Vec<
        String,
    >)
        ensures
            r@.len() == 10 + (if homebrew_cellar {
                1int
            } else {
                0int
            }) + (if usr_local_cellar {
                1int
            } else {
                0int
            }),
            r@[0]@ == "/usr/local/bin/"@ + self.name@,
            r@[1]@ == "/usr/bin/"@ + self.name@,
            r@[2]@ == "/opt/homebrew/bin/"@ + self.name@,
            r@[3]@ == "/usr/local/lib/"@ + self.name@,
            r@[4]@ == "/Library/Frameworks/"@ + self.name@ + ".framework"@,
            r@[5]@ == "/usr/local/Frameworks/"@ + self.name@ + ".framework"@,
            r@[6]@ == "/usr/local/share/man/man1/"@ + self.name@ + ".1"@,
            r@[7]@ == "/usr/local/share/doc/"@ + self.name@,
            r@[8]@ == "/etc/"@ + self.name@,
            r@[9]@ == "/etc/paths.d/"@ + self.name@,
            homebrew_cellar ==> r@[10]@ == "/opt/homebrew/Cellar/"@ + self.name@,
            usr_local_cellar ==> r@[r@.len() - 1]@ == "/usr/local/Cellar/"@ + self.name@,
    {
        let name = self.name.as_str();
        let mut v: Vec<String> = Vec::new();
        v.push(prefixed("/usr/local/bin/", name));
        v.push(prefixed("/usr/bin/", name));
        v.push(prefixed("/opt/homebrew/bin/", name));
        v.push(prefixed("/usr/local/lib/", name));
        v.push(wrap("/Library/Frameworks/", name, ".framework"));
        v.push(wrap("/usr/local/Frameworks/", name, ".framework"));
        v.push(wrap("/usr/local/share/man/man1/", name, ".1"));
        v.push(prefixed("/usr/local/share/doc/", name));
        v.push(prefixed("/etc/", name));
        v.push(prefixed("/etc/paths.d/", name));
        if homebrew_cellar {
            v.push(prefixed("/opt/homebrew/Cellar/", name));
        }
        if usr_local_cellar {
            v.push(prefixed("/usr/local/Cellar/", name));
        }
        v
    }
}

/// What became of one path during an uninstall run.
pub enum UninstallOutcome {
    /// The path did not exist.
    NotFound,
    /// Simulation: the path exists and would have been deleted.
    WouldDelete,
    /// The path was deleted.
    Removed,
    /// Deleting the path failed, with the error's description.
    RemoveFailed(String),
}

/// The uninstall decision for one path: a missing path is reported as
/// not found whatever the mode; in simulation an existing path is only
/// noted; in a live run the observed deletion error, if any, is
/// carried through. A failure never stops the processing of the other
/// paths.
pub fn uninstall_one(exists: bool, dry_run: bool, delete_error: Option<String>) -> (r:
    UninstallOutcome)
    ensures
        !exists ==> r is NotFound,
        exists && dry_run ==> r is WouldDelete,
        exists && !dry_run && delete_error is None ==> r is Removed,
        exists && !dry_run && delete_error is Some ==> (r matches UninstallOutcome::RemoveFailed(e)
            && e@ == delete_error->0@),
{
    if !exists {
        UninstallOutcome::NotFound
    } else if dry_run {
        UninstallOutcome::WouldDelete
    } else {
        match delete_error {
            None => UninstallOutcome::Removed,
            Some(e) => UninstallOutcome::RemoveFailed(e),
        }
    }
}

} // verus!
