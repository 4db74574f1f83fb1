//! The result aggregator: an append-only collection of Success, Failure
//! and Skip outcomes with a running bytes-freed counter, plus key-based
//! aggregation for high-fanout categories.
//!
//! The counter is always the (capped) sum of the freed bytes of the
//! collected successes. The aggregation map keys an outcome by its
//! category and representative directory — the parent directory for a
//! file, the path itself for a directory-level entry — and sums sizes
//! under one key.

use vstd::prelude::*;

use crate::engine::{cap_u64, saturating_add_u64, Outcome};
use crate::format::{bytes_to_human, human_size};
use crate::textutil::{find_first, find_from, lemma_rfind_slash_range, matches_at, rfind_slash, rfind_slash_exec};

verus! {

/// The freed bytes of an outcome; zero unless it is a Success.
pub open spec fn outcome_bytes(out: Outcome) -> u64 {
    match out {
        Outcome::Success { bytes_freed, .. } => bytes_freed,
        _ => 0,
    }
}

/// The sum of the freed bytes over a batch of outcomes.
pub open spec fn total_bytes(outs: Seq<Outcome>) -> nat
    decreases outs.len(),
{
    if outs.len() == 0 {
        0
    } else {
        total_bytes(outs.drop_last()) + outcome_bytes(outs.last()) as nat
    }
}

/// The collected outcomes of one run, sorted into the three kinds, the
/// paths excluded by the user, and the running total of bytes freed.
pub struct Report {
    pub successes: Vec<Outcome>,
    pub failures: Vec<Outcome>,
    pub skips: Vec<Outcome>,
    pub ignored: Vec<String>,
    pub total_freed: u64,
}

impl Report {
    /// Each list holds only its kind of outcome, and the counter is the
    /// capped sum of the successes' freed bytes.
    pub open spec fn wf(self) -> bool {
        &&& forall|i: int| 0 <= i < self.successes@.len() ==> (#[trigger] self.successes@[i]) is Success
        &&& forall|i: int| 0 <= i < self.failures@.len() ==> (#[trigger] self.failures@[i]) is Failure
        &&& forall|i: int| 0 <= i < self.skips@.len() ==> (#[trigger] self.skips@[i]) is Skip
        &&& self.total_freed as nat == cap_u64(total_bytes(self.successes@))
    }

    /// An empty report.
    pub fn new() -> (r: Report)
        ensures
            r.wf(),
            r.successes@.len() == 0,
            r.failures@.len() == 0,
            r.skips@.len() == 0,
            r.ignored@.len() == 0,
            r.total_freed == 0,
    {
        Report {
            successes: Vec::new(),
            failures: Vec::new(),
            skips: Vec::new(),
            ignored: Vec::new(),
            total_freed: 0,
        }
    }

    /// Appends one outcome to the list of its kind; a Success also
    /// raises the bytes-freed counter by its freed bytes.
    pub fn record(&mut self, out: Outcome)
        requires
            old(self).wf(),
        ensures
            final(self).wf(),
            out is Success ==> (final(self).successes@ == old(self).successes@.push(out)
                && final(self).failures@ == old(self).failures@
                && final(self).skips@ == old(self).skips@),
            out is Failure ==> (final(self).failures@ == old(self).failures@.push(out)
                && final(self).successes@ == old(self).successes@
                && final(self).skips@ == old(self).skips@),
            out is Skip ==> (final(self).skips@ == old(self).skips@.push(out)
                && final(self).successes@ == old(self).successes@
                && final(self).failures@ == old(self).failures@),
            final(self).ignored@ == old(self).ignored@,
            final(self).total_freed as nat == cap_u64(
                cap_u64(total_bytes(old(self).successes@)) + outcome_bytes(out) as nat,
            ),
    {
        match &out {
            Outcome::Success { bytes_freed, .. } => {
                let b = *bytes_freed;
                self.total_freed = saturating_add_u64(self.total_freed, b);
                self.successes.push(out);
                proof {
                    assert(self.successes@.drop_last() =~= old(self).successes@);
                }
            },
            Outcome::Failure { .. } => {
                self.failures.push(out);
            },
            Outcome::Skip { .. } => {
                self.skips.push(out);
            },
        }
    }

    /// Notes a path excluded by the user before probing.
    pub fn record_ignored(&mut self, path: String)
        requires
            old(self).wf(),
        ensures
            final(self).wf(),
            final(self).ignored@ == old(self).ignored@.push(path),
            final(self).successes@ == old(self).successes@,
            final(self).failures@ == old(self).failures@,
            final(self).skips@ == old(self).skips@,
            final(self).total_freed == old(self).total_freed,
    {
        self.ignored.push(path);
    }
}

/// A row of the successful-cleanup summary table.
pub struct CleanupEntry {
    pub cleaner_name: String,
    pub path: String,
    pub size: String,
}

/// A row of the failed-paths table.
pub struct FailedEntry {
    pub path: String,
    pub error: String,
}

/// A row of the skipped-paths table.
pub struct SkippedEntry {
    pub path: String,
    pub reason: String,
}

/// The success rows of a report, one per Success in order, followed by
/// a synthetic Total row carrying the formatted grand total.
pub fn success_rows(rep: &Report) -> (rows: Vec<CleanupEntry>)
    requires
        rep.wf(),
    ensures
        rows@.len() == rep.successes@.len() + 1,
        forall|i: int|
            0 <= i < rep.successes@.len() ==> (rep.successes@[i] matches Outcome::Success {
                path,
                category,
                bytes_freed,
            } && (#[trigger] rows@[i]).path@ == path@ && rows@[i].cleaner_name@ == category@
                && rows@[i].size@ == human_size(bytes_freed as nat)),
        rows@.last().path@ == "Total"@,
        rows@.last().cleaner_name@ == ""@,
        rows@.last().size@ == human_size(rep.total_freed as nat),
{
    let mut rows: Vec<CleanupEntry> = Vec::new();
    let n = rep.successes.len();
    let mut j: usize = 0;
    while j < n
        invariant
            0 <= j <= n,
            n == rep.successes@.len(),
            rep.wf(),
            rows@.len() == j,
            forall|i: int|
                0 <= i < j ==> (rep.successes@[i] matches Outcome::Success {
                    path,
                    category,
                    bytes_freed,
                } && (#[trigger] rows@[i]).path@ == path@ && rows@[i].cleaner_name@ == category@
                    && rows@[i].size@ == human_size(bytes_freed as nat)),
        decreases n - j,
    {
        match &rep.successes[j] {
            Outcome::Success { path, category, bytes_freed } => {
                rows.push(
                    CleanupEntry {
                        cleaner_name: category.clone(),
                        path: path.clone(),
                        size: bytes_to_human(*bytes_freed),
                    },
                );
            },
            _ => {
                proof {
                    assert(rep.successes@[j as int] is Success);
                }
            },
        }
        j += 1;
    }
    rows.push(
        CleanupEntry {
            cleaner_name: String::from_str(""),
            path: String::from_str("Total"),
            size: bytes_to_human(rep.total_freed),
        },
    );
    rows
}

/// The failure rows of a report, one per Failure in order.
pub fn failed_rows(rep: &Report) -> (rows: Vec<FailedEntry>)
    requires
        rep.wf(),
    ensures
        rows@.len() == rep.failures@.len(),
        forall|i: int|
            0 <= i < rep.failures@.len() ==> (rep.failures@[i] matches Outcome::Failure {
                path,
                error,
            } && (#[trigger] rows@[i]).path@ == path@ && rows@[i].error@ == error@),
{
    let mut rows: Vec<FailedEntry> = Vec::new();
    let n = rep.failures.len();
    let mut j: usize = 0;
    while j < n
        invariant
            0 <= j <= n,
            n == rep.failures@.len(),
            rep.wf(),
            rows@.len() == j,
            forall|i: int|
                0 <= i < j ==> (rep.failures@[i] matches Outcome::Failure { path, error } && (
                #[trigger] rows@[i]).path@ == path@ && rows@[i].error@ == error@),
        decreases n - j,
    {
        match &rep.failures[j] {
            Outcome::Failure { path, error } => {
                rows.push(FailedEntry { path: path.clone(), error: error.clone() });
            },
            _ => {
                proof {
                    assert(rep.failures@[j as int] is Failure);
                }
            },
        }
        j += 1;
    }
    rows
}

/// The skip rows of a report, one per Skip in order.
pub fn skipped_rows(rep: &Report) -> (rows: Vec<SkippedEntry>)
    requires
        rep.wf(),
    ensures
        rows@.len() == rep.skips@.len(),
        forall|i: int|
            0 <= i < rep.skips@.len() ==> (rep.skips@[i] matches Outcome::Skip { path, reason } && (
            #[trigger] rows@[i]).path@ == path@ && rows@[i].reason@ == reason@),
{
    let mut rows: Vec<SkippedEntry> = Vec::new();
    let n = rep.skips.len();
    let mut j: usize = 0;
    while j < n
        invariant
            0 <= j <= n,
            n == rep.skips@.len(),
            rep.wf(),
            rows@.len() == j,
            forall|i: int|
                0 <= i < j ==> (rep.skips@[i] matches Outcome::Skip { path, reason } && (#[trigger]
                rows@[i]).path@ == path@ && rows@[i].reason@ == reason@),
        decreases n - j,
    {
        match &rep.skips[j] {
            Outcome::Skip { path, reason } => {
                rows.push(SkippedEntry { path: path.clone(), reason: reason.clone() });
            },
            _ => {
                proof {
                    assert(rep.skips@[j as int] is Skip);
                }
            },
        }
        j += 1;
    }
    rows
}

/// The representative directory of a path: for a path with a file name
/// under some directory, everything before the last `/` (or `/` itself
/// for a file directly under the root); for a path without a `/`, or
/// one ending in `/`, the path itself.
pub open spec fn rep_dir(p: Seq<char>) -> Seq<char> {
    let ls = rfind_slash(p);
    if ls < 0 || ls == p.len() - 1 {
        p
    } else if ls == 0 {
        p.subrange(0, 1)
    } else {
        p.subrange(0, ls)
    }
}

/// The key under which an outcome for `path` in category `cleaner` is
/// aggregated.
pub open spec fn entry_key(cleaner: Seq<char>, path: Seq<char>) -> Seq<char> {
    cleaner + ": "@ + rep_dir(path)
}

/// The representative directory of a path.
pub fn rep_dir_exec(p: &str) -> (r: String)
    ensures
        r@ == rep_dir(p@),
{
    let n = p.unicode_len();
    proof {
        lemma_rfind_slash_range(p@);
    }
    match rfind_slash_exec(p) {
        None => String::from_str(p),
        Some(ls) => {
            if ls == n - 1 {
                String::from_str(p)
            } else if ls == 0 {
                String::from_str(p.substring_char(0, 1))
            } else {
                String::from_str(p.substring_char(0, ls))
            }
        },
    }
}

/// The index of the first entry with key `key`, or -1 if there is none.
pub open spec fn find_key(s: Seq<(String, u64)>, key: Seq<char>) -> int
    decreases s.len(),
{
    if s.len() == 0 {
        -1
    } else if s[0].0@ == key {
        0
    } else {
        let r = find_key(s.drop_first(), key);
        if r < 0 {
            -1
        } else {
            r + 1
        }
    }
}

/// The first matching index is the first index whose key matches.
proof fn lemma_find_key_at(s: Seq<(String, u64)>, key: Seq<char>, i: int)
    requires
        0 <= i < s.len(),
        forall|j: int| 0 <= j < i ==> s[j].0@ != key,
        s[i].0@ == key,
    ensures
        find_key(s, key) == i,
    decreases i,
{
    if i > 0 {
        lemma_find_key_at(s.drop_first(), key, i - 1);
    }
}

/// With no matching key anywhere, `find_key` reports none.
proof fn lemma_find_key_none(s: Seq<(String, u64)>, key: Seq<char>)
    requires
        forall|j: int| 0 <= j < s.len() ==> s[j].0@ != key,
    ensures
        find_key(s, key) == -1,
    decreases s.len(),
{
    if s.len() > 0 {
        lemma_find_key_none(s.drop_first(), key);
    }
}

/// An aggregation map from entry keys to summed sizes, with each key
/// held at most once.
pub struct AggregateMap {
    pub entries: Vec<(String, u64)>,
}

impl AggregateMap {
    /// No two entries carry the same key.
    pub open spec fn wf(self) -> bool {
        forall|i: int, j: int|
            0 <= i < j < self.entries@.len() ==> (#[trigger] self.entries@[i]).0@ != (
            #[trigger] self.entries@[j]).0@
    }

    /// An empty aggregation map.
    pub fn new() -> (r: AggregateMap)
        ensures
            r.wf(),
            r.entries@.len() == 0,
    {
        AggregateMap { entries: Vec::new() }
    }
}

/// Adds `size` under the key built from `cleaner_name` and the
/// representative directory of `path`: an existing entry's sum is
/// raised (capped at the largest `u64`) and everything else is left as
/// it was; a fresh key is appended with `size`.
pub fn update_aggregated_log_map(map: &mut AggregateMap, cleaner_name: &str, path: &str, size: u64)
    requires
        old(map).wf(),
    ensures
        final(map).wf(),
        find_key(old(map).entries@, entry_key(cleaner_name@, path@)) >= 0 ==> ({
            let fi = find_key(old(map).entries@, entry_key(cleaner_name@, path@));
            &&& final(map).entries@.len() == old(map).entries@.len()
            &&& forall|j: int|
                0 <= j < old(map).entries@.len() && j != fi ==> final(map).entries@[j] == old(
                    map,
                ).entries@[j]
            &&& final(map).entries@[fi].0 == old(map).entries@[fi].0
            &&& final(map).entries@[fi].1 as nat == cap_u64(
                old(map).entries@[fi].1 as nat + size as nat,
            )
        }),
        find_key(old(map).entries@, entry_key(cleaner_name@, path@)) < 0 ==> ({
            &&& final(map).entries@.len() == old(map).entries@.len() + 1
            &&& forall|j: int|
                0 <= j < old(map).entries@.len() ==> final(map).entries@[j] == old(
                    map,
                ).entries@[j]
            &&& final(map).entries@.last().0@ == entry_key(cleaner_name@, path@)
            &&& final(map).entries@.last().1 == size
        }),
{
    let ghost key = entry_key(cleaner_name@, path@);
    let mut full_key = String::from_str(cleaner_name);
    full_key.append(": ");
    let rd = rep_dir_exec(path);
    full_key.append(rd.as_str());
    proof {
        assert(full_key@ =~= key);
    }
    let n = map.entries.len();
    let mut i: usize = 0;
    while i < n
        invariant
            0 <= i <= n,
            n == map.entries@.len(),
            map.entries@ == old(map).entries@,
            map.wf(),
            key == entry_key(cleaner_name@, path@),
            full_key@ == key,
            forall|j: int| 0 <= j < i ==> (#[trigger] map.entries@[j]).0@ != key,
        decreases n - i,
    {
        if map.entries[i].0 == full_key {
            proof {
                lemma_find_key_at(map.entries@, key, i as int);
            }
            let prev = map.entries[i].1;
            let k = map.entries[i].0.clone();
            let bumped = saturating_add_u64(prev, size);
            map.entries[i] = (k, bumped);
            proof {
                let before = old(map).entries@;
                let after = map.entries@;
                assert(after =~= before.update(i as int, (k, bumped)));
                assert forall|a: int, b: int|
                    0 <= a < b < after.len() implies (#[trigger] after[a]).0@ != (
                #[trigger] after[b]).0@ by {
                    assert(before[a].0@ != before[b].0@);
                    assert(after[a].0@ == before[a].0@);
                    assert(after[b].0@ == before[b].0@);
                }
                assert(find_key(before, key) == i as int);
                assert(after.len() == before.len());
                assert(forall|j: int| 0 <= j < before.len() && j != i ==> after[j] == before[j]);
                assert(after[i as int].0 == before[i as int].0);
                assert(after[i as int].1 as nat == cap_u64(before[i as int].1 as nat + size as nat));
                assert(map.wf());
            }
            return ;
        }
        i += 1;
    }
    proof {
        lemma_find_key_none(map.entries@, key);
    }
    map.entries.push((full_key, size));
}

/// Splits an aggregation key of the form `Name: path` at its first
/// `": "` into the name and the path; a key without that separator
/// comes back whole as the path, with an empty name.
pub fn split_filenames(key: &str) -> (r: (String, String))
    ensures
        ({
            let f = find_from(key@, ": "@, 0);
            if f >= 0 {
                r.0@ == key@.subrange(0, f) && r.1@ == key@.subrange(f + 2, key@.len() as int)
            } else {
                r.0@ == Seq::<char>::empty() && r.1@ == key@
            }
        }),
{
    let sep: &str = ": ";
    proof {
        reveal_strlit(": ");
    }
    match find_first(key, sep) {
        Some(f) => {
            let n = key.unicode_len();
            proof {
                lemma_find_from_in_range(key@, ": "@, 0);
            }
            let name = key.substring_char(0, f);
            let path = key.substring_char(f + 2, n);
            (String::from_str(name), String::from_str(path))
        },
        None => (String::new(), String::from_str(key)),
    }
}

/// A found occurrence lies inside the string.
proof fn lemma_find_from_in_range(s: Seq<char>, pat: Seq<char>, i: int)
    requires
        0 <= i,
        find_from(s, pat, i) >= 0,
    ensures
        i <= find_from(s, pat, i),
        find_from(s, pat, i) + pat.len() <= s.len(),
        matches_at(s, pat, find_from(s, pat, i)),
    decreases s.len() + 1 - i,
{
    if i + pat.len() > s.len() {
    } else if matches_at(s, pat, i) {
    } else {
        lemma_find_from_in_range(s, pat, i + 1);
    }
}

} // verus!
