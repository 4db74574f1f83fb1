//! The ignore filter: decides whether a candidate path is excluded by a
//! user-supplied exclusion list.
//!
//! The primary mode works on canonical path strings and excludes a
//! candidate that equals a pattern or descends from one (prefix
//! containment on a `/` component boundary). A coarser secondary mode
//! excludes a path whose string contains a trimmed pattern as a
//! substring.

use vstd::prelude::*;

use crate::textutil::{contains_seq, matches_at_exec, str_contains, trim_spec, trim_str};

verus! {

/// Whether the path `p` equals `pat` or lies inside the subtree rooted
/// at `pat`: `p` extends `pat` at a `/` component boundary (either the
/// next character of `p` is `/`, or `pat` itself ends in `/`).
pub open spec fn is_path_prefix(pat: Seq<char>, p: Seq<char>) -> bool {
    p == pat || (pat.len() < p.len() && p.subrange(0, pat.len() as int) == pat && (p[pat.len() as int]
        == '/' || (pat.len() > 0 && pat.last() == '/')))
}

/// Whether `canon` is excluded by any pattern of `pats`: it equals the
/// pattern or is a descendant of it.
pub open spec fn ignored_by_any(canon: Seq<char>, pats: Seq<Seq<char>>) -> bool {
    exists|k: int| 0 <= k < pats.len() && is_path_prefix(pats[k], canon)
}

/// Whether `path`, as a plain string, contains any trimmed pattern of
/// `pats` as a substring.
pub open spec fn substring_ignored(path: Seq<char>, pats: Seq<Seq<char>>) -> bool {
    exists|k: int| 0 <= k < pats.len() && contains_seq(path, trim_spec(pats[k]))
}

/// The views of a list of strings.
pub open spec fn views_of(pats: Seq<String>) -> Seq<Seq<char>> {
    pats.map_values(|s: String| s@)
}

/// Whether `p` equals `pat` or descends from it.
pub fn is_path_prefix_exec(pat: &str, p: &str) -> (r: bool)
    ensures
        r == is_path_prefix(pat@, p@),
{
    let m = pat.unicode_len();
    let n = p.unicode_len();
    if m > n {
        proof {
            assert(p@ != pat@) by {
                assert(p@.len() != pat@.len());
            }
        }
        return false;
    }
    if !matches_at_exec(p, pat, 0) {
        proof {
            if p@ == pat@ {
                assert(p@.subrange(0, pat@.len() as int) =~= pat@);
            }
        }
        return false;
    }
    if m == n {
        proof {
            assert(p@.subrange(0, m as int) =~= p@);
        }
        return true;
    }
    p.get_char(m) == '/' || (m > 0 && pat.get_char(m - 1) == '/')
}

/// Whether the canonical path `canon` is excluded by the canonical
/// patterns `pats`: it equals one of them or descends from one.
pub fn is_ignored(canon: &str, pats: &Vec<String>) -> (r: bool)
    ensures
        r == ignored_by_any(canon@, views_of(pats@)),
{
    let ghost pviews = views_of(pats@);
    let mut k: usize = 0;
    while k < pats.len()
        invariant
            0 <= k <= pats.len(),
            pviews == views_of(pats@),
            forall|j: int| 0 <= j < k ==> !is_path_prefix(pviews[j], canon@),
        decreases pats.len() - k,
    {
        if is_path_prefix_exec(pats[k].as_str(), canon) {
            proof {
                assert(pviews[k as int] == pats@[k as int]@);
            }
            return true;
        }
        proof {
            assert(pviews[k as int] == pats@[k as int]@);
        }
        k += 1;
    }
    false
}

/// Whether `path` contains any trimmed pattern of `pats` as a
/// substring.
pub fn is_ignored_substring(path: &str, pats: &Vec<String>) -> (r: bool)
    ensures
        r == substring_ignored(path@, views_of(pats@)),
{
    let ghost pviews = views_of(pats@);
    let mut k: usize = 0;
    while k < pats.len()
        invariant
            0 <= k <= pats.len(),
            pviews == views_of(pats@),
            forall|j: int| 0 <= j < k ==> !contains_seq(path@, trim_spec(pviews[j])),
        decreases pats.len() - k,
    {
        let pat = trim_str(pats[k].as_str());
        proof {
            assert(pviews[k as int] == pats@[k as int]@);
        }
        if str_contains(path, pat.as_str()) {
            return true;
        }
        k += 1;
    }
    false
}

} // verus!
