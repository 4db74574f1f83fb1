//! Character-level string utilities: substring search, case-insensitive
//! matching over ASCII letters, whitespace trimming and suffix tests.
//!
//! Contracts are stated over `Seq<char>` views of the strings involved.

use vstd::prelude::*;

verus! {

/// Whether `pat` occurs in `s` starting at index `i`.
pub open spec fn matches_at(s: Seq<char>, pat: Seq<char>, i: int) -> bool {
    0 <= i && i + pat.len() <= s.len() && s.subrange(i, i + pat.len()) == pat
}

/// Whether `pat` occurs anywhere in `s`.
pub open spec fn contains_seq(s: Seq<char>, pat: Seq<char>) -> bool {
    exists|i: int| matches_at(s, pat, i)
}

/// Whether `s` ends with `pat`.
pub open spec fn ends_with_seq(s: Seq<char>, pat: Seq<char>) -> bool {
    pat.len() <= s.len() && s.subrange(s.len() - pat.len(), s.len() as int) == pat
}

/// ASCII upper-case letters folded to lower case; all else unchanged.
pub open spec fn lower_char(c: char) -> char {
    if 65 <= c as int <= 90 {
        ((c as int) + 32) as char
    } else {
        c
    }
}

/// `s` with every ASCII upper-case letter folded to lower case.
pub open spec fn lower_seq(s: Seq<char>) -> Seq<char> {
    s.map_values(|c: char| lower_char(c))
}

/// The index of the first occurrence of `pat` in `s` at or after `i`,
/// or -1 if there is none.
pub open spec fn find_from(s: Seq<char>, pat: Seq<char>, i: int) -> int
    recommends
        0 <= i,
    decreases s.len() + 1 - i,
{
    if i + pat.len() > s.len() || i < 0 {
        -1
    } else if matches_at(s, pat, i) {
        i
    } else {
        find_from(s, pat, i + 1)
    }
}

/// The index of the last `/` in `p`, or -1 if there is none.
pub open spec fn rfind_slash(p: Seq<char>) -> int
    decreases p.len(),
{
    if p.len() == 0 {
        -1
    } else if p.last() == '/' {
        p.len() - 1
    } else {
        rfind_slash(p.drop_last())
    }
}

/// The last-slash index, when it exists, lies inside the string and
/// carries a `/`.
pub proof fn lemma_rfind_slash_range(p: Seq<char>)
    ensures
        -1 <= rfind_slash(p) < p.len(),
        rfind_slash(p) >= 0 ==> p[rfind_slash(p)] == '/',
    decreases p.len(),
{
    if p.len() > 0 && p.last() != '/' {
        lemma_rfind_slash_range(p.drop_last());
    }
}

/// The index of the last `/` in `p`, if any.
pub fn rfind_slash_exec(p: &str) -> (r: Option<usize>)
    ensures
        match r {
            Some(i) => rfind_slash(p@) == i as int,
            None => rfind_slash(p@) == -1,
        },
{
    let n = p.unicode_len();
    proof {
        assert(p@.take(n as int) =~= p@);
    }
    let mut j: usize = n;
    while j > 0
        invariant
            0 <= j <= n,
            n == p@.len(),
            rfind_slash(p@) == rfind_slash(p@.take(j as int)),
        decreases j,
    {
        if p.get_char(j - 1) == '/' {
            proof {
                assert(p@.take(j as int).last() == p@[j - 1]);
            }
            return Some(j - 1);
        }
        proof {
            assert(p@.take(j as int).drop_last() =~= p@.take(j - 1));
            assert(p@.take(j as int).last() == p@[j - 1]);
        }
        j -= 1;
    }
    proof {
        assert(p@.take(0) =~= Seq::<char>::empty());
    }
    None
}

/// Whether `c` is an ASCII whitespace character.
pub open spec fn is_space(c: char) -> bool {
    c == ' ' || c == '\t' || c == '\n' || c == '\r'
}

/// `s` without its leading whitespace.
pub open spec fn trim_start_spec(s: Seq<char>) -> Seq<char>
    decreases s.len(),
{
    if s.len() > 0 && is_space(s[0]) {
        trim_start_spec(s.drop_first())
    } else {
        s
    }
}

/// `s` without its trailing whitespace.
pub open spec fn trim_end_spec(s: Seq<char>) -> Seq<char>
    decreases s.len(),
{
    if s.len() > 0 && is_space(s.last()) {
        trim_end_spec(s.drop_last())
    } else {
        s
    }
}

/// `s` without leading and trailing whitespace.
pub open spec fn trim_spec(s: Seq<char>) -> Seq<char> {
    trim_end_spec(trim_start_spec(s))
}

/// Folds an ASCII upper-case letter to lower case.
pub fn lower_char_exec(c: char) -> (r: char)
    ensures
        r == lower_char(c),
{
    let u = c as u32;
    if 65 <= u && u <= 90 {
        ((u as u8) + 32) as char
    } else {
        c
    }
}

/// Whether `pat` occurs in `s` at index `i`.
pub fn matches_at_exec(s: &str, pat: &str, i: usize) -> (r: bool)
    requires
        i + pat@.len() <= s@.len(),
    ensures
        r == matches_at(s@, pat@, i as int),
{
    let n = s.unicode_len();
    let m = pat.unicode_len();
    let mut k: usize = 0;
    while k < m
        invariant
            0 <= k <= m,
            n == s@.len(),
            m == pat@.len(),
            i + m <= n,
            forall|j: int| 0 <= j < k ==> s@[i + j] == pat@[j],
        decreases m - k,
    {
        if s.get_char(i + k) != pat.get_char(k) {
            proof {
                assert(s@.subrange(i as int, i + m) != pat@) by {
                    assert(s@.subrange(i as int, i + m)[k as int] == s@[i + k]);
                }
            }
            return false;
        }
        k += 1;
    }
    proof {
        assert(s@.subrange(i as int, i + m) =~= pat@);
    }
    true
}

/// Whether two string slices hold the same characters.
pub fn str_eq(a: &str, b: &str) -> (r: bool)
    ensures
        r == (a@ == b@),
{
    let n = a.unicode_len();
    let m = b.unicode_len();
    if n != m {
        proof {
            assert(a@ != b@) by {
                assert(a@.len() != b@.len());
            }
        }
        return false;
    }
    let r = matches_at_exec(a, b, 0);
    proof {
        if r {
            assert(a@.subrange(0, m as int) =~= a@);
        } else {
            if a@ == b@ {
                assert(a@.subrange(0, m as int) =~= b@);
            }
        }
    }
    r
}

/// Whether `pat` occurs anywhere in `s`.
pub fn str_contains(s: &str, pat: &str) -> (r: bool)
    ensures
        r == contains_seq(s@, pat@),
{
    let n = s.unicode_len();
    let m = pat.unicode_len();
    if m > n {
        proof {
            assert(forall|i: int| !matches_at(s@, pat@, i));
        }
        return false;
    }
    if m == 0 {
        proof {
            assert(s@.subrange(0, 0) =~= pat@);
            assert(matches_at(s@, pat@, 0));
        }
        return true;
    }
    let mut i: usize = 0;
    while i <= n - m
        invariant
            0 < m <= n,
            n == s@.len(),
            m == pat@.len(),
            0 <= i <= n - m + 1,
            forall|j: int| 0 <= j < i ==> !matches_at(s@, pat@, j),
        decreases n + 1 - i,
    {
        if matches_at_exec(s, pat, i) {
            return true;
        }
        i += 1;
    }
    proof {
        assert(forall|j: int| matches_at(s@, pat@, j) ==> 0 <= j <= n - m);
    }
    false
}

/// Whether `s` ends with `pat`.
pub fn str_ends_with(s: &str, pat: &str) -> (r: bool)
    ensures
        r == ends_with_seq(s@, pat@),
{
    let n = s.unicode_len();
    let m = pat.unicode_len();
    if m > n {
        return false;
    }
    matches_at_exec(s, pat, n - m)
}

/// Whether `pat`, case-folded, occurs in `s`, case-folded, at index `i`.
fn matches_at_ci(s: &str, pat: &str, i: usize) -> (r: bool)
    requires
        i + pat@.len() <= s@.len(),
    ensures
        r == matches_at(lower_seq(s@), lower_seq(pat@), i as int),
{
    let n = s.unicode_len();
    let m = pat.unicode_len();
    let mut k: usize = 0;
    while k < m
        invariant
            0 <= k <= m,
            n == s@.len(),
            m == pat@.len(),
            i + m <= n,
            forall|j: int| 0 <= j < k ==> lower_seq(s@)[i + j] == lower_seq(pat@)[j],
        decreases m - k,
    {
        if lower_char_exec(s.get_char(i + k)) != lower_char_exec(pat.get_char(k)) {
            proof {
                assert(lower_seq(s@).subrange(i as int, i + m) != lower_seq(pat@)) by {
                    assert(lower_seq(s@).subrange(i as int, i + m)[k as int] == lower_seq(
                        s@,
                    )[i + k]);
                    assert(lower_seq(s@)[i + k] == lower_char(s@[i + k]));
                    assert(lower_seq(pat@)[k as int] == lower_char(pat@[k as int]));
                }
            }
            return false;
        }
        proof {
            assert(lower_seq(s@)[i + k] == lower_char(s@[i + k]));
            assert(lower_seq(pat@)[k as int] == lower_char(pat@[k as int]));
        }
        k += 1;
    }
    proof {
        assert(lower_seq(s@).subrange(i as int, i + m) =~= lower_seq(pat@));
    }
    true
}

/// Whether `pat` occurs in `s` when both are folded to lower case
/// (ASCII letters only).
pub fn str_contains_ci(s: &str, pat: &str) -> (r: bool)
    ensures
        r == contains_seq(lower_seq(s@), lower_seq(pat@)),
{
    let n = s.unicode_len();
    let m = pat.unicode_len();
    if m > n {
        proof {
            assert(forall|i: int| !matches_at(lower_seq(s@), lower_seq(pat@), i));
        }
        return false;
    }
    if m == 0 {
        proof {
            assert(lower_seq(s@).subrange(0, 0) =~= lower_seq(pat@));
            assert(matches_at(lower_seq(s@), lower_seq(pat@), 0));
        }
        return true;
    }
    let mut i: usize = 0;
    while i <= n - m
        invariant
            0 < m <= n,
            n == s@.len(),
            m == pat@.len(),
            0 <= i <= n - m + 1,
            forall|j: int| 0 <= j < i ==> !matches_at(lower_seq(s@), lower_seq(pat@), j),
        decreases n + 1 - i,
    {
        if matches_at_ci(s, pat, i) {
            return true;
        }
        i += 1;
    }
    proof {
        assert(forall|j: int|
            matches_at(lower_seq(s@), lower_seq(pat@), j) ==> 0 <= j <= n - m);
    }
    false
}

/// The index of the first occurrence of `pat` in `s`, if any.
pub fn find_first(s: &str, pat: &str) -> (r: Option<usize>)
    ensures
        match r {
            Some(i) => find_from(s@, pat@, 0) == i as int,
            None => find_from(s@, pat@, 0) == -1,
        },
{
    let n = s.unicode_len();
    let m = pat.unicode_len();
    if m > n {
        return None;
    }
    if m == 0 {
        proof {
            assert(s@.subrange(0, 0) =~= pat@);
            assert(matches_at(s@, pat@, 0));
        }
        return Some(0);
    }
    let mut i: usize = 0;
    while i <= n - m
        invariant
            0 < m <= n,
            n == s@.len(),
            m == pat@.len(),
            0 <= i <= n - m + 1,
            find_from(s@, pat@, 0) == find_from(s@, pat@, i as int),
        decreases n + 1 - i,
    {
        if matches_at_exec(s, pat, i) {
            return Some(i);
        }
        proof {
            assert(find_from(s@, pat@, i as int) == find_from(s@, pat@, i + 1));
        }
        i += 1;
    }
    None
}

/// A prefix of all-whitespace characters followed by a non-whitespace
/// character (or the end) pins down `trim_start_spec`.
proof fn lemma_trim_start(s: Seq<char>, i: int)
    requires
        0 <= i <= s.len(),
        forall|k: int| 0 <= k < i ==> is_space(s[k]),
        i == s.len() || !is_space(s[i]),
    ensures
        trim_start_spec(s) == s.subrange(i, s.len() as int),
    decreases i,
{
    if i == 0 {
        assert(s.subrange(0, s.len() as int) =~= s);
    } else {
        lemma_trim_start(s.drop_first(), i - 1);
        assert(s.drop_first().subrange(i - 1, s.drop_first().len() as int) =~= s.subrange(
            i,
            s.len() as int,
        ));
    }
}

/// A suffix of all-whitespace characters preceded by a non-whitespace
/// character (or the start) pins down `trim_end_spec`.
proof fn lemma_trim_end(s: Seq<char>, j: int)
    requires
        0 <= j <= s.len(),
        forall|k: int| j <= k < s.len() ==> is_space(s[k]),
        j == 0 || !is_space(s[j - 1]),
    ensures
        trim_end_spec(s) == s.subrange(0, j),
    decreases s.len() - j,
{
    if j == s.len() {
        assert(s.subrange(0, j) =~= s);
    } else {
        lemma_trim_end(s.drop_last(), j);
        assert(s.drop_last().subrange(0, j) =~= s.subrange(0, j));
    }
}

/// Whether `c` is an ASCII whitespace character.
pub fn is_space_exec(c: char) -> (r: bool)
    ensures
        r == is_space(c),
{
    c == ' ' || c == '\t' || c == '\n' || c == '\r'
}

/// `s` without leading and trailing whitespace.
pub fn trim_str(s: &str) -> (r: String)
    ensures
        r@ == trim_spec(s@),
{
    let n = s.unicode_len();
    let mut i: usize = 0;
    while i < n && is_space_exec(s.get_char(i))
        invariant
            0 <= i <= n,
            n == s@.len(),
            forall|k: int| 0 <= k < i ==> is_space(s@[k]),
        decreases n - i,
    {
        i += 1;
    }
    proof {
        lemma_trim_start(s@, i as int);
    }
    let mut j: usize = n;
    while j > i && is_space_exec(s.get_char(j - 1))
        invariant
            i <= j <= n,
            n == s@.len(),
            forall|k: int| 0 <= k < i ==> is_space(s@[k]),
            forall|k: int| j <= k < n ==> is_space(s@[k]),
        decreases j,
    {
        j -= 1;
    }
    let r = s.substring_char(i, j);
    proof {
        let t = s@.subrange(i as int, n as int);
        assert(forall|k: int| j - i <= k < t.len() ==> is_space(t[k]));
        lemma_trim_end(t, j - i);
        assert(t.subrange(0, j - i) =~= s@.subrange(i as int, j as int));
    }
    String::from_str(r)
}

} // verus!
