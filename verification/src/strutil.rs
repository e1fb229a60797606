//! Verified string comparisons used by the captive-portal check and the
//! gateway's path handling.

use vstd::prelude::*;
use vstd::string::StrSliceExecFns;

verus! {

/// Whether two string slices hold the same characters.
pub fn str_eq(a: &str, b: &str) -> (r: bool)
    ensures
        r == (a@ == b@),
{
    let na = a.unicode_len();
    let nb = b.unicode_len();
    if na != nb {
        proof {
            assert(a@ != b@);
        }
        return false;
    }
    let mut i: usize = 0;
    while i < na
        invariant
            na == a@.len(),
            na == b@.len(),
            i <= na,
            forall|j: int| 0 <= j < i ==> a@[j] == b@[j],
        decreases na - i,
    {
        if a.get_char(i) != b.get_char(i) {
            return false;
        }
        i = i + 1;
    }
    proof {
        assert(a@ =~= b@);
    }
    true
}

/// Whether `s` ends with `suffix`.
pub open spec fn ends_with(s: Seq<char>, suffix: Seq<char>) -> bool {
    suffix.len() <= s.len() && s.skip(s.len() - suffix.len()) == suffix
}

/// Whether the string ends with the given suffix.
pub fn str_ends_with(s: &str, suffix: &str) -> (r: bool)
    ensures
        r == ends_with(s@, suffix@),
{
    let n = s.unicode_len();
    let m = suffix.unicode_len();
    if m > n {
        return false;
    }
    let mut i: usize = 0;
    while i < m
        invariant
            n == s@.len(),
            m == suffix@.len(),
            m <= n,
            i <= m,
            forall|j: int| 0 <= j < i ==> s@[n - m + j] == suffix@[j],
        decreases m - i,
    {
        if s.get_char(n - m + i) != suffix.get_char(i) {
            proof {
                assert(s@.skip(n as int - m as int)[i as int] != suffix@[i as int]);
            }
            return false;
        }
        i = i + 1;
    }
    proof {
        assert(s@.skip(n as int - m as int) =~= suffix@);
    }
    true
}

/// The last maximal run of characters without a `/` in `s`; empty when the
/// string is empty or holds nothing but separators after its last segment.
pub open spec fn last_segment(s: Seq<char>) -> Seq<char>
    decreases s.len(),
{
    if s.len() == 0 {
        Seq::empty()
    } else if s.last() == '/' {
        last_segment(s.drop_last())
    } else {
        last_run(s)
    }
}

/// The maximal run of non-`/` characters that ends the string.
pub open spec fn last_run(s: Seq<char>) -> Seq<char>
    decreases s.len(),
{
    if s.len() == 0 || s.last() == '/' {
        Seq::empty()
    } else {
        last_run(s.drop_last()).push(s.last())
    }
}

/// The last non-empty path segment of `path`, or the empty string.
pub fn last_path_segment(path: &str) -> (r: String)
    ensures
        r@ == last_segment(path@),
{
    let n = path.unicode_len();
    proof {
        assert(path@.take(n as int) =~= path@);
    }
    // Skip trailing separators.
    let mut end: usize = n;
    while end > 0 && path.get_char(end - 1) == '/'
        invariant
            n == path@.len(),
            end <= n,
            last_segment(path@) == last_segment(path@.take(end as int)),
        decreases end,
    {
        proof {
            assert(path@.take(end as int).drop_last() =~= path@.take(end as int - 1));
        }
        end = end - 1;
    }
    if end == 0 {
        proof {
            assert(path@.take(0) =~= Seq::<char>::empty());
        }
        return String::new();
    }
    // Collect the run of non-separator characters ending at `end`.
    let mut start: usize = end;
    while start > 0 && path.get_char(start - 1) != '/'
        invariant
            n == path@.len(),
            end <= n,
            start <= end,
            forall|j: int| start <= j < end ==> path@[j] != '/',
        decreases start,
    {
        start = start - 1;
    }
    let seg = path.substring_char(start, end);
    let out = seg.to_owned();
    proof {
        let t = path@.take(end as int);
        assert(forall|j: int| start <= j < end ==> t[j] != '/');
        assert(start == 0 || t[start as int - 1] == '/');
        lemma_last_run_is_suffix_run(t, start as int);
        assert(t.subrange(start as int, end as int) =~= path@.subrange(start as int, end as int));
        assert(out@ == last_segment(path@));
    }
    out
}

/// Within a string whose last character is not `/`, the trailing run of
/// non-`/` characters is exactly the suffix that starts after the last `/`.
proof fn lemma_last_run_is_suffix_run(s: Seq<char>, start: int)
    requires
        0 <= start <= s.len(),
        forall|j: int| start <= j < s.len() ==> s[j] != '/',
        start == 0 || s[start - 1] == '/',
        s.len() > 0 ==> s.last() != '/',
    ensures
        last_segment(s) == s.subrange(start, s.len() as int),
        last_run(s) == s.subrange(start, s.len() as int),
    decreases s.len(),
{
    if s.len() == 0 {
        assert(s.subrange(0, 0) =~= Seq::<char>::empty());
    } else if start == s.len() {
        // Impossible: the last character would have to be a separator.
        assert(s[start - 1] == '/');
        assert(s.last() != '/');
        assert(false);
    } else if s.len() == start + 1 {
        assert(last_run(s) == last_run(s.drop_last()).push(s.last()));
        if start == 0 {
            assert(s.drop_last().len() == 0);
        } else {
            assert(s.drop_last().last() == s[start - 1]);
        }
        assert(last_run(s.drop_last()) =~= Seq::<char>::empty());
        assert(last_run(s) =~= s.subrange(start, s.len() as int));
    } else {
        assert(s.drop_last().last() == s[s.len() - 2]);
        assert(s[s.len() - 2] != '/');
        lemma_last_run_is_suffix_run(s.drop_last(), start);
        assert(s.drop_last().subrange(start, s.len() - 1) =~= s.subrange(start, s.len() - 1));
        assert(last_run(s) == last_run(s.drop_last()).push(s.last()));
        assert(last_run(s) =~= s.subrange(start, s.len() as int));
    }
}

} // verus!
