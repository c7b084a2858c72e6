//! Substring search and first-occurrence replacement over text.

use vstd::prelude::*;
use vstd::string::*;

verus! {

/// `pat` occurs in `s` starting at position `i`.
pub open spec fn matches_at(s: Seq<char>, pat: Seq<char>, i: int) -> bool {
    &&& 0 <= i
    &&& i + pat.len() <= s.len()
    &&& s.subrange(i, i + pat.len() as int) == pat
}

/// `pat` occurs somewhere in `s`.
pub open spec fn contains_seq(s: Seq<char>, pat: Seq<char>) -> bool {
    exists|i: int| matches_at(s, pat, i)
}

/// The least position at or after `i` where `pat` occurs in `s`,
/// or -1 when there is none.
pub open spec fn find_from(s: Seq<char>, pat: Seq<char>, i: int) -> int
    decreases s.len() - i when 0 <= i <= s.len()
{
    if matches_at(s, pat, i) {
        i
    } else if i >= s.len() {
        -1
    } else {
        find_from(s, pat, i + 1)
    }
}

/// `s` with its earliest occurrence of `pat` replaced by `repl`;
/// `s` unchanged when `pat` does not occur.
pub open spec fn replace_first(s: Seq<char>, pat: Seq<char>, repl: Seq<char>) -> Seq<char> {
    let i = find_from(s, pat, 0);
    if i == -1 {
        s
    } else {
        s.take(i) + repl + s.skip(i + pat.len() as int)
    }
}

proof fn lemma_find_from_none_past(s: Seq<char>, pat: Seq<char>, i: int)
    requires
        0 <= i <= s.len(),
        i + pat.len() > s.len(),
    ensures
        find_from(s, pat, i) == -1,
    decreases s.len() - i,
{
    if i < s.len() {
        lemma_find_from_none_past(s, pat, i + 1);
    }
}

/// A non-negative find result is a position where `pat` really occurs.
pub proof fn lemma_find_from_match(s: Seq<char>, pat: Seq<char>, i: int)
    requires
        0 <= i <= s.len(),
        find_from(s, pat, i) != -1,
    ensures
        i <= find_from(s, pat, i),
        matches_at(s, pat, find_from(s, pat, i)),
    decreases s.len() - i,
{
    if !matches_at(s, pat, i) && i < s.len() {
        lemma_find_from_match(s, pat, i + 1);
    }
}

/// `n` occurs in `a + n + b`, right after `a`.
pub proof fn lemma_contains_concat(a: Seq<char>, n: Seq<char>, b: Seq<char>)
    ensures
        contains_seq(a + n + b, n),
{
    let s = a + n + b;
    assert(s.subrange(a.len() as int, a.len() + n.len() as int) =~= n);
    assert(matches_at(s, n, a.len() as int));
}

/// A text does not occur in `s` when no character of `s` equals its
/// first character.
pub proof fn lemma_free_by_first_char(s: Seq<char>, n: Seq<char>)
    requires
        n.len() > 0,
        forall|k: int| 0 <= k < s.len() ==> s[k] != n[0],
    ensures
        !contains_seq(s, n),
{
    assert forall|i: int| !matches_at(s, n, i) by {
        if matches_at(s, n, i) {
            assert(s.subrange(i, i + n.len() as int)[0] == s[i]);
        }
    }
}

/// `n` does not occur in `a + b` when it occurs in neither part and no
/// character of `n` but its last equals the last character of `a`: an
/// occurrence crossing the boundary would put an earlier character of
/// `n` on that last character.
pub proof fn lemma_concat_free_by_last(a: Seq<char>, b: Seq<char>, n: Seq<char>)
    requires
        !contains_seq(a, n),
        !contains_seq(b, n),
        n.len() > 0,
        a.len() > 0,
        forall|j: int| 0 <= j < n.len() - 1 ==> n[j] != a[a.len() - 1],
    ensures
        !contains_seq(a + b, n),
{
    let s = a + b;
    assert forall|i: int| !matches_at(s, n, i) by {
        if matches_at(s, n, i) {
            if i + n.len() <= a.len() {
                assert(a.subrange(i, i + n.len() as int) =~= s.subrange(i, i + n.len() as int));
                assert(matches_at(a, n, i));
            } else if i >= a.len() {
                assert(b.subrange(i - a.len(), i - a.len() + n.len()) =~= s.subrange(
                    i,
                    i + n.len() as int,
                ));
                assert(matches_at(b, n, i - a.len()));
            } else {
                let j = a.len() - 1 - i;
                assert(s.subrange(i, i + n.len() as int)[j] == s[a.len() - 1]);
                assert(s[a.len() - 1] == a[a.len() - 1]);
                assert(n[j] == a[a.len() - 1]);
            }
        }
    }
}

/// `n` does not occur in `a + b` when it occurs in neither part and no
/// character of `n` but its first equals the first character of `b`: an
/// occurrence crossing the boundary would put a later character of `n`
/// on that first character.
pub proof fn lemma_concat_free_by_first(a: Seq<char>, b: Seq<char>, n: Seq<char>)
    requires
        !contains_seq(a, n),
        !contains_seq(b, n),
        n.len() > 0,
        b.len() > 0,
        forall|j: int| 1 <= j < n.len() ==> n[j] != b[0],
    ensures
        !contains_seq(a + b, n),
{
    let s = a + b;
    assert forall|i: int| !matches_at(s, n, i) by {
        if matches_at(s, n, i) {
            if i + n.len() <= a.len() {
                assert(a.subrange(i, i + n.len() as int) =~= s.subrange(i, i + n.len() as int));
                assert(matches_at(a, n, i));
            } else if i >= a.len() {
                assert(b.subrange(i - a.len(), i - a.len() + n.len()) =~= s.subrange(
                    i,
                    i + n.len() as int,
                ));
                assert(matches_at(b, n, i - a.len()));
            } else {
                let j = a.len() - i;
                assert(s.subrange(i, i + n.len() as int)[j] == s[a.len() as int]);
                assert(s[a.len() as int] == b[0]);
                assert(n[j] == b[0]);
            }
        }
    }
}

fn check_match_at(s: &str, pat: &str, i: usize, s_len: usize, pat_len: usize) -> (b: bool)
    requires
        s_len == s@.len(),
        pat_len == pat@.len(),
        i + pat_len <= s_len,
    ensures
        b == matches_at(s@, pat@, i as int),
{
    let mut j: usize = 0;
    while j < pat_len
        invariant
            s_len == s@.len(),
            pat_len == pat@.len(),
            i + pat_len <= s_len,
            0 <= j <= pat_len,
            forall|t: int| 0 <= t < j ==> s@[i + t] == pat@[t],
        decreases pat_len - j,
    {
        let sc = s.get_char(i + j);
        let pc = pat.get_char(j);
        if sc != pc {
            proof {
                assert(s@.subrange(i as int, i + pat@.len() as int)[j as int] == s@[i + j]);
            }
            return false;
        }
        j += 1;
    }
    proof {
        assert(s@.subrange(i as int, i + pat@.len() as int) =~= pat@);
    }
    true
}

/// The least position where `pat` occurs in `s`, if it occurs at all.
pub fn find_first(s: &str, pat: &str) -> (r: Option<usize>)
    ensures
        match r {
            Some(i) => find_from(s@, pat@, 0) == i as int,
            None => find_from(s@, pat@, 0) == -1,
        },
{
    let s_len = s.unicode_len();
    let pat_len = pat.unicode_len();
    if pat_len > s_len {
        proof {
            lemma_find_from_none_past(s@, pat@, 0);
        }
        return None;
    }
    if pat_len == 0 {
        proof {
            assert(s@.subrange(0, 0) =~= pat@);
        }
        return Some(0);
    }
    let mut i: usize = 0;
    while i <= s_len - pat_len
        invariant
            s_len == s@.len(),
            pat_len == pat@.len(),
            1 <= pat_len <= s_len,
            0 <= i <= s_len - pat_len + 1,
            find_from(s@, pat@, 0) == find_from(s@, pat@, i as int),
        decreases s_len - i,
    {
        if check_match_at(s, pat, i, s_len, pat_len) {
            return Some(i);
        }
        proof {
            assert(find_from(s@, pat@, i as int) == find_from(s@, pat@, i + 1));
        }
        i += 1;
    }
    proof {
        lemma_find_from_none_past(s@, pat@, i as int);
    }
    None
}

/// `s` with its earliest occurrence of `pat` replaced by `repl`;
/// a copy of `s` when `pat` does not occur.
pub fn replace_first_str(s: &str, pat: &str, repl: &str) -> (r: String)
    ensures
        r@ == replace_first(s@, pat@, repl@),
{
    match find_first(s, pat) {
        None => String::from_str(s),
        Some(i) => {
            proof {
                lemma_find_from_match(s@, pat@, 0);
            }
            let s_len = s.unicode_len();
            let pat_len = pat.unicode_len();
            let head = s.substring_char(0, i);
            let tail = s.substring_char(i + pat_len, s_len);
            let r = String::from_str(head).concat(repl).concat(tail);
            proof {
                assert(r@ =~= replace_first(s@, pat@, repl@));
            }
            r
        },
    }
}

} // verus!
