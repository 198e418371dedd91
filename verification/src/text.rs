//! Character-level helpers: turning a `&str` into its characters and searching
//! for a substring, the building blocks of the keyword matcher.

use vstd::prelude::*;
use vstd::string::*;

verus! {

/// `p` occurs somewhere in `t` as a contiguous run of characters.
pub open spec fn contains_sub(t: Seq<char>, p: Seq<char>) -> bool {
    exists|i: int| 0 <= i && i + p.len() <= t.len() && #[trigger] t.subrange(i, i + p.len() as int) == p
}

/// The characters of `s`, in order.
pub fn str_chars(s: &str) -> (r: Vec<char>)
    ensures
        r@ == s@,
{
    let n: usize = s.unicode_len();
    let mut r: Vec<char> = Vec::new();
    let mut i: usize = 0;
    while i < n
        invariant
            n == s@.len(),
            i <= n,
            r@ == s@.subrange(0, i as int),
        decreases n - i,
    {
        let c: char = s.get_char(i);
        r.push(c);
        proof {
            assert(s@.subrange(0, i + 1 as int) =~= s@.subrange(0, i as int).push(s@[i as int]));
        }
        i = i + 1;
    }
    proof {
        assert(s@.subrange(0, n as int) =~= s@);
    }
    r
}

/// Whether the characters of `p` stand in `t` starting at position `i`.
fn match_at(t: &Vec<char>, p: &Vec<char>, i: usize) -> (r: bool)
    requires
        i + p@.len() <= t@.len(),
    ensures
        r == (t@.subrange(i as int, i + p@.len() as int) == p@),
{
    let tlen: usize = t.len();
    let mut j: usize = 0;
    while j < p.len()
        invariant
            i + p@.len() <= t@.len(),
            t@.len() == tlen,
            j <= p@.len(),
            forall|k: int| 0 <= k < j ==> t@[i + k] == p@[k],
        decreases p@.len() - j,
    {
        if t[i + j] != p[j] {
            proof {
                assert(t@.subrange(i as int, i + p@.len() as int)[j as int] == t@[i + j]);
            }
            return false;
        }
        j = j + 1;
    }
    proof {
        assert(t@.subrange(i as int, i + p@.len() as int) =~= p@);
    }
    true
}

/// Whether the characters of `p` occur anywhere in `t`.
pub fn contains_chars(t: &Vec<char>, p: &Vec<char>) -> (r: bool)
    ensures
        r == contains_sub(t@, p@),
{
    if p.len() > t.len() {
        return false;
    }
    if p.len() == 0 {
        proof {
            assert(t@.subrange(0, 0 + p@.len() as int) =~= p@);
        }
        return true;
    }
    let last: usize = t.len() - p.len();
    let mut i: usize = 0;
    while i <= last
        invariant
            1 <= p@.len() <= t@.len() <= usize::MAX,
            last == t@.len() - p@.len(),
            i <= last + 1,
            forall|k: int| 0 <= k < i ==> #[trigger] t@.subrange(k, k + p@.len() as int) != p@,
        decreases last + 1 - i,
    {
        if match_at(t, p, i) {
            return true;
        }
        i = i + 1;
    }
    false
}

/// Whether the pattern `p` occurs in `t`.
pub fn contains_str(t: &Vec<char>, p: &str) -> (r: bool)
    ensures
        r == contains_sub(t@, p@),
{
    let pc: Vec<char> = str_chars(p);
    contains_chars(t, &pc)
}

} // verus!
