//! Byte-level scanning: counting non-overlapping occurrences of short
//! ASCII tokens inside a raw buffer.

use vstd::prelude::*;

verus! {

/// The needle `n` occurs in `h` at position `i`.
pub open spec fn matches_at(h: Seq<u8>, n: Seq<u8>, i: int) -> bool {
    0 <= i && i + n.len() <= h.len() && h.subrange(i, i + n.len()) == n
}

/// Number of non-overlapping occurrences of `n` in `h` at or after `i`,
/// counted greedily from the left, as `str::matches` counts them.
pub open spec fn count_from(h: Seq<u8>, n: Seq<u8>, i: int) -> nat
    decreases h.len() - i,
{
    if n.len() == 0 || i + n.len() > h.len() {
        0
    } else if matches_at(h, n, i) {
        1 + count_from(h, n, i + n.len())
    } else {
        count_from(h, n, i + 1)
    }
}

/// Number of non-overlapping occurrences of `n` in `h`.
pub open spec fn count_occurrences(h: Seq<u8>, n: Seq<u8>) -> nat {
    count_from(h, n, 0)
}

/// `h` contains the needle `n` somewhere.
pub open spec fn contains_token(h: Seq<u8>, n: Seq<u8>) -> bool {
    count_occurrences(h, n) > 0
}

fn bytes_match_at(h: &[u8], n: &[u8], i: usize) -> (r: bool)
    requires
        i + n@.len() <= h@.len(),
        n@.len() > 0,
    ensures
        r == matches_at(h@, n@, i as int),
{
    let mut j: usize = 0;
    while j < n.len()
        invariant
            j <= n@.len(),
            i + n@.len() <= h@.len(),
            forall|k: int| 0 <= k < j ==> h@[i + k] == n@[k],
        decreases n@.len() - j,
    {
        assert(i + j < h.len() as int);
        if h[i + j] != n[j] {
            assert(h@.subrange(i as int, i + n@.len())[j as int] != n@[j as int]);
            return false;
        }
        j = j + 1;
    }
    proof {
        assert(h@.subrange(i as int, i + n@.len()) =~= n@);
    }
    true
}

/// Count the non-overlapping occurrences of `n` in `h`, scanning from
/// the left.
pub fn count_token(h: &[u8], n: &[u8]) -> (r: usize)
    requires
        n@.len() > 0,
    ensures
        r == count_occurrences(h@, n@),
        r <= h@.len(),
{
    if n.len() > h.len() {
        return 0;
    }
    let mut c: usize = 0;
    let mut i: usize = 0;
    let last: usize = h.len() - n.len();
    while i <= last
        invariant
            n@.len() > 0,
            h@.len() == h.len(),
            last == h@.len() - n@.len(),
            i <= h@.len(),
            c <= i,
            count_occurrences(h@, n@) == c + count_from(h@, n@, i as int),
        decreases h@.len() - i,
    {
        if bytes_match_at(h, n, i) {
            assert(count_from(h@, n@, i as int) == 1 + count_from(h@, n@, i + n@.len()));
            c = c + 1;
            i = i + n.len();
        } else {
            assert(count_from(h@, n@, i as int) == count_from(h@, n@, i as int + 1));
            i = i + 1;
        }
    }
    assert(count_from(h@, n@, i as int) == 0);
    c
}

/// Does `h` contain the token `n`?
pub fn has_token(h: &[u8], n: &[u8]) -> (r: bool)
    requires
        n@.len() > 0,
    ensures
        r == contains_token(h@, n@),
{
    let c = count_token(h, n);
    c > 0
}

/// Does `h` begin with the prefix `p`?
pub fn starts_with(h: &[u8], p: &[u8]) -> (r: bool)
    ensures
        r == (p@.len() <= h@.len() && h@.subrange(0, p@.len() as int) == p@),
{
    if p.len() > h.len() {
        return false;
    }
    let mut j: usize = 0;
    while j < p.len()
        invariant
            j <= p@.len() <= h@.len(),
            forall|k: int| 0 <= k < j ==> h@[k] == p@[k],
        decreases p@.len() - j,
    {
        if h[j] != p[j] {
            assert(h@.subrange(0, p@.len() as int)[j as int] != p@[j as int]);
            return false;
        }
        j = j + 1;
    }
    proof {
        assert(h@.subrange(0, p@.len() as int) =~= p@);
    }
    true
}

} // verus!
