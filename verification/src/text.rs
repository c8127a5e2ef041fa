//! Byte-level text helpers shared by the line codec and the response
//! parsers: byte search, ASCII whitespace trimming, and byte equality.
//!
//! The wire protocol is newline-terminated ASCII, so lines are handled as
//! byte sequences throughout.

use vstd::prelude::*;

verus! {

/// Index of the first occurrence of `b` in `s` at or after `from`,
/// or -1 when there is none.
pub open spec fn spec_find(s: Seq<u8>, b: u8, from: int) -> int
    decreases s.len() - from,
{
    if from < 0 || from >= s.len() {
        -1
    } else if s[from] == b {
        from
    } else {
        spec_find(s, b, from + 1)
    }
}

/// `spec_find` returns exactly the first occurrence (or -1).
pub proof fn lemma_find_props(s: Seq<u8>, b: u8, from: int)
    requires
        0 <= from <= s.len(),
    ensures
        spec_find(s, b, from) == -1 || from <= spec_find(s, b, from) < s.len(),
        spec_find(s, b, from) == -1 ==> forall|i: int| from <= i < s.len() ==> s[i] != b,
        spec_find(s, b, from) >= 0 ==> {
            &&& from <= spec_find(s, b, from) < s.len()
            &&& s[spec_find(s, b, from)] == b
            &&& forall|i: int| from <= i < spec_find(s, b, from) ==> s[i] != b
        },
    decreases s.len() - from,
{
    if from < s.len() && s[from] != b {
        lemma_find_props(s, b, from + 1);
    }
}

/// First occurrence of `b` in `s` at or after `from`.
pub fn find_byte(s: &[u8], b: u8, from: usize) -> (r: Option<usize>)
    requires
        from <= s@.len(),
    ensures
        match r {
            Some(i) => from <= i < s@.len() && i as int == spec_find(s@, b, from as int),
            None => spec_find(s@, b, from as int) == -1,
        },
{
    let len = s.len();
    let mut i = from;
    while i < len
        invariant
            from <= i <= len,
            len == s@.len(),
            spec_find(s@, b, from as int) == spec_find(s@, b, i as int),
        decreases len - i,
    {
        if s[i] == b {
            return Some(i);
        }
        i = i + 1;
    }
    None
}

/// First occurrence of `b` in `s[start..end)`, characterised directly.
pub fn find_byte_range(s: &[u8], b: u8, start: usize, end: usize) -> (r: Option<usize>)
    requires
        start <= end <= s@.len(),
    ensures
        match r {
            Some(i) => start <= i < end && s@[i as int] == b && forall|k: int|
                start <= k < i ==> s@[k] != b,
            None => forall|k: int| start <= k < end ==> s@[k] != b,
        },
{
    let mut i = start;
    while i < end
        invariant
            start <= i <= end <= s@.len(),
            forall|k: int| start <= k < i ==> s@[k] != b,
        decreases end - i,
    {
        if s[i] == b {
            return Some(i);
        }
        i = i + 1;
    }
    None
}

/// ASCII whitespace, as trimmed from both ends of a received line.
pub open spec fn spec_is_space(b: u8) -> bool {
    b == 32 || 9 <= b <= 13
}

/// `s` with leading and trailing ASCII whitespace removed.
pub open spec fn spec_trim(s: Seq<u8>) -> Seq<u8>
    decreases s.len(),
{
    if s.len() == 0 {
        s
    } else if spec_is_space(s[0]) {
        spec_trim(s.skip(1))
    } else if spec_is_space(s.last()) {
        spec_trim(s.drop_last())
    } else {
        s
    }
}

/// ASCII whitespace test for one byte.
pub fn is_space(b: u8) -> (r: bool)
    ensures
        r == spec_is_space(b),
{
    b == 32 || (9 <= b && b <= 13)
}

/// A copy of `s` with leading and trailing ASCII whitespace removed.
pub fn trim_copy(s: &[u8]) -> (r: Vec<u8>)
    ensures
        r@ == spec_trim(s@),
{
    let len = s.len();
    let mut lo: usize = 0;
    let mut hi: usize = len;
    proof {
        assert(s@.subrange(0, len as int) =~= s@);
    }
    while lo < hi && is_space(s[lo])
        invariant
            0 <= lo <= hi <= len,
            len == s@.len(),
            spec_trim(s@) == spec_trim(s@.subrange(lo as int, hi as int)),
        decreases hi - lo,
    {
        proof {
            let sub = s@.subrange(lo as int, hi as int);
            assert(sub.skip(1) =~= s@.subrange(lo + 1, hi as int));
        }
        lo = lo + 1;
    }
    while hi > lo && is_space(s[hi - 1])
        invariant
            0 <= lo <= hi <= len,
            len == s@.len(),
            spec_trim(s@) == spec_trim(s@.subrange(lo as int, hi as int)),
            lo == hi || !spec_is_space(s@[lo as int]),
        decreases hi - lo,
    {
        proof {
            let sub = s@.subrange(lo as int, hi as int);
            assert(sub.drop_last() =~= s@.subrange(lo as int, hi - 1));
        }
        hi = hi - 1;
    }
    let mut r: Vec<u8> = Vec::new();
    let mut k = lo;
    while k < hi
        invariant
            lo <= k <= hi <= len,
            len == s@.len(),
            r@ == s@.subrange(lo as int, k as int),
        decreases hi - k,
    {
        r.push(s[k]);
        proof {
            assert(s@.subrange(lo as int, k as int).push(s@[k as int]) =~= s@.subrange(
                lo as int,
                k + 1,
            ));
        }
        k = k + 1;
    }
    proof {
        let sub = s@.subrange(lo as int, hi as int);
        assert(r@ =~= sub);
    }
    r
}

/// A copy of `s[start..end]`.
pub fn copy_range(s: &[u8], start: usize, end: usize) -> (r: Vec<u8>)
    requires
        start <= end <= s@.len(),
    ensures
        r@ == s@.subrange(start as int, end as int),
{
    let mut r: Vec<u8> = Vec::new();
    let mut k = start;
    while k < end
        invariant
            start <= k <= end <= s@.len(),
            r@ == s@.subrange(start as int, k as int),
        decreases end - k,
    {
        r.push(s[k]);
        proof {
            assert(s@.subrange(start as int, k as int).push(s@[k as int]) =~= s@.subrange(
                start as int,
                k + 1,
            ));
        }
        k = k + 1;
    }
    r
}

/// Byte-for-byte equality of two slices.
pub fn bytes_eq(a: &[u8], b: &[u8]) -> (r: bool)
    ensures
        r == (a@ == b@),
{
    if a.len() != b.len() {
        return false;
    }
    let len = a.len();
    let mut i: usize = 0;
    while i < len
        invariant
            0 <= i <= len,
            len == a@.len() == b@.len(),
            forall|k: int| 0 <= k < i ==> a@[k] == b@[k],
        decreases len - i,
    {
        if a[i] != b[i] {
            return false;
        }
        i = i + 1;
    }
    proof {
        assert(a@ =~= b@);
    }
    true
}

/// Whether every byte is 7-bit ASCII.
pub open spec fn spec_all_ascii(s: Seq<u8>) -> bool {
    forall|i: int| 0 <= i < s.len() ==> s[i] < 128
}

/// Check that every byte of `s` in `[start, end)` is 7-bit ASCII.
pub fn all_ascii_range(s: &[u8], start: usize, end: usize) -> (r: bool)
    requires
        start <= end <= s@.len(),
    ensures
        r == spec_all_ascii(s@.subrange(start as int, end as int)),
{
    let mut i = start;
    while i < end
        invariant
            start <= i <= end <= s@.len(),
            forall|k: int| start <= k < i ==> s@[k] < 128,
        decreases end - i,
    {
        if s[i] >= 128 {
            assert(s@.subrange(start as int, end as int)[i - start] >= 128);
            return false;
        }
        i = i + 1;
    }
    assert forall|k: int| 0 <= k < end - start implies s@.subrange(start as int, end as int)[k]
        < 128 by {
        assert(s@.subrange(start as int, end as int)[k] == s@[start + k]);
    }
    true
}

} // verus!
