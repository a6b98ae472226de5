//! Byte-string helpers: ASCII whitespace, trimming, and prefix tests.
//!
//! Lines are modelled as byte sequences. All delimiters the shell cares
//! about (space, `|`) are ASCII, so byte-level splitting agrees with
//! character-level splitting on any UTF-8 input.
use vstd::prelude::*;

verus! {

/// ASCII whitespace: tab, line feed, vertical tab, form feed, carriage
/// return, space.
pub open spec fn is_ws(b: u8) -> bool {
    b == 32 || b == 9 || b == 10 || b == 11 || b == 12 || b == 13
}

/// Index of the first non-whitespace byte at or after `i`, or `s.len()`.
pub open spec fn ltrim_idx(s: Seq<u8>, i: int) -> int
    decreases s.len() - i,
{
    if 0 <= i < s.len() && is_ws(s[i]) {
        ltrim_idx(s, i + 1)
    } else {
        i
    }
}

/// Index just past the last non-whitespace byte before `i`, or 0.
pub open spec fn rtrim_idx(s: Seq<u8>, i: int) -> int
    decreases i,
{
    if 0 < i <= s.len() && is_ws(s[i - 1]) {
        rtrim_idx(s, i - 1)
    } else {
        i
    }
}

/// `s` with leading and trailing ASCII whitespace removed.
pub open spec fn spec_trim(s: Seq<u8>) -> Seq<u8> {
    let a = ltrim_idx(s, 0);
    let b = rtrim_idx(s, s.len() as int);
    if a <= b {
        s.subrange(a, b)
    } else {
        Seq::empty()
    }
}

proof fn lemma_rtrim_all_ws(s: Seq<u8>, i: int)
    requires
        0 <= i <= s.len(),
        forall|j: int| 0 <= j < i ==> is_ws(s[j]),
    ensures
        rtrim_idx(s, i) == 0,
    decreases i,
{
    if 0 < i {
        lemma_rtrim_all_ws(s, i - 1);
    }
}

/// Executable test for ASCII whitespace.
pub fn ws_byte(b: u8) -> (r: bool)
    ensures
        r == is_ws(b),
{
    b == 32 || b == 9 || b == 10 || b == 11 || b == 12 || b == 13
}

/// Remove leading and trailing ASCII whitespace.
pub fn trim(s: &Vec<u8>) -> (r: Vec<u8>)
    ensures
        r@ == spec_trim(s@),
{
    let mut a: usize = 0;
    while a < s.len() && ws_byte(s[a])
        invariant
            0 <= a <= s@.len(),
            ltrim_idx(s@, 0) == ltrim_idx(s@, a as int),
        decreases s@.len() - a,
    {
        a = a + 1;
    }
    assert(ltrim_idx(s@, 0) == a as int);
    assert(forall|j: int| 0 <= j < a ==> is_ws(s@[j])) by {
        assert forall|j: int| 0 <= j < a implies is_ws(s@[j]) by {
            lemma_ltrim_ws(s@, 0, j);
        }
    }
    let mut b: usize = s.len();
    while b > a && ws_byte(s[b - 1])
        invariant
            a <= b <= s@.len(),
            rtrim_idx(s@, s@.len() as int) == rtrim_idx(s@, b as int),
        decreases b,
    {
        b = b - 1;
    }
    let ghost bs = rtrim_idx(s@, s@.len() as int);
    proof {
        if b == a {
            if a == 0 {
                assert(bs == 0);
            } else {
                lemma_rtrim_all_ws(s@, a as int);
                assert(bs == 0);
            }
        } else {
            assert(!is_ws(s@[b as int - 1]));
            assert(bs == b as int);
        }
    }
    let mut r: Vec<u8> = Vec::new();
    let mut i: usize = a;
    while i < b
        invariant
            a <= i <= b <= s@.len(),
            r@ == s@.subrange(a as int, i as int),
        decreases b - i,
    {
        r.push(s[i]);
        proof {
            assert(s@.subrange(a as int, i as int + 1) == s@.subrange(a as int, i as int).push(
                s@[i as int],
            ));
        }
        i = i + 1;
    }
    proof {
        if a as int <= bs {
            assert(b as int == bs || (b == a && bs == 0 && a == 0));
            assert(r@ == spec_trim(s@));
        } else {
            assert(b == a);
            assert(r@ =~= spec_trim(s@));
        }
    }
    r
}

proof fn lemma_ltrim_ws(s: Seq<u8>, i: int, j: int)
    requires
        0 <= i <= j < ltrim_idx(s, i),
        i <= s.len(),
    ensures
        is_ws(s[j]),
    decreases s.len() - i,
{
    if !(i < s.len() && is_ws(s[i])) {
        // then ltrim_idx(s, i) == i, contradicting j < ltrim_idx(s, i)
    } else if j > i {
        lemma_ltrim_ws(s, i + 1, j);
    }
}

/// Whether the two byte strings are equal.
pub fn bytes_eq(a: &Vec<u8>, b: &Vec<u8>) -> (r: bool)
    ensures
        r <==> a@ == b@,
{
    if a.len() != b.len() {
        return false;
    }
    let mut i: usize = 0;
    while i < a.len()
        invariant
            0 <= i <= a@.len(),
            a@.len() == b@.len(),
            forall|j: int| 0 <= j < i ==> a@[j] == b@[j],
        decreases a@.len() - i,
    {
        if a[i] != b[i] {
            return false;
        }
        i = i + 1;
    }
    proof {
        assert(a@ =~= b@);
    }
    true
}

/// Whether `prefix` is a prefix of `s`.
pub open spec fn spec_starts_with(s: Seq<u8>, prefix: Seq<u8>) -> bool {
    prefix.len() <= s.len() && s.subrange(0, prefix.len() as int) == prefix
}

/// Whether `s` starts with `prefix`.
pub fn starts_with(s: &Vec<u8>, prefix: &Vec<u8>) -> (r: bool)
    ensures
        r == spec_starts_with(s@, prefix@),
{
    if prefix.len() > s.len() {
        return false;
    }
    let mut i: usize = 0;
    while i < prefix.len()
        invariant
            0 <= i <= prefix@.len() <= s@.len(),
            forall|j: int| 0 <= j < i ==> s@[j] == prefix@[j],
        decreases prefix@.len() - i,
    {
        if s[i] != prefix[i] {
            assert(s@.subrange(0, prefix@.len() as int)[i as int] != prefix@[i as int]);
            return false;
        }
        i = i + 1;
    }
    proof {
        assert(s@.subrange(0, prefix@.len() as int) =~= prefix@);
    }
    true
}

/// A fresh copy of a byte string.
pub fn copy_bytes(s: &Vec<u8>) -> (r: Vec<u8>)
    ensures
        r@ == s@,
{
    let mut r: Vec<u8> = Vec::new();
    let mut i: usize = 0;
    while i < s.len()
        invariant
            0 <= i <= s@.len(),
            r@ == s@.subrange(0, i as int),
        decreases s@.len() - i,
    {
        r.push(s[i]);
        proof {
            assert(s@.subrange(0, i as int + 1) == s@.subrange(0, i as int).push(s@[i as int]));
        }
        i = i + 1;
    }
    proof {
        assert(r@ =~= s@);
    }
    r
}

} // verus!
