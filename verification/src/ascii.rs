//! Byte-level helpers for the wire protocol: ASCII case folding, decimal
//! numbers, and comparisons over byte sequences.
use vstd::prelude::*;
use vstd::slice::{slice_subrange, slice_to_vec};

verus! {

/// ASCII lower-casing of a single byte: `A`..`Z` fold to `a`..`z`.
pub open spec fn spec_lower_byte(b: u8) -> u8 {
    if 65 <= b && b <= 90 {
        (b + 32) as u8
    } else {
        b
    }
}

/// ASCII lower-casing of a byte sequence.
pub open spec fn spec_lower_bytes(s: Seq<u8>) -> Seq<u8> {
    s.map_values(|b: u8| spec_lower_byte(b))
}

/// Lower-case a single byte.
pub fn lower_byte(b: u8) -> (r: u8)
    ensures
        r == spec_lower_byte(b),
{
    if 65 <= b && b <= 90 {
        b + 32
    } else {
        b
    }
}

/// Lower-case every byte of a slice.
pub fn lower_bytes(s: &[u8]) -> (r: Vec<u8>)
    ensures
        r@ == spec_lower_bytes(s@),
{
    let mut out: Vec<u8> = Vec::new();
    let mut i: usize = 0;
    while i < s.len()
        invariant
            i <= s@.len(),
            out@ == spec_lower_bytes(s@.subrange(0, i as int)),
        decreases s@.len() - i,
    {
        out.push(lower_byte(s[i]));
        i = i + 1;
        proof {
            assert(s@.subrange(0, i as int).drop_last() == s@.subrange(0, i as int - 1));
            assert(out@ =~= spec_lower_bytes(s@.subrange(0, i as int)));
        }
    }
    proof {
        assert(s@.subrange(0, s@.len() as int) == s@);
    }
    out
}

/// Does `s` start with `prefix`?
pub fn bytes_starts_with(s: &[u8], prefix: &[u8]) -> (r: bool)
    ensures
        r == prefix@.is_prefix_of(s@),
{
    if s.len() < prefix.len() {
        proof {
            assert(!prefix@.is_prefix_of(s@));
        }
        return false;
    }
    let mut i: usize = 0;
    while i < prefix.len()
        invariant
            i <= prefix@.len(),
            prefix@.len() <= s@.len(),
            forall|j: int| 0 <= j < i ==> s@[j] == prefix@[j],
        decreases prefix@.len() - i,
    {
        if s[i] != prefix[i] {
            proof {
                assert(s@.subrange(0, prefix@.len() as int)[i as int] != prefix@[i as int]);
            }
            return false;
        }
        i = i + 1;
    }
    proof {
        assert(s@.subrange(0, prefix@.len() as int) =~= prefix@);
    }
    true
}

/// Equality of two byte slices, byte for byte.
pub fn bytes_eq(a: &[u8], b: &[u8]) -> (r: bool)
    ensures
        r == (a@ == b@),
{
    if a.len() != b.len() {
        proof {
            assert(a@ != b@);
        }
        return false;
    }
    let mut i: usize = 0;
    while i < a.len()
        invariant
            i <= a@.len(),
            a@.len() == b@.len(),
            forall|j: int| 0 <= j < i ==> a@[j] == b@[j],
        decreases a@.len() - i,
    {
        if a[i] != b[i] {
            return false;
        }
        i = i + 1;
    }
    proof {
        assert(a@ =~= b@);
    }
    true
}

/// The decimal digits of `n`, most significant first.
pub open spec fn spec_dec_digits(n: nat) -> Seq<u8>
    decreases n,
{
    if n < 10 {
        seq![(48 + n) as u8]
    } else {
        spec_dec_digits(n / 10).push((48 + n % 10) as u8)
    }
}

/// Render `n` in decimal.
pub fn dec_bytes(n: usize) -> (r: Vec<u8>)
    ensures
        r@ == spec_dec_digits(n as nat),
    decreases n,
{
    if n < 10 {
        let mut v: Vec<u8> = Vec::new();
        v.push(48 + n as u8);
        v
    } else {
        let mut v = dec_bytes(n / 10);
        v.push(48 + (n % 10) as u8);
        v
    }
}

/// Is `s` a non-empty string of decimal digits?
pub open spec fn spec_is_digits(s: Seq<u8>) -> bool {
    s.len() > 0 && forall|i: int| 0 <= i < s.len() ==> 48 <= #[trigger] s[i] <= 57
}

/// The value of a digit string, read most significant first.
pub open spec fn spec_dec_value(s: Seq<u8>) -> int
    decreases s.len(),
{
    if s.len() == 0 {
        0
    } else {
        spec_dec_value(s.drop_last()) * 10 + (s.last() - 48)
    }
}

/// A digit string's value never shrinks when the string grows on the right.
proof fn lemma_dec_value_prefix_le(s: Seq<u8>, i: int)
    requires
        0 <= i <= s.len(),
        forall|j: int| 0 <= j < s.len() ==> 48 <= #[trigger] s[j] <= 57,
    ensures
        spec_dec_value(s.subrange(0, i)) <= spec_dec_value(s),
    decreases s.len() - i,
{
    if i < s.len() {
        lemma_dec_value_prefix_le(s, i + 1);
        assert(s.subrange(0, i + 1).drop_last() == s.subrange(0, i));
        assert(s.subrange(0, i + 1).last() == s[i]);
        lemma_dec_value_nonneg(s.subrange(0, i));
    } else {
        assert(s.subrange(0, i) == s);
    }
}

/// The value of a digit string is non-negative.
proof fn lemma_dec_value_nonneg(s: Seq<u8>)
    requires
        forall|j: int| 0 <= j < s.len() ==> 48 <= #[trigger] s[j] <= 57,
    ensures
        spec_dec_value(s) >= 0,
    decreases s.len(),
{
    if s.len() > 0 {
        lemma_dec_value_nonneg(s.drop_last());
    }
}

/// Parse a decimal number; anything that is not a plain digit string, or that
/// does not fit in `usize`, gives 0.
pub fn parse_dec_or_zero(s: &[u8]) -> (r: usize)
    ensures
        r == if spec_is_digits(s@) && spec_dec_value(s@) <= usize::MAX {
            spec_dec_value(s@)
        } else {
            0
        },
{
    if s.len() == 0 {
        return 0;
    }
    let mut acc: usize = 0;
    let mut i: usize = 0;
    while i < s.len()
        invariant
            i <= s@.len(),
            s@.len() > 0,
            forall|j: int| 0 <= j < i ==> 48 <= #[trigger] s@[j] <= 57,
            acc == spec_dec_value(s@.subrange(0, i as int)),
        decreases s@.len() - i,
    {
        let b = s[i];
        if b < 48 || b > 57 {
            return 0;
        }
        let d = (b - 48) as usize;
        proof {
            assert(s@.subrange(0, i + 1).drop_last() == s@.subrange(0, i as int));
            assert(s@.subrange(0, i + 1).last() == s@[i as int]);
        }
        if acc > usize::MAX / 10 {
            proof {
                assert(spec_dec_value(s@.subrange(0, i + 1)) > usize::MAX);
                if spec_is_digits(s@) {
                    lemma_dec_value_prefix_le(s@, i + 1);
                }
            }
            return 0;
        }
        acc = acc * 10;
        if d > usize::MAX - acc {
            proof {
                assert(spec_dec_value(s@.subrange(0, i + 1)) > usize::MAX);
                if spec_is_digits(s@) {
                    lemma_dec_value_prefix_le(s@, i + 1);
                }
            }
            return 0;
        }
        acc = acc + d;
        i = i + 1;
    }
    proof {
        assert(s@.subrange(0, s@.len() as int) == s@);
    }
    acc
}

/// The first position at or after `from` where byte `a` stands.
pub open spec fn spec_find1(s: Seq<u8>, from: int, a: u8) -> Option<int>
    decreases s.len() - from,
{
    if from < 0 || from >= s.len() {
        None
    } else if s[from] == a {
        Some(from)
    } else {
        spec_find1(s, from + 1, a)
    }
}

/// The first position at or after `from` where the two bytes `a`, `b` stand
/// next to each other.
pub open spec fn spec_find2(s: Seq<u8>, from: int, a: u8, b: u8) -> Option<int>
    decreases s.len() - from,
{
    if from < 0 || from + 2 > s.len() {
        None
    } else if s[from] == a && s[from + 1] == b {
        Some(from)
    } else {
        spec_find2(s, from + 1, a, b)
    }
}

/// A found single-byte position lies in range and carries the byte.
pub proof fn lemma_find1_in_range(s: Seq<u8>, from: int, a: u8)
    requires
        spec_find1(s, from, a) is Some,
    ensures
        from <= spec_find1(s, from, a).unwrap() < s.len(),
        s[spec_find1(s, from, a).unwrap()] == a,
        forall|j: int|
            from <= j < spec_find1(s, from, a).unwrap() ==> s[j] != a,
    decreases s.len() - from,
{
    if !(from < 0 || from >= s.len()) && s[from] != a {
        lemma_find1_in_range(s, from + 1, a);
    }
}

/// A found two-byte position lies in range and carries the bytes.
pub proof fn lemma_find2_in_range(s: Seq<u8>, from: int, a: u8, b: u8)
    requires
        spec_find2(s, from, a, b) is Some,
    ensures
        from <= spec_find2(s, from, a, b).unwrap(),
        spec_find2(s, from, a, b).unwrap() + 2 <= s.len(),
        s[spec_find2(s, from, a, b).unwrap()] == a,
        s[spec_find2(s, from, a, b).unwrap() + 1] == b,
        forall|j: int|
            from <= j < spec_find2(s, from, a, b).unwrap() ==> !(#[trigger] s[j] == a && s[j + 1]
                == b),
    decreases s.len() - from,
{
    if !(from < 0 || from + 2 > s.len()) && !(s[from] == a && s[from + 1] == b) {
        lemma_find2_in_range(s, from + 1, a, b);
    }
}

/// Find the first position of byte `a` at or after `from`.
pub fn find1(s: &[u8], from: usize, a: u8) -> (r: Option<usize>)
    requires
        from <= s@.len(),
    ensures
        match r {
            Some(i) => spec_find1(s@, from as int, a) == Some(i as int),
            None => spec_find1(s@, from as int, a) is None,
        },
{
    let mut i: usize = from;
    while i < s.len()
        invariant
            from <= i <= s@.len(),
            spec_find1(s@, from as int, a) == spec_find1(s@, i as int, a),
        decreases s@.len() - i,
    {
        if s[i] == a {
            return Some(i);
        }
        i = i + 1;
    }
    None
}

/// Find the first position of the byte pair `a`, `b` at or after `from`.
pub fn find2(s: &[u8], from: usize, a: u8, b: u8) -> (r: Option<usize>)
    requires
        from <= s@.len(),
    ensures
        match r {
            Some(i) => spec_find2(s@, from as int, a, b) == Some(i as int),
            None => spec_find2(s@, from as int, a, b) is None,
        },
{
    if s.len() < 2 || from >= s.len() - 1 {
        return None;
    }
    let mut i: usize = from;
    while i < s.len() - 1
        invariant
            from <= i,
            i <= s@.len(),
            s@.len() >= 2,
            spec_find2(s@, from as int, a, b) == spec_find2(s@, i as int, a, b),
        decreases s@.len() - i,
    {
        if s[i] == a && s[i + 1] == b {
            return Some(i);
        }
        i = i + 1;
    }
    None
}

/// The first CRLF-terminated line at or after `from`: the bytes before the
/// CRLF, and the position just past it.
pub open spec fn spec_line_at(s: Seq<u8>, from: int) -> Option<(Seq<u8>, int)> {
    match spec_find2(s, from, 13, 10) {
        Some(i) => if from <= i && i + 2 <= s.len() {
            Some((s.subrange(from, i), i + 2))
        } else {
            None
        },
        None => None,
    }
}

/// Read one CRLF-terminated line starting at `from`, consuming the CRLF.
pub fn take_line(s: &[u8], from: usize) -> (r: Option<(Vec<u8>, usize)>)
    requires
        from <= s@.len(),
    ensures
        match r {
            Some(p) => {
                &&& spec_line_at(s@, from as int) == Some((p.0@, p.1 as int))
                &&& from < p.1 <= s@.len()
            },
            None => spec_line_at(s@, from as int) is None,
        },
{
    let n = s.len();
    match find2(s, from, 13, 10) {
        None => None,
        Some(i) => {
            proof {
                lemma_find2_in_range(s@, from as int, 13, 10);
                assert(i + 2 <= n);
            }
            let line = slice_to_vec(slice_subrange(s, from, i));
            Some((line, i + 2))
        },
    }
}

/// Append every byte of `src` to `dst`.
pub fn push_bytes(dst: &mut Vec<u8>, src: &[u8])
    ensures
        final(dst)@ == old(dst)@ + src@,
{
    let mut i: usize = 0;
    while i < src.len()
        invariant
            i <= src@.len(),
            dst@ == old(dst)@ + src@.subrange(0, i as int),
        decreases src@.len() - i,
    {
        dst.push(src[i]);
        i = i + 1;
        proof {
            assert(old(dst)@ + src@.subrange(0, i as int) =~= (old(dst)@ + src@.subrange(
                0,
                i - 1,
            )).push(src@[i - 1]));
        }
    }
    proof {
        assert(src@.subrange(0, src@.len() as int) == src@);
        assert(dst@ == old(dst)@ + src@);
    }
}

} // verus!
