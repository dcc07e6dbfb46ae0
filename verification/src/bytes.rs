//! Big-endian integers and length-prefixed strings on byte sequences.
use vstd::prelude::*;

verus! {

/// The value of the big-endian 16-bit integer held by the two bytes `s[p]`, `s[p + 1]`.
pub open spec fn be16_at(s: Seq<u8>, p: int) -> int {
    s[p] * 256 + s[p + 1]
}

/// The value of the big-endian 32-bit integer held by the four bytes starting at `s[p]`.
pub open spec fn be32_at(s: Seq<u8>, p: int) -> int {
    s[p] * 0x100_0000 + s[p + 1] * 0x1_0000 + s[p + 2] * 0x100 + s[p + 3]
}

/// The value of the big-endian 64-bit integer held by the eight bytes starting at `s[p]`.
pub open spec fn be64_at(s: Seq<u8>, p: int) -> int {
    be32_at(s, p) * 0x1_0000_0000 + be32_at(s, p + 4)
}

/// The two bytes of `x` in big-endian order.
pub open spec fn enc_u16(x: u16) -> Seq<u8> {
    seq![(x / 256) as u8, (x % 256) as u8]
}

/// The four bytes of `x` in big-endian order.
pub open spec fn enc_u32(x: u32) -> Seq<u8> {
    seq![
        (x / 0x100_0000) as u8,
        ((x / 0x1_0000) % 256) as u8,
        ((x / 0x100) % 256) as u8,
        (x % 256) as u8,
    ]
}

/// The eight bytes of `x` in big-endian order.
pub open spec fn enc_u64(x: u64) -> Seq<u8> {
    enc_u32((x / 0x1_0000_0000) as u32) + enc_u32((x % 0x1_0000_0000) as u32)
}

/// Whether `b` is a continuation byte of UTF-8, `10xxxxxx`.
pub open spec fn is_utf8_continuation(b: u8) -> bool {
    0x80 <= b <= 0xBF
}

/// The length of the well-formed UTF-8 sequence of one scalar value at the
/// start of `s` (the table of well-formed byte sequences of the Unicode
/// standard), or 0 where `s` starts with none: no overlong form, no surrogate,
/// nothing above U+10FFFF.
pub open spec fn utf8_scalar_len(s: Seq<u8>) -> int {
    if s.len() == 0 {
        0
    } else if s[0] <= 0x7F {
        1
    } else if 0xC2 <= s[0] <= 0xDF {
        if s.len() >= 2 && is_utf8_continuation(s[1]) { 2 } else { 0 }
    } else if 0xE0 <= s[0] <= 0xEF {
        let lo: u8 = if s[0] == 0xE0 { 0xA0 } else { 0x80 };
        let hi: u8 = if s[0] == 0xED { 0x9F } else { 0xBF };
        if s.len() >= 3 && lo <= s[1] <= hi && is_utf8_continuation(s[2]) { 3 } else { 0 }
    } else if 0xF0 <= s[0] <= 0xF4 {
        let lo: u8 = if s[0] == 0xF0 { 0x90 } else { 0x80 };
        let hi: u8 = if s[0] == 0xF4 { 0x8F } else { 0xBF };
        if s.len() >= 4 && lo <= s[1] <= hi && is_utf8_continuation(s[2]) && is_utf8_continuation(s[3]) {
            4
        } else {
            0
        }
    } else {
        0
    }
}

/// Whether `s` is well-formed UTF-8: a run of well-formed sequences of one
/// scalar value each.
#[verifier::opaque]
pub open spec fn is_utf8(s: Seq<u8>) -> bool
    decreases s.len(),
{
    if s.len() == 0 {
        true
    } else {
        let n = utf8_scalar_len(s);
        0 < n <= s.len() && is_utf8(s.subrange(n, s.len() as int))
    }
}

/// Calls `std::str::from_utf8`, whose documentation says that it returns `Ok`
/// exactly when the slice is valid UTF-8; the contract states that validity as
/// `is_utf8`.
#[verifier::external_body]
pub(crate) fn utf8_valid(s: &[u8]) -> (r: bool)
    ensures
        r == is_utf8(s@),
{
    std::str::from_utf8(s).is_ok()
}

pub proof fn lemma_be16(x: u16)
    ensures
        enc_u16(x).len() == 2,
        be16_at(enc_u16(x), 0) == x,
{
}

pub proof fn lemma_be32(x: u32)
    ensures
        enc_u32(x).len() == 4,
        be32_at(enc_u32(x), 0) == x,
{
    let a = x / 0x100_0000;
    let b = (x / 0x1_0000) % 256;
    let c = (x / 0x100) % 256;
    let d = x % 256;
    assert(a * 0x100_0000 + b * 0x1_0000 + c * 0x100 + d == x) by (nonlinear_arith)
        requires
            a == x / 0x100_0000,
            b == (x / 0x1_0000) % 256,
            c == (x / 0x100) % 256,
            d == x % 256,
            x <= 0xFFFF_FFFF,
    ;
}

pub proof fn lemma_be64(x: u64)
    ensures
        enc_u64(x).len() == 8,
        be64_at(enc_u64(x), 0) == x,
{
    let hi = (x / 0x1_0000_0000) as u32;
    let lo = (x % 0x1_0000_0000) as u32;
    lemma_be32(hi);
    lemma_be32(lo);
    let e = enc_u64(x);
    assert(e.subrange(0, 4) =~= enc_u32(hi));
    assert(e.subrange(4, 8) =~= enc_u32(lo));
    assert(be32_at(e, 0) == be32_at(enc_u32(hi), 0));
    assert(be32_at(e, 4) == be32_at(enc_u32(lo), 0));
    assert(hi * 0x1_0000_0000 + lo == x) by (nonlinear_arith)
        requires
            hi == x / 0x1_0000_0000,
            lo == x % 0x1_0000_0000,
    ;
}

/// A big-endian integer read from a sequence only depends on the bytes it covers.
pub proof fn lemma_be32_shift(s: Seq<u8>, t: Seq<u8>, p: int, q: int)
    requires
        0 <= p,
        p + 4 <= s.len(),
        0 <= q,
        q + 4 <= t.len(),
        s.subrange(p, p + 4) == t.subrange(q, q + 4),
    ensures
        be32_at(s, p) == be32_at(t, q),
{
    assert(s[p] == s.subrange(p, p + 4)[0]);
    assert(s[p + 1] == s.subrange(p, p + 4)[1]);
    assert(s[p + 2] == s.subrange(p, p + 4)[2]);
    assert(s[p + 3] == s.subrange(p, p + 4)[3]);
    assert(t[q] == t.subrange(q, q + 4)[0]);
    assert(t[q + 1] == t.subrange(q, q + 4)[1]);
    assert(t[q + 2] == t.subrange(q, q + 4)[2]);
    assert(t[q + 3] == t.subrange(q, q + 4)[3]);
}

pub proof fn lemma_be32_bound(s: Seq<u8>, p: int)
    requires
        0 <= p,
        p + 4 <= s.len(),
    ensures
        0 <= be32_at(s, p) <= 0xFFFF_FFFF,
{
}

/// Reads the big-endian `u16` at `data[p..p + 2]`.
pub fn read_u16_at(data: &[u8], p: usize) -> (r: Option<u16>)
    ensures
        match r {
            Some(x) => p + 2 <= data@.len() && x == be16_at(data@, p as int),
            None => p + 2 > data@.len(),
        },
{
    if p <= data.len() && data.len() - p >= 2 {
        let a = data[p] as u16;
        let b = data[p + 1] as u16;
        Some(a * 256 + b)
    } else {
        None
    }
}

/// Reads the big-endian `u32` at `data[p..p + 4]`.
pub fn read_u32_at(data: &[u8], p: usize) -> (r: Option<u32>)
    ensures
        match r {
            Some(x) => p + 4 <= data@.len() && x == be32_at(data@, p as int),
            None => p + 4 > data@.len(),
        },
{
    if p <= data.len() && data.len() - p >= 4 {
        let a = data[p] as u32;
        let b = data[p + 1] as u32;
        let c = data[p + 2] as u32;
        let d = data[p + 3] as u32;
        Some(a * 0x100_0000 + b * 0x1_0000 + c * 0x100 + d)
    } else {
        None
    }
}

/// Reads the big-endian `u64` at `data[p..p + 8]`.
pub fn read_u64_at(data: &[u8], p: usize) -> (r: Option<u64>)
    ensures
        match r {
            Some(x) => p + 8 <= data@.len() && x == be64_at(data@, p as int),
            None => p + 8 > data@.len(),
        },
{
    if p <= data.len() && data.len() - p >= 8 {
        let hi = read_u32_at(data, p).unwrap();
        let lo = read_u32_at(data, p + 4).unwrap();
        proof {
            lemma_be32_bound(data@, p as int);
            lemma_be32_bound(data@, p + 4);
        }
        Some(hi as u64 * 0x1_0000_0000 + lo as u64)
    } else {
        None
    }
}

/// The text of the bytes `s`, as `String::from_utf8_lossy` reads it: the
/// same text where `s` is UTF-8.
pub uninterp spec fn lossy_text(s: Seq<u8>) -> Seq<char>;

/// Calls `String::from_utf8_lossy`, whose documentation says that it gives the
/// text of `s`, with every sequence that is not UTF-8 replaced by U+FFFD. The
/// contract names the result `lossy_text` and states nothing more of it.
#[verifier::external_body]
fn text_of_bytes(s: &[u8]) -> (r: String)
    ensures
        r@ == lossy_text(s@),
{
    String::from_utf8_lossy(s).into_owned()
}

/// The UTF-8 bytes of the text `t` in lower case, as `str::to_lowercase` gives it.
pub uninterp spec fn lowercase_bytes(t: Seq<char>) -> Seq<u8>;

/// Calls `str::to_lowercase`, whose documentation says that it gives the lower
/// case of `t` as Unicode defines it. The contract names the bytes of the result
/// `lowercase_bytes`; what the lower case of a text is, is not stated here.
#[verifier::external_body]
fn lowercase_of_text(t: &String) -> (r: Vec<u8>)
    ensures
        r@ == lowercase_bytes(t@),
{
    t.to_lowercase().into_bytes()
}

/// The bytes `s` in lower case: their text (with what is not UTF-8 replaced)
/// in lower case, as UTF-8.
pub open spec fn lowercase_of(s: Seq<u8>) -> Seq<u8> {
    lowercase_bytes(lossy_text(s))
}

/// The bytes `s` in lower case.
pub(crate) fn to_lowercase(s: &[u8]) -> (r: Vec<u8>)
    ensures
        r@ == lowercase_of(s@),
{
    let t = text_of_bytes(s);
    lowercase_of_text(&t)
}

/// Whether `a` ends with `b`.
pub open spec fn ends_with(a: Seq<u8>, b: Seq<u8>) -> bool {
    b.len() <= a.len() && a.subrange(a.len() - b.len(), a.len() as int) == b
}

/// Whether `a` ends with `b`.
pub fn bytes_ends_with(a: &[u8], b: &[u8]) -> (r: bool)
    ensures
        r == ends_with(a@, b@),
{
    if b.len() > a.len() {
        return false;
    }
    let off = a.len() - b.len();
    let mut i: usize = 0;
    while i < b.len()
        invariant
            i <= b@.len(),
            off + b@.len() == a@.len(),
            a@.len() == a.len(),
            forall|j: int| 0 <= j < i ==> a@[off + j] == b@[j],
        decreases b@.len() - i,
    {
        if a[off + i] != b[i] {
            assert(a@.subrange(off as int, a@.len() as int)[i as int] != b@[i as int]);
            return false;
        }
        i = i + 1;
    }
    assert(a@.subrange(off as int, a@.len() as int) =~= b@);
    true
}

/// Whether the two byte strings are equal.
pub fn bytes_eq(a: &[u8], b: &[u8]) -> (r: bool)
    ensures
        r == (a@ == b@),
{
    if a.len() != b.len() {
        return false;
    }
    let mut i: usize = 0;
    while i < a.len()
        invariant
            i <= a@.len(),
            a@.len() == b@.len(),
            forall|j: int| 0 <= j < i ==> a@[j] == b@[j],
        decreases a@.len() - i,
    {
        if a[i] != b[i] {
            return false;
        }
        i = i + 1;
    }
    assert(a@ =~= b@);
    true
}

/// Appends the two big-endian bytes of `x`.
pub fn push_u16(out: &mut Vec<u8>, x: u16)
    ensures
        final(out)@ == old(out)@ + enc_u16(x),
{
    out.push((x / 256) as u8);
    out.push((x % 256) as u8);
    assert(final(out)@ =~= old(out)@ + enc_u16(x));
}

/// Appends the four big-endian bytes of `x`.
pub fn push_u32(out: &mut Vec<u8>, x: u32)
    ensures
        final(out)@ == old(out)@ + enc_u32(x),
{
    out.push((x / 0x100_0000) as u8);
    out.push(((x / 0x1_0000) % 256) as u8);
    out.push(((x / 0x100) % 256) as u8);
    out.push((x % 256) as u8);
    assert(final(out)@ =~= old(out)@ + enc_u32(x));
}

/// Appends the eight big-endian bytes of `x`.
pub fn push_u64(out: &mut Vec<u8>, x: u64)
    ensures
        final(out)@ == old(out)@ + enc_u64(x),
{
    push_u32(out, (x / 0x1_0000_0000) as u32);
    push_u32(out, (x % 0x1_0000_0000) as u32);
    assert(final(out)@ =~= old(out)@ + enc_u64(x));
}

/// Appends all bytes of `s`.
pub fn push_bytes(out: &mut Vec<u8>, s: &[u8])
    ensures
        final(out)@ == old(out)@ + s@,
{
    let mut i: usize = 0;
    while i < s.len()
        invariant
            i <= s@.len(),
            out@ == old(out)@ + s@.subrange(0, i as int),
        decreases s@.len() - i,
    {
        out.push(s[i]);
        i = i + 1;
        assert(out@ =~= old(out)@ + s@.subrange(0, i as int));
    }
    assert(s@.subrange(0, i as int) =~= s@);
}

/// Copies `data[p..q]` into a new vector.
pub fn copy_range(data: &[u8], p: usize, q: usize) -> (r: Vec<u8>)
    requires
        p <= q <= data@.len(),
    ensures
        r@ == data@.subrange(p as int, q as int),
{
    let mut r: Vec<u8> = Vec::new();
    let mut i: usize = p;
    while i < q
        invariant
            p <= i <= q <= data@.len(),
            r@ == data@.subrange(p as int, i as int),
        decreases q - i,
    {
        r.push(data[i]);
        i = i + 1;
        assert(r@ =~= data@.subrange(p as int, i as int));
    }
    r
}

} // verus!
