//! Big-endian and little-endian integers in byte sequences.
use vstd::prelude::*;
use vstd::utf8::{decode_utf8, valid_utf8};

verus! {

/// The big-endian 16-bit value of the two bytes at `p`.
pub open spec fn be16_at(b: Seq<u8>, p: int) -> u16 {
    (b[p] as int * 256 + b[p + 1] as int) as u16
}

/// The big-endian 32-bit value of the four bytes at `p`.
pub open spec fn be32_at(b: Seq<u8>, p: int) -> u32 {
    (be16_at(b, p) as int * 0x10000 + be16_at(b, p + 2) as int) as u32
}

/// The big-endian 64-bit value of the eight bytes at `p`.
pub open spec fn be64_at(b: Seq<u8>, p: int) -> u64 {
    (be32_at(b, p) as int * 0x1_0000_0000 + be32_at(b, p + 4) as int) as u64
}

/// The little-endian 16-bit value of the two bytes at `p`.
pub open spec fn le16_at(b: Seq<u8>, p: int) -> u16 {
    (b[p] as int + b[p + 1] as int * 256) as u16
}

/// The two bytes of `v`, most significant first.
pub open spec fn be16_bytes(v: u16) -> Seq<u8> {
    seq![(v / 256) as u8, (v % 256) as u8]
}

/// The four bytes of `v`, most significant first.
pub open spec fn be32_bytes(v: u32) -> Seq<u8> {
    be16_bytes((v / 0x10000) as u16) + be16_bytes((v % 0x10000) as u16)
}

/// The two bytes of `v`, least significant first.
pub open spec fn le16_bytes(v: u16) -> Seq<u8> {
    seq![(v % 256) as u8, (v / 256) as u8]
}

pub proof fn lemma_be16_round_trip(v: u16, pre: Seq<u8>, post: Seq<u8>)
    ensures
        be16_at(pre + be16_bytes(v) + post, pre.len() as int) == v,
{
    let b = pre + be16_bytes(v) + post;
    assert(b[pre.len() as int] == (v / 256) as u8);
    assert(b[pre.len() as int + 1] == (v % 256) as u8);
}

pub proof fn lemma_be32_round_trip(v: u32, pre: Seq<u8>, post: Seq<u8>)
    ensures
        be32_at(pre + be32_bytes(v) + post, pre.len() as int) == v,
{
    let hi = be16_bytes((v / 0x10000) as u16);
    let lo = be16_bytes((v % 0x10000) as u16);
    assert(pre + be32_bytes(v) + post =~= pre + hi + (lo + post));
    assert(pre + be32_bytes(v) + post =~= (pre + hi) + lo + post);
    lemma_be16_round_trip((v / 0x10000) as u16, pre, lo + post);
    lemma_be16_round_trip((v % 0x10000) as u16, pre + hi, post);
}

pub proof fn lemma_le16_round_trip(v: u16, pre: Seq<u8>, post: Seq<u8>)
    ensures
        le16_at(pre + le16_bytes(v) + post, pre.len() as int) == v,
{
    let b = pre + le16_bytes(v) + post;
    assert(b[pre.len() as int] == (v % 256) as u8);
    assert(b[pre.len() as int + 1] == (v / 256) as u8);
}

pub proof fn lemma_be16_bytes_of(p: Seq<u8>, at: int)
    requires
        0 <= at,
        at + 2 <= p.len(),
    ensures
        be16_bytes(be16_at(p, at)) == p.subrange(at, at + 2),
{
    let a = p[at];
    let b = p[at + 1];
    let v = be16_at(p, at);
    assert(v == a as int * 256 + b as int);
    assert(v / 256 == a as int && v % 256 == b as int) by (nonlinear_arith)
        requires
            v == a as int * 256 + b as int,
            0 <= a < 256,
            0 <= b < 256,
    ;
    assert(be16_bytes(v) =~= p.subrange(at, at + 2));
}

pub proof fn lemma_be32_bytes_of(p: Seq<u8>)
    requires
        p.len() == 4,
    ensures
        be32_bytes(be32_at(p, 0)) == p,
{
    let hi = be16_at(p, 0);
    let lo = be16_at(p, 2);
    let v = be32_at(p, 0);
    assert(v == hi as int * 0x10000 + lo as int);
    assert(v / 0x10000 == hi as int && v % 0x10000 == lo as int) by (nonlinear_arith)
        requires
            v == hi as int * 0x10000 + lo as int,
            0 <= hi < 0x10000,
            0 <= lo < 0x10000,
    ;
    lemma_be16_bytes_of(p, 0);
    lemma_be16_bytes_of(p, 2);
    assert(be32_bytes(v) =~= p);
}

/// Reads a big-endian `u16` from a slice of exactly two bytes.
pub fn u16_from_bytes(bytes: &[u8]) -> (r: u16)
    requires
        bytes@.len() == 2,
    ensures
        r == be16_at(bytes@, 0),
{
    (bytes[0] as u16) * 256 + bytes[1] as u16
}

/// Reads a big-endian `u32` from a slice of exactly four bytes.
pub fn u32_from_bytes(bytes: &[u8]) -> (r: u32)
    requires
        bytes@.len() == 4,
    ensures
        r == be32_at(bytes@, 0),
{
    let hi = (bytes[0] as u32) * 256 + bytes[1] as u32;
    let lo = (bytes[2] as u32) * 256 + bytes[3] as u32;
    hi * 0x10000 + lo
}

/// Reads the big-endian `u16` at `p`.
pub fn read_u16_be(b: &[u8], p: usize) -> (r: u16)
    requires
        p + 2 <= b.len(),
    ensures
        r == be16_at(b@, p as int),
{
    (b[p] as u16) * 256 + b[p + 1] as u16
}

/// Reads the big-endian `u32` at `p`.
pub fn read_u32_be(b: &[u8], p: usize) -> (r: u32)
    requires
        p + 4 <= b.len(),
    ensures
        r == be32_at(b@, p as int),
{
    (read_u16_be(b, p) as u32) * 0x10000 + read_u16_be(b, p + 2) as u32
}

/// Reads the big-endian `u64` at `p`.
pub fn read_u64_be(b: &[u8], p: usize) -> (r: u64)
    requires
        p + 8 <= b.len(),
    ensures
        r == be64_at(b@, p as int),
{
    (read_u32_be(b, p) as u64) * 0x1_0000_0000 + read_u32_be(b, p + 4) as u64
}

/// Reads the little-endian `u16` at `p`.
pub fn read_u16_le(b: &[u8], p: usize) -> (r: u16)
    requires
        p + 2 <= b.len(),
    ensures
        r == le16_at(b@, p as int),
{
    b[p] as u16 + (b[p + 1] as u16) * 256
}

/// Appends the big-endian bytes of `v`.
pub fn push_u16_be(out: &mut Vec<u8>, v: u16)
    ensures
        final(out)@ == old(out)@ + be16_bytes(v),
{
    out.push((v / 256) as u8);
    out.push((v % 256) as u8);
    assert(final(out)@ =~= old(out)@ + be16_bytes(v));
}

/// Appends the big-endian bytes of `v`.
pub fn push_u32_be(out: &mut Vec<u8>, v: u32)
    ensures
        final(out)@ == old(out)@ + be32_bytes(v),
{
    push_u16_be(out, (v / 0x10000) as u16);
    push_u16_be(out, (v % 0x10000) as u16);
    assert(final(out)@ =~= old(out)@ + be32_bytes(v));
}

/// Appends the little-endian bytes of `v`.
pub fn push_u16_le(out: &mut Vec<u8>, v: u16)
    ensures
        final(out)@ == old(out)@ + le16_bytes(v),
{
    out.push((v % 256) as u8);
    out.push((v / 256) as u8);
    assert(final(out)@ =~= old(out)@ + le16_bytes(v));
}

/// What `String::from_utf8_lossy` makes of `b`: the decoded text, with a
/// replacement character in place of each ill-formed sequence.
pub uninterp spec fn utf8_lossy(b: Seq<u8>) -> Seq<char>;

/// Relies on `String::from_utf8_lossy`: the text depends on the bytes alone,
/// and well-formed UTF-8 comes back decoded as it is.
#[verifier::external_body]
pub(crate) fn lossy_text(b: &[u8]) -> (r: String)
    ensures
        r@ == utf8_lossy(b@),
        valid_utf8(b@) ==> r@ == decode_utf8(b@),
{
    String::from_utf8_lossy(b).into_owned()
}

} // verus!
