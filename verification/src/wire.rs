//! Little-endian integers on the wire: what a run of bytes means as a number,
//! and the bytes that a number is written as.

use vstd::prelude::*;

verus! {

/// The 16-bit value whose little-endian bytes stand at `at` and `at + 1`.
pub open spec fn le_u16(s: Seq<u8>, at: int) -> u16 {
    (s[at] as int + 256 * (s[at + 1] as int)) as u16
}

/// The 32-bit value whose little-endian bytes stand at `at .. at + 4`.
pub open spec fn le_u32(s: Seq<u8>, at: int) -> u32 {
    (s[at] as int + 256 * (s[at + 1] as int) + 65536 * (s[at + 2] as int) + 16777216 * (s[at
        + 3] as int)) as u32
}

/// The 64-bit value whose little-endian bytes stand at `at .. at + 8`.
pub open spec fn le_u64(s: Seq<u8>, at: int) -> u64 {
    (le_u32(s, at) as int + 4294967296 * (le_u32(s, at + 4) as int)) as u64
}

/// The two bytes of `v`, least significant first.
#[verifier::opaque]
pub open spec fn u16_bytes(v: u16) -> Seq<u8> {
    seq![(v % 256) as u8, (v / 256) as u8]
}

/// The four bytes of `v`, least significant first.
#[verifier::opaque]
pub open spec fn u32_bytes(v: u32) -> Seq<u8> {
    seq![
        (v % 256) as u8,
        ((v / 256) % 256) as u8,
        ((v / 65536) % 256) as u8,
        (v / 16777216) as u8,
    ]
}

/// The eight bytes of `v`, least significant first.
#[verifier::opaque]
pub open spec fn u64_bytes(v: u64) -> Seq<u8> {
    u32_bytes((v % 4294967296) as u32) + u32_bytes((v / 4294967296) as u32)
}

/// The signed reading of a 32-bit pattern (two's complement).
pub open spec fn i32_of_bits(bits: u32) -> i32 {
    if bits < 2147483648 {
        bits as i32
    } else {
        (bits as int - 4294967296) as i32
    }
}

/// The 32-bit pattern of a signed value (two's complement).
pub open spec fn bits_of_i32(v: i32) -> u32 {
    if v >= 0 {
        v as u32
    } else {
        (v as int + 4294967296) as u32
    }
}

/// Reads the 16-bit little-endian value at `at`.
pub fn read_u16(b: &[u8], at: usize) -> (v: u16)
    requires
        at + 2 <= b.len(),
    ensures
        v == le_u16(b@, at as int),
{
    let lo: u16 = b[at] as u16;
    let hi: u16 = b[at + 1] as u16;
    lo + 256 * hi
}

/// Reads the 32-bit little-endian value at `at`.
pub fn read_u32(b: &[u8], at: usize) -> (v: u32)
    requires
        at + 4 <= b.len(),
    ensures
        v == le_u32(b@, at as int),
{
    let b0: u32 = b[at] as u32;
    let b1: u32 = b[at + 1] as u32;
    let b2: u32 = b[at + 2] as u32;
    let b3: u32 = b[at + 3] as u32;
    b0 + 256 * b1 + 65536 * b2 + 16777216 * b3
}

/// Reads the 64-bit little-endian value at `at`.
pub fn read_u64(b: &[u8], at: usize) -> (v: u64)
    requires
        at + 8 <= b.len(),
    ensures
        v == le_u64(b@, at as int),
{
    let lo: u64 = read_u32(b, at) as u64;
    let hi: u64 = read_u32(b, at + 4) as u64;
    lo + 4294967296 * hi
}

/// Reads the signed 32-bit little-endian value at `at`.
pub fn read_i32(b: &[u8], at: usize) -> (v: i32)
    requires
        at + 4 <= b.len(),
    ensures
        v == i32_of_bits(le_u32(b@, at as int)),
{
    let bits: u32 = read_u32(b, at);
    if bits < 2147483648 {
        bits as i32
    } else {
        let low: i32 = (bits - 2147483648) as i32;
        low - 2147483647 - 1
    }
}

/// Appends the two little-endian bytes of `v`.
pub fn push_u16(out: &mut Vec<u8>, v: u16)
    ensures
        final(out)@ == old(out)@ + u16_bytes(v),
{
    proof {
        reveal(u16_bytes);
    }
    out.push((v % 256) as u8);
    out.push((v / 256) as u8);
    assert(out@ =~= old(out)@ + u16_bytes(v));
}

/// Appends the four little-endian bytes of `v`.
pub fn push_u32(out: &mut Vec<u8>, v: u32)
    ensures
        final(out)@ == old(out)@ + u32_bytes(v),
{
    proof {
        reveal(u32_bytes);
    }
    out.push((v % 256) as u8);
    out.push(((v / 256) % 256) as u8);
    out.push(((v / 65536) % 256) as u8);
    out.push((v / 16777216) as u8);
    assert(out@ =~= old(out)@ + u32_bytes(v));
}

/// Appends the eight little-endian bytes of `v`.
pub fn push_u64(out: &mut Vec<u8>, v: u64)
    ensures
        final(out)@ == old(out)@ + u64_bytes(v),
{
    proof {
        reveal(u64_bytes);
    }
    push_u32(out, (v % 4294967296) as u32);
    push_u32(out, (v / 4294967296) as u32);
    assert(out@ =~= old(out)@ + u64_bytes(v));
}

/// Appends the four little-endian bytes of the pattern of `v`.
pub fn push_i32(out: &mut Vec<u8>, v: i32)
    ensures
        final(out)@ == old(out)@ + u32_bytes(bits_of_i32(v)),
{
    let bits: u32 = if v >= 0 {
        v as u32
    } else {
        let up: i32 = v + 2147483647 + 1;
        up as u32 + 2147483648
    };
    push_u32(out, bits);
}

/// Writing a 16-bit value and reading it back gives the value.
pub proof fn lemma_u16_written_then_read(a: Seq<u8>, v: u16)
    ensures
        u16_bytes(v).len() == 2,
        le_u16(a + u16_bytes(v), a.len() as int) == v,
{
    reveal(u16_bytes);
}

/// Writing a 32-bit value and reading it back gives the value.
pub proof fn lemma_u32_written_then_read(a: Seq<u8>, v: u32)
    ensures
        u32_bytes(v).len() == 4,
        le_u32(a + u32_bytes(v), a.len() as int) == v,
{
    reveal(u32_bytes);
}

/// Writing a 64-bit value and reading it back gives the value.
pub proof fn lemma_u64_written_then_read(a: Seq<u8>, v: u64)
    ensures
        u64_bytes(v).len() == 8,
        le_u64(a + u64_bytes(v), a.len() as int) == v,
{
    reveal(u64_bytes);
    let lo = (v % 4294967296) as u32;
    let hi = (v / 4294967296) as u32;
    let s = a + u64_bytes(v);
    lemma_u32_written_then_read(a, lo);
    lemma_u32_written_then_read(a + u32_bytes(lo), hi);
    assert(s =~= (a + u32_bytes(lo)) + u32_bytes(hi));
    lemma_u32_kept_by_append(a + u32_bytes(lo), u32_bytes(hi), a.len() as int);
}

/// A signed value is the signed reading of its own pattern.
pub proof fn lemma_i32_pattern(v: i32)
    ensures
        i32_of_bits(bits_of_i32(v)) == v,
{
}

/// What is appended to a sequence leaves a 16-bit value inside it unchanged.
pub proof fn lemma_u16_kept_by_append(a: Seq<u8>, b: Seq<u8>, at: int)
    requires
        0 <= at,
        at + 2 <= a.len(),
    ensures
        le_u16(a + b, at) == le_u16(a, at),
{
}

/// What is appended to a sequence leaves a 32-bit value inside it unchanged.
pub proof fn lemma_u32_kept_by_append(a: Seq<u8>, b: Seq<u8>, at: int)
    requires
        0 <= at,
        at + 4 <= a.len(),
    ensures
        le_u32(a + b, at) == le_u32(a, at),
{
}

/// What is appended to a sequence leaves a 64-bit value inside it unchanged.
pub proof fn lemma_u64_kept_by_append(a: Seq<u8>, b: Seq<u8>, at: int)
    requires
        0 <= at,
        at + 8 <= a.len(),
    ensures
        le_u64(a + b, at) == le_u64(a, at),
{
}

/// A 16-bit value that stands behind a prefix is read at its place plus the
/// length of the prefix.
pub proof fn lemma_u16_past_prefix(a: Seq<u8>, b: Seq<u8>, at: int)
    requires
        0 <= at,
        at + 2 <= b.len(),
    ensures
        le_u16(a + b, a.len() + at) == le_u16(b, at),
{
}

/// A 32-bit value that stands behind a prefix is read at its place plus the
/// length of the prefix.
pub proof fn lemma_u32_past_prefix(a: Seq<u8>, b: Seq<u8>, at: int)
    requires
        0 <= at,
        at + 4 <= b.len(),
    ensures
        le_u32(a + b, a.len() + at) == le_u32(b, at),
{
}

/// `s` begins with the whole of `p`.
#[verifier::opaque]
pub open spec fn begins_with(s: Seq<u8>, p: Seq<u8>) -> bool {
    p.len() <= s.len() && s.subrange(0, p.len() as int) == p
}

/// A sequence begins with itself, whatever follows it.
pub proof fn lemma_begins_with_itself(p: Seq<u8>, tail: Seq<u8>)
    ensures
        begins_with(p + tail, p),
{
    reveal(begins_with);
    assert((p + tail).subrange(0, p.len() as int) =~= p);
}

/// Where a sequence begins with `p` followed by the bytes of a 16-bit value,
/// it begins with `p`, and the value is read right after `p`.
pub proof fn lemma_u16_closes_prefix(p: Seq<u8>, v: u16, s: Seq<u8>)
    requires
        begins_with(s, p + u16_bytes(v)),
    ensures
        begins_with(s, p),
        (p + u16_bytes(v)).len() == p.len() + 2,
        p.len() + 2 <= s.len(),
        le_u16(s, p.len() as int) == v,
{
    reveal(begins_with);
    let q = p + u16_bytes(v);
    lemma_u16_written_then_read(p, v);
    assert(s =~= q + s.skip(q.len() as int));
    lemma_u16_kept_by_append(q, s.skip(q.len() as int), p.len() as int);
    assert(p =~= s.subrange(0, p.len() as int));
}

/// Where a sequence begins with `p` followed by the bytes of a 32-bit value,
/// it begins with `p`, and the value is read right after `p`.
pub proof fn lemma_u32_closes_prefix(p: Seq<u8>, v: u32, s: Seq<u8>)
    requires
        begins_with(s, p + u32_bytes(v)),
    ensures
        begins_with(s, p),
        (p + u32_bytes(v)).len() == p.len() + 4,
        p.len() + 4 <= s.len(),
        le_u32(s, p.len() as int) == v,
{
    reveal(begins_with);
    let q = p + u32_bytes(v);
    lemma_u32_written_then_read(p, v);
    assert(s =~= q + s.skip(q.len() as int));
    lemma_u32_kept_by_append(q, s.skip(q.len() as int), p.len() as int);
    assert(p =~= s.subrange(0, p.len() as int));
}

/// Where a sequence begins with `p` followed by the bytes of a 64-bit value,
/// it begins with `p`, and the value is read right after `p`.
pub proof fn lemma_u64_closes_prefix(p: Seq<u8>, v: u64, s: Seq<u8>)
    requires
        begins_with(s, p + u64_bytes(v)),
    ensures
        begins_with(s, p),
        (p + u64_bytes(v)).len() == p.len() + 8,
        p.len() + 8 <= s.len(),
        le_u64(s, p.len() as int) == v,
{
    reveal(begins_with);
    let q = p + u64_bytes(v);
    lemma_u64_written_then_read(p, v);
    assert(s =~= q + s.skip(q.len() as int));
    lemma_u64_kept_by_append(q, s.skip(q.len() as int), p.len() as int);
    assert(p =~= s.subrange(0, p.len() as int));
}

} // verus!
