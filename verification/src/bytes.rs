//! Little-endian integers and fixed-width byte fields inside a buffer.

use vstd::prelude::*;

verus! {

/// The 16-bit value that two bytes starting at `at` hold, low byte first.
pub open spec fn le_u16(s: Seq<u8>, at: int) -> u16 {
    (s[at] as int + 256 * (s[at + 1] as int)) as u16
}

/// The 32-bit value that four bytes starting at `at` hold, low byte first.
pub open spec fn le_u32(s: Seq<u8>, at: int) -> u32 {
    (s[at] as int + 256 * (s[at + 1] as int) + 65536 * (s[at + 2] as int) + 16777216 * (s[at
        + 3] as int)) as u32
}

/// The 64-bit value that eight bytes starting at `at` hold, low byte first.
pub open spec fn le_u64(s: Seq<u8>, at: int) -> u64 {
    (le_u32(s, at) as int + 4294967296 * (le_u32(s, at + 4) as int)) as u64
}

/// The two bytes of `v`, low byte first.
pub open spec fn u16_le(v: u16) -> Seq<u8> {
    seq![(v % 256) as u8, (v / 256) as u8]
}

/// The four bytes of `v`, low byte first.
pub open spec fn u32_le(v: u32) -> Seq<u8> {
    seq![
        (v % 256) as u8,
        (v / 256 % 256) as u8,
        (v / 65536 % 256) as u8,
        (v / 16777216) as u8,
    ]
}

/// The eight bytes of `v`, low byte first.
pub open spec fn u64_le(v: u64) -> Seq<u8> {
    u32_le((v % 4294967296) as u32) + u32_le((v / 4294967296) as u32)
}

/// Reading back what `u16_le` wrote gives the value again.
pub proof fn lemma_u16_round_trip(v: u16)
    ensures
        u16_le(v).len() == 2,
        le_u16(u16_le(v), 0) == v,
{
}

/// Reading back what `u32_le` wrote gives the value again.
pub proof fn lemma_u32_round_trip(v: u32)
    ensures
        u32_le(v).len() == 4,
        le_u32(u32_le(v), 0) == v,
{
}

/// Reading back what `u64_le` wrote gives the value again.
pub proof fn lemma_u64_round_trip(v: u64)
    ensures
        u64_le(v).len() == 8,
        le_u64(u64_le(v), 0) == v,
{
    let lo = (v % 4294967296) as u32;
    let hi = (v / 4294967296) as u32;
    lemma_u32_round_trip(lo);
    lemma_u32_round_trip(hi);
    let s = u64_le(v);
    assert(s[0] == u32_le(lo)[0] && s[1] == u32_le(lo)[1] && s[2] == u32_le(lo)[2] && s[3]
        == u32_le(lo)[3]);
    assert(s[4] == u32_le(hi)[0] && s[5] == u32_le(hi)[1] && s[6] == u32_le(hi)[2] && s[7]
        == u32_le(hi)[3]);
}

/// Copies the `N` bytes that start at `start`.
pub fn read_array<const N: usize>(bytes: &[u8], start: usize) -> (r: [u8; N])
    requires
        start + N <= bytes@.len(),
    ensures
        r@ == bytes@.subrange(start as int, start + N),
{
    let total: usize = bytes.len();
    let mut out = [0u8; N];
    let mut i: usize = 0;
    while i < N
        invariant
            i <= N,
            start + N <= bytes@.len(),
            bytes@.len() == total,
            out@.len() == N,
            forall|k: int| 0 <= k < i ==> out@[k] == bytes@[start + k],
        decreases N - i,
    {
        out[i] = bytes[start + i];
        i += 1;
    }
    assert(out@ =~= bytes@.subrange(start as int, start + N));
    out
}

/// Copies the bytes from `start` up to `end` into a vector.
pub fn read_vec(bytes: &[u8], start: usize, end: usize) -> (r: Vec<u8>)
    requires
        start <= end <= bytes@.len(),
    ensures
        r@ == bytes@.subrange(start as int, end as int),
{
    let mut out: Vec<u8> = Vec::new();
    let mut i: usize = start;
    while i < end
        invariant
            start <= i <= end <= bytes@.len(),
            out@ == bytes@.subrange(start as int, i as int),
        decreases end - i,
    {
        out.push(bytes[i]);
        i += 1;
        assert(out@ =~= bytes@.subrange(start as int, i as int));
    }
    out
}

/// Whether two byte strings are the same.
pub fn bytes_equal(a: &[u8], b: &[u8]) -> (r: bool)
    ensures
        r == (a@ == b@),
{
    if a.len() != b.len() {
        return false;
    }
    let mut i: usize = 0;
    while i < a.len()
        invariant
            i <= a@.len(),
            a@.len() == b@.len(),
            forall|k: int| 0 <= k < i ==> a@[k] == b@[k],
        decreases a@.len() - i,
    {
        if a[i] != b[i] {
            return false;
        }
        i += 1;
    }
    assert(a@ =~= b@);
    true
}

/// Reads a little-endian `u16` at `at`.
pub fn read_u16(bytes: &[u8], at: usize) -> (r: u16)
    requires
        at + 2 <= bytes@.len(),
    ensures
        r == le_u16(bytes@, at as int),
{
    bytes[at] as u16 + 256 * (bytes[at + 1] as u16)
}

/// Reads a little-endian `u32` at `at`.
pub fn read_u32(bytes: &[u8], at: usize) -> (r: u32)
    requires
        at + 4 <= bytes@.len(),
    ensures
        r == le_u32(bytes@, at as int),
{
    bytes[at] as u32 + 256 * (bytes[at + 1] as u32) + 65536 * (bytes[at + 2] as u32) + 16777216
        * (bytes[at + 3] as u32)
}

/// Reads a little-endian `u64` at `at`.
pub fn read_u64(bytes: &[u8], at: usize) -> (r: u64)
    requires
        at + 8 <= bytes@.len(),
    ensures
        r == le_u64(bytes@, at as int),
{
    let total: usize = bytes.len();
    let lo: u32 = read_u32(bytes, at);
    let hi: u32 = read_u32(bytes, at + 4);
    lo as u64 + 4294967296 * (hi as u64)
}

/// Appends the two bytes of `v`, low byte first.
pub fn push_u16(out: &mut Vec<u8>, v: u16)
    ensures
        final(out)@ == old(out)@ + u16_le(v),
{
    out.push((v % 256) as u8);
    out.push((v / 256) as u8);
    assert(out@ =~= old(out)@ + u16_le(v));
}

/// Appends the four bytes of `v`, low byte first.
pub fn push_u32(out: &mut Vec<u8>, v: u32)
    ensures
        final(out)@ == old(out)@ + u32_le(v),
{
    out.push((v % 256) as u8);
    out.push((v / 256 % 256) as u8);
    out.push((v / 65536 % 256) as u8);
    out.push((v / 16777216) as u8);
    assert(out@ =~= old(out)@ + u32_le(v));
}

/// Appends the eight bytes of `v`, low byte first.
pub fn push_u64(out: &mut Vec<u8>, v: u64)
    ensures
        final(out)@ == old(out)@ + u64_le(v),
{
    let ghost before = out@;
    push_u32(out, (v % 4294967296) as u32);
    push_u32(out, (v / 4294967296) as u32);
    assert(out@ =~= before + u64_le(v));
}

/// Appends every byte of `src`.
pub fn push_bytes(out: &mut Vec<u8>, src: &[u8])
    ensures
        final(out)@ == old(out)@ + src@,
{
    let mut i: usize = 0;
    while i < src.len()
        invariant
            i <= src@.len(),
            out@ == old(out)@ + src@.subrange(0, i as int),
        decreases src@.len() - i,
    {
        out.push(src[i]);
        i += 1;
        assert(out@ =~= old(out)@ + src@.subrange(0, i as int));
    }
    assert(src@.subrange(0, src@.len() as int) =~= src@);
}

} // verus!
