//! Little-endian fixed-width integers inside byte buffers.
use vstd::prelude::*;

verus! {

/// The unsigned 16-bit little-endian value stored at `pos` in `s`.
pub open spec fn le_u16(s: Seq<u8>, pos: int) -> u16 {
    (s[pos] as int + 256 * (s[pos + 1] as int)) as u16
}

/// The unsigned 32-bit little-endian value stored at `pos` in `s`.
pub open spec fn le_u32(s: Seq<u8>, pos: int) -> u32 {
    (s[pos] as int + 256 * (s[pos + 1] as int) + 65536 * (s[pos + 2] as int) + 16777216 * (
    s[pos + 3] as int)) as u32
}

/// The two little-endian bytes of `v`.
pub open spec fn u16_bytes(v: u16) -> Seq<u8> {
    seq![(v % 256) as u8, (v / 256) as u8]
}

/// The four little-endian bytes of `v`.
pub open spec fn u32_bytes(v: u32) -> Seq<u8> {
    seq![(v % 256) as u8, ((v / 256) % 256) as u8, ((v / 65536) % 256) as u8, (v / 16777216) as u8]
}

/// The little-endian bytes of a sequence of 16-bit units, one after the other.
pub open spec fn units_bytes(units: Seq<u16>) -> Seq<u8> {
    units.map_values(|u: u16| u16_bytes(u)).flatten()
}

/// Reading back the two bytes of a 16-bit value gives the value.
pub proof fn lemma_le_u16_of_bytes(s: Seq<u8>, pos: int, v: u16)
    requires
        0 <= pos,
        pos + 2 <= s.len(),
        s.subrange(pos, pos + 2) == u16_bytes(v),
    ensures
        le_u16(s, pos) == v,
{
    assert(s[pos] == s.subrange(pos, pos + 2)[0]);
    assert(s[pos + 1] == s.subrange(pos, pos + 2)[1]);
}

/// Reading back the four bytes of a 32-bit value gives the value.
pub proof fn lemma_le_u32_of_bytes(s: Seq<u8>, pos: int, v: u32)
    requires
        0 <= pos,
        pos + 4 <= s.len(),
        s.subrange(pos, pos + 4) == u32_bytes(v),
    ensures
        le_u32(s, pos) == v,
{
    assert(s[pos] == s.subrange(pos, pos + 4)[0]);
    assert(s[pos + 1] == s.subrange(pos, pos + 4)[1]);
    assert(s[pos + 2] == s.subrange(pos, pos + 4)[2]);
    assert(s[pos + 3] == s.subrange(pos, pos + 4)[3]);
}

/// The byte at `pos`, if `pos` is inside the buffer.
pub fn read_u8(buf: &[u8], pos: usize) -> (r: Option<u8>)
    ensures
        r is Some <==> pos < buf@.len(),
        r matches Some(v) ==> v == buf@[pos as int],
{
    if pos < buf.len() {
        Some(buf[pos])
    } else {
        None
    }
}

/// The little-endian 16-bit value at `pos`, if its two bytes are inside the buffer.
pub fn read_u16(buf: &[u8], pos: usize) -> (r: Option<u16>)
    ensures
        r is Some <==> pos + 2 <= buf@.len(),
        r matches Some(v) ==> v == le_u16(buf@, pos as int),
{
    if pos < buf.len() && buf.len() - pos >= 2 {
        let lo: u16 = buf[pos] as u16;
        let hi: u16 = buf[pos + 1] as u16;
        Some(lo + 256 * hi)
    } else {
        None
    }
}

/// The little-endian 32-bit value at `pos`, if its four bytes are inside the buffer.
pub fn read_u32(buf: &[u8], pos: usize) -> (r: Option<u32>)
    ensures
        r is Some <==> pos + 4 <= buf@.len(),
        r matches Some(v) ==> v == le_u32(buf@, pos as int),
{
    if pos < buf.len() && buf.len() - pos >= 4 {
        let b0: u32 = buf[pos] as u32;
        let b1: u32 = buf[pos + 1] as u32;
        let b2: u32 = buf[pos + 2] as u32;
        let b3: u32 = buf[pos + 3] as u32;
        Some(b0 + 256 * b1 + 65536 * b2 + 16777216 * b3)
    } else {
        None
    }
}

/// Appends the little-endian bytes of a 16-bit value.
pub fn push_u16(out: &mut Vec<u8>, v: u16)
    ensures
        final(out)@ == old(out)@ + u16_bytes(v),
{
    out.push((v % 256) as u8);
    out.push((v / 256) as u8);
}

/// Appends the little-endian bytes of a 32-bit value.
pub fn push_u32(out: &mut Vec<u8>, v: u32)
    ensures
        final(out)@ == old(out)@ + u32_bytes(v),
{
    out.push((v % 256) as u8);
    out.push(((v / 256) % 256) as u8);
    out.push(((v / 65536) % 256) as u8);
    out.push((v / 16777216) as u8);
}

} // verus!
