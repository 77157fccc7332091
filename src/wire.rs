use vstd::prelude::*;

verus! {

/// The big-endian 16-bit value of the first two bytes of `s`.
pub open spec fn be16(s: Seq<u8>) -> u16
    recommends
        s.len() >= 2,
{
    (s[0] as int * 256 + s[1] as int) as u16
}

/// The big-endian 32-bit value of the first four bytes of `s`.
pub open spec fn be32(s: Seq<u8>) -> u32
    recommends
        s.len() >= 4,
{
    (s[0] as int * 0x100_0000 + s[1] as int * 0x1_0000 + s[2] as int * 0x100 + s[3] as int) as u32
}

/// The two big-endian bytes of `v`.
pub open spec fn be16_bytes(v: u16) -> Seq<u8> {
    seq![(v / 0x100) as u8, (v % 0x100) as u8]
}

/// The four big-endian bytes of `v`.
pub open spec fn be32_bytes(v: u32) -> Seq<u8> {
    seq![
        (v / 0x100_0000) as u8,
        (v / 0x1_0000 % 0x100) as u8,
        (v / 0x100 % 0x100) as u8,
        (v % 0x100) as u8,
    ]
}

/// `n` zero bytes.
pub open spec fn zeros(n: nat) -> Seq<u8> {
    Seq::new(n, |_i: int| 0u8)
}

/// Number of padding bytes that follow an attribute value of `len` bytes so
/// that the next attribute starts on a 4-byte boundary.
pub open spec fn padding_len(len: u16) -> nat {
    ((4 - len % 4) % 4) as nat
}

/// The class bits of a message type, gathered from bits 4 and 8.
pub open spec fn class_of_type(t: u16) -> u16 {
    ((t & 0x0010) >> 4u16) | ((t & 0x0100) >> 7u16)
}

/// The method bits of a message type, gathered from bits 0-3, 5-7 and 9-13.
pub open spec fn method_of_type(t: u16) -> u16 {
    (t & 0x000F) | ((t & 0x00E0) >> 1u16) | ((t & 0x3E00) >> 2u16)
}

/// The message type bits that carry class value `c`.
pub open spec fn class_field(c: u16) -> u16 {
    ((c & 0x0001) << 4u16) | ((c & 0x0002) << 7u16)
}

/// The message type bits that carry method value `m`.
pub open spec fn method_field(m: u16) -> u16 {
    (m & 0x000F) | ((m & 0x0070) << 1u16) | ((m & 0x0F80) << 2u16)
}

/// Reading two big-endian bytes gives back the value they were written from.
pub proof fn lemma_be16_round_trip(v: u16, rest: Seq<u8>)
    ensures
        be16(be16_bytes(v) + rest) == v,
{
    let s = be16_bytes(v) + rest;
    assert(s[0] == (v / 0x100) as u8);
    assert(s[1] == (v % 0x100) as u8);
}

/// Reading four big-endian bytes gives back the value they were written from.
pub proof fn lemma_be32_round_trip(v: u32, rest: Seq<u8>)
    ensures
        be32(be32_bytes(v) + rest) == v,
{
    let s = be32_bytes(v) + rest;
    assert(s[0] == (v / 0x100_0000) as u8);
    assert(s[1] == (v / 0x1_0000 % 0x100) as u8);
    assert(s[2] == (v / 0x100 % 0x100) as u8);
    assert(s[3] == (v % 0x100) as u8);
}

/// A message type built from a class value and a method value has its two
/// leading bits clear and gives back both values.
pub proof fn lemma_type_field_round_trip(c: u16, m: u16)
    requires
        c <= 0b11,
        m <= 0x0FFF,
    ensures
        (class_field(c) | method_field(m)) & 0xC000 == 0,
        class_of_type(class_field(c) | method_field(m)) == c,
        method_of_type(class_field(c) | method_field(m)) == m,
{
    assert((((c & 0x0001) << 4u16) | ((c & 0x0002) << 7u16) | ((m & 0x000F) | ((m & 0x0070)
        << 1u16) | ((m & 0x0F80) << 2u16))) & 0xC000 == 0) by (bit_vector)
        requires
            c <= 0b11,
            m <= 0x0FFF,
    ;
    assert({
        let t = ((c & 0x0001) << 4u16) | ((c & 0x0002) << 7u16) | ((m & 0x000F) | ((m & 0x0070)
            << 1u16) | ((m & 0x0F80) << 2u16));
        ((t & 0x0010) >> 4u16) | ((t & 0x0100) >> 7u16) == c
    }) by (bit_vector)
        requires
            c <= 0b11,
            m <= 0x0FFF,
    ;
    assert({
        let t = ((c & 0x0001) << 4u16) | ((c & 0x0002) << 7u16) | ((m & 0x000F) | ((m & 0x0070)
            << 1u16) | ((m & 0x0F80) << 2u16));
        (t & 0x000F) | ((t & 0x00E0) >> 1u16) | ((t & 0x3E00) >> 2u16) == m
    }) by (bit_vector)
        requires
            c <= 0b11,
            m <= 0x0FFF,
    ;
}

/// Appends the two big-endian bytes of `v`.
pub fn push_be16(out: &mut Vec<u8>, v: u16)
    ensures
        final(out)@ == old(out)@ + be16_bytes(v),
{
    out.push((v / 0x100) as u8);
    out.push((v % 0x100) as u8);
    assert(out@ =~= old(out)@ + be16_bytes(v));
}

/// Appends the four big-endian bytes of `v`.
pub fn push_be32(out: &mut Vec<u8>, v: u32)
    ensures
        final(out)@ == old(out)@ + be32_bytes(v),
{
    out.push((v / 0x100_0000) as u8);
    out.push((v / 0x1_0000 % 0x100) as u8);
    out.push((v / 0x100 % 0x100) as u8);
    out.push((v % 0x100) as u8);
    assert(out@ =~= old(out)@ + be32_bytes(v));
}

/// Appends the bytes of `bytes`.
pub fn push_bytes(out: &mut Vec<u8>, bytes: &[u8])
    ensures
        final(out)@ == old(out)@ + bytes@,
{
    let ghost start = out@;
    let mut i: usize = 0;
    while i < bytes.len()
        invariant
            i <= bytes@.len(),
            out@ == start + bytes@.take(i as int),
        decreases bytes@.len() - i,
    {
        out.push(bytes[i]);
        i = i + 1;
        assert(out@ =~= start + bytes@.take(i as int));
    }
    assert(bytes@.take(i as int) =~= bytes@);
}

/// Appends `n` zero bytes.
pub fn push_zeros(out: &mut Vec<u8>, n: usize)
    ensures
        final(out)@ == old(out)@ + zeros(n as nat),
{
    let ghost start = out@;
    let mut i: usize = 0;
    while i < n
        invariant
            i <= n,
            out@ == start + zeros(i as nat),
        decreases n - i,
    {
        out.push(0u8);
        i = i + 1;
        assert(out@ =~= start + zeros(i as nat));
    }
}

} // verus!
