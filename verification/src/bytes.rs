//! Little-endian integer encoding and byte-vector helpers.
use vstd::prelude::*;

verus! {

/// The two little-endian bytes of `x`.
pub open spec fn le16(x: nat) -> Seq<u8> {
    seq![(x % 256) as u8, ((x / 256) % 256) as u8]
}

/// The four little-endian bytes of `x`.
pub open spec fn le32(x: nat) -> Seq<u8> {
    seq![
        (x % 256) as u8,
        ((x / 256) % 256) as u8,
        ((x / 65536) % 256) as u8,
        ((x / 16777216) % 256) as u8,
    ]
}

/// The number that two little-endian bytes encode.
pub open spec fn read_le16(b: Seq<u8>) -> nat {
    b[0] as nat + 256 * (b[1] as nat)
}

/// The number that four little-endian bytes encode.
pub open spec fn read_le32(b: Seq<u8>) -> nat {
    b[0] as nat + 256 * (b[1] as nat) + 65536 * (b[2] as nat) + 16777216 * (b[3] as nat)
}

/// Reading back a little-endian encoding gives the encoded number.
pub proof fn lemma_le16_roundtrip(x: u16)
    ensures
        read_le16(le16(x as nat)) == x,
{
    let n = x as nat;
    assert(n == n % 256 + 256 * (n / 256));
}

/// Reading back a little-endian encoding gives the encoded number.
pub proof fn lemma_le32_roundtrip(x: u32)
    ensures
        read_le32(le32(x as nat)) == x,
{
    let n = x as nat;
    let b0 = n % 256;
    let q1 = n / 256;
    let b1 = q1 % 256;
    let q2 = q1 / 256;
    let b2 = q2 % 256;
    let q3 = q2 / 256;
    assert(n == b0 + 256 * q1);
    assert(q1 == b1 + 256 * q2);
    assert(q2 == b2 + 256 * q3);
    assert(q3 < 256);
    assert(n / 65536 == q2) by {
        vstd::arithmetic::div_mod::lemma_div_denominator(n as int, 256, 256);
    }
    assert(n / 16777216 == q3) by {
        vstd::arithmetic::div_mod::lemma_div_denominator(n as int, 65536, 256);
        vstd::arithmetic::div_mod::lemma_div_denominator(n as int, 256, 256);
    }
}

/// Appends the little-endian bytes of `x`.
pub fn push_le16(v: &mut Vec<u8>, x: u16)
    ensures
        final(v)@ == old(v)@ + le16(x as nat),
{
    v.push((x % 256) as u8);
    v.push(((x / 256) % 256) as u8);
    assert(final(v)@ =~= old(v)@ + le16(x as nat));
}

/// Appends the little-endian bytes of `x`.
pub fn push_le32(v: &mut Vec<u8>, x: u32)
    ensures
        final(v)@ == old(v)@ + le32(x as nat),
{
    v.push((x % 256) as u8);
    v.push(((x / 256) % 256) as u8);
    v.push(((x / 65536) % 256) as u8);
    v.push(((x / 16777216) % 256) as u8);
    assert(final(v)@ =~= old(v)@ + le32(x as nat));
}

/// Appends the bytes of `s`.
pub fn push_bytes(v: &mut Vec<u8>, s: &[u8])
    ensures
        final(v)@ == old(v)@ + s@,
{
    let mut i: usize = 0;
    while i < s.len()
        invariant
            i <= s@.len(),
            v@ == old(v)@ + s@.take(i as int),
        decreases s@.len() - i,
    {
        v.push(s[i]);
        assert(s@.take(i as int + 1) =~= s@.take(i as int).push(s@[i as int]));
        i = i + 1;
    }
    assert(s@.take(s@.len() as int) =~= s@);
}

} // verus!
