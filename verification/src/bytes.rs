use vstd::prelude::*;

verus! {

/// The unsigned 32-bit value stored little-endian at byte offset `i` of `s`.
pub open spec fn le32_at(s: Seq<u8>, i: int) -> u32
    recommends
        0 <= i,
        i + 4 <= s.len(),
{
    (s[i] + s[i + 1] * 0x100 + s[i + 2] * 0x10000 + s[i + 3] * 0x1000000) as u32
}

/// The four bytes of `v` in little-endian order.
pub open spec fn le32_bytes(v: u32) -> Seq<u8> {
    seq![
        (v % 0x100) as u8,
        ((v / 0x100) % 0x100) as u8,
        ((v / 0x10000) % 0x100) as u8,
        ((v / 0x1000000) % 0x100) as u8,
    ]
}

/// Reading four little-endian bytes back as a 32-bit value is the identity.
pub proof fn lemma_le32_bytes_at(s: Seq<u8>, i: int, v: u32)
    requires
        0 <= i,
        i + 4 <= s.len(),
        s[i] == le32_bytes(v)[0],
        s[i + 1] == le32_bytes(v)[1],
        s[i + 2] == le32_bytes(v)[2],
        s[i + 3] == le32_bytes(v)[3],
    ensures
        le32_at(s, i) == v,
{
    assert(v == (v % 0x100) + ((v / 0x100) % 0x100) * 0x100 + ((v / 0x10000) % 0x100) * 0x10000
        + ((v / 0x1000000) % 0x100) * 0x1000000) by (bit_vector);
}

/// A 32-bit read below the boundary is unaffected by bytes appended beyond it.
pub proof fn lemma_le32_at_prefix(s: Seq<u8>, t: Seq<u8>, i: int)
    requires
        0 <= i,
        i + 4 <= s.len(),
    ensures
        le32_at(s + t, i) == le32_at(s, i),
{
    assert((s + t)[i] == s[i]);
    assert((s + t)[i + 1] == s[i + 1]);
    assert((s + t)[i + 2] == s[i + 2]);
    assert((s + t)[i + 3] == s[i + 3]);
}

/// Decode the unsigned 32-bit little-endian value at byte offset `i`.
pub fn read_le32(data: &Vec<u8>, i: usize) -> (r: u32)
    requires
        i + 4 <= data@.len(),
    ensures
        r == le32_at(data@, i as int),
{
    let n: usize = data.len();
    proof {
        assert(i + 4 <= n);
    }
    let b0 = data[i] as u32;
    let b1 = data[i + 1] as u32;
    let b2 = data[i + 2] as u32;
    let b3 = data[i + 3] as u32;
    b0 + b1 * 0x100 + b2 * 0x10000 + b3 * 0x1000000
}

/// Append the four little-endian bytes of `v` to `out`.
pub fn push_le32(out: &mut Vec<u8>, v: u32)
    ensures
        final(out)@ == old(out)@ + le32_bytes(v),
{
    out.push((v % 0x100) as u8);
    out.push(((v / 0x100) % 0x100) as u8);
    out.push(((v / 0x10000) % 0x100) as u8);
    out.push(((v / 0x1000000) % 0x100) as u8);
    proof {
        assert(out@ =~= old(out)@ + le32_bytes(v));
    }
}

} // verus!
