use vstd::prelude::*;

verus! {

/// The eight little-endian bytes of a 64-bit integer.
pub open spec fn spec_u64_le(x: u64) -> Seq<u8> {
    seq![
        (x & 0xff) as u8,
        ((x >> 8) & 0xff) as u8,
        ((x >> 16) & 0xff) as u8,
        ((x >> 24) & 0xff) as u8,
        ((x >> 32) & 0xff) as u8,
        ((x >> 40) & 0xff) as u8,
        ((x >> 48) & 0xff) as u8,
        ((x >> 56) & 0xff) as u8,
    ]
}

/// The 64-bit integer read from eight little-endian bytes.
pub open spec fn spec_u64_of_le(s: Seq<u8>) -> u64
    recommends
        s.len() == 8,
{
    (s[0] as u64) | ((s[1] as u64) << 8) | ((s[2] as u64) << 16) | ((s[3] as u64) << 24)
        | ((s[4] as u64) << 32) | ((s[5] as u64) << 40) | ((s[6] as u64) << 48)
        | ((s[7] as u64) << 56)
}

/// Reading back the little-endian bytes of an integer yields the integer.
pub proof fn lemma_u64_le_round_trip(x: u64)
    ensures
        spec_u64_of_le(spec_u64_le(x)) == x,
{
    assert(((x & 0xff) as u8 as u64) | ((((x >> 8) & 0xff) as u8 as u64) << 8)
        | ((((x >> 16) & 0xff) as u8 as u64) << 16) | ((((x >> 24) & 0xff) as u8 as u64) << 24)
        | ((((x >> 32) & 0xff) as u8 as u64) << 32) | ((((x >> 40) & 0xff) as u8 as u64) << 40)
        | ((((x >> 48) & 0xff) as u8 as u64) << 48) | ((((x >> 56) & 0xff) as u8 as u64) << 56)
        == x) by (bit_vector);
}

/// Writing back the integer read from eight little-endian bytes yields the
/// same bytes.
pub proof fn lemma_u64_of_le_round_trip(s: Seq<u8>)
    requires
        s.len() == 8,
    ensures
        spec_u64_le(spec_u64_of_le(s)) == s,
{
    let b0 = s[0];
    let b1 = s[1];
    let b2 = s[2];
    let b3 = s[3];
    let b4 = s[4];
    let b5 = s[5];
    let b6 = s[6];
    let b7 = s[7];
    let x = (b0 as u64) | ((b1 as u64) << 8) | ((b2 as u64) << 16) | ((b3 as u64) << 24) | ((
    b4 as u64) << 32) | ((b5 as u64) << 40) | ((b6 as u64) << 48) | ((b7 as u64) << 56);
    assert((x & 0xff) as u8 == b0 && ((x >> 8) & 0xff) as u8 == b1 && ((x >> 16) & 0xff) as u8 == b2
        && ((x >> 24) & 0xff) as u8 == b3 && ((x >> 32) & 0xff) as u8 == b4 && ((x >> 40)
        & 0xff) as u8 == b5 && ((x >> 48) & 0xff) as u8 == b6 && ((x >> 56) & 0xff) as u8 == b7)
        by (bit_vector)
        requires
            x == (b0 as u64) | ((b1 as u64) << 8) | ((b2 as u64) << 16) | ((b3 as u64) << 24) | ((
            b4 as u64) << 32) | ((b5 as u64) << 40) | ((b6 as u64) << 48) | ((b7 as u64) << 56),
    ;
    assert(spec_u64_le(x) =~= s);
}

/// Appends the eight little-endian bytes of `x` to `out`.
pub fn push_u64_le(out: &mut Vec<u8>, x: u64)
    ensures
        final(out)@ == old(out)@ + spec_u64_le(x),
{
    out.push((x & 0xff) as u8);
    out.push(((x >> 8) & 0xff) as u8);
    out.push(((x >> 16) & 0xff) as u8);
    out.push(((x >> 24) & 0xff) as u8);
    out.push(((x >> 32) & 0xff) as u8);
    out.push(((x >> 40) & 0xff) as u8);
    out.push(((x >> 48) & 0xff) as u8);
    out.push(((x >> 56) & 0xff) as u8);
    proof {
        assert(out@ =~= old(out)@ + spec_u64_le(x));
    }
}

/// Reads the 64-bit integer stored little-endian at `off`.
pub fn read_u64_le(bytes: &Vec<u8>, off: usize) -> (x: u64)
    requires
        off + 8 <= bytes@.len(),
    ensures
        x == spec_u64_of_le(bytes@.subrange(off as int, off + 8)),
{
    let n = bytes.len();
    let x = (bytes[off] as u64) | ((bytes[off + 1] as u64) << 8) | ((bytes[off + 2] as u64) << 16)
        | ((bytes[off + 3] as u64) << 24) | ((bytes[off + 4] as u64) << 32)
        | ((bytes[off + 5] as u64) << 40) | ((bytes[off + 6] as u64) << 48)
        | ((bytes[off + 7] as u64) << 56);
    proof {
        let s = bytes@.subrange(off as int, off + 8);
        assert(s[0] == bytes@[off as int]);
        assert(s[1] == bytes@[off + 1]);
        assert(s[2] == bytes@[off + 2]);
        assert(s[3] == bytes@[off + 3]);
        assert(s[4] == bytes@[off + 4]);
        assert(s[5] == bytes@[off + 5]);
        assert(s[6] == bytes@[off + 6]);
        assert(s[7] == bytes@[off + 7]);
    }
    x
}

/// Appends a copy of `src` to `out`.
pub fn push_bytes(out: &mut Vec<u8>, src: &Vec<u8>)
    ensures
        final(out)@ == old(out)@ + src@,
{
    let n = src.len();
    let mut i: usize = 0;
    while i < n
        invariant
            i <= n,
            n == src@.len(),
            out@ == old(out)@ + src@.subrange(0, i as int),
        decreases n - i,
    {
        out.push(src[i]);
        i = i + 1;
        proof {
            assert(out@ =~= old(out)@ + src@.subrange(0, i as int));
        }
    }
    proof {
        assert(src@.subrange(0, n as int) =~= src@);
    }
}

/// A fresh copy of a byte vector.
pub fn clone_bytes(src: &Vec<u8>) -> (v: Vec<u8>)
    ensures
        v@ == src@,
{
    let v = src.clone();
    proof {
        assert(v@ =~= src@);
    }
    v
}

/// A vector of `len` zero bytes.
pub fn zero_vec(len: usize) -> (v: Vec<u8>)
    ensures
        v@ == Seq::new(len as nat, |i: int| 0u8),
{
    let mut v: Vec<u8> = Vec::new();
    let mut i: usize = 0;
    while i < len
        invariant
            i <= len,
            v@ == Seq::new(i as nat, |j: int| 0u8),
        decreases len - i,
    {
        v.push(0u8);
        i = i + 1;
        proof {
            assert(v@ =~= Seq::new(i as nat, |j: int| 0u8));
        }
    }
    v
}

/// A fresh copy of the `len` bytes starting at `off`.
pub fn copy_bytes(bytes: &Vec<u8>, off: usize, len: usize) -> (v: Vec<u8>)
    requires
        off + len <= bytes@.len(),
    ensures
        v@ == bytes@.subrange(off as int, off + len),
{
    let n = bytes.len();
    let mut v: Vec<u8> = Vec::new();
    let mut i: usize = 0;
    while i < len
        invariant
            i <= len,
            off + len <= n,
            n == bytes@.len(),
            v@ == bytes@.subrange(off as int, off + i),
        decreases len - i,
    {
        v.push(bytes[off + i]);
        i = i + 1;
        proof {
            assert(v@ =~= bytes@.subrange(off as int, off + i));
        }
    }
    v
}

/// Overwrites the eight bytes at `off` with the little-endian form of `x`.
pub fn write_u64_le(bytes: &mut Vec<u8>, off: usize, x: u64)
    requires
        off + 8 <= old(bytes)@.len(),
    ensures
        final(bytes)@.len() == old(bytes)@.len(),
        final(bytes)@.subrange(off as int, off + 8) == spec_u64_le(x),
        forall|i: int| 0 <= i < old(bytes)@.len() && !(off <= i < off + 8) ==> final(bytes)@[i]
            == old(bytes)@[i],
{
    let n = bytes.len();
    bytes.set(off, (x & 0xff) as u8);
    bytes.set(off + 1, ((x >> 8) & 0xff) as u8);
    bytes.set(off + 2, ((x >> 16) & 0xff) as u8);
    bytes.set(off + 3, ((x >> 24) & 0xff) as u8);
    bytes.set(off + 4, ((x >> 32) & 0xff) as u8);
    bytes.set(off + 5, ((x >> 40) & 0xff) as u8);
    bytes.set(off + 6, ((x >> 48) & 0xff) as u8);
    bytes.set(off + 7, ((x >> 56) & 0xff) as u8);
    proof {
        assert(bytes@.subrange(off as int, off + 8) =~= spec_u64_le(x));
    }
}

} // verus!
