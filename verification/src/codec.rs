use vstd::prelude::*;

verus! {

/// The eight little-endian bytes of a 64-bit unsigned integer.
pub open spec fn spec_u64_le(x: u64) -> Seq<u8> {
    seq![
        (x & 0xff) as u8,
        ((x >> 8) & 0xff) as u8,
        ((x >> 16) & 0xff) as u8,
        ((x >> 24) & 0xff) as u8,
        ((x >> 32) & 0xff) as u8,
        ((x >> 40) & 0xff) as u8,
        ((x >> 48) & 0xff) as u8,
        ((x >> 56) & 0xff) as u8,
    ]
}

/// The 64-bit unsigned integer read from eight little-endian bytes.
pub open spec fn spec_le_u64(b: Seq<u8>) -> u64
    recommends
        b.len() == 8,
{
    (b[0] as u64) | ((b[1] as u64) << 8) | ((b[2] as u64) << 16) | ((b[3] as u64) << 24)
        | ((b[4] as u64) << 32) | ((b[5] as u64) << 40) | ((b[6] as u64) << 48)
        | ((b[7] as u64) << 56)
}

/// Reading back the little-endian encoding of an integer returns the integer.
pub proof fn lemma_u64_le_round_trip(x: u64)
    ensures
        spec_le_u64(spec_u64_le(x)) == x,
{
    let b = spec_u64_le(x);
    assert(b[0] == (x & 0xff) as u8);
    assert(b[1] == ((x >> 8) & 0xff) as u8);
    assert(b[2] == ((x >> 16) & 0xff) as u8);
    assert(b[3] == ((x >> 24) & 0xff) as u8);
    assert(b[4] == ((x >> 32) & 0xff) as u8);
    assert(b[5] == ((x >> 40) & 0xff) as u8);
    assert(b[6] == ((x >> 48) & 0xff) as u8);
    assert(b[7] == ((x >> 56) & 0xff) as u8);
    assert((((x & 0xff) as u8) as u64) | ((((x >> 8) & 0xff) as u8 as u64) << 8)
        | ((((x >> 16) & 0xff) as u8 as u64) << 16) | ((((x >> 24) & 0xff) as u8 as u64) << 24)
        | ((((x >> 32) & 0xff) as u8 as u64) << 32) | ((((x >> 40) & 0xff) as u8 as u64) << 40)
        | ((((x >> 48) & 0xff) as u8 as u64) << 48) | ((((x >> 56) & 0xff) as u8 as u64) << 56)
        == x) by (bit_vector);
}

/// Appends the little-endian encoding of `x` to `out`.
pub fn push_u64_le(out: &mut Vec<u8>, x: u64)
    ensures
        final(out)@ == old(out)@ + spec_u64_le(x),
{
    out.push((x & 0xff) as u8);
    out.push(((x >> 8) & 0xff) as u8);
    out.push(((x >> 16) & 0xff) as u8);
    out.push(((x >> 24) & 0xff) as u8);
    out.push(((x >> 32) & 0xff) as u8);
    out.push(((x >> 40) & 0xff) as u8);
    out.push(((x >> 48) & 0xff) as u8);
    out.push(((x >> 56) & 0xff) as u8);
    proof {
        assert(out@ =~= old(out)@ + spec_u64_le(x));
    }
}

/// Reads the 64-bit little-endian integer stored at `data[start..start + 8]`.
pub fn read_u64_le(data: &[u8], start: usize) -> (r: u64)
    requires
        start + 8 <= data@.len(),
    ensures
        r == spec_le_u64(data@.subrange(start as int, start as int + 8)),
{
    let r = (data[start] as u64) | ((data[start + 1] as u64) << 8)
        | ((data[start + 2] as u64) << 16) | ((data[start + 3] as u64) << 24)
        | ((data[start + 4] as u64) << 32) | ((data[start + 5] as u64) << 40)
        | ((data[start + 6] as u64) << 48) | ((data[start + 7] as u64) << 56);
    proof {
        let b = data@.subrange(start as int, start as int + 8);
        assert(b[0] == data@[start as int]);
        assert(b[1] == data@[start as int + 1]);
        assert(b[2] == data@[start as int + 2]);
        assert(b[3] == data@[start as int + 3]);
        assert(b[4] == data@[start as int + 4]);
        assert(b[5] == data@[start as int + 5]);
        assert(b[6] == data@[start as int + 6]);
        assert(b[7] == data@[start as int + 7]);
    }
    r
}

} // verus!
