//! Reading multi-byte integers out of a byte buffer, and appending bytes.
use vstd::prelude::*;

verus! {

/// The big-endian `u16` at `b[i..i + 2]`.
pub open spec fn be_u16(b: Seq<u8>, i: int) -> u16 {
    (b[i] as int * 0x100 + b[i + 1] as int) as u16
}

/// The big-endian `u32` at `b[i..i + 4]`.
pub open spec fn be_u32(b: Seq<u8>, i: int) -> u32 {
    (b[i] as int * 0x100_0000 + b[i + 1] as int * 0x1_0000 + b[i + 2] as int * 0x100
        + b[i + 3] as int) as u32
}

/// The little-endian `u32` at `b[i..i + 4]`.
pub open spec fn le_u32(b: Seq<u8>, i: int) -> u32 {
    (b[i + 3] as int * 0x100_0000 + b[i + 2] as int * 0x1_0000 + b[i + 1] as int * 0x100
        + b[i] as int) as u32
}

pub fn read_be_u16(b: &[u8], i: usize) -> (r: u16)
    requires
        i + 2 <= b.len(),
    ensures
        r == be_u16(b@, i as int),
{
    (b[i] as u16) * 0x100 + (b[i + 1] as u16)
}

pub fn read_be_u32(b: &[u8], i: usize) -> (r: u32)
    requires
        i + 4 <= b.len(),
    ensures
        r == be_u32(b@, i as int),
{
    (b[i] as u32) * 0x100_0000 + (b[i + 1] as u32) * 0x1_0000 + (b[i + 2] as u32) * 0x100
        + (b[i + 3] as u32)
}

pub fn read_le_u32(b: &[u8], i: usize) -> (r: u32)
    requires
        i + 4 <= b.len(),
    ensures
        r == le_u32(b@, i as int),
{
    (b[i + 3] as u32) * 0x100_0000 + (b[i + 2] as u32) * 0x1_0000 + (b[i + 1] as u32) * 0x100
        + (b[i] as u32)
}

/// Appends the bytes of `b` to `out`.
pub fn push_bytes(out: &mut Vec<u8>, b: &[u8])
    ensures
        final(out)@ == old(out)@ + b@,
{
    let mut i: usize = 0;
    while i < b.len()
        invariant
            i <= b@.len(),
            out@ == old(out)@ + b@.subrange(0, i as int),
        decreases b@.len() - i,
    {
        out.push(b[i]);
        proof {
            assert(b@.subrange(0, i + 1) =~= b@.subrange(0, i as int).push(b@[i as int]));
        }
        i = i + 1;
    }
    proof {
        assert(b@.subrange(0, b@.len() as int) =~= b@);
    }
}

} // verus!
