//! Byte-level helpers for reading and writing big-endian fields and
//! fixed-offset regions inside a frame buffer.

use vstd::prelude::*;

verus! {

/// The value of two bytes read in network (big-endian) order.
pub open spec fn word16(hi: u8, lo: u8) -> int {
    hi * 256 + lo
}

/// The value of four bytes read in network (big-endian) order.
pub open spec fn word32(b0: u8, b1: u8, b2: u8, b3: u8) -> int {
    ((b0 * 256 + b1) * 256 + b2) * 256 + b3
}

/// `s` with the bytes of `patch` laid over it starting at offset `at`.
pub open spec fn overlay(s: Seq<u8>, at: int, patch: Seq<u8>) -> Seq<u8> {
    Seq::new(s.len(), |i: int| if at <= i < at + patch.len() { patch[i - at] } else { s[i] })
}

/// Read a 16-bit big-endian field at byte offset `i`.
pub fn get_u16_be(b: &Vec<u8>, i: usize) -> (r: u16)
    requires
        i + 1 < b.len(),
    ensures
        r == word16(b@[i as int], b@[i as int + 1]),
{
    (b[i] as u16) * 256 + (b[i + 1] as u16)
}

/// Write `v` as a 16-bit big-endian field at byte offset `i`.
pub fn set_u16_be(b: &mut Vec<u8>, i: usize, v: u16)
    requires
        i + 1 < old(b).len(),
    ensures
        final(b)@ == old(b)@.update(i as int, (v / 256) as u8).update(i + 1, (v % 256) as u8),
{
    b[i] = (v / 256) as u8;
    b[i + 1] = (v % 256) as u8;
}

/// Read a 32-bit big-endian field at byte offset `i`.
pub fn get_u32_be(b: &Vec<u8>, i: usize) -> (r: u32)
    requires
        i + 3 < b.len(),
    ensures
        r == word32(b@[i as int], b@[i as int + 1], b@[i as int + 2], b@[i as int + 3]),
{
    (b[i] as u32) * 0x1000000 + (b[i + 1] as u32) * 0x10000 + (b[i + 2] as u32) * 0x100
        + (b[i + 3] as u32)
}

/// Copy `n` bytes from offset `src` to offset `dst` within `b`.
/// The two regions must not overlap.
pub fn copy_within(b: &mut Vec<u8>, dst: usize, src: usize, n: usize)
    requires
        src + n <= old(b).len(),
        dst + n <= old(b).len(),
        src + n <= dst || dst + n <= src,
    ensures
        final(b)@ == overlay(old(b)@, dst as int, old(b)@.subrange(src as int, src + n)),
{
    let mut k: usize = 0;
    while k < n
        invariant
            k <= n,
            src + n <= b.len(),
            dst + n <= b.len(),
            src + n <= dst || dst + n <= src,
            b@.len() == old(b)@.len(),
            forall|i: int|
                0 <= i < b@.len() ==> b@[i] == (if dst <= i < dst + k {
                    old(b)@[src + (i - dst)]
                } else {
                    old(b)@[i]
                }),
        decreases n - k,
    {
        let v = b[src + k];
        b[dst + k] = v;
        k += 1;
    }
    proof {
        assert(b@ =~= overlay(old(b)@, dst as int, old(b)@.subrange(src as int, src + n)));
    }
}

/// Overwrite the `data.len()` bytes of `b` at offset `dst` with `data`.
pub fn write_slice(b: &mut Vec<u8>, dst: usize, data: &[u8])
    requires
        dst + data@.len() <= old(b).len(),
    ensures
        final(b)@ == overlay(old(b)@, dst as int, data@),
{
    let n = data.len();
    let mut k: usize = 0;
    while k < n
        invariant
            k <= n,
            n == data@.len(),
            dst + n <= b.len(),
            b@.len() == old(b)@.len(),
            forall|i: int|
                0 <= i < b@.len() ==> b@[i] == (if dst <= i < dst + k {
                    data@[i - dst]
                } else {
                    old(b)@[i]
                }),
        decreases n - k,
    {
        let v = data[k];
        b[dst + k] = v;
        k += 1;
    }
    proof {
        assert(b@ =~= overlay(old(b)@, dst as int, data@));
    }
}

} // verus!
