//! Copying runs of bytes between memory, the registers and program images.

use vstd::prelude::*;

verus! {

/// `dst` with the `count` bytes from position `at` on replaced by the
/// `count` bytes of `src` from position `from` on.
pub open spec fn overlay(dst: Seq<u8>, at: int, src: Seq<u8>, from: int, count: int) -> Seq<u8> {
    Seq::new(
        dst.len(),
        |a: int|
            if at <= a < at + count {
                src[from + a - at]
            } else {
                dst[a]
            },
    )
}

/// Copies `count` bytes of `src`, starting at `from`, over the bytes of
/// `dst` that start at `at`.
pub(crate) fn copy_bytes(dst: &mut [u8], at: usize, src: &[u8], from: usize, count: usize)
    requires
        at + count <= old(dst)@.len(),
        from + count <= src@.len(),
    ensures
        final(dst)@ == overlay(old(dst)@, at as int, src@, from as int, count as int),
{
    let dst_len = dst.len();
    let src_len = src.len();
    let mut i: usize = 0;
    while i < count
        invariant
            i <= count,
            dst@.len() == dst_len,
            src@.len() == src_len,
            at + count <= dst_len,
            from + count <= src_len,
            dst@ == overlay(old(dst)@, at as int, src@, from as int, i as int),
        decreases count - i,
    {
        dst[at + i] = src[from + i];
        i += 1;
    }
}

} // verus!
