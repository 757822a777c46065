//! Small verified helpers shared by the pipeline stages.

use vstd::prelude::*;

verus! {

/// One step of a statistics counter: wraps to zero at the limit of `u64`
/// rather than overflowing.
pub open spec fn spec_inc_u64(x: u64) -> u64 {
    if x == u64::MAX {
        0
    } else {
        (x + 1) as u64
    }
}

/// Advance a statistics counter by one, wrapping at the limit of `u64`.
pub fn inc_u64(x: u64) -> (r: u64)
    ensures
        r == spec_inc_u64(x),
{
    if x == u64::MAX {
        0
    } else {
        x + 1
    }
}

/// Add `b` to a statistics counter, wrapping past the limit of `u64`.
pub open spec fn spec_wrap_add_u64(a: u64, b: u64) -> u64 {
    if a + b > u64::MAX {
        (a + b - u64::MAX - 1) as u64
    } else {
        (a + b) as u64
    }
}

/// Advance a statistics counter by `b`, wrapping at the limit of `u64`.
pub fn wrap_add_u64(a: u64, b: u64) -> (r: u64)
    ensures
        r == spec_wrap_add_u64(a, b),
{
    a.wrapping_add(b)
}

/// Append every byte of `src` to `dst`.
pub fn append_bytes(dst: &mut Vec<u8>, src: &[u8])
    ensures
        final(dst)@ == old(dst)@ + src@,
{
    let ghost dst0 = dst@;
    let mut i: usize = 0;
    while i < src.len()
        invariant
            i <= src@.len(),
            dst@ == dst0 + src@.subrange(0, i as int),
        decreases src@.len() - i,
    {
        dst.push(src[i]);
        proof {
            assert(src@.subrange(0, i + 1) =~= src@.subrange(0, i as int).push(src@[i as int]));
        }
        i = i + 1;
    }
    proof {
        assert(src@.subrange(0, src@.len() as int) =~= src@);
    }
}

} // verus!
