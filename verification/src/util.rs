//! Small shared helpers for building fixed-size byte buffers.

use vstd::prelude::*;

verus! {

/// A vector of `n` zero bytes.
pub fn zero_vec(n: usize) -> (r: Vec<u8>)
    ensures
        r@ == Seq::new(n as nat, |i: int| 0u8),
{
    let mut v: Vec<u8> = Vec::new();
    let mut i: usize = 0;
    while i < n
        invariant
            i <= n,
            v@ == Seq::new(i as nat, |j: int| 0u8),
        decreases n - i,
    {
        v.push(0);
        proof {
            assert(v@ =~= Seq::new((i + 1) as nat, |j: int| 0u8));
        }
        i += 1;
    }
    proof {
        assert(v@ =~= Seq::new(n as nat, |j: int| 0u8));
    }
    v
}

/// The byte with `mask`'s bits forced to `b` and every other bit kept.
pub open spec fn spec_set_mask(x: u8, mask: u8, b: bool) -> u8 {
    if b {
        x | mask
    } else {
        x & !mask
    }
}

pub fn set_mask(x: u8, mask: u8, b: bool) -> (r: u8)
    ensures
        r == spec_set_mask(x, mask, b),
{
    if b {
        x | mask
    } else {
        x & !mask
    }
}

/// Two raised to `i`, for bit positions inside a byte.
pub open spec fn p2(i: int) -> u8 {
    if i <= 0 {
        1u8
    } else if i == 1 {
        2u8
    } else if i == 2 {
        4u8
    } else if i == 3 {
        8u8
    } else if i == 4 {
        16u8
    } else if i == 5 {
        32u8
    } else if i == 6 {
        64u8
    } else {
        128u8
    }
}

pub fn pow2_u8(i: u16) -> (r: u8)
    requires
        i < 8,
    ensures
        r == p2(i as int),
{
    if i == 0 {
        1
    } else if i == 1 {
        2
    } else if i == 2 {
        4
    } else if i == 3 {
        8
    } else if i == 4 {
        16
    } else if i == 5 {
        32
    } else if i == 6 {
        64
    } else {
        128
    }
}

/// Bit `i` of `x`, as 0 or 1.
pub open spec fn bit_of(x: u8, i: int) -> u8 {
    ((x as int / p2(i) as int) % 2) as u8
}

} // verus!
