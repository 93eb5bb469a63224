//! Word rotations.
use vstd::prelude::*;

verus! {

/// `x` rotated left by `n` bits; a rotation by 0 or 32 leaves it unchanged.
pub open spec fn rotl32(x: u32, n: u32) -> u32 {
    if n == 0 || n >= 32 {
        x
    } else {
        (x << n) | (x >> ((32 - n) as u32))
    }
}

/// `x` rotated right by `n` bits; a rotation by 0 or 32 leaves it unchanged.
pub open spec fn rotr32(x: u32, n: u32) -> u32 {
    if n == 0 || n >= 32 {
        x
    } else {
        (x >> n) | (x << ((32 - n) as u32))
    }
}

/// `x` rotated right by `n` bits; a rotation by 0 or 64 leaves it unchanged.
pub open spec fn rotr64(x: u64, n: u64) -> u64 {
    if n == 0 || n >= 64 {
        x
    } else {
        (x >> n) | (x << ((64 - n) as u64))
    }
}

} // verus!
