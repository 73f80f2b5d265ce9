use vstd::prelude::*;
use vstd::arithmetic::power2::{lemma2_to64, lemma_pow2_strictly_increases, pow2};
use vstd::bits::lemma_u64_shl_is_mul;

verus! {

/// The number of tile rows (and columns) of a Web-Mercator map at zoom `z`.
pub fn tile_count(z: u32) -> (r: u64)
    requires
        z < 32,
    ensures
        r as nat == pow2(z as nat),
{
    proof {
        lemma_pow2_strictly_increases(z as nat, 32);
        lemma2_to64();
        lemma_u64_shl_is_mul(1, z as u64);
    }
    1u64 << (z as u64)
}

/// The vertical position of the centre of tile row `y` at zoom `z`, as the
/// exact fraction `num / den` of the half-height of the map, measured from the
/// equator and positive to the north: `1 - 2 (y + 1/2) / 2^z`.
///
/// The latitude of the row's centre is `atan(sinh(pi * num / den))`.
pub fn tile_row_ratio(y: u32, z: u32) -> (r: (i64, u64))
    requires
        z < 32,
    ensures
        r.1 as nat == pow2(z as nat),
        r.0 as int == pow2(z as nat) - 2 * (y as int) - 1,
{
    let n = tile_count(z);
    proof {
        lemma_pow2_strictly_increases(z as nat, 32);
        lemma2_to64();
    }
    let num: i64 = n as i64 - 2 * (y as i64) - 1;
    (num, n)
}

} // verus!
