//! Conversion of sector geometry into the byte quantities that the kernel
//! expects, in 64-bit two's complement arithmetic.

use vstd::prelude::*;

verus! {

/// The number of values of a 64-bit integer.
pub open spec fn range_64() -> int {
    0x1_0000_0000_0000_0000
}

/// Whether `x` is the value of some `i64`.
pub open spec fn fits_i64(x: int) -> bool {
    i64::MIN <= x <= i64::MAX
}

/// The `i64` that is congruent to `x` modulo 2^64: what 64-bit two's
/// complement arithmetic keeps of an exact result.
pub open spec fn wrap_i64(x: int) -> i64 {
    let r = x % range_64();
    if r > i64::MAX {
        (r - range_64()) as i64
    } else {
        r as i64
    }
}

/// The exact byte offset of the first byte of sector `sector`.
pub open spec fn byte_offset(sector: int, sector_size: int) -> int {
    sector * sector_size
}

/// The exact byte count of the sectors from `start_sector` up to, and not
/// including, `end_sector`.
pub open spec fn byte_length(start_sector: int, end_sector: int, sector_size: int) -> int {
    (end_sector - start_sector) * sector_size
}

/// A value in range is kept as it is.
pub proof fn lemma_wrap_i64_exact(x: int)
    requires
        fits_i64(x),
    ensures
        wrap_i64(x) == x,
{
    if x >= 0 {
        vstd::arithmetic::div_mod::lemma_small_mod(x as nat, range_64() as nat);
    } else {
        vstd::arithmetic::div_mod::lemma_small_mod((x + range_64()) as nat, range_64() as nat);
        vstd::arithmetic::div_mod::lemma_mod_add_multiples_vanish(x, range_64());
    }
}

/// The wrapped value is the only `i64` congruent to the exact one.
pub proof fn lemma_wrap_i64_congruent(x: int)
    ensures
        wrap_i64(x) as int % range_64() == x % range_64(),
{
    let m = range_64();
    let r = x % m;
    if r > i64::MAX {
        vstd::arithmetic::div_mod::lemma_mod_multiples_vanish(-1, r, m);
    }
    vstd::arithmetic::div_mod::lemma_small_mod(r as nat, m as nat);
}

/// A factor may be replaced by any 64-bit value congruent to it: the wrapped
/// product is the same.
pub proof fn lemma_wrap_i64_of_product(a: int, b: int, c: int)
    requires
        a % range_64() == b % range_64(),
    ensures
        wrap_i64(a * c) == wrap_i64(b * c),
{
    let m = range_64();
    vstd::arithmetic::div_mod::lemma_mul_mod_noop_left(a, c, m);
    vstd::arithmetic::div_mod::lemma_mul_mod_noop_left(b, c, m);
}

/// The byte offset of sector `sector`, as the 64 bits that are handed to the
/// kernel. Nothing is rejected here: a product that does not fit wraps.
pub fn sector_offset(sector: i64, sector_size: i64) -> (start: i64)
    ensures
        start == wrap_i64(byte_offset(sector as int, sector_size as int)),
        fits_i64(byte_offset(sector as int, sector_size as int)) ==> start == sector * sector_size,
{
    proof {
        if fits_i64(sector * sector_size) {
            lemma_wrap_i64_exact(sector * sector_size);
        }
    }
    sector.wrapping_mul(sector_size)
}

/// The byte count of the sectors from `start_sector` up to `end_sector`, as
/// the 64 bits that are handed to the kernel. Nothing is rejected here: a
/// difference or a product that does not fit wraps.
pub fn extent_length(start_sector: i64, end_sector: i64, sector_size: i64) -> (length: i64)
    ensures
        length == wrap_i64(byte_length(start_sector as int, end_sector as int, sector_size as int)),
        fits_i64(byte_length(start_sector as int, end_sector as int, sector_size as int))
            ==> length == (end_sector - start_sector) * sector_size,
{
    let sectors: i64 = end_sector.wrapping_sub(start_sector);
    proof {
        let exact = end_sector - start_sector;
        assert(sectors as int % range_64() == exact % range_64()) by {
            if exact > i64::MAX {
                vstd::arithmetic::div_mod::lemma_mod_multiples_vanish(-1, exact, range_64());
            } else if exact < i64::MIN {
                vstd::arithmetic::div_mod::lemma_mod_multiples_vanish(1, exact, range_64());
            }
        }
        lemma_wrap_i64_of_product(sectors as int, exact, sector_size as int);
        if fits_i64(exact * sector_size) {
            lemma_wrap_i64_exact(exact * sector_size);
        }
    }
    sectors.wrapping_mul(sector_size)
}

} // verus!

