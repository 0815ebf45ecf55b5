//! Integers as little-endian bytes in two's complement.

use vstd::prelude::*;

verus! {

/// The `width` low bytes of `value`, lowest first. A negative value gives
/// the bytes of its two's complement.
pub open spec fn le_bytes(value: int, width: nat) -> Seq<u8>
    decreases width,
{
    if width == 0 {
        Seq::empty()
    } else {
        seq![(value % 256) as u8] + le_bytes(value / 256, (width - 1) as nat)
    }
}

/// `count` zero bytes.
pub open spec fn zero_bytes(count: nat) -> Seq<u8> {
    Seq::new(count, |i: int| 0u8)
}

/// 256 to the power `width`: the number of values that `width` bytes hold.
pub open spec fn byte_range(width: nat) -> int
    decreases width,
{
    if width == 0 {
        1
    } else {
        256 * byte_range((width - 1) as nat)
    }
}

/// The ranges of four and of eight bytes.
pub proof fn lemma_byte_range_values()
    ensures
        byte_range(4) == 0x1_0000_0000,
        byte_range(8) == 0x1_0000_0000_0000_0000,
{
    reveal_with_fuel(byte_range, 9);
}

/// The low bytes of a value are as many as were asked for.
pub proof fn lemma_le_bytes_len(value: int, width: nat)
    ensures
        le_bytes(value, width).len() == width,
    decreases width,
{
    if width > 0 {
        lemma_le_bytes_len(value / 256, (width - 1) as nat);
    }
}

/// The low bytes of a value do not change when a multiple of their range is
/// added to it.
pub proof fn lemma_le_bytes_periodic(value: int, factor: int, width: nat)
    ensures
        le_bytes(value + factor * byte_range(width), width) == le_bytes(value, width),
    decreases width,
{
    if width > 0 {
        let below = byte_range((width - 1) as nat);
        let shifted = value + factor * byte_range(width);
        assert(shifted == 256 * (factor * below) + value) by (nonlinear_arith)
            requires
                shifted == value + factor * (256 * below),
        ;
        vstd::arithmetic::div_mod::lemma_mod_multiples_vanish(factor * below, value, 256);
        vstd::arithmetic::div_mod::lemma_fundamental_div_mod(value, 256);
        vstd::arithmetic::div_mod::lemma_fundamental_div_mod(shifted, 256);
        assert(shifted / 256 == value / 256 + factor * below);
        lemma_le_bytes_periodic(value / 256, factor, (width - 1) as nat);
    }
}

/// The 64 bits of `value` in two's complement, read as an unsigned number.
pub fn unsigned_bits(value: i64) -> (bits: u64)
    ensures
        bits == (value as int) % 0x1_0000_0000_0000_0000int,
        value >= 0 ==> bits == value,
        value < 0 ==> bits == value + 0x1_0000_0000_0000_0000,
{
    if value >= 0 {
        value as u64
    } else {
        let above_min: u64 = (value - i64::MIN) as u64;
        above_min + 0x8000_0000_0000_0000u64
    }
}

/// Appends the `width` low bytes of `bits` to `out`, lowest first.
pub fn push_le_bytes(out: &mut Vec<u8>, bits: u64, width: usize)
    ensures
        final(out)@ == old(out)@ + le_bytes(bits as int, width as nat),
{
    let mut rest: u64 = bits;
    let mut done: usize = 0;
    assert(out@ + le_bytes(rest as int, (width - done) as nat) =~= old(out)@ + le_bytes(
        bits as int,
        width as nat,
    ));
    while done < width
        invariant
            done <= width,
            out@ + le_bytes(rest as int, (width - done) as nat) == old(out)@ + le_bytes(
                bits as int,
                width as nat,
            ),
        decreases width - done,
    {
        let ghost before = out@;
        let low: u8 = (rest % 256) as u8;
        out.push(low);
        proof {
            let tail = le_bytes((rest / 256) as int, (width - done - 1) as nat);
            assert(le_bytes(rest as int, (width - done) as nat) == seq![low] + tail);
            assert(out@ + tail =~= before + (seq![low] + tail));
        }
        rest = rest / 256;
        done = done + 1;
    }
    assert(out@ + le_bytes(rest as int, 0) =~= out@);
}

/// Appends `count` zero bytes to `out`.
pub fn push_zero_bytes(out: &mut Vec<u8>, count: usize)
    ensures
        final(out)@ == old(out)@ + zero_bytes(count as nat),
{
    let mut done: usize = 0;
    assert(out@ =~= old(out)@ + zero_bytes(0));
    while done < count
        invariant
            done <= count,
            out@ == old(out)@ + zero_bytes(done as nat),
        decreases count - done,
    {
        out.push(0u8);
        done = done + 1;
        assert(out@ =~= old(out)@ + zero_bytes(done as nat));
    }
}

} // verus!
