//! The number that selects an ioctl: direction, group, command number and
//! payload size packed into 32 bits.

use vstd::prelude::*;

verus! {

/// The direction of the data transfer that an ioctl declares, seen from
/// user space.
#[derive(Clone, Copy, Debug, PartialEq, Eq, Structural)]
pub enum Direction {
    /// No transfer is declared.
    NoData,
    /// The kernel hands data out.
    Read,
    /// The kernel takes data in.
    Write,
    /// Both.
    ReadWrite,
}

/// The two ways in which Linux packs an opcode. Group and number lie in the
/// low 16 bits in both; the width of the size field and the direction bits
/// above it differ.
#[derive(Clone, Copy, Debug, PartialEq, Eq, Structural)]
pub enum Encoding {
    /// 14 size bits and 2 direction bits: x86, arm, aarch64, riscv, s390x,
    /// loongarch64, csky.
    Common,
    /// 13 size bits and 3 direction bits: mips, powerpc, sparc.
    Wide,
}

/// The bits that stand for `direction` in the direction field.
pub open spec fn direction_bits(encoding: Encoding, direction: Direction) -> u32 {
    match (encoding, direction) {
        (Encoding::Common, Direction::NoData) => 0,
        (Encoding::Common, Direction::Read) => 2,
        (Encoding::Common, Direction::Write) => 1,
        (Encoding::Common, Direction::ReadWrite) => 3,
        (Encoding::Wide, Direction::NoData) => 1,
        (Encoding::Wide, Direction::Read) => 2,
        (Encoding::Wide, Direction::Write) => 4,
        (Encoding::Wide, Direction::ReadWrite) => 6,
    }
}

/// The mask of the size field, before it is shifted into place.
pub open spec fn size_mask(encoding: Encoding) -> u32 {
    match encoding {
        Encoding::Common => 0x3fff,
        Encoding::Wide => 0x1fff,
    }
}

/// The position of the lowest bit of the direction field.
pub open spec fn direction_shift(encoding: Encoding) -> u32 {
    match encoding {
        Encoding::Common => 30,
        Encoding::Wide => 29,
    }
}

/// The opcode that `encoding` gives the four components: the number in bits
/// 0 to 7, the group in bits 8 to 15, the size from bit 16 on, cut to the
/// width of its field, and the direction above the size.
pub open spec fn spec_compose_opcode(
    encoding: Encoding,
    direction: Direction,
    group: u8,
    number: u8,
    data_size: usize,
) -> u32 {
    ((group as u32) << 8u32) | (number as u32) | (((data_size as u32) & size_mask(encoding))
        << 16u32) | (direction_bits(encoding, direction) << direction_shift(encoding))
}

/// Whether `opcode` is what one of the two encodings gives the components.
pub open spec fn is_opcode_of(
    opcode: u32,
    direction: Direction,
    group: u8,
    number: u8,
    data_size: usize,
) -> bool {
    ||| opcode == spec_compose_opcode(Encoding::Common, direction, group, number, data_size)
    ||| opcode == spec_compose_opcode(Encoding::Wide, direction, group, number, data_size)
}

/// The largest payload size that every target accepts when an opcode is
/// composed.
pub const MAX_DATA_SIZE: usize = 0x7fff_ffff;

/// Calls `rustix::ioctl::Opcode::from_components` and hands back the raw
/// opcode as 32 bits. Believed, not proved: on a Linux target the result is
/// the packing of the four components in the encoding of the architecture
/// that the crate was built for, which is one of the two of `Encoding`; which
/// of them is not said. Sizes above `MAX_DATA_SIZE` are left out because the
/// outside function stops on a size that does not fit its raw opcode type,
/// which on some targets is a signed 32-bit integer.
#[verifier::external_body]
fn opcode_from_components(direction: Direction, group: u8, number: u8, data_size: usize) -> (raw:
    u32)
    requires
        data_size <= MAX_DATA_SIZE,
    ensures
        is_opcode_of(raw, direction, group, number, data_size),
{
    let outside = match direction {
        Direction::NoData => rustix::ioctl::Direction::None,
        Direction::Read => rustix::ioctl::Direction::Read,
        Direction::Write => rustix::ioctl::Direction::Write,
        Direction::ReadWrite => rustix::ioctl::Direction::ReadWrite,
    };
    rustix::ioctl::Opcode::from_components(outside, group, number, data_size).raw() as u32
}

/// Composes the opcode of an ioctl from its four components.
///
/// The opcode is the one of the target's encoding. In either encoding its
/// low 16 bits are the group and the number.
pub fn compose_opcode(direction: Direction, group: u8, number: u8, data_size: usize) -> (opcode:
    u32)
    requires
        data_size <= MAX_DATA_SIZE,
    ensures
        is_opcode_of(opcode, direction, group, number, data_size),
        opcode & 0xffff == group * 256 + number,
{
    let opcode = opcode_from_components(direction, group, number, data_size);
    proof {
        lemma_low_bits(Encoding::Common, direction, group, number, data_size);
        lemma_low_bits(Encoding::Wide, direction, group, number, data_size);
    }
    opcode
}

/// Group and number fill the low 16 bits of an opcode, whatever the
/// encoding, the direction and the size.
pub proof fn lemma_low_bits(
    encoding: Encoding,
    direction: Direction,
    group: u8,
    number: u8,
    data_size: usize,
)
    ensures
        spec_compose_opcode(encoding, direction, group, number, data_size) & 0xffff == group * 256
            + number,
{
    let g = group as u32;
    let n = number as u32;
    let s = (data_size as u32) & size_mask(encoding);
    let d = direction_bits(encoding, direction);
    let k = direction_shift(encoding);
    assert(((g << 8u32) | n | (s << 16u32) | (d << k)) & 0xffff == g * 256 + n) by (bit_vector)
        requires
            g < 256,
            n < 256,
            k == 29 || k == 30,
    ;
}

} // verus!
