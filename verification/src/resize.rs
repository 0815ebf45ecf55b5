//! Resizing a partition: the request, its one ioctl, and the outcome.

use crate::geometry::{byte_length, byte_offset, extent_length, fits_i64, sector_offset, wrap_i64};
use crate::layout::{BlkpgIoctlArg, BlkpgPartition, BLKPG_NUM, BLKPG_RESIZE_PARTITION, BLK_GROUP};
use crate::opcode::{compose_opcode, is_opcode_of, Direction};
use vstd::prelude::*;

verus! {

/// The error number that the operating system gave for a failed ioctl. It
/// is handed on as it came: nothing is read into it.
#[derive(Clone, Copy, Debug, PartialEq, Eq, Structural)]
pub struct SystemError {
    /// The error number of the operating system.
    pub code: i32,
}

impl SystemError {
    /// The error number of the operating system.
    pub fn raw_os_error(&self) -> (code: i32)
        ensures
            code == self.code,
    {
        self.code
    }
}

/// Whether `opcode` selects the `BLKPG` ioctl: no transfer declared, the
/// block-device group, command number 105, size 0.
pub open spec fn is_blkpg_opcode(opcode: u32) -> bool {
    is_opcode_of(opcode, Direction::NoData, BLK_GROUP, BLKPG_NUM, 0)
}

/// Whether `arg` is the request that resizes partition `part_num` to the
/// sectors from `start_sector` up to `end_sector`: the resize operation, no
/// flags, a declared length of 0, the extent in bytes as 64-bit two's
/// complement arithmetic gives it, and empty names.
pub open spec fn is_resize_arg(
    arg: BlkpgIoctlArg,
    part_num: i32,
    start_sector: i64,
    end_sector: i64,
    sector_size: i64,
) -> bool {
    &&& arg.op == BLKPG_RESIZE_PARTITION
    &&& arg.flags == 0
    &&& arg.datalen == 0
    &&& arg.data.start == wrap_i64(byte_offset(start_sector as int, sector_size as int))
    &&& arg.data.length == wrap_i64(
        byte_length(start_sector as int, end_sector as int, sector_size as int),
    )
    &&& arg.data.pno == part_num
    &&& arg.data.names_empty()
}

/// What the caller is told of an ioctl that ended with `status`: success
/// for success, and for a failure its error number, unchanged.
pub open spec fn spec_resize_outcome(status: Result<(), i32>) -> Result<(), SystemError> {
    match status {
        Ok(()) => Ok(()),
        Err(code) => Err(SystemError { code }),
    }
}

/// The opcode of the `BLKPG` ioctl on the target: `0x1269` where the common
/// encoding is in use, `0x2000_1269` where the wide one is.
pub fn blkpg_opcode() -> (opcode: u32)
    ensures
        is_blkpg_opcode(opcode),
        opcode == 0x1269 || opcode == 0x2000_1269,
{
    let opcode = compose_opcode(Direction::NoData, BLK_GROUP, BLKPG_NUM, 0);
    proof {
        lemma_blkpg_opcode_values(opcode);
    }
    opcode
}

/// The two opcodes of the `BLKPG` ioctl, one for each encoding.
pub proof fn lemma_blkpg_opcode_values(opcode: u32)
    ensures
        is_blkpg_opcode(opcode) <==> opcode == 0x1269 || opcode == 0x2000_1269,
{
    assert((0x12u32 << 8u32) | 105u32 | ((0u32 & 0x3fffu32) << 16u32) | (0u32 << 30u32) == 0x1269u32)
        by (bit_vector);
    assert((0x12u32 << 8u32) | 105u32 | ((0u32 & 0x1fffu32) << 16u32) | (1u32 << 29u32)
        == 0x2000_1269u32) by (bit_vector);
}

/// Builds the request that resizes partition `part_num` to the sectors from
/// `start_sector` up to, and not including, `end_sector`, each of
/// `sector_size` bytes.
///
/// Nothing is checked: geometry that makes no sense, or that overflows 64
/// bits, goes to the kernel as it comes out, and the kernel refuses it.
pub fn resize_request(part_num: i32, start_sector: i64, end_sector: i64, sector_size: i64) -> (arg:
    BlkpgIoctlArg)
    ensures
        is_resize_arg(arg, part_num, start_sector, end_sector, sector_size),
        arg.op == 3,
        arg.flags == 0,
        fits_i64(byte_offset(start_sector as int, sector_size as int)) ==> arg.data.start
            == start_sector * sector_size,
        fits_i64(byte_length(start_sector as int, end_sector as int, sector_size as int))
            ==> arg.data.length == (end_sector - start_sector) * sector_size,
{
    let bp = BlkpgPartition::new(
        sector_offset(start_sector, sector_size),
        extent_length(start_sector, end_sector, sector_size),
        part_num,
    );
    BlkpgIoctlArg::new(BLKPG_RESIZE_PARTITION, 0, bp)
}

/// Turns the status of the ioctl into the result for the caller. A failure
/// keeps its error number.
pub fn resize_outcome(status: Result<(), i32>) -> (res: Result<(), SystemError>)
    ensures
        res == spec_resize_outcome(status),
        res is Ok <==> status is Ok,
        status is Err ==> res == Err::<(), SystemError>(SystemError { code: status->Err_0 }),
{
    match status {
        Ok(()) => Ok(()),
        Err(code) => Err(SystemError { code }),
    }
}

/// Resizes partition `part_num` of a disk to the sectors from `start_sector`
/// up to, and not including, `end_sector`, each of `sector_size` bytes.
///
/// `issue` performs the ioctl on the disk: it is given the opcode and the
/// request, and returns the error number of the operating system if the
/// call failed. It is called once, whatever it returns, and what it
/// returns decides the result.
pub fn resize_partition<F: FnOnce(u32, BlkpgIoctlArg) -> Result<(), i32>>(
    issue: F,
    part_num: i32,
    start_sector: i64,
    end_sector: i64,
    sector_size: i64,
) -> (res: Result<(), SystemError>)
    requires
        forall|opcode: u32, arg: BlkpgIoctlArg|
            is_blkpg_opcode(opcode) && is_resize_arg(
                arg,
                part_num,
                start_sector,
                end_sector,
                sector_size,
            ) ==> issue.requires((opcode, arg)),
    ensures
        exists|opcode: u32, arg: BlkpgIoctlArg, status: Result<(), i32>|
            {
                &&& is_blkpg_opcode(opcode)
                &&& is_resize_arg(arg, part_num, start_sector, end_sector, sector_size)
                &&& issue.ensures((opcode, arg), status)
                &&& res == spec_resize_outcome(status)
            },
{
    let arg = resize_request(part_num, start_sector, end_sector, sector_size);
    let opcode = blkpg_opcode();
    let status = issue(opcode, arg);
    resize_outcome(status)
}

/// Sectors become bytes by multiplication, with nothing rounded: wherever
/// the exact products fit in 64 bits, the request holds them.
pub proof fn lemma_linear_conversion(
    arg: BlkpgIoctlArg,
    part_num: i32,
    start_sector: i64,
    end_sector: i64,
    sector_size: i64,
)
    requires
        is_resize_arg(arg, part_num, start_sector, end_sector, sector_size),
        fits_i64(start_sector * sector_size),
        fits_i64((end_sector - start_sector) * sector_size),
    ensures
        arg.data.start == start_sector * sector_size,
        arg.data.length == (end_sector - start_sector) * sector_size,
        arg.data.pno == part_num,
{
    crate::geometry::lemma_wrap_i64_exact(start_sector * sector_size);
    crate::geometry::lemma_wrap_i64_exact((end_sector - start_sector) * sector_size);
}

} // verus!
