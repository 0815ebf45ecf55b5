//! The two records that the kernel reads for a `BLKPG` request, and their
//! layout in memory.

use crate::bytes::{
    le_bytes, lemma_byte_range_values, lemma_le_bytes_len, lemma_le_bytes_periodic,
    push_le_bytes, push_zero_bytes, unsigned_bits, zero_bytes,
};
use vstd::prelude::*;

verus! {

/// The size of a partition record: 148 bytes of fields, filled up to a
/// multiple of 8.
pub const PARTITION_SIZE: usize = 152;

/// The size of a request record.
pub const REQUEST_SIZE: usize = 24;

/// The group that block-device ioctls belong to.
pub const BLK_GROUP: u8 = 0x12;

/// The command number of `BLKPG` within its group.
pub const BLKPG_NUM: u8 = 105;

/// The operation code that asks for a partition to be resized.
pub const BLKPG_RESIZE_PARTITION: i32 = 3;

/// The length of each of the two name buffers of a partition record.
pub const NAME_LEN: usize = 64;

/// What the kernel is told of one partition.
#[derive(Clone, Copy, Debug)]
pub struct BlkpgPartition {
    /// The offset of the first byte of the partition, in bytes.
    pub start: i64,
    /// The length of the partition, in bytes.
    pub length: i64,
    /// The number of the partition, counted from 1.
    pub pno: i32,
    /// The device name; the kernel does not read it for a resize.
    pub devname: [u8; NAME_LEN],
    /// The volume name; the kernel does not read it for a resize.
    pub volname: [u8; NAME_LEN],
}

impl BlkpgPartition {
    /// Whether both name buffers hold nothing but zero bytes.
    pub open spec fn names_empty(self) -> bool {
        &&& forall|i: int| 0 <= i < NAME_LEN ==> self.devname@[i] == 0
        &&& forall|i: int| 0 <= i < NAME_LEN ==> self.volname@[i] == 0
    }

    /// Builds the record of partition `pno` with the given extent. Both name
    /// buffers are filled with zero bytes.
    pub fn new(start: i64, length: i64, pno: i32) -> (partition: BlkpgPartition)
        ensures
            partition.start == start,
            partition.length == length,
            partition.pno == pno,
            partition.names_empty(),
    {
        BlkpgPartition { start, length, pno, devname: [0u8; NAME_LEN], volname: [0u8; NAME_LEN] }
    }

    /// The record as it lies in memory on a 64-bit little-endian target:
    /// `start` at offset 0, `length` at 8, `pno` at 16, the device name at
    /// 20, the volume name at 84, and four bytes of padding at 148.
    pub open spec fn spec_bytes(self) -> Seq<u8> {
        le_bytes(self.start as int, 8) + le_bytes(self.length as int, 8) + le_bytes(
            self.pno as int,
            4,
        ) + self.devname@ + self.volname@ + zero_bytes(4)
    }

    /// The bytes of the record as the kernel reads them, padding zeroed.
    pub fn to_bytes(&self) -> (out: Vec<u8>)
        ensures
            out@ == self.spec_bytes(),
            out@.len() == PARTITION_SIZE,
    {
        let mut out: Vec<u8> = Vec::new();
        push_signed(&mut out, self.start, 8);
        push_signed(&mut out, self.length, 8);
        push_signed(&mut out, self.pno as i64, 4);
        push_name(&mut out, &self.devname);
        push_name(&mut out, &self.volname);
        push_zero_bytes(&mut out, 4);
        proof {
            assert(out@ =~= self.spec_bytes());
            lemma_partition_layout(*self);
        }
        out
    }
}

/// A `BLKPG` request: the operation and the partition record that it is
/// about. In memory the request holds the address of the record; here it
/// owns the record, which therefore lives as long as the request does.
#[derive(Clone, Copy, Debug)]
pub struct BlkpgIoctlArg {
    /// The operation asked for.
    pub op: i32,
    /// Flags; none is defined for a resize.
    pub flags: i32,
    /// The declared length of the data. The kernel does not read it: it
    /// takes the size of a partition record instead.
    pub datalen: i32,
    /// The partition record.
    pub data: BlkpgPartition,
}

impl BlkpgIoctlArg {
    /// Builds the request for operation `op` on `data`. The declared length
    /// is 0, whatever the record.
    pub fn new(op: i32, flags: i32, data: BlkpgPartition) -> (arg: BlkpgIoctlArg)
        ensures
            arg.op == op,
            arg.flags == flags,
            arg.datalen == 0,
            arg.data == data,
    {
        BlkpgIoctlArg { op, flags, datalen: 0, data }
    }

    /// The request as it lies in memory on a 64-bit little-endian target,
    /// with the partition record at address `data_address`: `op` at offset
    /// 0, `flags` at 4, `datalen` at 8, four bytes of padding at 12, and the
    /// address at 16.
    pub open spec fn spec_bytes(self, data_address: u64) -> Seq<u8> {
        le_bytes(self.op as int, 4) + le_bytes(self.flags as int, 4) + le_bytes(
            self.datalen as int,
            4,
        ) + zero_bytes(4) + le_bytes(data_address as int, 8)
    }

    /// The bytes of the request as the kernel reads them, once the bytes of
    /// the partition record lie at `data_address`.
    pub fn to_bytes(&self, data_address: u64) -> (out: Vec<u8>)
        ensures
            out@ == self.spec_bytes(data_address),
            out@.len() == REQUEST_SIZE,
    {
        let mut out: Vec<u8> = Vec::new();
        push_signed(&mut out, self.op as i64, 4);
        push_signed(&mut out, self.flags as i64, 4);
        push_signed(&mut out, self.datalen as i64, 4);
        push_zero_bytes(&mut out, 4);
        push_le_bytes(&mut out, data_address, 8);
        proof {
            assert(out@ =~= self.spec_bytes(data_address));
            lemma_request_layout(*self, data_address);
        }
        out
    }
}

/// Appends the `width` low bytes of the two's complement of `value`.
fn push_signed(out: &mut Vec<u8>, value: i64, width: usize)
    requires
        width == 4 || width == 8,
    ensures
        final(out)@ == old(out)@ + le_bytes(value as int, width as nat),
{
    let bits = unsigned_bits(value);
    proof {
        if value < 0 {
            if width == 4 {
                lemma_byte_range_values();
                lemma_le_bytes_periodic(value as int, 0x1_0000_0000int, 4);
            } else {
                lemma_byte_range_values();
                lemma_le_bytes_periodic(value as int, 1, 8);
            }
        }
    }
    push_le_bytes(out, bits, width);
}

/// Appends the bytes of a name buffer.
fn push_name(out: &mut Vec<u8>, name: &[u8; NAME_LEN])
    ensures
        final(out)@ == old(out)@ + name@,
{
    let mut done: usize = 0;
    assert(out@ =~= old(out)@ + name@.subrange(0, 0));
    while done < NAME_LEN
        invariant
            done <= NAME_LEN,
            out@ == old(out)@ + name@.subrange(0, done as int),
        decreases NAME_LEN - done,
    {
        out.push(name[done]);
        done = done + 1;
        assert(out@ =~= old(out)@ + name@.subrange(0, done as int));
    }
    assert(name@.subrange(0, NAME_LEN as int) =~= name@);
}

/// The layout of a partition record: its size, and the offset and the
/// bytes of each field.
pub proof fn lemma_partition_layout(partition: BlkpgPartition)
    ensures
        partition.spec_bytes().len() == PARTITION_SIZE,
        partition.spec_bytes().subrange(0, 8) == le_bytes(partition.start as int, 8),
        partition.spec_bytes().subrange(8, 16) == le_bytes(partition.length as int, 8),
        partition.spec_bytes().subrange(16, 20) == le_bytes(partition.pno as int, 4),
        partition.spec_bytes().subrange(20, 84) == partition.devname@,
        partition.spec_bytes().subrange(84, 148) == partition.volname@,
        partition.spec_bytes().subrange(148, 152) == zero_bytes(4),
{
    let bytes = partition.spec_bytes();
    lemma_le_bytes_len(partition.start as int, 8);
    lemma_le_bytes_len(partition.length as int, 8);
    lemma_le_bytes_len(partition.pno as int, 4);
    assert(bytes.subrange(0, 8) =~= le_bytes(partition.start as int, 8));
    assert(bytes.subrange(8, 16) =~= le_bytes(partition.length as int, 8));
    assert(bytes.subrange(16, 20) =~= le_bytes(partition.pno as int, 4));
    assert(bytes.subrange(20, 84) =~= partition.devname@);
    assert(bytes.subrange(84, 148) =~= partition.volname@);
    assert(bytes.subrange(148, 152) =~= zero_bytes(4));
}

/// The layout of a request: its size, and the offset and the bytes of each
/// field.
pub proof fn lemma_request_layout(arg: BlkpgIoctlArg, data_address: u64)
    ensures
        arg.spec_bytes(data_address).len() == REQUEST_SIZE,
        arg.spec_bytes(data_address).subrange(0, 4) == le_bytes(arg.op as int, 4),
        arg.spec_bytes(data_address).subrange(4, 8) == le_bytes(arg.flags as int, 4),
        arg.spec_bytes(data_address).subrange(8, 12) == le_bytes(arg.datalen as int, 4),
        arg.spec_bytes(data_address).subrange(12, 16) == zero_bytes(4),
        arg.spec_bytes(data_address).subrange(16, 24) == le_bytes(data_address as int, 8),
{
    let bytes = arg.spec_bytes(data_address);
    lemma_le_bytes_len(arg.op as int, 4);
    lemma_le_bytes_len(arg.flags as int, 4);
    lemma_le_bytes_len(arg.datalen as int, 4);
    lemma_le_bytes_len(data_address as int, 8);
    assert(bytes.subrange(0, 4) =~= le_bytes(arg.op as int, 4));
    assert(bytes.subrange(4, 8) =~= le_bytes(arg.flags as int, 4));
    assert(bytes.subrange(8, 12) =~= le_bytes(arg.datalen as int, 4));
    assert(bytes.subrange(12, 16) =~= zero_bytes(4));
    assert(bytes.subrange(16, 24) =~= le_bytes(data_address as int, 8));
}

} // verus!
