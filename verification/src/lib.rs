//! Request construction for the Linux `BLKPG` partition-table ioctl.
//!
//! Only the resize operation is provided: the extent of an existing
//! partition is changed while the partition stays mounted.

pub mod bytes;
pub mod geometry;
pub mod layout;
pub mod opcode;
pub mod resize;

pub use resize::resize_partition;
