//! Verified core of a disk provisioning toolkit: partition geometry,
//! filesystem descriptions and the `mkfs` command lines they produce,
//! FAT boot-sector decoding, partition-table change validation and the
//! plan of disk operations that applies such changes.

pub mod text;
pub mod filesystem;
pub mod formatter;
pub mod fat;
pub mod partition;
pub mod writer;
pub mod blkpg;
pub mod kdl_reader;
