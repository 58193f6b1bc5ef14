//! Partitions of a disk device as the kernel reports them in sysfs.

use vstd::prelude::*;

verus! {

/// Size in bytes of the sectors in which sysfs counts.
pub const SECTOR_SIZE: u64 = 512;

/// Directory of device nodes, relative to the system root.
pub const DEVFS_DIR: &'static str = "dev";

/// Directory of block devices in sysfs, relative to the system root.
pub const SYSFS_DIR: &'static str = "sys/class/block";

/// `base` joined with `part` as `Path::join` does on Unix: an absolute
/// `part` replaces `base`, otherwise a `/` separates them unless `base` is
/// empty or already ends with one.
pub open spec fn path_join(base: Seq<char>, part: Seq<char>) -> Seq<char> {
    if part.len() > 0 && part[0] == '/' {
        part
    } else if base.len() == 0 || base.last() == '/' {
        base + part
    } else {
        base + seq!['/'] + part
    }
}

/// Joins `part` onto `base`, as `Path::join` does on Unix.
pub fn join_path(base: &str, part: &str) -> (r: String)
    ensures
        r@ == path_join(base@, part@),
{
    let part_len = part.unicode_len();
    if part_len > 0 && part.get_char(0) == '/' {
        return String::from_str(part);
    }
    let base_len = base.unicode_len();
    let mut r = String::from_str(base);
    if base_len > 0 && base.get_char(base_len - 1) != '/' {
        proof {
            reveal_strlit("/");
        }
        r.append("/");
    }
    r.append(part);
    r
}

/// The device node of partition `name` under system root `sysroot`.
pub open spec fn device_path_of(sysroot: Seq<char>, name: Seq<char>) -> Seq<char> {
    path_join(path_join(sysroot, DEVFS_DIR@), name)
}

/// The sysfs node of partition `name` under system root `sysroot`.
pub open spec fn sysfs_node_of(sysroot: Seq<char>, name: Seq<char>) -> Seq<char> {
    path_join(path_join(sysroot, SYSFS_DIR@), name)
}

/// Represents a partition on a disk device
/// - Size in sectors
#[derive(Debug, Default)]
pub struct Partition {
    /// Name of the partition
    pub name: String,
    /// Partition number on the disk
    pub number: u32,
    /// Starting sector of the partition
    pub start: u64,
    /// Ending sector of the partition
    pub end: u64,
    /// Size of partition in sectors
    pub size: u64,
    /// Path to the partition node in sysfs
    pub node: String,
    /// Path to the partition device in /dev
    pub device: String,
}

impl Partition {
    /// The device node of partition `name` under `sysroot`.
    pub fn device_path(sysroot: &str, name: &str) -> (r: String)
        ensures
            r@ == device_path_of(sysroot@, name@),
    {
        let dir = join_path(sysroot, DEVFS_DIR);
        join_path(dir.as_str(), name)
    }

    /// The sysfs node of partition `name` under `sysroot`.
    pub fn sysfs_node(sysroot: &str, name: &str) -> (r: String)
        ensures
            r@ == sysfs_node_of(sysroot@, name@),
    {
        let dir = join_path(sysroot, SYSFS_DIR);
        join_path(dir.as_str(), name)
    }

    /// Creates a Partition from what sysfs reports of partition `name` under
    /// `sysroot`: whether its device node exists, and its `partition`,
    /// `start` and `size` attributes (`None` where one could not be read).
    ///
    /// Returns `None` if the partition has no device node yet or an
    /// attribute is missing or invalid.
    pub fn from_sysfs_path(
        sysroot: &str,
        name: &str,
        device_exists: bool,
        partition: Option<u32>,
        start: Option<u64>,
        size: Option<u64>,
    ) -> (r: Option<Self>)
        requires
            device_exists && partition is Some && start is Some && size is Some ==> start->0 + size->0
                <= u64::MAX,
        ensures
            r is Some <==> (device_exists && partition is Some && start is Some && size is Some),
            r matches Some(p) ==> {
                &&& p.name@ == name@
                &&& p.number == partition->0
                &&& p.start == start->0
                &&& p.size == size->0
                &&& p.end == start->0 + size->0
                &&& p.node@ == sysfs_node_of(sysroot@, name@)
                &&& p.device@ == device_path_of(sysroot@, name@)
            },
    {
        if !device_exists {
            return None;
        }
        let node = Self::sysfs_node(sysroot, name);
        let partition_no = match partition {
            Some(n) => n,
            None => return None,
        };
        let start = match start {
            Some(s) => s,
            None => return None,
        };
        let size = match size {
            Some(s) => s,
            None => return None,
        };
        Some(Self {
            name: String::from_str(name),
            number: partition_no,
            start,
            size,
            end: start + size,
            node,
            device: Self::device_path(sysroot, name),
        })
    }

    /// Absolute start offset of the partition, in bytes
    pub fn start_bytes(&self) -> (r: u64)
        requires
            self.start * SECTOR_SIZE <= u64::MAX,
        ensures
            r == self.start * SECTOR_SIZE,
    {
        self.start * SECTOR_SIZE
    }

    /// Absolute end offset of the partition, in bytes
    pub fn end_bytes(&self) -> (r: u64)
        requires
            self.end * SECTOR_SIZE <= u64::MAX,
        ensures
            r == self.end * SECTOR_SIZE,
    {
        self.end * SECTOR_SIZE
    }

    /// Size of the partition, in bytes
    pub fn size_bytes(&self) -> (r: u64)
        requires
            self.size * SECTOR_SIZE <= u64::MAX,
        ensures
            r == self.size * SECTOR_SIZE,
    {
        self.size * SECTOR_SIZE
    }
}

/// A partition ends, in bytes, where its start plus its size in bytes put it:
/// `end_bytes == start_bytes + size_bytes` for every partition whose end is
/// its start plus its size, as `from_sysfs_path` makes it.
pub proof fn lemma_end_bytes_is_start_plus_size(p: Partition)
    requires
        p.end == p.start + p.size,
    ensures
        p.end * SECTOR_SIZE == p.start * SECTOR_SIZE + p.size * SECTOR_SIZE,
{
}

} // verus!
