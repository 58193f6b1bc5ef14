//! FAT boot sector
//!
//! Decoding of the FAT12/16/32 boot sector, which holds the filesystem's
//! geometry, its volume id and its volume label.

use vstd::prelude::*;
use crate::text::{hex4, hex4_string, trim_end_spaces, trim_end_spaces_string, utf8_lossy, utf8_lossy_string};

verus! {

/// Starting position of the boot sector in bytes.
pub const START_POSITION: u64 = 0;

/// Offset of the two-byte boot signature.
pub const MAGIC_OFFSET: u64 = 0x1FE;

/// Size in bytes of the decoded part of the boot sector.
pub const SIZE: usize = 90;

/// Size in bytes of the region shared by the FAT16 and FAT32 layouts.
pub const SHARED_SIZE: usize = 54;

/// Offset in the shared region of the fields common to FAT16 and FAT32, in the FAT32 layout.
pub const FAT32_COMMON_OFFSET: usize = 28;

/// The little-endian 16-bit value at `off` in `b`.
pub open spec fn le16(b: Seq<u8>, off: int) -> int {
    b[off] + 256 * b[off + 1]
}

/// The little-endian 32-bit value at `off` in `b`.
pub open spec fn le32(b: Seq<u8>, off: int) -> int {
    b[off] + 256 * b[off + 1] + 65536 * b[off + 2] + 16777216 * b[off + 3]
}

/// Whether a boot signature is the valid one, `55 AA`.
pub fn is_valid_magic(magic: &[u8; 2]) -> (r: bool)
    ensures
        r == (magic@ == seq![0x55u8, 0xAAu8]),
{
    let r = magic[0] == 0x55 && magic[1] == 0xAA;
    assert(r == (magic@ =~= seq![0x55u8, 0xAAu8]));
    r
}

/// The FAT boot sector.
#[derive(Debug, Clone, Copy, PartialEq, Eq)]
pub struct Fat {
    /// Boot strap short or near jump
    pub ignored: [u8; 3],
    /// Name - can be used to special case partition manager volumes
    pub system_id: [u8; 8],
    /// Bytes per logical sector
    pub sector_size: u16,
    /// Sectors per cluster
    pub sec_per_clus: u8,
    /// Reserved sectors
    pub _reserved: u16,
    /// Number of FATs
    pub fats: u8,
    /// Root directory entries
    pub dir_entries: u16,
    /// Number of sectors
    pub sectors: u16,
    /// Media code
    pub media: u8,
    /// Sectors/FAT
    pub fat_length: u16,
    /// Sectors per track
    pub secs_track: u16,
    /// Number of heads
    pub heads: u16,
    /// Hidden sectors (unused)
    pub hidden: u32,
    /// Number of sectors (if sectors == 0)
    pub total_sect: u32,
    /// Region holding the FAT16 or the FAT32 specific fields
    pub shared: [u8; 54],
}

/// Fields common to the FAT16 and FAT32 layouts.
#[derive(Debug, Clone, Copy, PartialEq, Eq)]
pub struct Fat16And32Fields {
    /// Physical drive number
    pub drive_number: u8,
    /// Mount state
    pub state: u8,
    /// Extended boot signature
    pub signature: u8,
    /// Volume ID
    pub vol_id: u32,
    /// Volume label
    pub vol_label: [u8; 11],
    /// File system type
    pub fs_type: [u8; 8],
}

/// The FAT12/FAT16 layout of the shared region.
#[derive(Debug, Clone, Copy, PartialEq, Eq)]
pub struct Fat16Fields {
    pub common: Fat16And32Fields,
}

/// The FAT32 layout of the shared region.
#[derive(Debug, Clone, Copy, PartialEq, Eq)]
pub struct Fat32Fields {
    /// Sectors/FAT
    pub fat32_length: u32,
    /// FAT mirroring flags
    pub fat32_flags: u16,
    /// Major, minor filesystem version
    pub fat32_version: [u8; 2],
    /// First cluster in root directory
    pub root_cluster: u32,
    /// Filesystem info sector
    pub info_sector: u16,
    /// Backup boot sector
    pub backup_boot: u16,
    /// Unused
    pub reserved2: [u16; 6],
    pub common: Fat16And32Fields,
}

#[derive(Debug, Clone, Copy, PartialEq, Eq, Structural)]
pub enum FatType {
    Fat12,
    Fat16,
    Fat32,
}

/// Error for text that cannot be decoded.
#[derive(Debug, Clone, Copy, PartialEq, Eq)]
pub struct UnicodeError;

/// `f` is the boot sector laid out at the start of `b`.
pub open spec fn fat_layout(f: Fat, b: Seq<u8>) -> bool {
    &&& b.len() >= SIZE
    &&& f.ignored@ == b.subrange(0, 3)
    &&& f.system_id@ == b.subrange(3, 11)
    &&& f.sector_size == le16(b, 11)
    &&& f.sec_per_clus == b[13]
    &&& f._reserved == le16(b, 14)
    &&& f.fats == b[16]
    &&& f.dir_entries == le16(b, 17)
    &&& f.sectors == le16(b, 19)
    &&& f.media == b[21]
    &&& f.fat_length == le16(b, 22)
    &&& f.secs_track == le16(b, 24)
    &&& f.heads == le16(b, 26)
    &&& f.hidden == le32(b, 28)
    &&& f.total_sect == le32(b, 32)
    &&& f.shared@ == b.subrange(36, 90)
}

/// `c` holds the common fields laid out at `off` in `b`.
pub open spec fn common_layout(c: Fat16And32Fields, b: Seq<u8>, off: int) -> bool {
    &&& off + 26 <= b.len()
    &&& c.drive_number == b[off]
    &&& c.state == b[off + 1]
    &&& c.signature == b[off + 2]
    &&& c.vol_id == le32(b, off + 3)
    &&& c.vol_label@ == b.subrange(off + 7, off + 18)
    &&& c.fs_type@ == b.subrange(off + 18, off + 26)
}

/// `f` holds the FAT32 fields laid out in the shared region `b`.
pub open spec fn fat32_layout(f: Fat32Fields, b: Seq<u8>) -> bool {
    &&& b.len() == SHARED_SIZE
    &&& f.fat32_length == le32(b, 0)
    &&& f.fat32_flags == le16(b, 4)
    &&& f.fat32_version@ == b.subrange(6, 8)
    &&& f.root_cluster == le32(b, 8)
    &&& f.info_sector == le16(b, 12)
    &&& f.backup_boot == le16(b, 14)
    &&& forall|i: int| 0 <= i < 6 ==> #[trigger] f.reserved2@[i] == le16(b, 16 + 2 * i)
    &&& common_layout(f.common, b, FAT32_COMMON_OFFSET as int)
}

/// Sectors per FAT as the FAT32 layout of the shared region gives it.
pub open spec fn fat32_length_of(f: Fat) -> int {
    le32(f.shared@, 0)
}

/// The Linux kernel's primary FAT32 check: no 16-bit FAT length, but a 32-bit one.
pub open spec fn has_fat32_length(f: Fat) -> bool {
    f.fat_length == 0 && fat32_length_of(f) != 0
}

/// Total number of sectors.
pub open spec fn total_sectors_of(f: Fat) -> int {
    if f.sectors == 0 {
        f.total_sect as int
    } else {
        f.sectors as int
    }
}

/// Sectors taken by the root directory, rounded up.
pub open spec fn root_dir_sectors_of(f: Fat) -> int {
    (f.dir_entries * 32 + (f.sector_size - 1)) / (f.sector_size as int)
}

/// Sectors per FAT.
pub open spec fn fat_size_of(f: Fat) -> int {
    if f.fat_length == 0 {
        fat32_length_of(f)
    } else {
        f.fat_length as int
    }
}

/// Sectors before the data area: reserved sectors, the FATs and the root directory.
pub open spec fn metadata_sectors_of(f: Fat) -> int {
    f._reserved + f.fats * fat_size_of(f) + root_dir_sectors_of(f)
}

/// Estimated number of clusters in the data area.
pub open spec fn cluster_count_of(f: Fat) -> int {
    let total = total_sectors_of(f);
    let meta = metadata_sectors_of(f);
    let data = if total >= meta { total - meta } else { 0 };
    data / (if f.sec_per_clus == 0 { 1 } else { f.sec_per_clus as int })
}

/// The FAT variant of a boot sector.
pub open spec fn fat_type_of(f: Fat) -> FatType {
    if has_fat32_length(f) {
        FatType::Fat32
    } else if cluster_count_of(f) < 4085 {
        FatType::Fat12
    } else {
        FatType::Fat16
    }
}

/// The cluster estimate is computed without a fault: it divides by the
/// sector size, which must not be zero.
pub open spec fn fat_type_computable(f: Fat) -> bool {
    has_fat32_length(f) || f.sector_size > 0
}

/// Unless the FAT32 check decides, the metadata sectors fit in 32 bits: the
/// FAT size is then a 16-bit value (or zero) and every other term is small.
pub proof fn lemma_metadata_fits_u32(f: Fat)
    requires
        !has_fat32_length(f),
        f.sector_size > 0,
    ensures
        0 <= root_dir_sectors_of(f) <= 65535 * 32 + 65534,
        0 <= fat_size_of(f) <= 65535,
        metadata_sectors_of(f) <= u32::MAX,
{
    let num = f.dir_entries * 32 + (f.sector_size - 1);
    let d = f.sector_size as int;
    assert(0 <= num <= 65535 * 32 + 65534);
    assert(num / d <= num) by (nonlinear_arith)
        requires
            0 <= num,
            d >= 1,
    ;
    assert(num / d >= 0) by (nonlinear_arith)
        requires
            0 <= num,
            d >= 1,
    ;
    let fats = f.fats as int;
    let size = fat_size_of(f);
    assert(fats * size <= 255 * 65535) by (nonlinear_arith)
        requires
            0 <= fats <= 255,
            0 <= size <= 65535,
    ;
    assert(fats * size >= 0) by (nonlinear_arith)
        requires
            0 <= fats <= 255,
            0 <= size <= 65535,
    ;
}

/// Sectors per cluster, a zero count taken as one.
pub open spec fn cluster_sectors_of(f: Fat) -> int {
    if f.sec_per_clus == 0 { 1 } else { f.sec_per_clus as int }
}

/// Unless the FAT32 check decides, a boot sector is FAT12 exactly when its
/// data area (the sectors after the reserved sectors, the FATs and the root
/// directory) holds fewer than 4085 whole clusters: fewer data sectors than
/// 4085 clusters of `sec_per_clus` sectors. So, keeping everything else,
/// more sectors per cluster can turn FAT16 into FAT12 but never the reverse.
pub proof fn lemma_fat12_below_4085_clusters(f: Fat, g: Fat)
    ensures
        !has_fat32_length(f) ==> (fat_type_of(f) == FatType::Fat12 <==> total_sectors_of(f)
            < metadata_sectors_of(f) + 4085 * cluster_sectors_of(f)),
        !has_fat32_length(f) ==> (fat_type_of(f) == FatType::Fat12 || fat_type_of(f) == FatType::Fat16),
        has_fat32_length(f) ==> fat_type_of(f) == FatType::Fat32,
        g == (Fat { sec_per_clus: g.sec_per_clus, ..f }) && cluster_sectors_of(f) <= cluster_sectors_of(g)
            && fat_type_of(f) == FatType::Fat12 ==> fat_type_of(g) == FatType::Fat12,
{
    lemma_cluster_count_threshold(f);
    lemma_cluster_count_threshold(g);
    if g == (Fat { sec_per_clus: g.sec_per_clus, ..f }) {
        assert(total_sectors_of(g) == total_sectors_of(f));
        assert(metadata_sectors_of(g) == metadata_sectors_of(f));
        let s = cluster_sectors_of(f);
        let t = cluster_sectors_of(g);
        assert(s <= t ==> 4085 * s <= 4085 * t) by (nonlinear_arith);
    }
}

/// The cluster count is below 4085 exactly when the data sectors are fewer
/// than 4085 clusters.
proof fn lemma_cluster_count_threshold(f: Fat)
    ensures
        cluster_count_of(f) < 4085 <==> total_sectors_of(f) < metadata_sectors_of(f) + 4085
            * cluster_sectors_of(f),
{
    let total = total_sectors_of(f);
    let meta = metadata_sectors_of(f);
    let data = if total >= meta { total - meta } else { 0 };
    let s = cluster_sectors_of(f);
    assert(cluster_count_of(f) == data / s);
    assert(s >= 1);
    assert(data >= 0);
    assert(data / s < 4085 <==> data < 4085 * s) by (nonlinear_arith)
        requires
            s >= 1,
            data >= 0,
    ;
}

/// Offset in the shared region of the fields common to FAT16 and FAT32.
pub open spec fn common_offset(t: FatType) -> int {
    match t {
        FatType::Fat32 => FAT32_COMMON_OFFSET as int,
        _ => 0,
    }
}

/// The volume id of a boot sector.
pub open spec fn vol_id_of(f: Fat) -> int {
    le32(f.shared@, common_offset(fat_type_of(f)) + 3)
}

/// The bytes of the volume label of a boot sector.
pub open spec fn vol_label_of(f: Fat) -> Seq<u8> {
    let off = common_offset(fat_type_of(f));
    f.shared@.subrange(off + 7, off + 18)
}

/// The volume id and the label come from the same common fields: those that
/// `fat16` decodes for a FAT12 or FAT16 boot sector, those that `fat32`
/// decodes for a FAT32 one. For FAT12 and FAT16 the label is bytes 43..54
/// of the sector (7..18 of the shared region), for FAT32 bytes 71..82.
pub proof fn lemma_id_and_label_fields(f: Fat, c16: Fat16And32Fields, c32: Fat32Fields)
    requires
        common_layout(c16, f.shared@, 0),
        fat32_layout(c32, f.shared@),
    ensures
        fat_type_of(f) == FatType::Fat12 || fat_type_of(f) == FatType::Fat16 ==> {
            &&& vol_label_of(f) == c16.vol_label@
            &&& vol_id_of(f) == c16.vol_id
            &&& vol_label_of(f) == f.shared@.subrange(7, 18)
        },
        fat_type_of(f) == FatType::Fat32 ==> {
            &&& vol_label_of(f) == c32.common.vol_label@
            &&& vol_id_of(f) == c32.common.vol_id
            &&& vol_label_of(f) == f.shared@.subrange(35, 46)
        },
{
}

/// A volume id as text: `XXXX-XXXX`, upper-case hexadecimal.
pub open spec fn vol_id_text(v: int) -> Seq<char> {
    hex4((v / 65536) as nat) + "-"@ + hex4((v % 65536) as nat)
}

/// A volume label as text: decoded, with trailing spaces removed.
pub open spec fn vol_label_text(label: Seq<u8>) -> Seq<char> {
    trim_end_spaces(utf8_lossy(label))
}

/// Renders a volume id as `{:04X}-{:04X}` of its upper and lower halves.
fn vol_id(id: u32) -> (s: String)
    ensures
        s@ == vol_id_text(id as int),
{
    let high = id >> 16;
    let low = id & 0xFFFF;
    assert(id >> 16u32 == id / 65536) by (bit_vector);
    assert(id & 0xFFFFu32 == id % 65536) by (bit_vector);
    let mut s = hex4_string(high);
    s.append("-");
    let low_text = hex4_string(low);
    s.append(low_text.as_str());
    s
}

/// Decodes a volume label and removes its trailing spaces.
fn vol_label(label: &[u8; 11]) -> (r: Result<String, UnicodeError>)
    ensures
        match r {
            Ok(s) => s@ == vol_label_text(label@),
            Err(_) => false,
        },
{
    let text = utf8_lossy_string(label.as_slice());
    Ok(trim_end_spaces_string(text.as_str()))
}

fn read_le16(b: &[u8], off: usize) -> (v: u16)
    requires
        off + 2 <= b@.len(),
    ensures
        v == le16(b@, off as int),
{
    b[off] as u16 + (b[off + 1] as u16) * 256
}

fn read_le32(b: &[u8], off: usize) -> (v: u32)
    requires
        off + 4 <= b@.len(),
    ensures
        v == le32(b@, off as int),
{
    b[off] as u32 + (b[off + 1] as u32) * 256 + (b[off + 2] as u32) * 65536 + (b[off + 3] as u32)
        * 16777216
}

/// The `N` bytes at `off` in `b`.
fn read_array<const N: usize>(b: &[u8], off: usize) -> (a: [u8; N])
    requires
        off + N <= b@.len(),
    ensures
        a@ == b@.subrange(off as int, off + N),
{
    let mut a: [u8; N] = vstd::array::array_fill_for_copy_types(0u8);
    let mut i: usize = 0;
    let len = b.len();
    while i < N
        invariant
            i <= N,
            off + N <= b@.len(),
            b@.len() == len,
            a@.len() == N,
            forall|j: int| 0 <= j < i ==> a@[j] == b@[off + j],
        decreases N - i,
    {
        a.set(i, b[off + i]);
        i = i + 1;
    }
    assert(a@ =~= b@.subrange(off as int, off + N));
    a
}

/// Decodes the fields common to FAT16 and FAT32 at `off` in `b`.
fn read_common(b: &[u8], off: usize) -> (c: Fat16And32Fields)
    requires
        off + 26 <= b@.len(),
    ensures
        common_layout(c, b@, off as int),
{
    Fat16And32Fields {
        drive_number: b[off],
        state: b[off + 1],
        signature: b[off + 2],
        vol_id: read_le32(b, off + 3),
        vol_label: read_array(b, off + 7),
        fs_type: read_array(b, off + 18),
    }
}

impl Fat {
    /// Decodes the boot sector at the start of `bytes`; `None` when fewer
    /// than `SIZE` bytes are given.
    pub fn from_bytes(bytes: &[u8]) -> (r: Option<Fat>)
        ensures
            match r {
                Some(f) => fat_layout(f, bytes@),
                None => bytes@.len() < SIZE,
            },
    {
        if bytes.len() < SIZE {
            return None;
        }
        Some(Fat {
            ignored: read_array(bytes, 0),
            system_id: read_array(bytes, 3),
            sector_size: read_le16(bytes, 11),
            sec_per_clus: bytes[13],
            _reserved: read_le16(bytes, 14),
            fats: bytes[16],
            dir_entries: read_le16(bytes, 17),
            sectors: read_le16(bytes, 19),
            media: bytes[21],
            fat_length: read_le16(bytes, 22),
            secs_track: read_le16(bytes, 24),
            heads: read_le16(bytes, 26),
            hidden: read_le32(bytes, 28),
            total_sect: read_le32(bytes, 32),
            shared: read_array(bytes, 36),
        })
    }

    /// The FAT variant: FAT32 by the kernel's FAT-length check, otherwise
    /// FAT12 or FAT16 by the estimated cluster count (below 4085 is FAT12).
    pub fn fat_type(&self) -> (r: FatType)
        requires
            fat_type_computable(*self),
        ensures
            r == fat_type_of(*self),
    {
        // Linux kernel's primary FAT32 check.
        if self.fat_length == 0 && self.fat32().fat32_length != 0 {
            return FatType::Fat32;
        }
        // Estimate cluster count to distinguish between FAT12 and FAT16.
        proof {
            lemma_metadata_fits_u32(*self);
        }
        let total_sectors = if self.sectors == 0 {
            self.total_sect
        } else {
            self.sectors as u32
        };
        let root_dir_sectors = ((self.dir_entries as u32 * 32) + (self.sector_size as u32 - 1))
            / self.sector_size as u32;
        let fat_size = if self.fat_length == 0 {
            self.fat32().fat32_length
        } else {
            self.fat_length as u32
        };
        let metadata = (self._reserved as u32) + (self.fats as u32 * fat_size) + root_dir_sectors;
        let data_sectors = total_sectors.saturating_sub(metadata);
        let per_cluster: u32 = if self.sec_per_clus == 0 {
            1
        } else {
            self.sec_per_clus as u32
        };
        let cluster_count = data_sectors / per_cluster;
        if cluster_count < 4085 {
            FatType::Fat12
        } else {
            FatType::Fat16
        }
    }

    /// Returns the filesystem id
    pub fn uuid(&self) -> (r: Result<String, UnicodeError>)
        requires
            fat_type_computable(*self),
        ensures
            match r {
                Ok(s) => s@ == vol_id_text(vol_id_of(*self)),
                Err(_) => false,
            },
    {
        Ok(match self.fat_type() {
            FatType::Fat12 | FatType::Fat16 => vol_id(self.fat16().common.vol_id),
            FatType::Fat32 => vol_id(self.fat32().common.vol_id),
        })
    }

    /// Returns the volume label
    pub fn label(&self) -> (r: Result<String, UnicodeError>)
        requires
            fat_type_computable(*self),
        ensures
            match r {
                Ok(s) => s@ == vol_label_text(vol_label_of(*self)),
                Err(_) => false,
            },
    {
        match self.fat_type() {
            FatType::Fat12 | FatType::Fat16 => vol_label(&self.fat16().common.vol_label),
            FatType::Fat32 => vol_label(&self.fat32().common.vol_label),
        }
    }

    /// The shared region read in the FAT12/FAT16 layout.
    pub fn fat16(&self) -> (r: Fat16Fields)
        ensures
            common_layout(r.common, self.shared@, 0),
    {
        Fat16Fields { common: read_common(self.shared.as_slice(), 0) }
    }

    /// The shared region read in the FAT32 layout.
    pub fn fat32(&self) -> (r: Fat32Fields)
        ensures
            fat32_layout(r, self.shared@),
    {
        let b = self.shared.as_slice();
        let reserved2: [u16; 6] = [
            read_le16(b, 16),
            read_le16(b, 18),
            read_le16(b, 20),
            read_le16(b, 22),
            read_le16(b, 24),
            read_le16(b, 26),
        ];
        let r = Fat32Fields {
            fat32_length: read_le32(b, 0),
            fat32_flags: read_le16(b, 4),
            fat32_version: read_array(b, 6),
            root_cluster: read_le32(b, 8),
            info_sector: read_le16(b, 12),
            backup_boot: read_le16(b, 14),
            reserved2,
            common: read_common(b, FAT32_COMMON_OFFSET),
        };
        assert forall|i: int| 0 <= i < 6 implies #[trigger] r.reserved2@[i] == le16(b@, 16 + 2 * i) by {
            assert(0 <= i < 6);
        }
        r
    }
}

} // verus!
