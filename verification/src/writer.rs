//! Applying a partitioning plan to a disk: validation of the planned
//! changes, and the ordered steps that write them.

use vstd::prelude::*;
use crate::text::{decimal, decimal_string};

verus! {

broadcast use vstd::std_specs::hash::group_hash_axioms;

/// Size of the blocks in which regions are zeroed.
pub const ZERO_CHUNK_SIZE: u64 = 65_536;

/// Most bytes zeroed at the start of a disk or a partition (2 MiB).
pub const ZERO_PREFIX_MAX: u64 = 2 * 1024 * 1024;

/// Type GUID of a basic data partition, `EBD0A0A2-B9E5-4433-87C0-68B6B72699C7`.
pub const BASIC_PARTITION_TYPE: u128 = 0xEBD0A0A2_B9E5_4433_87C0_68B6B72699C7;

/// A block device to write to.
#[derive(Debug, Clone)]
pub struct BlockDevice {
    /// Path of the device node
    pub device: String,
    /// Size of the device in bytes
    pub size: u64,
    /// Logical block size in bytes
    pub logical_block_size: u64,
}

/// The device node of partition `index` of the disk whose node is `device`:
/// the kernel puts a `p` between a disk name that ends in a digit and the
/// partition number (`nvme0n1p2`), and nothing otherwise (`sda2`).
pub open spec fn partition_path_of(device: Seq<char>, index: u32) -> Seq<char> {
    if device.len() > 0 && '0' <= device.last() <= '9' {
        device + "p"@ + decimal(index as nat)
    } else {
        device + decimal(index as nat)
    }
}

impl BlockDevice {
    /// The device node of partition `index` of this disk.
    pub fn partition_path(&self, index: u32) -> (r: String)
        ensures
            r@ == partition_path_of(self.device@, index),
    {
        let len = self.device.as_str().unicode_len();
        let mut r = self.device.clone();
        if len > 0 {
            let last = self.device.as_str().get_char(len - 1);
            if '0' <= last && last <= '9' {
                r.append("p");
            }
        }
        let number = decimal_string(index);
        r.append(number.as_str());
        r
    }
}

/// GPT attributes of a planned partition.
#[derive(Debug, Clone)]
pub struct GptAttributes {
    /// Partition type GUID
    pub type_guid: u128,
    /// Partition name
    pub name: Option<String>,
}

/// A planned change to the partition table.
#[derive(Debug, Clone)]
pub enum Change {
    /// Add a partition spanning bytes `start..end`.
    AddPartition { start: u64, end: u64, partition_id: u32, attributes: Option<GptAttributes> },
    /// Delete a partition.
    DeletePartition { partition_id: u32, original_index: usize },
}

/// A region of the planned layout.
#[derive(Debug, Clone, Copy, PartialEq, Eq)]
pub struct Region {
    pub start: u64,
    pub end: u64,
    pub partition_id: Option<u32>,
}

/// The changes a planner decided on, and the layout they lead to.
#[derive(Debug, Clone)]
pub struct Planner {
    /// Size in bytes of the disk the layout is planned for
    pub disk_size: u64,
    pub changes: Vec<Change>,
    pub wipe_disk: bool,
    pub layout: Vec<Region>,
}

/// Errors that the validation and planning of changes report.
#[derive(Debug, Clone, Copy, PartialEq, Eq, Structural)]
pub enum WriteError {
    /// The device's size differs from the size the changes were planned for
    DeviceSizeMismatch { planned: u64, device: u64 },
    /// A partition ID was used multiple times
    DuplicatePartitionId(u32),
    /// The device reports a block size GPT cannot address
    UnsupportedBlockSize(u64),
}

/// A region of a disk to fill with zeros.
#[derive(Debug, Clone, Copy, PartialEq, Eq, Structural)]
pub struct ZeroRegion {
    pub offset: u64,
    pub size: u64,
}

/// The writes that zero a region: after seeking to `offset`, `full_chunks`
/// blocks of `ZERO_CHUNK_SIZE` zeros, then `remainder` zeros.
#[derive(Debug, Clone, Copy, PartialEq, Eq, Structural)]
pub struct ZeroWrites {
    pub offset: u64,
    pub full_chunks: u64,
    pub remainder: u64,
}

/// One step of writing a plan to disk. The steps run in order; the first
/// that fails ends the write with its error.
#[derive(Debug, Clone)]
pub enum DiskStep {
    /// Remove the kernel's partitions of the device.
    RemoveKernelPartitions,
    /// Stop with this error.
    Fail(WriteError),
    /// Zero the disk headers.
    ZeroDiskHeaders(ZeroRegion),
    /// Write a protective MBR covering `lb_size` blocks.
    WriteProtectiveMbr { lb_size: u32 },
    /// Create a new GPT table on the device.
    CreateGpt { writable: bool, block_size: u64 },
    /// Write the new GPT table in place.
    WriteGptInPlace,
    /// Open the GPT table of the device.
    OpenGpt { writable: bool, block_size: u64 },
    /// Remove a partition from the GPT table.
    RemoveGptPartition { partition_id: u32, original_index: usize },
    /// Add a partition to the GPT table.
    AddGptPartition { name: String, partition_id: u32, first_lba: u64, length_lba: u64, type_guid: u128 },
    /// Write the GPT table to disk and sync it.
    WriteGpt,
    /// Zero the start of a new partition.
    ZeroPartitionPrefix(ZeroRegion),
    /// Have the kernel create partitions from the GPT table.
    CreateKernelPartitions { block_size: u64 },
    /// Wait for the device node of a partition to appear.
    WaitForPartitionNode { partition_id: u32 },
}

/// A `DiskStep` with its partition name as text.
pub ghost enum DiskStepView {
    RemoveKernelPartitions,
    Fail(WriteError),
    ZeroDiskHeaders(ZeroRegion),
    WriteProtectiveMbr { lb_size: u32 },
    CreateGpt { writable: bool, block_size: u64 },
    WriteGptInPlace,
    OpenGpt { writable: bool, block_size: u64 },
    RemoveGptPartition { partition_id: u32, original_index: usize },
    AddGptPartition { name: Seq<char>, partition_id: u32, first_lba: u64, length_lba: u64, type_guid: u128 },
    WriteGpt,
    ZeroPartitionPrefix(ZeroRegion),
    CreateKernelPartitions { block_size: u64 },
    WaitForPartitionNode { partition_id: u32 },
}

impl View for DiskStep {
    type V = DiskStepView;

    open spec fn view(&self) -> DiskStepView {
        match *self {
            DiskStep::RemoveKernelPartitions => DiskStepView::RemoveKernelPartitions,
            DiskStep::Fail(e) => DiskStepView::Fail(e),
            DiskStep::ZeroDiskHeaders(r) => DiskStepView::ZeroDiskHeaders(r),
            DiskStep::WriteProtectiveMbr { lb_size } => DiskStepView::WriteProtectiveMbr { lb_size },
            DiskStep::CreateGpt { writable, block_size } => DiskStepView::CreateGpt { writable, block_size },
            DiskStep::WriteGptInPlace => DiskStepView::WriteGptInPlace,
            DiskStep::OpenGpt { writable, block_size } => DiskStepView::OpenGpt { writable, block_size },
            DiskStep::RemoveGptPartition { partition_id, original_index } => DiskStepView::RemoveGptPartition {
                partition_id,
                original_index,
            },
            DiskStep::AddGptPartition { name, partition_id, first_lba, length_lba, type_guid } => DiskStepView::AddGptPartition {
                name: name@,
                partition_id,
                first_lba,
                length_lba,
                type_guid,
            },
            DiskStep::WriteGpt => DiskStepView::WriteGpt,
            DiskStep::ZeroPartitionPrefix(r) => DiskStepView::ZeroPartitionPrefix(r),
            DiskStep::CreateKernelPartitions { block_size } => DiskStepView::CreateKernelPartitions { block_size },
            DiskStep::WaitForPartitionNode { partition_id } => DiskStepView::WaitForPartitionNode { partition_id },
        }
    }
}

/// The views of a sequence of steps.
pub open spec fn step_views(s: Seq<DiskStep>) -> Seq<DiskStepView> {
    s.map_values(|d: DiskStep| d@)
}

/// The partition ids in use after applying `changes` in order: an addition
/// puts its id in use, a deletion frees it.
pub open spec fn live_ids(changes: Seq<Change>) -> Set<u32>
    decreases changes.len(),
{
    if changes.len() == 0 {
        Set::empty()
    } else {
        let before = live_ids(changes.drop_last());
        match changes.last() {
            Change::AddPartition { partition_id, .. } => before.insert(partition_id),
            Change::DeletePartition { partition_id, .. } => before.remove(partition_id),
        }
    }
}

/// Change `k` adds a partition whose id is already in use.
pub open spec fn is_duplicate_at(changes: Seq<Change>, k: int) -> bool {
    &&& 0 <= k < changes.len()
    &&& changes[k] is AddPartition
    &&& live_ids(changes.take(k)).contains(changes[k]->AddPartition_partition_id)
}

/// No change adds a partition whose id is in use.
pub open spec fn changes_valid(changes: Seq<Change>) -> bool {
    forall|k: int| 0 <= k < changes.len() ==> !#[trigger] is_duplicate_at(changes, k)
}

/// Change `k` is the first that adds a partition whose id is in use.
pub open spec fn is_first_duplicate(changes: Seq<Change>, k: int) -> bool {
    &&& is_duplicate_at(changes, k)
    &&& forall|j: int| 0 <= j < k ==> !#[trigger] is_duplicate_at(changes, j)
}

/// Appending a change to a valid list keeps it valid exactly when the change
/// is a deletion or adds an id that is not in use.
pub proof fn lemma_append_change_validity(changes: Seq<Change>, c: Change)
    requires
        changes_valid(changes),
    ensures
        changes_valid(changes.push(c)) <==> match c {
            Change::AddPartition { partition_id, .. } => !live_ids(changes).contains(partition_id),
            Change::DeletePartition { .. } => true,
        },
{
    let all = changes.push(c);
    assert forall|k: int| 0 <= k < changes.len() implies all.take(k) == changes.take(k) by {
        assert(all.take(k) =~= changes.take(k));
    }
    assert(all.take(changes.len() as int) =~= changes);
    if changes_valid(all) {
        assert(!is_duplicate_at(all, changes.len() as int));
    }
    assert forall|k: int| 0 <= k < changes.len() implies is_duplicate_at(all, k) == is_duplicate_at(
        changes,
        k,
    ) by {
        assert(all.take(k) =~= changes.take(k));
    }
}

/// Validates the planned changes: a partition id may not be added while it
/// is in use; a deletion frees it. Reports the first duplicate id.
pub fn check_partition_ids(changes: &Vec<Change>) -> (r: Result<(), WriteError>)
    ensures
        r is Ok <==> changes_valid(changes@),
        r matches Err(e) ==> exists|k: int|
            #[trigger] is_first_duplicate(changes@, k) && e == WriteError::DuplicatePartitionId(
                changes@[k]->AddPartition_partition_id,
            ),
{
    let mut used_ids: std::collections::HashSet<u32> = std::collections::HashSet::new();
    let mut i: usize = 0;
    assert(changes@.take(0) =~= Seq::<Change>::empty());
    while i < changes.len()
        invariant
            i <= changes@.len(),
            used_ids@ == live_ids(changes@.take(i as int)),
            forall|j: int| 0 <= j < i ==> !#[trigger] is_duplicate_at(changes@, j),
        decreases changes@.len() - i,
    {
        assert(changes@.take(i + 1).drop_last() =~= changes@.take(i as int));
        match &changes[i] {
            Change::AddPartition { partition_id, .. } => {
                if !used_ids.insert(*partition_id) {
                    assert(is_first_duplicate(changes@, i as int));
                    return Err(WriteError::DuplicatePartitionId(*partition_id));
                }
            },
            Change::DeletePartition { partition_id, .. } => {
                used_ids.remove(partition_id);
            },
        }
        i = i + 1;
    }
    assert(changes@.take(i as int) =~= changes@);
    Ok(())
}

/// The writes that zero `region`.
pub open spec fn zero_writes_of(region: ZeroRegion) -> ZeroWrites {
    ZeroWrites {
        offset: region.offset,
        full_chunks: (region.size / ZERO_CHUNK_SIZE) as u64,
        remainder: (region.size % ZERO_CHUNK_SIZE) as u64,
    }
}

/// Splits the zeroing of a region into whole chunks and a remainder.
pub fn zero_region(region: ZeroRegion) -> (w: ZeroWrites)
    ensures
        w == zero_writes_of(region),
        w.full_chunks * ZERO_CHUNK_SIZE + w.remainder == region.size,
        w.remainder < ZERO_CHUNK_SIZE,
{
    ZeroWrites {
        offset: region.offset,
        full_chunks: region.size / ZERO_CHUNK_SIZE,
        remainder: region.size % ZERO_CHUNK_SIZE,
    }
}

/// The region wiped to clear the disk headers: the first 2 MiB.
pub open spec fn disk_headers_region() -> ZeroRegion {
    ZeroRegion { offset: 0, size: ZERO_PREFIX_MAX }
}

/// Zero out disk headers by wiping first 2MiB of the disk
pub fn zero_disk_headers() -> (r: ZeroRegion)
    ensures
        r == disk_headers_region(),
{
    ZeroRegion { offset: 0, size: ZERO_PREFIX_MAX }
}

/// The prefix of a region of `size` bytes at `offset` that is zeroed: at most 2 MiB.
pub open spec fn partition_prefix_region(offset: u64, size: u64) -> ZeroRegion {
    ZeroRegion { offset, size: if size < ZERO_PREFIX_MAX { size } else { ZERO_PREFIX_MAX } }
}

/// Zero out up to 2MiB of a region
pub fn zero_partition_prefix(offset: u64, size: u64) -> (r: ZeroRegion)
    ensures
        r == partition_prefix_region(offset, size),
{
    let to_zero = if size < ZERO_PREFIX_MAX { size } else { ZERO_PREFIX_MAX };
    ZeroRegion { offset, size: to_zero }
}

/// The zeroed prefix of a partition starts where the partition does and
/// covers at most 2 MiB and at most the partition: all of it when the
/// partition is no larger than 2 MiB.
pub proof fn lemma_partition_prefix_bounded(offset: u64, size: u64)
    ensures
        partition_prefix_region(offset, size).offset == offset,
        partition_prefix_region(offset, size).size <= ZERO_PREFIX_MAX,
        partition_prefix_region(offset, size).size <= size,
        size <= ZERO_PREFIX_MAX ==> partition_prefix_region(offset, size).size == size,
{
}

/// Whether GPT can address blocks of `block_size` bytes, as
/// `gpt::disk::LogicalBlockSize::try_from` decides.
pub open spec fn gpt_block_size_ok(block_size: u64) -> bool {
    block_size == 512 || block_size == 4096
}

/// Asks `gpt::disk::LogicalBlockSize::try_from(u64)` whether GPT supports
/// a logical block size. Trusted: by gpt's source, the conversion succeeds
/// exactly for 512 and 4096.
#[verifier::external_body]
fn gpt_supports_block_size(block_size: u64) -> (r: bool)
    ensures
        r == gpt_block_size_ok(block_size),
{
    gpt::disk::LogicalBlockSize::try_from(block_size).is_ok()
}

/// The number of blocks a protective MBR covers on a disk of `size` bytes:
/// all blocks but the first, capped at `0xFFFF_FFFF`.
pub open spec fn protective_mbr_blocks(size: u64, block_size: u64) -> u32 {
    let total_lba = size / block_size;
    let covered = if total_lba >= 1 { total_lba - 1 } else { 0 };
    if covered <= u32::MAX { covered as u32 } else { 0xFFFF_FFFFu32 }
}

fn protective_mbr_size(size: u64, block_size: u64) -> (r: u32)
    requires
        block_size > 0,
    ensures
        r == protective_mbr_blocks(size, block_size),
{
    // Convert total bytes to Logical Block Allocation sectors, subtract 1 as per GPT spec
    let total_lba = size / block_size;
    let covered = total_lba.saturating_sub(1);
    if covered <= u32::MAX as u64 {
        covered as u32
    } else {
        0xFFFF_FFFF
    }
}

/// The GPT step of an added partition: byte offsets become blocks; the
/// type and name come from the GPT attributes, else a basic data partition
/// with an empty name.
pub open spec fn add_step_of(
    start: u64,
    end: u64,
    partition_id: u32,
    attributes: Option<GptAttributes>,
    block_size: u64,
) -> DiskStepView {
    DiskStepView::AddGptPartition {
        name: match attributes {
            Some(a) => match a.name {
                Some(n) => n@,
                None => Seq::empty(),
            },
            None => Seq::empty(),
        },
        partition_id,
        first_lba: (start / block_size) as u64,
        length_lba: ((end - start) / (block_size as int)) as u64,
        type_guid: match attributes {
            Some(a) => a.type_guid,
            None => BASIC_PARTITION_TYPE,
        },
    }
}

/// The GPT step of a change.
pub open spec fn table_step_of(c: Change, block_size: u64) -> DiskStepView {
    match c {
        Change::AddPartition { start, end, partition_id, attributes } => add_step_of(
            start,
            end,
            partition_id,
            attributes,
            block_size,
        ),
        Change::DeletePartition { partition_id, original_index } => DiskStepView::RemoveGptPartition {
            partition_id,
            original_index,
        },
    }
}

/// The GPT steps of the changes, in order.
pub open spec fn table_steps_of(changes: Seq<Change>, block_size: u64) -> Seq<DiskStepView> {
    changes.map_values(|c: Change| table_step_of(c, block_size))
}

/// The zeroing of the start of each added partition, in order.
pub open spec fn zero_steps_of(changes: Seq<Change>) -> Seq<DiskStepView>
    decreases changes.len(),
{
    if changes.len() == 0 {
        Seq::empty()
    } else {
        let before = zero_steps_of(changes.drop_last());
        match changes.last() {
            Change::AddPartition { start, end, .. } => before.push(
                DiskStepView::ZeroPartitionPrefix(partition_prefix_region(start, (end - start) as u64)),
            ),
            Change::DeletePartition { .. } => before,
        }
    }
}

/// The waits for the device node of each partition of the layout, in order.
pub open spec fn wait_steps_of(layout: Seq<Region>) -> Seq<DiskStepView>
    decreases layout.len(),
{
    if layout.len() == 0 {
        Seq::empty()
    } else {
        let before = wait_steps_of(layout.drop_last());
        match layout.last().partition_id {
            Some(id) => before.push(DiskStepView::WaitForPartitionNode { partition_id: id }),
            None => before,
        }
    }
}

/// Every added partition ends at or after its start.
pub open spec fn adds_ordered(changes: Seq<Change>) -> bool {
    forall|k: int|
        0 <= k < changes.len() && #[trigger] changes[k] is AddPartition ==> changes[k]->AddPartition_start
            <= changes[k]->AddPartition_end
}

/// The steps that apply `planner`'s changes to `device`, writing them when
/// `writable` and only simulating them otherwise.
pub open spec fn apply_steps_of(device: BlockDevice, planner: Planner, writable: bool) -> Seq<DiskStepView> {
    let block_size = device.logical_block_size;
    // Remove known partitions pre wipe
    let remove = if writable { seq![DiskStepView::RemoveKernelPartitions] } else { seq![] };
    if !gpt_block_size_ok(block_size) {
        remove + seq![DiskStepView::Fail(WriteError::UnsupportedBlockSize(block_size))]
    } else {
        let open = if planner.wipe_disk {
            (if writable {
                seq![
                    DiskStepView::ZeroDiskHeaders(disk_headers_region()),
                    DiskStepView::WriteProtectiveMbr { lb_size: protective_mbr_blocks(device.size, block_size) },
                ]
            } else {
                seq![]
            }) + seq![DiskStepView::CreateGpt { writable, block_size }] + (if writable {
                seq![DiskStepView::WriteGptInPlace]
            } else {
                seq![]
            })
        } else {
            seq![DiskStepView::OpenGpt { writable, block_size }]
        };
        let finish = if writable {
            seq![DiskStepView::WriteGpt] + zero_steps_of(planner.changes@) + seq![
                DiskStepView::CreateKernelPartitions { block_size },
            ] + wait_steps_of(planner.layout@)
        } else {
            seq![]
        };
        remove + open + table_steps_of(planner.changes@, block_size) + finish
    }
}

/// Whether a step changes what is on the disk or in the kernel's view of it.
pub open spec fn modifies_disk(s: DiskStepView) -> bool {
    match s {
        DiskStepView::RemoveKernelPartitions => true,
        DiskStepView::ZeroDiskHeaders(_) => true,
        DiskStepView::WriteProtectiveMbr { .. } => true,
        DiskStepView::CreateGpt { writable, .. } => writable,
        DiskStepView::WriteGptInPlace => true,
        DiskStepView::OpenGpt { writable, .. } => writable,
        DiskStepView::WriteGpt => true,
        DiskStepView::ZeroPartitionPrefix(_) => true,
        DiskStepView::CreateKernelPartitions { .. } => true,
        _ => false,
    }
}

/// Simulating changes writes nothing: no step of a plan that is not
/// writable changes the disk or the kernel's view of it.
pub proof fn lemma_simulation_leaves_disk_alone(device: BlockDevice, planner: Planner)
    ensures
        forall|i: int|
            0 <= i < apply_steps_of(device, planner, false).len() ==> !modifies_disk(
                #[trigger] apply_steps_of(device, planner, false)[i],
            ),
{
    let steps = apply_steps_of(device, planner, false);
    let block_size = device.logical_block_size;
    let table = table_steps_of(planner.changes@, block_size);
    assert forall|i: int| 0 <= i < table.len() implies !modifies_disk(#[trigger] table[i]) by {
        let c = planner.changes@[i];
        match c {
            Change::AddPartition { .. } => {},
            Change::DeletePartition { .. } => {},
        }
    }
    if gpt_block_size_ok(block_size) {
        let open = if planner.wipe_disk {
            seq![DiskStepView::CreateGpt { writable: false, block_size }]
        } else {
            seq![DiskStepView::OpenGpt { writable: false, block_size }]
        };
        assert(steps =~= open + table);
    }
}

/// Every step that creates or opens the GPT table does so with the
/// writability of the write itself, on the device's block size: a write
/// opens its table writable (so that the table can be written), a
/// simulation read-only. A write whose block size GPT supports creates or
/// opens the table exactly once, before it writes the table.
pub proof fn lemma_table_access_matches_write(device: BlockDevice, planner: Planner, writable: bool)
    ensures
        forall|i: int|
            0 <= i < apply_steps_of(device, planner, writable).len() ==> match #[trigger] apply_steps_of(
                device,
                planner,
                writable,
            )[i] {
                DiskStepView::CreateGpt { writable: w, block_size } => w == writable && block_size
                    == device.logical_block_size,
                DiskStepView::OpenGpt { writable: w, block_size } => w == writable && block_size
                    == device.logical_block_size,
                _ => true,
            },
        gpt_block_size_ok(device.logical_block_size) && writable ==> exists|i: int, j: int|
            #![trigger apply_steps_of(device, planner, writable)[i], apply_steps_of(device, planner, writable)[j]]
            0 <= i < j < apply_steps_of(device, planner, writable).len() && (apply_steps_of(
                device,
                planner,
                writable,
            )[i] == (if planner.wipe_disk {
                DiskStepView::CreateGpt { writable: true, block_size: device.logical_block_size }
            } else {
                DiskStepView::OpenGpt { writable: true, block_size: device.logical_block_size }
            })) && apply_steps_of(device, planner, writable)[j] == DiskStepView::WriteGpt,
{
    let steps = apply_steps_of(device, planner, writable);
    let block_size = device.logical_block_size;
    let table = table_steps_of(planner.changes@, block_size);
    assert forall|i: int| 0 <= i < table.len() implies !(#[trigger] table[i] is CreateGpt)
        && !(table[i] is OpenGpt) by {
        match planner.changes@[i] {
            Change::AddPartition { .. } => {},
            Change::DeletePartition { .. } => {},
        }
    }
    lemma_zero_steps_are_zeroing(planner.changes@);
    lemma_wait_steps_are_waits(planner.layout@);
    let zs = zero_steps_of(planner.changes@);
    let ws = wait_steps_of(planner.layout@);
    if gpt_block_size_ok(block_size) {
        let remove = if writable { seq![DiskStepView::RemoveKernelPartitions] } else { seq![] };
        let open = if planner.wipe_disk {
            (if writable {
                seq![
                    DiskStepView::ZeroDiskHeaders(disk_headers_region()),
                    DiskStepView::WriteProtectiveMbr { lb_size: protective_mbr_blocks(device.size, block_size) },
                ]
            } else {
                seq![]
            }) + seq![DiskStepView::CreateGpt { writable, block_size }] + (if writable {
                seq![DiskStepView::WriteGptInPlace]
            } else {
                seq![]
            })
        } else {
            seq![DiskStepView::OpenGpt { writable, block_size }]
        };
        let finish = if writable {
            seq![DiskStepView::WriteGpt] + zs + seq![DiskStepView::CreateKernelPartitions { block_size }] + ws
        } else {
            seq![]
        };
        assert(steps =~= remove + open + table + finish);
        assert forall|i: int| 0 <= i < steps.len() implies match #[trigger] steps[i] {
            DiskStepView::CreateGpt { writable: w, block_size: b } => w == writable && b == block_size,
            DiskStepView::OpenGpt { writable: w, block_size: b } => w == writable && b == block_size,
            _ => true,
        } by {
            let a = remove.len() + open.len();
            let t = a + table.len();
            if i < remove.len() {
            } else if i < a {
            } else if i < t {
                assert(steps[i] == table[i - a]);
            } else {
                let k = i - t;
                assert(steps[i] == finish[k]);
                if k > 0 && k < 1 + zs.len() {
                    assert(finish[k] == zs[k - 1]);
                } else if k > 1 + zs.len() {
                    assert(finish[k] == ws[k - 2 - zs.len()]);
                }
            }
        }
        if writable {
            let i: int = remove.len() + (if planner.wipe_disk { 2int } else { 0int });
            let j: int = (remove.len() + open.len() + table.len()) as int;
            assert(steps[i] == open[i - remove.len()]);
            assert(steps[j] == finish[0]);
            assert(steps[j] == DiskStepView::WriteGpt);
        }
    } else {
        let remove = if writable { seq![DiskStepView::RemoveKernelPartitions] } else { seq![] };
        assert(steps =~= remove + seq![DiskStepView::Fail(WriteError::UnsupportedBlockSize(block_size))]);
    }
}

proof fn lemma_zero_steps_are_zeroing(changes: Seq<Change>)
    ensures
        forall|i: int|
            0 <= i < zero_steps_of(changes).len() ==> #[trigger] zero_steps_of(changes)[i] is ZeroPartitionPrefix,
    decreases changes.len(),
{
    if changes.len() > 0 {
        lemma_zero_steps_are_zeroing(changes.drop_last());
    }
}

proof fn lemma_wait_steps_are_waits(layout: Seq<Region>)
    ensures
        forall|i: int|
            0 <= i < wait_steps_of(layout).len() ==> #[trigger] wait_steps_of(layout)[i] is WaitForPartitionNode,
    decreases layout.len(),
{
    if layout.len() > 0 {
        lemma_wait_steps_are_waits(layout.drop_last());
    }
}

/// A writer that applies the layouts from the Planner to the disk.
pub struct DiskWriter<'a> {
    /// The block device to write to
    pub device: &'a BlockDevice,
    /// The planner containing the changes to apply
    pub planner: &'a Planner,
}

fn push_step(steps: &mut Vec<DiskStep>, step: DiskStep)
    ensures
        step_views(final(steps)@) == step_views(old(steps)@).push(step@),
{
    steps.push(step);
    assert(step_views(steps@) =~= step_views(old(steps)@).push(step@));
}

impl<'a> DiskWriter<'a> {
    /// Create a new DiskWriter.
    pub fn new(device: &'a BlockDevice, planner: &'a Planner) -> (r: Self)
        ensures
            *r.device == *device,
            *r.planner == *planner,
    {
        Self { device, planner }
    }

    /// Validate all planned changes before applying them by checking:
    /// - Device size matches the planned size
    /// - No duplicate partition IDs exist
    pub fn validate_changes(&self) -> (r: Result<(), WriteError>)
        ensures
            r is Ok <==> self.device.size == self.planner.disk_size && changes_valid(
                self.planner.changes@,
            ),
            self.device.size != self.planner.disk_size ==> r == Err::<(), WriteError>(
                WriteError::DeviceSizeMismatch { planned: self.planner.disk_size, device: self.device.size },
            ),
            self.device.size == self.planner.disk_size ==> (r matches Err(e) ==> exists|k: int|
                #[trigger] is_first_duplicate(self.planner.changes@, k) && e
                    == WriteError::DuplicatePartitionId(
                    self.planner.changes@[k]->AddPartition_partition_id,
                )),
    {
        // Verify the device is the size the layout was planned for
        if self.device.size != self.planner.disk_size {
            return Err(
                WriteError::DeviceSizeMismatch { planned: self.planner.disk_size, device: self.device.size },
            );
        }
        // Verify partition IDs don't conflict
        check_partition_ids(&self.planner.changes)
    }

    /// The steps that apply the planned changes to the disk: creating or
    /// opening the GPT table, then each change in sequence; when
    /// `writable`, also the wipes and writes around them.
    pub fn apply_changes(&self, writable: bool) -> (steps: Vec<DiskStep>)
        requires
            gpt_block_size_ok(self.device.logical_block_size) ==> adds_ordered(self.planner.changes@),
        ensures
            step_views(steps@) == apply_steps_of(*self.device, *self.planner, writable),
    {
        let mut steps: Vec<DiskStep> = Vec::new();
        if writable {
            push_step(&mut steps, DiskStep::RemoveKernelPartitions);
        }
        let block_size = self.device.logical_block_size;
        if !gpt_supports_block_size(block_size) {
            push_step(&mut steps, DiskStep::Fail(WriteError::UnsupportedBlockSize(block_size)));
            assert(step_views(steps@) =~= apply_steps_of(*self.device, *self.planner, writable));
            return steps;
        }
        if self.planner.wipe_disk {
            if writable {
                push_step(&mut steps, DiskStep::ZeroDiskHeaders(zero_disk_headers()));
                let lb_size = protective_mbr_size(self.device.size, block_size);
                push_step(&mut steps, DiskStep::WriteProtectiveMbr { lb_size });
            }
            push_step(&mut steps, DiskStep::CreateGpt { writable, block_size });
            if writable {
                push_step(&mut steps, DiskStep::WriteGptInPlace);
            }
        } else {
            push_step(&mut steps, DiskStep::OpenGpt { writable, block_size });
        }
        let ghost opened = step_views(steps@);
        let changes = &self.planner.changes;
        let mut i: usize = 0;
        while i < changes.len()
            invariant
                i <= changes@.len(),
                changes == &self.planner.changes,
                block_size == self.device.logical_block_size,
                gpt_block_size_ok(block_size),
                adds_ordered(changes@),
                step_views(steps@) == opened + table_steps_of(changes@.take(i as int), block_size),
            decreases changes@.len() - i,
        {
            let ghost before = step_views(steps@);
            assert(changes@.take(i + 1) =~= changes@.take(i as int).push(changes@[i as int]));
            assert(table_steps_of(changes@.take(i + 1), block_size) =~= table_steps_of(
                changes@.take(i as int),
                block_size,
            ).push(table_step_of(changes@[i as int], block_size)));
            match &changes[i] {
                Change::DeletePartition { partition_id, original_index } => {
                    push_step(
                        &mut steps,
                        DiskStep::RemoveGptPartition {
                            partition_id: *partition_id,
                            original_index: *original_index,
                        },
                    );
                },
                Change::AddPartition { start, end, partition_id, attributes } => {
                    assert(changes@[i as int] is AddPartition);
                    // Convert byte offsets to LBA sectors
                    let start_lba = *start / block_size;
                    let size_bytes = *end - *start;
                    let size_lba = size_bytes / block_size;
                    let (type_guid, name) = match attributes {
                        Some(a) => (
                            a.type_guid,
                            match &a.name {
                                Some(n) => n.clone(),
                                None => String::new(),
                            },
                        ),
                        None => (BASIC_PARTITION_TYPE, String::new()),
                    };
                    push_step(
                        &mut steps,
                        DiskStep::AddGptPartition {
                            name,
                            partition_id: *partition_id,
                            first_lba: start_lba,
                            length_lba: size_lba,
                            type_guid,
                        },
                    );
                },
            }
            i = i + 1;
        }
        assert(changes@.take(changes@.len() as int) =~= changes@);
        if writable {
            push_step(&mut steps, DiskStep::WriteGpt);
            let ghost written = step_views(steps@);
            let mut j: usize = 0;
            assert(changes@.take(0) =~= Seq::<Change>::empty());
            while j < changes.len()
                invariant
                    j <= changes@.len(),
                    changes == &self.planner.changes,
                    adds_ordered(changes@),
                    step_views(steps@) == written + zero_steps_of(changes@.take(j as int)),
                decreases changes@.len() - j,
            {
                assert(changes@.take(j + 1).drop_last() =~= changes@.take(j as int));
                match &changes[j] {
                    Change::AddPartition { start, end, .. } => {
                        assert(changes@[j as int] is AddPartition);
                        let region = zero_partition_prefix(*start, *end - *start);
                        push_step(&mut steps, DiskStep::ZeroPartitionPrefix(region));
                        assert(written + zero_steps_of(changes@.take(j + 1)) =~= (written
                            + zero_steps_of(changes@.take(j as int))).push(
                            DiskStepView::ZeroPartitionPrefix(region),
                        ));
                    },
                    Change::DeletePartition { .. } => {},
                }
                j = j + 1;
            }
            push_step(&mut steps, DiskStep::CreateKernelPartitions { block_size });
            let ghost created = step_views(steps@);
            let layout = &self.planner.layout;
            let mut k: usize = 0;
            assert(layout@.take(0) =~= Seq::<Region>::empty());
            while k < layout.len()
                invariant
                    k <= layout@.len(),
                    layout == &self.planner.layout,
                    step_views(steps@) == created + wait_steps_of(layout@.take(k as int)),
                decreases layout@.len() - k,
            {
                assert(layout@.take(k + 1).drop_last() =~= layout@.take(k as int));
                if let Some(id) = layout[k].partition_id {
                    push_step(&mut steps, DiskStep::WaitForPartitionNode { partition_id: id });
                    assert(created + wait_steps_of(layout@.take(k + 1)) =~= (created + wait_steps_of(
                        layout@.take(k as int),
                    )).push(DiskStepView::WaitForPartitionNode { partition_id: id }));
                }
                k = k + 1;
            }
            assert(changes@.take(changes@.len() as int) =~= changes@);
            assert(layout@.take(layout@.len() as int) =~= layout@);
        }
        assert(step_views(steps@) =~= apply_steps_of(*self.device, *self.planner, writable));
        steps
    }
}

} // verus!
