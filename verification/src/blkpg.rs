//! Requests to the kernel's BLKPG ioctl, which adds and removes the
//! kernel's view of a block device's partitions.

use vstd::prelude::*;

verus! {

/// BLKPG operation that adds a partition.
pub const BLKPG_ADD_PARTITION: i32 = 1;

/// BLKPG operation that deletes a partition.
pub const BLKPG_DEL_PARTITION: i32 = 2;

/// `errno` value that reports that the partition already exists.
pub const EEXIST: i32 = 17;

/// The contents of a BLKPG partition request.
#[derive(Debug, Clone, Copy, PartialEq, Eq, Structural)]
pub struct BlkpgRequest {
    /// `BLKPG_ADD_PARTITION` or `BLKPG_DEL_PARTITION`
    pub op: i32,
    /// Partition number
    pub pno: i32,
    /// Starting offset in bytes
    pub start: i64,
    /// Length in bytes
    pub length: i64,
}

/// A partition of a GPT table: its number and its first and last block.
#[derive(Debug, Clone, Copy, PartialEq, Eq, Structural)]
pub struct GptEntry {
    pub id: u32,
    pub first_lba: u64,
    pub last_lba: u64,
}

/// The request that adds partition `partition_number` spanning `length`
/// bytes from byte `start`.
pub fn add_partition_request(partition_number: i32, start: i64, length: i64) -> (r: BlkpgRequest)
    ensures
        r == (BlkpgRequest { op: BLKPG_ADD_PARTITION, pno: partition_number, start, length }),
{
    BlkpgRequest { op: BLKPG_ADD_PARTITION, pno: partition_number, start, length }
}

/// The request that deletes partition `partition_number`.
pub fn delete_partition_request(partition_number: i32) -> (r: BlkpgRequest)
    ensures
        r == (BlkpgRequest { op: BLKPG_DEL_PARTITION, pno: partition_number, start: 0, length: 0 }),
{
    BlkpgRequest { op: BLKPG_DEL_PARTITION, pno: partition_number, start: 0, length: 0 }
}

/// What an add request's ioctl result means: success, also when the
/// partition was already present; otherwise the `errno` as the error.
pub fn add_partition_outcome(res: i32, errno: i32) -> (r: Result<(), i32>)
    ensures
        r == (if res >= 0 || errno == EEXIST {
            Ok::<(), i32>(())
        } else {
            Err::<(), i32>(errno)
        }),
{
    if res < 0 {
        if errno == EEXIST {
            // Partition already present, treating as success
            return Ok(());
        }
        return Err(errno);
    }
    Ok(())
}

/// What a delete request's ioctl result means: success, or the `errno` as
/// the error.
pub fn delete_partition_outcome(res: i32, errno: i32) -> (r: Result<(), i32>)
    ensures
        r == (if res >= 0 {
            Ok::<(), i32>(())
        } else {
            Err::<(), i32>(errno)
        }),
{
    if res < 0 {
        return Err(errno);
    }
    Ok(())
}

/// The requests that delete the kernel partitions numbered `numbers`, in order.
pub fn remove_kernel_partition_requests(numbers: &Vec<u32>) -> (r: Vec<BlkpgRequest>)
    ensures
        r@.len() == numbers@.len(),
        forall|i: int|
            0 <= i < numbers@.len() ==> #[trigger] r@[i] == (BlkpgRequest {
                op: BLKPG_DEL_PARTITION,
                pno: numbers@[i] as i32,
                start: 0,
                length: 0,
            }),
{
    let mut r: Vec<BlkpgRequest> = Vec::new();
    let mut i: usize = 0;
    while i < numbers.len()
        invariant
            i <= numbers@.len(),
            r@.len() == i,
            forall|j: int|
                0 <= j < i ==> #[trigger] r@[j] == (BlkpgRequest {
                    op: BLKPG_DEL_PARTITION,
                    pno: numbers@[j] as i32,
                    start: 0,
                    length: 0,
                }),
        decreases numbers@.len() - i,
    {
        r.push(delete_partition_request(numbers[i] as i32));
        i = i + 1;
    }
    r
}

/// The result of removing kernel partitions, given each delete's outcome in
/// order: success when every delete succeeded, otherwise the first failure.
pub open spec fn removal_result(outcomes: Seq<Result<(), i32>>) -> Result<(), i32>
    decreases outcomes.len(),
{
    if outcomes.len() == 0 {
        Ok(())
    } else {
        match removal_result(outcomes.drop_last()) {
            Ok(()) => match outcomes.last() {
                Ok(()) => Ok(()),
                Err(e) => Err(e),
            },
            Err(e) => Err(e),
        }
    }
}

/// Folds the outcomes of the deletes that remove a device's kernel
/// partitions into the result of the removal: a partition operation
/// failure is reported as the first failing delete's `errno`.
pub fn removal_outcome(outcomes: &Vec<Result<(), i32>>) -> (r: Result<(), i32>)
    ensures
        r == removal_result(outcomes@),
        r is Ok <==> forall|i: int| 0 <= i < outcomes@.len() ==> #[trigger] outcomes@[i] is Ok,
{
    let mut i: usize = 0;
    assert(outcomes@.take(0) =~= Seq::<Result<(), i32>>::empty());
    while i < outcomes.len()
        invariant
            i <= outcomes@.len(),
            removal_result(outcomes@.take(i as int)) == Ok::<(), i32>(()),
            forall|j: int| 0 <= j < i ==> #[trigger] outcomes@[j] is Ok,
        decreases outcomes@.len() - i,
    {
        assert(outcomes@.take(i + 1).drop_last() =~= outcomes@.take(i as int));
        assert(outcomes@.take(i + 1).last() == outcomes@[i as int]);
        match outcomes[i] {
            Ok(()) => {
                assert(outcomes@.take(i + 1).last() is Ok);
            },
            Err(e) => {
                proof {
                    lemma_removal_failure_sticks(outcomes@, i as int + 1, e);
                }
                return Err(e);
            },
        }
        i = i + 1;
    }
    assert(outcomes@.take(i as int) =~= outcomes@);
    Ok(())
}

/// Once a delete has failed, the removal reports that failure.
proof fn lemma_removal_failure_sticks(outcomes: Seq<Result<(), i32>>, n: int, e: i32)
    requires
        0 <= n <= outcomes.len(),
        removal_result(outcomes.take(n)) == Err::<(), i32>(e),
    ensures
        removal_result(outcomes) == Err::<(), i32>(e),
    decreases outcomes.len() - n,
{
    if n < outcomes.len() {
        assert(outcomes.take(n + 1).drop_last() =~= outcomes.take(n));
        lemma_removal_failure_sticks(outcomes, n + 1, e);
    } else {
        assert(outcomes.take(n) =~= outcomes);
    }
}

/// Computing the byte range of `e` with blocks of `block_size` bytes
/// overflows nothing: the entry ends at or after its start, and its start
/// and length in bytes fit in an `i64`.
pub open spec fn entry_in_range(e: GptEntry, block_size: u64) -> bool {
    &&& e.first_lba <= e.last_lba
    &&& e.last_lba - e.first_lba < u64::MAX
    &&& i64::MIN <= (e.first_lba as i64) * (block_size as i64) <= i64::MAX
    &&& i64::MIN <= (((e.last_lba - e.first_lba + 1) as u64) as i64) * (block_size as i64) <= i64::MAX
}

/// The request that adds the kernel partition for GPT entry `e`.
pub open spec fn kernel_partition_request(e: GptEntry, block_size: u64) -> BlkpgRequest {
    BlkpgRequest {
        op: BLKPG_ADD_PARTITION,
        pno: e.id as i32,
        start: ((e.first_lba as i64) * (block_size as i64)) as i64,
        length: ((((e.last_lba - e.first_lba + 1) as u64) as i64) * (block_size as i64)) as i64,
    }
}

/// The requests that add a kernel partition for each GPT entry, in order.
pub fn kernel_partition_requests(entries: &Vec<GptEntry>, block_size: u64) -> (r: Vec<BlkpgRequest>)
    requires
        forall|i: int| 0 <= i < entries@.len() ==> entry_in_range(#[trigger] entries@[i], block_size),
    ensures
        r@.len() == entries@.len(),
        forall|i: int|
            0 <= i < entries@.len() ==> #[trigger] r@[i] == kernel_partition_request(entries@[i], block_size),
{
    let block = block_size as i64;
    let mut r: Vec<BlkpgRequest> = Vec::new();
    let mut i: usize = 0;
    while i < entries.len()
        invariant
            i <= entries@.len(),
            block == block_size as i64,
            forall|j: int| 0 <= j < entries@.len() ==> entry_in_range(#[trigger] entries@[j], block_size),
            r@.len() == i,
            forall|j: int|
                0 <= j < i ==> #[trigger] r@[j] == kernel_partition_request(entries@[j], block_size),
        decreases entries@.len() - i,
    {
        let e = entries[i];
        assert(entry_in_range(entries@[i as int], block_size));
        let start = e.first_lba as i64 * block;
        let length = (e.last_lba - e.first_lba + 1) as i64 * block;
        r.push(add_partition_request(e.id as i32, start, length));
        i = i + 1;
    }
    r
}

} // verus!
