use partitioning::blkpg::{
    add_partition_outcome, add_partition_request, delete_partition_outcome, delete_partition_request,
    kernel_partition_requests, removal_outcome, remove_kernel_partition_requests, BlkpgRequest, GptEntry,
    BLKPG_ADD_PARTITION, BLKPG_DEL_PARTITION, EEXIST,
};

#[test]
fn requests_carry_operation_and_numbers() {
    assert_eq!(
        add_partition_request(3, 1_048_576, 4096),
        BlkpgRequest { op: BLKPG_ADD_PARTITION, pno: 3, start: 1_048_576, length: 4096 }
    );
    assert_eq!(
        delete_partition_request(2),
        BlkpgRequest { op: BLKPG_DEL_PARTITION, pno: 2, start: 0, length: 0 }
    );
    assert_eq!(BLKPG_ADD_PARTITION, 1);
    assert_eq!(BLKPG_DEL_PARTITION, 2);
}

#[test]
fn existing_partition_counts_as_added() {
    assert_eq!(add_partition_outcome(0, 0), Ok(()));
    assert_eq!(add_partition_outcome(-1, EEXIST), Ok(()));
    assert_eq!(add_partition_outcome(-1, 16), Err(16));
    assert_eq!(delete_partition_outcome(0, 0), Ok(()));
    assert_eq!(delete_partition_outcome(-1, EEXIST), Err(EEXIST));
    assert_eq!(delete_partition_outcome(-1, 6), Err(6));
}

#[test]
fn removal_requests_follow_partition_numbers() {
    let r = remove_kernel_partition_requests(&vec![1, 2, 5]);
    let pnos: Vec<i32> = r.iter().map(|q| q.pno).collect();
    assert_eq!(pnos, vec![1, 2, 5]);
    assert!(r.iter().all(|q| q.op == BLKPG_DEL_PARTITION && q.start == 0 && q.length == 0));
    assert!(remove_kernel_partition_requests(&vec![]).is_empty());
}

#[test]
fn kernel_partitions_span_whole_blocks() {
    let entries = vec![
        GptEntry { id: 1, first_lba: 2048, last_lba: 1_050_623 },
        GptEntry { id: 2, first_lba: 1_050_624, last_lba: 1_050_624 },
    ];
    let r = kernel_partition_requests(&entries, 512);
    assert_eq!(
        r,
        vec![
            BlkpgRequest { op: BLKPG_ADD_PARTITION, pno: 1, start: 1_048_576, length: 536_870_912 },
            BlkpgRequest { op: BLKPG_ADD_PARTITION, pno: 2, start: 537_919_488, length: 512 },
        ]
    );
    let r4k = kernel_partition_requests(&entries[..1].to_vec(), 4096);
    assert_eq!(r4k[0].start, 2048 * 4096);
    assert_eq!(r4k[0].length, 1_048_576 * 4096);
}

#[test]
fn removal_reports_the_first_failed_delete() {
    assert_eq!(removal_outcome(&vec![]), Ok(()));
    assert_eq!(removal_outcome(&vec![Ok(()), Ok(())]), Ok(()));
    assert_eq!(removal_outcome(&vec![Ok(()), Err(16), Err(6)]), Err(16));
}

#[test]
fn entry_ending_at_the_last_block() {
    let entries = vec![GptEntry { id: 1, first_lba: u64::MAX - 1, last_lba: u64::MAX }];
    let r = kernel_partition_requests(&entries, 1);
    assert_eq!(r[0].start, (u64::MAX - 1) as i64);
    assert_eq!(r[0].length, 2);
}
