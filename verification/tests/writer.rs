use partitioning::writer::{
    check_partition_ids, zero_disk_headers, zero_partition_prefix, zero_region, BlockDevice, Change, DiskStep,
    DiskWriter, GptAttributes, Planner, Region, WriteError, ZeroRegion, ZeroWrites, BASIC_PARTITION_TYPE,
};

fn add(start: u64, end: u64, id: u32) -> Change {
    Change::AddPartition { start, end, partition_id: id, attributes: None }
}

fn delete(id: u32) -> Change {
    Change::DeletePartition { partition_id: id, original_index: 0 }
}

fn device(block: u64) -> BlockDevice {
    BlockDevice { device: "/dev/vda".to_string(), size: 8 * 1024 * 1024 * 1024, logical_block_size: block }
}

#[test]
fn duplicate_ids_are_reported() {
    assert_eq!(check_partition_ids(&vec![add(0, 512, 1), add(512, 1024, 2)]), Ok(()));
    assert_eq!(
        check_partition_ids(&vec![add(0, 512, 1), add(512, 1024, 2), add(1024, 2048, 1), add(0, 1, 2)]),
        Err(WriteError::DuplicatePartitionId(1))
    );
    assert_eq!(check_partition_ids(&vec![]), Ok(()));
}

#[test]
fn deleted_ids_may_be_reused() {
    assert_eq!(check_partition_ids(&vec![add(0, 512, 3), delete(3), add(0, 1024, 3)]), Ok(()));
    assert_eq!(check_partition_ids(&vec![delete(4), add(0, 1024, 4)]), Ok(()));
    assert_eq!(
        check_partition_ids(&vec![delete(4), add(0, 1024, 4), add(0, 1, 4)]),
        Err(WriteError::DuplicatePartitionId(4))
    );
}

#[test]
fn writer_validates_planner_changes() {
    let dev = device(512);
    let planner = Planner { disk_size: 8 * 1024 * 1024 * 1024, changes: vec![add(0, 512, 1), add(512, 1024, 1)], wipe_disk: false, layout: vec![] };
    let writer = DiskWriter::new(&dev, &planner);
    assert_eq!(writer.validate_changes(), Err(WriteError::DuplicatePartitionId(1)));
}

#[test]
fn zero_regions() {
    assert_eq!(zero_disk_headers(), ZeroRegion { offset: 0, size: 2 * 1024 * 1024 });
    assert_eq!(zero_partition_prefix(4096, 100), ZeroRegion { offset: 4096, size: 100 });
    assert_eq!(zero_partition_prefix(4096, 10 * 1024 * 1024), ZeroRegion { offset: 4096, size: 2 * 1024 * 1024 });
    assert_eq!(
        zero_region(ZeroRegion { offset: 7, size: 65_536 * 3 + 10 }),
        ZeroWrites { offset: 7, full_chunks: 3, remainder: 10 }
    );
    assert_eq!(
        zero_region(ZeroRegion { offset: 0, size: 2 * 1024 * 1024 }),
        ZeroWrites { offset: 0, full_chunks: 32, remainder: 0 }
    );
}

#[test]
fn unsupported_block_size_fails_after_kernel_partitions_are_removed() {
    let dev = device(1024);
    let planner = Planner { disk_size: 8 * 1024 * 1024 * 1024, changes: vec![add(0, 1024, 1)], wipe_disk: true, layout: vec![] };
    let writer = DiskWriter::new(&dev, &planner);
    let steps = writer.apply_changes(true);
    assert!(matches!(steps[0], DiskStep::RemoveKernelPartitions));
    assert!(matches!(steps[1], DiskStep::Fail(WriteError::UnsupportedBlockSize(1024))));
    assert_eq!(steps.len(), 2);
    let sim = writer.apply_changes(false);
    assert_eq!(sim.len(), 1);
    assert!(matches!(sim[0], DiskStep::Fail(WriteError::UnsupportedBlockSize(1024))));
}

#[test]
fn writing_a_wiped_disk() {
    let dev = device(512);
    let attrs = GptAttributes { type_guid: 0xC12A7328_F81F_11D2_BA4B_00A0C93EC93B, name: Some("EFI".to_string()) };
    let planner = Planner {
        disk_size: 8 * 1024 * 1024 * 1024,
        changes: vec![
            Change::AddPartition { start: 1_048_576, end: 1_048_576 + 512 * 1024 * 1024, partition_id: 1, attributes: Some(attrs) },
            add(1_048_576 + 512 * 1024 * 1024, 4 * 1024 * 1024 * 1024, 2),
            delete(5),
        ],
        wipe_disk: true,
        layout: vec![
            Region { start: 0, end: 1_048_576, partition_id: None },
            Region { start: 1_048_576, end: 537_919_488, partition_id: Some(1) },
            Region { start: 537_919_488, end: 4 * 1024 * 1024 * 1024, partition_id: Some(2) },
        ],
    };
    let writer = DiskWriter::new(&dev, &planner);
    let steps = writer.apply_changes(true);
    let names: Vec<String> = steps.iter().map(|s| format!("{s:?}")).collect();
    assert_eq!(names.len(), 14, "{names:#?}");
    assert!(matches!(steps[0], DiskStep::RemoveKernelPartitions));
    assert!(matches!(steps[1], DiskStep::ZeroDiskHeaders(ZeroRegion { offset: 0, size: 2_097_152 })));
    // 8 GiB / 512 = 16777216 blocks, all but the first
    assert!(matches!(steps[2], DiskStep::WriteProtectiveMbr { lb_size: 16_777_215 }));
    assert!(matches!(steps[3], DiskStep::CreateGpt { writable: true, block_size: 512 }));
    assert!(matches!(steps[4], DiskStep::WriteGptInPlace));
    match &steps[5] {
        DiskStep::AddGptPartition { name, partition_id, first_lba, length_lba, type_guid } => {
            assert_eq!(name, "EFI");
            assert_eq!(*partition_id, 1);
            assert_eq!(*first_lba, 2048);
            assert_eq!(*length_lba, 1_048_576);
            assert_eq!(*type_guid, 0xC12A7328_F81F_11D2_BA4B_00A0C93EC93B);
        }
        other => panic!("unexpected step {other:?}"),
    }
    match &steps[6] {
        DiskStep::AddGptPartition { name, partition_id, type_guid, .. } => {
            assert_eq!(name, "");
            assert_eq!(*partition_id, 2);
            assert_eq!(*type_guid, BASIC_PARTITION_TYPE);
        }
        other => panic!("unexpected step {other:?}"),
    }
    assert!(matches!(steps[7], DiskStep::RemoveGptPartition { partition_id: 5, original_index: 0 }));
    assert!(matches!(steps[8], DiskStep::WriteGpt));
    assert!(matches!(steps[9], DiskStep::ZeroPartitionPrefix(ZeroRegion { offset: 1_048_576, size: 2_097_152 })));
    assert!(matches!(steps[10], DiskStep::ZeroPartitionPrefix(ZeroRegion { offset: 537_919_488, size: 2_097_152 })));
    assert!(matches!(steps[11], DiskStep::CreateKernelPartitions { block_size: 512 }));
    assert!(matches!(steps[12], DiskStep::WaitForPartitionNode { partition_id: 1 }));
    assert!(matches!(steps[13], DiskStep::WaitForPartitionNode { partition_id: 2 }));
}

#[test]
fn simulating_only_touches_the_table_in_memory() {
    let dev = device(4096);
    let planner = Planner {
        disk_size: 8 * 1024 * 1024 * 1024,
        changes: vec![add(1_048_576, 2_097_152, 1), delete(1)],
        wipe_disk: false,
        layout: vec![Region { start: 0, end: 1, partition_id: Some(1) }],
    };
    let writer = DiskWriter::new(&dev, &planner);
    let steps = writer.apply_changes(false);
    assert_eq!(steps.len(), 3);
    assert!(matches!(steps[0], DiskStep::OpenGpt { writable: false, block_size: 4096 }));
    assert!(matches!(
        steps[1],
        DiskStep::AddGptPartition { partition_id: 1, first_lba: 256, length_lba: 256, .. }
    ));
    assert!(matches!(steps[2], DiskStep::RemoveGptPartition { partition_id: 1, .. }));
}

#[test]
fn protective_mbr_is_capped() {
    let dev = BlockDevice { device: "/dev/sdz".to_string(), size: u64::MAX, logical_block_size: 512 };
    let planner = Planner { disk_size: 8 * 1024 * 1024 * 1024, changes: vec![], wipe_disk: true, layout: vec![] };
    let steps = DiskWriter::new(&dev, &planner).apply_changes(true);
    assert!(matches!(steps[2], DiskStep::WriteProtectiveMbr { lb_size: 0xFFFF_FFFF }));
    let tiny = BlockDevice { device: "/dev/sdz".to_string(), size: 100, logical_block_size: 512 };
    let steps = DiskWriter::new(&tiny, &planner).apply_changes(true);
    assert!(matches!(steps[2], DiskStep::WriteProtectiveMbr { lb_size: 0 }));
}

#[test]
fn partition_paths_follow_kernel_naming() {
    let sda = BlockDevice { device: "/dev/sda".to_string(), size: 0, logical_block_size: 512 };
    assert_eq!(sda.partition_path(1), "/dev/sda1");
    assert_eq!(sda.partition_path(12), "/dev/sda12");
    let nvme = BlockDevice { device: "/dev/nvme0n1".to_string(), size: 0, logical_block_size: 512 };
    assert_eq!(nvme.partition_path(2), "/dev/nvme0n1p2");
    let loopdev = BlockDevice { device: "/dev/loop0".to_string(), size: 0, logical_block_size: 512 };
    assert_eq!(loopdev.partition_path(3), "/dev/loop0p3");
}

#[test]
fn device_size_must_match_the_plan() {
    let dev = device(512);
    let planner = Planner { disk_size: 4 * 1024 * 1024 * 1024, changes: vec![add(0, 512, 1)], wipe_disk: false, layout: vec![] };
    assert_eq!(
        DiskWriter::new(&dev, &planner).validate_changes(),
        Err(WriteError::DeviceSizeMismatch { planned: 4 * 1024 * 1024 * 1024, device: 8 * 1024 * 1024 * 1024 })
    );
    // the size is checked before the ids
    let dup = Planner { disk_size: 1, changes: vec![add(0, 512, 1), add(0, 512, 1)], wipe_disk: false, layout: vec![] };
    assert!(matches!(DiskWriter::new(&dev, &dup).validate_changes(), Err(WriteError::DeviceSizeMismatch { .. })));
    let ok = Planner { disk_size: 8 * 1024 * 1024 * 1024, changes: vec![add(0, 512, 1)], wipe_disk: false, layout: vec![] };
    assert_eq!(DiskWriter::new(&dev, &ok).validate_changes(), Ok(()));
}
