use partitioning::partition::{join_path, Partition, DEVFS_DIR, SECTOR_SIZE, SYSFS_DIR};

#[test]
fn sysfs_layout_constants() {
    assert_eq!(SECTOR_SIZE, 512);
    assert_eq!(DEVFS_DIR, "dev");
    assert_eq!(SYSFS_DIR, "sys/class/block");
}

#[test]
fn join_follows_path_join() {
    assert_eq!(join_path("/", "dev"), "/dev");
    assert_eq!(join_path("/mnt/root", "dev"), "/mnt/root/dev");
    assert_eq!(join_path("/mnt/root/", "dev"), "/mnt/root/dev");
    assert_eq!(join_path("", "dev"), "dev");
    assert_eq!(join_path("/mnt", "/abs"), "/abs");
}

#[test]
fn partition_from_sysfs_values() {
    let p = Partition::from_sysfs_path("/", "sda1", true, Some(1), Some(2048), Some(1_048_576)).unwrap();
    assert_eq!(p.name, "sda1");
    assert_eq!(p.number, 1);
    assert_eq!(p.start, 2048);
    assert_eq!(p.size, 1_048_576);
    assert_eq!(p.end, 2048 + 1_048_576);
    assert_eq!(p.node, "/sys/class/block/sda1");
    assert_eq!(p.device, "/dev/sda1");
    assert_eq!(p.start_bytes(), 2048 * 512);
    assert_eq!(p.size_bytes(), 512 * 1024 * 1024);
    assert_eq!(p.end_bytes(), p.start_bytes() + p.size_bytes());
}

#[test]
fn partition_under_other_root() {
    let p = Partition::from_sysfs_path("/tmp/root", "nvme0n1p2", true, Some(2), Some(0), Some(8)).unwrap();
    assert_eq!(p.node, "/tmp/root/sys/class/block/nvme0n1p2");
    assert_eq!(p.device, "/tmp/root/dev/nvme0n1p2");
    assert_eq!(p.end, 8);
}

#[test]
fn missing_device_or_attribute_gives_none() {
    assert!(Partition::from_sysfs_path("/", "sda1", false, Some(1), Some(0), Some(8)).is_none());
    assert!(Partition::from_sysfs_path("/", "sda1", true, None, Some(0), Some(8)).is_none());
    assert!(Partition::from_sysfs_path("/", "sda1", true, Some(1), None, Some(8)).is_none());
    assert!(Partition::from_sysfs_path("/", "sda1", true, Some(1), Some(0), None).is_none());
}

#[test]
fn device_and_node_paths() {
    assert_eq!(Partition::device_path("/", "vda3"), "/dev/vda3");
    assert_eq!(Partition::sysfs_node("/", "vda3"), "/sys/class/block/vda3");
}

#[test]
fn default_partition_is_empty() {
    let p = Partition::default();
    assert_eq!(p.start_bytes(), 0);
    assert_eq!(p.end_bytes(), 0);
    assert_eq!(p.size_bytes(), 0);
}
