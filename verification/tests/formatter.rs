use partitioning::filesystem::{Filesystem, StandardFilesystemType};
use partitioning::formatter::{FilesystemExt, Formatter};
use uuid::Uuid;

#[test]
fn test_fat32_args() {
    let fs = Filesystem::Fat32 {
        label: Some("BOOT".to_string()),
        volume_id: Some(1234),
    };

    assert_eq!(fs.mkfs_command(), "mkfs.fat");
    assert_eq!(fs.uuid_arg(), vec!["-i", "1234"]);
    assert_eq!(fs.label_arg(), vec!["-n", "BOOT"]);
}

#[test]
fn test_fat16_args() {
    let fs = Filesystem::Fat16 {
        label: Some("ESP".to_string()),
        volume_id: Some(0xA1B2C3D4),
    };

    assert_eq!(fs.mkfs_command(), "mkfs.fat");
    assert_eq!(fs.uuid_arg(), vec!["-i", "2712847316"]);
    assert_eq!(fs.label_arg(), vec!["-n", "ESP"]);
    assert_eq!(fs.variant_arg(), vec!["-F", "16"]);
}

#[test]
fn test_ext4_args() {
    let uuid = Uuid::new_v4();
    let fs = Filesystem::Standard {
        filesystem_type: StandardFilesystemType::Ext4,
        label: Some("root".to_string()),
        uuid: Some(uuid.to_string()),
    };

    assert_eq!(fs.mkfs_command(), "mkfs.ext4");
    assert_eq!(fs.uuid_arg(), vec!["-U".to_string(), uuid.to_string()]);
    assert_eq!(fs.label_arg(), vec!["-L", "root"]);
    assert!(fs.variant_arg().is_empty());
}

#[test]
fn test_xfs_args() {
    let uuid = Uuid::new_v4();
    let fs = Filesystem::Standard {
        filesystem_type: StandardFilesystemType::Xfs,
        label: Some("data".to_string()),
        uuid: Some(uuid.to_string()),
    };

    assert_eq!(fs.mkfs_command(), "mkfs.xfs");
    assert_eq!(fs.uuid_arg(), vec!["-m".to_string(), format!("uuid={uuid}")]);
    assert_eq!(fs.label_arg(), vec!["-L", "data"]);
    assert_eq!(
        fs.variant_arg(),
        vec!["-n", "parent=1", "-i", "exchange=1", "-m", "autofsck=repair"]
    );
}

#[test]
fn test_xfs_format_command_order() {
    let uuid = Uuid::new_v4();
    let fs = Filesystem::Standard {
        filesystem_type: StandardFilesystemType::Xfs,
        label: Some("ROOT".to_string()),
        uuid: Some(uuid.to_string()),
    };
    let formatter = Formatter::new(fs).force();
    let command = formatter.format("/dev/test_device");
    let program = command.program.clone();
    let args: Vec<String> = command.args.clone();

    assert_eq!(program, "mkfs.xfs");
    assert_eq!(
        args,
        vec![
            "-m".to_string(),
            format!("uuid={uuid}"),
            "-L".to_string(),
            "ROOT".to_string(),
            "-n".to_string(),
            "parent=1".to_string(),
            "-i".to_string(),
            "exchange=1".to_string(),
            "-m".to_string(),
            "autofsck=repair".to_string(),
            "-f".to_string(),
            "/dev/test_device".to_string(),
        ]
    );

    // mkfs.xfs accepts multiple -m sections, but each key must appear only once
    // within its own section. Verify uuid and autofsck weren't accidentally merged
    // into the same -m argument list.
    let mut seen_m_section = false;
    let mut iter = args.iter();

    while let Some(arg) = iter.next() {
        if arg == "-m" {
            let value = iter.next().expect("expected value after -m");
            if seen_m_section {
                assert!(
                    value.starts_with("autofsck="),
                    "second -m section must only carry autofsck, got: {value}"
                );
            } else {
                assert!(
                    value.starts_with("uuid="),
                    "first -m section must carry uuid, got: {value}"
                );
                seen_m_section = true;
            }
        }
    }
    assert!(seen_m_section, "expected at least one -m section");
}

#[test]
fn test_btrfs_args() {
    let uuid = Uuid::new_v4();
    let fs = Filesystem::Standard {
        filesystem_type: StandardFilesystemType::Btrfs,
        label: Some("data".to_string()),
        uuid: Some(uuid.to_string()),
    };

    assert_eq!(fs.mkfs_command(), "mkfs.btrfs");
    assert_eq!(fs.uuid_arg(), vec!["-U".to_string(), uuid.to_string()]);
    assert_eq!(fs.label_arg(), vec!["-L", "data"]);
    assert_eq!(fs.force_arg(), vec!["-f"]);
}

#[test]
fn test_bcachefs_args() {
    let uuid = Uuid::new_v4();
    let fs = Filesystem::Standard {
        filesystem_type: StandardFilesystemType::Bcachefs,
        label: Some("home".to_string()),
        uuid: Some(uuid.to_string()),
    };

    assert_eq!(fs.mkfs_command(), "mkfs.bcachefs");
    assert_eq!(fs.uuid_arg(), vec!["-U".to_string(), uuid.to_string()]);
    assert_eq!(fs.label_arg(), vec!["-L", "home"]);
    assert_eq!(fs.force_arg(), vec!["-f"]);
}

#[test]
fn f2fs_and_swap_args() {
    let fs = Filesystem::Standard {
        filesystem_type: StandardFilesystemType::F2fs,
        label: Some("data".to_string()),
        uuid: Some("abc".to_string()),
    };
    assert_eq!(fs.mkfs_command(), "mkfs.f2fs");
    assert_eq!(fs.label_arg(), vec!["-l", "data"]);
    assert_eq!(fs.uuid_arg(), vec!["-U", "abc"]);
    assert_eq!(fs.force_arg(), vec!["-f"]);

    let swap = Filesystem::Standard {
        filesystem_type: StandardFilesystemType::Swap,
        label: None,
        uuid: None,
    };
    assert_eq!(swap.mkfs_command(), "mkswap");
    assert!(swap.label_arg().is_empty());
    assert!(swap.uuid_arg().is_empty());
}

#[test]
fn ext4_force_is_upper_case() {
    let fs = Filesystem::Standard {
        filesystem_type: StandardFilesystemType::Ext4,
        label: None,
        uuid: None,
    };
    assert_eq!(fs.force_arg(), vec!["-F"]);
}

#[test]
fn fat_without_ids_and_fat32_variant() {
    let fs = Filesystem::Fat32 { label: None, volume_id: None };
    assert!(fs.uuid_arg().is_empty());
    assert!(fs.label_arg().is_empty());
    assert!(fs.force_arg().is_empty());
    assert_eq!(fs.variant_arg(), vec!["-F", "32"]);
}

#[test]
fn volume_id_decimal_edges() {
    let zero = Filesystem::Fat16 { label: None, volume_id: Some(0) };
    assert_eq!(zero.uuid_arg(), vec!["-i", "0"]);
    let max = Filesystem::Fat32 { label: None, volume_id: Some(u32::MAX) };
    assert_eq!(max.uuid_arg(), vec!["-i", "4294967295"]);
}

#[test]
fn format_without_force_omits_force_args() {
    let fs = Filesystem::Fat32 {
        label: Some("EFI".to_string()),
        volume_id: Some(7),
    };
    let formatter = Formatter::new(fs);
    assert!(!formatter.force);
    let command = formatter.format("/dev/sda1");
    assert_eq!(command.program, "mkfs.fat");
    assert_eq!(command.args, vec!["-i", "7", "-n", "EFI", "-F", "32", "/dev/sda1"]);
}

#[test]
fn force_keeps_filesystem() {
    let fs = Filesystem::Standard {
        filesystem_type: StandardFilesystemType::Ext4,
        label: None,
        uuid: None,
    };
    let formatter = Formatter::new(fs.clone()).force();
    assert!(formatter.force);
    assert_eq!(formatter.filesystem, fs);
    let command = formatter.format("/dev/vda2");
    assert_eq!(command.program, "mkfs.ext4");
    assert_eq!(command.args, vec!["-F", "/dev/vda2"]);
}
