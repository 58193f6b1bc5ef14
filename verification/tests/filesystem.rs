use partitioning::filesystem::{Error, StandardFilesystemType};
use std::str::FromStr;

#[test]
fn names_round_trip() {
    let all = [
        StandardFilesystemType::F2fs,
        StandardFilesystemType::Ext4,
        StandardFilesystemType::Xfs,
        StandardFilesystemType::Btrfs,
        StandardFilesystemType::Bcachefs,
        StandardFilesystemType::Swap,
    ];
    for t in all {
        assert_eq!(StandardFilesystemType::from_name(t.as_str()), Ok(t));
        assert_eq!(StandardFilesystemType::from_str(t.as_str()), Ok(t));
    }
}

#[test]
fn display_names() {
    assert_eq!(StandardFilesystemType::Ext4.as_str(), "ext4");
    assert_eq!(StandardFilesystemType::F2fs.as_str(), "f2fs");
    assert_eq!(StandardFilesystemType::Xfs.as_str(), "xfs");
    assert_eq!(StandardFilesystemType::Btrfs.as_str(), "btrfs");
    assert_eq!(StandardFilesystemType::Bcachefs.as_str(), "bcachefs");
    assert_eq!(StandardFilesystemType::Swap.as_str(), "swap");
}

#[test]
fn unknown_names_are_rejected() {
    assert_eq!(StandardFilesystemType::from_name("ntfs"), Err(Error::UnknownVariant));
    assert_eq!(StandardFilesystemType::from_name("EXT4"), Err(Error::UnknownVariant));
    assert_eq!(StandardFilesystemType::from_name(""), Err(Error::UnknownVariant));
    assert_eq!("fat32".parse::<StandardFilesystemType>(), Err(Error::UnknownVariant));
}
