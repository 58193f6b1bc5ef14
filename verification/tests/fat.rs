use partitioning::fat::{is_valid_magic, Fat, FatType, MAGIC_OFFSET, SIZE, START_POSITION};

fn put16(b: &mut [u8], off: usize, v: u16) {
    b[off..off + 2].copy_from_slice(&v.to_le_bytes());
}

fn put32(b: &mut [u8], off: usize, v: u32) {
    b[off..off + 4].copy_from_slice(&v.to_le_bytes());
}

/// A FAT16 boot sector of a 256 MiB partition.
fn fat16_sector() -> Vec<u8> {
    let mut b = vec![0u8; 512];
    b[0..3].copy_from_slice(&[0xEB, 0x3C, 0x90]);
    b[3..11].copy_from_slice(b"mkfs.fat");
    put16(&mut b, 11, 512);
    b[13] = 8;
    put16(&mut b, 14, 4);
    b[16] = 2;
    put16(&mut b, 17, 512);
    put16(&mut b, 19, 0);
    b[21] = 0xF8;
    put16(&mut b, 22, 256);
    put32(&mut b, 32, 524_288);
    // common fields at the start of the shared region (offset 36)
    b[38] = 0x29;
    put32(&mut b, 39, 0xA1B2_C3D4);
    b[43..54].copy_from_slice(b"ESP        ");
    b[54..62].copy_from_slice(b"FAT16   ");
    b[510] = 0x55;
    b[511] = 0xAA;
    b
}

#[test]
fn layout_constants() {
    assert_eq!(START_POSITION, 0);
    assert_eq!(MAGIC_OFFSET, 0x1FE);
    assert_eq!(SIZE, 90);
}

#[test]
fn magic_is_55_aa() {
    assert!(is_valid_magic(&[0x55, 0xAA]));
    assert!(!is_valid_magic(&[0xAA, 0x55]));
    assert!(!is_valid_magic(&[0, 0]));
}

#[test]
fn short_input_is_rejected() {
    assert!(Fat::from_bytes(&[0u8; 89]).is_none());
    assert!(Fat::from_bytes(&[0u8; 90]).is_some());
}

#[test]
fn fields_are_little_endian() {
    let b = fat16_sector();
    let fat = Fat::from_bytes(&b).unwrap();
    assert_eq!(fat.ignored, [0xEB, 0x3C, 0x90]);
    assert_eq!(&fat.system_id, b"mkfs.fat");
    assert_eq!(fat.sector_size, 512);
    assert_eq!(fat.sec_per_clus, 8);
    assert_eq!(fat._reserved, 4);
    assert_eq!(fat.fats, 2);
    assert_eq!(fat.dir_entries, 512);
    assert_eq!(fat.media, 0xF8);
    assert_eq!(fat.fat_length, 256);
    assert_eq!(fat.total_sect, 524_288);
    assert_eq!(fat.fat16().common.vol_id, 0xA1B2_C3D4);
    assert_eq!(&fat.fat16().common.fs_type, b"FAT16   ");
}

#[test]
fn esp_of_256_mib_is_fat16() {
    let fat = Fat::from_bytes(&fat16_sector()).unwrap();
    assert_eq!(fat.fat_type(), FatType::Fat16);
    assert_eq!(fat.uuid().unwrap(), "A1B2-C3D4");
    assert_eq!(fat.label().unwrap(), "ESP");
}

#[test]
fn tiny_partition_is_fat12() {
    let mut b = fat16_sector();
    put16(&mut b, 19, 4096);
    b[13] = 4;
    put16(&mut b, 14, 1);
    put16(&mut b, 22, 3);
    let fat = Fat::from_bytes(&b).unwrap();
    // 4096 - (1 + 2 * 3 + 32) = 4057 data sectors, 1014 clusters
    assert_eq!(fat.fat_type(), FatType::Fat12);
    assert_eq!(fat.uuid().unwrap(), "A1B2-C3D4");
}

#[test]
fn cluster_threshold_is_4085() {
    let mut b = fat16_sector();
    b[13] = 1;
    put16(&mut b, 14, 0);
    b[16] = 0;
    put16(&mut b, 17, 0);
    put16(&mut b, 22, 1);
    put16(&mut b, 19, 4084);
    assert_eq!(Fat::from_bytes(&b).unwrap().fat_type(), FatType::Fat12);
    put16(&mut b, 19, 4085);
    assert_eq!(Fat::from_bytes(&b).unwrap().fat_type(), FatType::Fat16);
}

#[test]
fn zero_sectors_per_cluster_counts_as_one() {
    let mut b = fat16_sector();
    b[13] = 0;
    b[16] = 0;
    put16(&mut b, 17, 0);
    put16(&mut b, 14, 0);
    put16(&mut b, 19, 5000);
    assert_eq!(Fat::from_bytes(&b).unwrap().fat_type(), FatType::Fat16);
}

#[test]
fn more_metadata_than_sectors_saturates() {
    let mut b = fat16_sector();
    put16(&mut b, 19, 10);
    assert_eq!(Fat::from_bytes(&b).unwrap().fat_type(), FatType::Fat12);
}

#[test]
fn fat32_by_fat_length() {
    let mut b = fat16_sector();
    put16(&mut b, 22, 0);
    put32(&mut b, 36, 1000); // fat32_length
    // FAT32 common fields start 28 bytes into the shared region
    put32(&mut b, 36 + 28 + 3, 0x0012_ABCD);
    b[36 + 28 + 7..36 + 28 + 18].copy_from_slice(b"BOOT       ");
    let fat = Fat::from_bytes(&b).unwrap();
    assert_eq!(fat.fat32().fat32_length, 1000);
    assert_eq!(fat.fat_type(), FatType::Fat32);
    assert_eq!(fat.uuid().unwrap(), "0012-ABCD");
    assert_eq!(fat.label().unwrap(), "BOOT");
}

#[test]
fn fat32_fields_are_decoded() {
    let mut b = fat16_sector();
    put32(&mut b, 36, 7);
    put16(&mut b, 40, 0x0102);
    b[42] = 1;
    b[43] = 2;
    put32(&mut b, 44, 2);
    put16(&mut b, 48, 1);
    put16(&mut b, 50, 6);
    put16(&mut b, 52, 0xBEEF);
    let f32 = Fat::from_bytes(&b).unwrap().fat32();
    assert_eq!(f32.fat32_length, 7);
    assert_eq!(f32.fat32_flags, 0x0102);
    assert_eq!(f32.fat32_version, [1, 2]);
    assert_eq!(f32.root_cluster, 2);
    assert_eq!(f32.info_sector, 1);
    assert_eq!(f32.backup_boot, 6);
    assert_eq!(f32.reserved2[0], 0xBEEF);
}

#[test]
fn label_keeps_inner_spaces_and_replaces_invalid_bytes() {
    let mut b = fat16_sector();
    b[43..54].copy_from_slice(b"MY DISK    ");
    assert_eq!(Fat::from_bytes(&b).unwrap().label().unwrap(), "MY DISK");
    b[43..54].copy_from_slice(&[0xFF, b'A', b' ', b' ', b' ', b' ', b' ', b' ', b' ', b' ', b' ']);
    assert_eq!(Fat::from_bytes(&b).unwrap().label().unwrap(), "\u{FFFD}A");
    b[43..54].copy_from_slice(b"           ");
    assert_eq!(Fat::from_bytes(&b).unwrap().label().unwrap(), "");
}

#[test]
fn uuid_pads_with_zeros() {
    let mut b = fat16_sector();
    put32(&mut b, 39, 0x0000_0001);
    assert_eq!(Fat::from_bytes(&b).unwrap().uuid().unwrap(), "0000-0001");
}

#[test]
fn largest_fat_geometry_needs_only_a_sector_size() {
    let mut b = fat16_sector();
    b[16] = 255;
    put16(&mut b, 22, 65535);
    put16(&mut b, 14, 65535);
    put16(&mut b, 17, 65535);
    put16(&mut b, 11, 1);
    // 65535 + 255 * 65535 + 65535 * 32 metadata sectors exceed the 524288 total
    assert_eq!(Fat::from_bytes(&b).unwrap().fat_type(), FatType::Fat12);
}
