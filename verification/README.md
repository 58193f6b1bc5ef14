# partitioning

Verified core of a disk provisioning toolkit, written in Verus.

- `src/` is the verified library:
  - `partition` — partitions as sysfs reports them, their byte geometry;
  - `filesystem` — filesystem descriptions and filesystem type names;
  - `formatter` — the `mkfs` command line of each filesystem;
  - `kdl_reader` — filesystem descriptions read from KDL documents;
  - `fat` — decoding of the FAT12/16/32 boot sector (type, volume id, label);
  - `blkpg` — BLKPG ioctl requests and the meaning of their results;
  - `writer` — validation of planned partition-table changes and the ordered
    steps that write them to a disk;
  - `text` — decimal/hexadecimal rendering and trimming, with exact specs.
- `app/` holds the I/O around it: sysfs reads, the BLKPG ioctl, GPT tables on
  disk through the `gpt` crate, and building `std::process::Command`s.
- `tests/` runs the library on concrete values.
