//! Filesystem descriptions for partitions: which filesystem a partition is
//! formatted with, and its label and identifier.

use vstd::prelude::*;

verus! {

/// A location in a KDL source text: byte offset and length.
#[derive(Debug, Clone, Copy, PartialEq, Eq)]
pub struct Span {
    pub offset: usize,
    pub len: usize,
}

/// Errors raised while reading filesystem descriptions.
#[derive(Debug, Clone, PartialEq)]
pub enum Error {
    /// A name that is no known filesystem type.
    UnknownVariant,
    /// A node lacks the entry `id` (for an argument, its index).
    MissingEntry { at: Span, id: String },
    /// An entry's value has the wrong type.
    InvalidType { at: Span },
    /// A child node that is not supported here, or a required one that is missing.
    UnsupportedNode { at: Span, name: String },
    /// A combination of settings that is not supported.
    InvalidArguments { at: Span, advice: Option<String> },
    /// A value that is not supported.
    UnsupportedValue { at: Span, advice: Option<String> },
}

/// The filesystem information for a partition.
/// This is used to format the partition with a filesystem.
#[derive(Debug, Clone, PartialEq)]
pub enum Filesystem {
    /// Used for ESP/XBOOTLDR partitions where the provisioning strategy
    /// requires FAT32 regardless of partition size.
    Fat32 { label: Option<String>, volume_id: Option<u32> },
    /// Used for the ESP on firmware that only supports FAT12/16. FAT16 is
    /// pinned explicitly because it is the only variant universally readable
    /// by UEFI firmware that still supports VFAT long file names.
    Fat16 { label: Option<String>, volume_id: Option<u32> },
    Standard { filesystem_type: StandardFilesystemType, label: Option<String>, uuid: Option<String> },
}

#[derive(Debug, Clone, Copy, PartialEq, Eq, Structural)]
pub enum StandardFilesystemType {
    F2fs,
    Ext4,
    Xfs,
    Btrfs,
    Bcachefs,
    Swap,
}

/// Text of an optional string.
pub open spec fn opt_text(o: Option<String>) -> Option<Seq<char>> {
    match o {
        Some(s) => Some(s@),
        None => None,
    }
}

/// A `Filesystem` with its strings as text.
pub ghost enum FilesystemView {
    Fat32 { label: Option<Seq<char>>, volume_id: Option<u32> },
    Fat16 { label: Option<Seq<char>>, volume_id: Option<u32> },
    Standard { filesystem_type: StandardFilesystemType, label: Option<Seq<char>>, uuid: Option<Seq<char>> },
}

impl View for Filesystem {
    type V = FilesystemView;

    open spec fn view(&self) -> FilesystemView {
        match *self {
            Filesystem::Fat32 { label, volume_id } => FilesystemView::Fat32 { label: opt_text(label), volume_id },
            Filesystem::Fat16 { label, volume_id } => FilesystemView::Fat16 { label: opt_text(label), volume_id },
            Filesystem::Standard { filesystem_type, label, uuid } => FilesystemView::Standard {
                filesystem_type,
                label: opt_text(label),
                uuid: opt_text(uuid),
            },
        }
    }
}

/// An `Error` with its strings as text.
pub ghost enum ErrorView {
    UnknownVariant,
    MissingEntry { at: Span, id: Seq<char> },
    InvalidType { at: Span },
    UnsupportedNode { at: Span, name: Seq<char> },
    InvalidArguments { at: Span, advice: Option<Seq<char>> },
    UnsupportedValue { at: Span, advice: Option<Seq<char>> },
}

impl View for Error {
    type V = ErrorView;

    open spec fn view(&self) -> ErrorView {
        match *self {
            Error::UnknownVariant => ErrorView::UnknownVariant,
            Error::MissingEntry { at, id } => ErrorView::MissingEntry { at, id: id@ },
            Error::InvalidType { at } => ErrorView::InvalidType { at },
            Error::UnsupportedNode { at, name } => ErrorView::UnsupportedNode { at, name: name@ },
            Error::InvalidArguments { at, advice } => ErrorView::InvalidArguments { at, advice: opt_text(advice) },
            Error::UnsupportedValue { at, advice } => ErrorView::UnsupportedValue { at, advice: opt_text(advice) },
        }
    }
}

/// The name under which a standard filesystem type is written.
pub open spec fn fs_type_name(t: StandardFilesystemType) -> Seq<char> {
    match t {
        StandardFilesystemType::Ext4 => "ext4"@,
        StandardFilesystemType::F2fs => "f2fs"@,
        StandardFilesystemType::Xfs => "xfs"@,
        StandardFilesystemType::Btrfs => "btrfs"@,
        StandardFilesystemType::Bcachefs => "bcachefs"@,
        StandardFilesystemType::Swap => "swap"@,
    }
}

/// The filesystem type named `s`, as `FromStr` reads it.
pub open spec fn parse_fs_type(s: Seq<char>) -> Result<StandardFilesystemType, Error> {
    if s == "ext4"@ {
        Ok(StandardFilesystemType::Ext4)
    } else if s == "f2fs"@ {
        Ok(StandardFilesystemType::F2fs)
    } else if s == "xfs"@ {
        Ok(StandardFilesystemType::Xfs)
    } else if s == "btrfs"@ {
        Ok(StandardFilesystemType::Btrfs)
    } else if s == "bcachefs"@ {
        Ok(StandardFilesystemType::Bcachefs)
    } else if s == "swap"@ {
        Ok(StandardFilesystemType::Swap)
    } else {
        Err(Error::UnknownVariant)
    }
}

/// Reading back the name that `Display` writes for a filesystem type gives
/// that type again.
pub proof fn lemma_fs_type_name_roundtrip(t: StandardFilesystemType)
    ensures
        parse_fs_type(fs_type_name(t)) == Ok::<StandardFilesystemType, Error>(t),
{
    reveal_strlit("ext4");
    reveal_strlit("f2fs");
    reveal_strlit("xfs");
    reveal_strlit("btrfs");
    reveal_strlit("bcachefs");
    reveal_strlit("swap");
    let s = fs_type_name(t);
    assert(s.len() != 4 || s[0] != 'e' || s == "ext4"@);
    assert(s.len() != 4 || s[0] != 'f' || s == "f2fs"@);
}

/// A name that parses as a filesystem type is the name that type displays as.
pub proof fn lemma_parsed_name_displays_back(s: Seq<char>)
    ensures
        parse_fs_type(s) matches Ok(t) ==> fs_type_name(t) == s,
{
}

/// Whether `a` and `b` hold the same text.
pub fn same_text(a: &str, b: &str) -> (r: bool)
    ensures
        r == (a@ == b@),
{
    String::from_str(a) == String::from_str(b)
}

impl StandardFilesystemType {
    /// The name of the filesystem type, as its `Display` writes it.
    pub fn as_str(&self) -> (r: &'static str)
        ensures
            r@ == fs_type_name(*self),
    {
        match self {
            StandardFilesystemType::Ext4 => "ext4",
            StandardFilesystemType::F2fs => "f2fs",
            StandardFilesystemType::Xfs => "xfs",
            StandardFilesystemType::Btrfs => "btrfs",
            StandardFilesystemType::Bcachefs => "bcachefs",
            StandardFilesystemType::Swap => "swap",
        }
    }

    /// Parses a filesystem type from its name.
    pub fn from_name(value: &str) -> (r: Result<Self, Error>)
        ensures
            r == parse_fs_type(value@),
    {
        if same_text(value, "ext4") {
            Ok(StandardFilesystemType::Ext4)
        } else if same_text(value, "f2fs") {
            Ok(StandardFilesystemType::F2fs)
        } else if same_text(value, "xfs") {
            Ok(StandardFilesystemType::Xfs)
        } else if same_text(value, "btrfs") {
            Ok(StandardFilesystemType::Btrfs)
        } else if same_text(value, "bcachefs") {
            Ok(StandardFilesystemType::Bcachefs)
        } else if same_text(value, "swap") {
            Ok(StandardFilesystemType::Swap)
        } else {
            Err(Error::UnknownVariant)
        }
    }
}

impl std::str::FromStr for StandardFilesystemType {
    type Err = Error;

    fn from_str(value: &str) -> (r: Result<Self, Self::Err>)
        ensures
            r == parse_fs_type(value@),
    {
        Self::from_name(value)
    }
}

} // verus!
