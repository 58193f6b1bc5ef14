//! `mkfs` command lines for the filesystems of `crate::filesystem`.

use vstd::prelude::*;
use crate::filesystem::{Filesystem, StandardFilesystemType};
use crate::text::{decimal, decimal_string, views};

verus! {

/// The program that formats `fs`.
pub open spec fn mkfs_command_of(fs: Filesystem) -> Seq<char> {
    match fs {
        Filesystem::Fat32 { .. } => "mkfs.fat"@,
        Filesystem::Fat16 { .. } => "mkfs.fat"@,
        Filesystem::Standard { filesystem_type, .. } => match filesystem_type {
            StandardFilesystemType::F2fs => "mkfs.f2fs"@,
            StandardFilesystemType::Ext4 => "mkfs.ext4"@,
            StandardFilesystemType::Xfs => "mkfs.xfs"@,
            StandardFilesystemType::Btrfs => "mkfs.btrfs"@,
            StandardFilesystemType::Bcachefs => "mkfs.bcachefs"@,
            StandardFilesystemType::Swap => "mkswap"@,
        },
    }
}

/// The arguments that set the FAT volume id: `-i <decimal id>`, or none.
pub open spec fn volume_id_args(volume_id: Option<u32>) -> Seq<Seq<char>> {
    match volume_id {
        Some(id) => seq!["-i"@, decimal(id as nat)],
        None => seq![],
    }
}

/// The arguments that set the filesystem UUID or volume id.
pub open spec fn uuid_args_of(fs: Filesystem) -> Seq<Seq<char>> {
    match fs {
        Filesystem::Fat32 { volume_id, .. } => volume_id_args(volume_id),
        Filesystem::Fat16 { volume_id, .. } => volume_id_args(volume_id),
        Filesystem::Standard { filesystem_type, uuid, .. } => match uuid {
            Some(u) => match filesystem_type {
                StandardFilesystemType::Xfs => seq!["-m"@, "uuid="@ + u@],
                _ => seq!["-U"@, u@],
            },
            None => seq![],
        },
    }
}

/// The arguments that set the filesystem label.
pub open spec fn label_args_of(fs: Filesystem) -> Seq<Seq<char>> {
    match fs {
        Filesystem::Fat32 { label, .. } => match label {
            Some(l) => seq!["-n"@, l@],
            None => seq![],
        },
        Filesystem::Fat16 { label, .. } => match label {
            Some(l) => seq!["-n"@, l@],
            None => seq![],
        },
        Filesystem::Standard { filesystem_type, label, .. } => match label {
            Some(l) => match filesystem_type {
                StandardFilesystemType::F2fs => seq!["-l"@, l@],
                _ => seq!["-L"@, l@],
            },
            None => seq![],
        },
    }
}

/// The arguments that force formatting over an existing filesystem.
pub open spec fn force_args_of(fs: Filesystem) -> Seq<Seq<char>> {
    match fs {
        Filesystem::Fat32 { .. } => seq![],
        Filesystem::Fat16 { .. } => seq![],
        Filesystem::Standard { filesystem_type, .. } => match filesystem_type {
            StandardFilesystemType::Ext4 => seq!["-F"@],
            _ => seq!["-f"@],
        },
    }
}

/// The arguments that pin the exact filesystem variant.
pub open spec fn variant_args_of(fs: Filesystem) -> Seq<Seq<char>> {
    match fs {
        Filesystem::Fat32 { .. } => seq!["-F"@, "32"@],
        Filesystem::Fat16 { .. } => seq!["-F"@, "16"@],
        Filesystem::Standard { filesystem_type, .. } => match filesystem_type {
            StandardFilesystemType::Xfs => seq![
                "-n"@,
                "parent=1"@,
                "-i"@,
                "exchange=1"@,
                "-m"@,
                "autofsck=repair"@,
            ],
            _ => seq![],
        },
    }
}

/// The label a filesystem is to be given.
pub open spec fn label_of(fs: Filesystem) -> Option<String> {
    match fs {
        Filesystem::Fat32 { label, .. } => label,
        Filesystem::Fat16 { label, .. } => label,
        Filesystem::Standard { label, .. } => label,
    }
}

/// Every filesystem with a label is given it: the label arguments are a
/// flag (`-n` for FAT, `-l` for f2fs, `-L` for every other type) followed
/// by the label, and the format command's arguments hold the label, forced
/// or not. Without a label there are no label arguments.
pub proof fn lemma_label_is_passed(fs: Filesystem, force: bool, device: Seq<char>)
    ensures
        label_of(fs) is None ==> label_args_of(fs).len() == 0,
        label_of(fs) matches Some(l) ==> {
            &&& label_args_of(fs).len() == 2
            &&& label_args_of(fs)[1] == l@
            &&& label_args_of(fs)[0] == (match fs {
                Filesystem::Standard { filesystem_type: StandardFilesystemType::F2fs, .. } => "-l"@,
                Filesystem::Standard { .. } => "-L"@,
                _ => "-n"@,
            })
            &&& exists|i: int|
                0 <= i < format_args_of(Formatter { filesystem: fs, force }, device).len()
                    && #[trigger] format_args_of(Formatter { filesystem: fs, force }, device)[i] == l@
        },
{
    if let Some(l) = label_of(fs) {
        let f = Formatter { filesystem: fs, force };
        let args = format_args_of(f, device);
        let i: int = (uuid_args_of(fs).len() + 1) as int;
        assert(args[i] == label_args_of(fs)[1]);
    }
}

/// Generates filesystem-specific formatting commands and arguments.
pub trait FilesystemExt {
    /// Returns the appropriate mkfs command for the filesystem
    fn mkfs_command(&self) -> &str;

    /// Returns the command-line arguments for setting UUID, if applicable
    fn uuid_arg(&self) -> Vec<String>;

    /// Returns the command-line arguments for setting filesystem label, if applicable
    fn label_arg(&self) -> Vec<String>;

    /// Returns the force format argument if applicable
    fn force_arg(&self) -> Vec<String>;

    /// Returns arguments pinning the exact filesystem variant if needed
    fn variant_arg(&self) -> Vec<String>;
}

/// `[a]` as owned strings.
fn args1(a: &str) -> (v: Vec<String>)
    ensures
        views(v@) == seq![a@],
{
    let mut v: Vec<String> = Vec::new();
    v.push(String::from_str(a));
    assert(views(v@) =~= seq![a@]);
    v
}

/// `[a, b]` as owned strings.
fn args2(a: &str, b: String) -> (v: Vec<String>)
    ensures
        views(v@) == seq![a@, b@],
{
    let mut v: Vec<String> = Vec::new();
    v.push(String::from_str(a));
    v.push(b);
    assert(views(v@) =~= seq![a@, b@]);
    v
}

fn no_args() -> (v: Vec<String>)
    ensures
        views(v@) == Seq::<Seq<char>>::empty(),
{
    let v: Vec<String> = Vec::new();
    assert(views(v@) =~= Seq::<Seq<char>>::empty());
    v
}

fn volume_id_arg(volume_id: &Option<u32>) -> (v: Vec<String>)
    ensures
        views(v@) == volume_id_args(*volume_id),
{
    match volume_id {
        Some(id) => args2("-i", decimal_string(*id)),
        None => no_args(),
    }
}

impl FilesystemExt for Filesystem {
    fn mkfs_command(&self) -> (r: &str)
        ensures
            r@ == mkfs_command_of(*self),
    {
        match self {
            Filesystem::Fat32 { .. } => "mkfs.fat",
            Filesystem::Fat16 { .. } => "mkfs.fat",
            Filesystem::Standard { filesystem_type, .. } => match filesystem_type {
                StandardFilesystemType::F2fs => "mkfs.f2fs",
                StandardFilesystemType::Ext4 => "mkfs.ext4",
                StandardFilesystemType::Xfs => "mkfs.xfs",
                StandardFilesystemType::Btrfs => "mkfs.btrfs",
                StandardFilesystemType::Bcachefs => "mkfs.bcachefs",
                StandardFilesystemType::Swap => "mkswap",
            },
        }
    }

    fn uuid_arg(&self) -> (r: Vec<String>)
        ensures
            views(r@) == uuid_args_of(*self),
    {
        match self {
            Filesystem::Fat32 { volume_id, .. } => volume_id_arg(volume_id),
            Filesystem::Fat16 { volume_id, .. } => volume_id_arg(volume_id),
            Filesystem::Standard { filesystem_type, uuid, .. } => match uuid {
                Some(u) => match filesystem_type {
                    StandardFilesystemType::Xfs => {
                        let value = String::from_str("uuid=").concat(u.as_str());
                        args2("-m", value)
                    },
                    _ => args2("-U", u.clone()),
                },
                None => no_args(),
            },
        }
    }

    fn label_arg(&self) -> (r: Vec<String>)
        ensures
            views(r@) == label_args_of(*self),
    {
        match self {
            Filesystem::Fat32 { label, .. } => match label {
                Some(l) => args2("-n", l.clone()),
                None => no_args(),
            },
            Filesystem::Fat16 { label, .. } => match label {
                Some(l) => args2("-n", l.clone()),
                None => no_args(),
            },
            Filesystem::Standard { filesystem_type, label, .. } => match label {
                Some(l) => match filesystem_type {
                    StandardFilesystemType::F2fs => args2("-l", l.clone()),
                    _ => args2("-L", l.clone()),
                },
                None => no_args(),
            },
        }
    }

    fn force_arg(&self) -> (r: Vec<String>)
        ensures
            views(r@) == force_args_of(*self),
    {
        match self {
            Filesystem::Fat32 { .. } => no_args(),
            Filesystem::Fat16 { .. } => no_args(),
            Filesystem::Standard { filesystem_type, .. } => match filesystem_type {
                StandardFilesystemType::Ext4 => args1("-F"),
                _ => args1("-f"),
            },
        }
    }

    fn variant_arg(&self) -> (r: Vec<String>)
        ensures
            views(r@) == variant_args_of(*self),
    {
        match self {
            Filesystem::Fat32 { .. } => args2("-F", String::from_str("32")),
            Filesystem::Fat16 { .. } => args2("-F", String::from_str("16")),
            Filesystem::Standard { filesystem_type, .. } => match filesystem_type {
                StandardFilesystemType::Xfs => {
                    let mut v: Vec<String> = Vec::new();
                    v.push(String::from_str("-n"));
                    v.push(String::from_str("parent=1"));
                    v.push(String::from_str("-i"));
                    v.push(String::from_str("exchange=1"));
                    v.push(String::from_str("-m"));
                    v.push(String::from_str("autofsck=repair"));
                    assert(views(v@) =~= variant_args_of(*self));
                    v
                },
                _ => no_args(),
            },
        }
    }
}

/// Formats filesystems on devices.
pub struct Formatter {
    pub filesystem: Filesystem,
    pub force: bool,
}

/// A program and its arguments, as a `std::process::Command` is configured.
#[derive(Debug, Clone, PartialEq)]
pub struct FormatCommand {
    pub program: String,
    pub args: Vec<String>,
}

/// The arguments with which formatter `f` formats `device`: UUID, label and
/// variant arguments, then the force arguments when forced, then the device.
pub open spec fn format_args_of(f: Formatter, device: Seq<char>) -> Seq<Seq<char>> {
    uuid_args_of(f.filesystem) + label_args_of(f.filesystem) + variant_args_of(f.filesystem) + (
    if f.force {
        force_args_of(f.filesystem)
    } else {
        seq![]
    }) + seq![device]
}

proof fn lemma_views_concat(a: Seq<String>, b: Seq<String>)
    ensures
        views(a + b) == views(a) + views(b),
{
    assert(views(a + b) =~= views(a) + views(b));
}

/// Appends `other` to `v`.
fn extend_args(v: &mut Vec<String>, other: Vec<String>)
    ensures
        views(final(v)@) == views(old(v)@) + views(other@),
{
    let mut other = other;
    proof {
        lemma_views_concat(v@, other@);
    }
    v.append(&mut other);
}

impl Formatter {
    /// Creates a new Formatter for the given filesystem
    pub fn new(filesystem: Filesystem) -> (r: Self)
        ensures
            r.filesystem == filesystem,
            !r.force,
    {
        Self { filesystem, force: false }
    }

    /// Forces the format operation
    pub fn force(self) -> (r: Self)
        ensures
            r.filesystem == self.filesystem,
            r.force,
    {
        Self { force: true, ..self }
    }

    /// Returns the command that formats `device` with the filesystem.
    pub fn format(&self, device: &str) -> (r: FormatCommand)
        ensures
            r.program@ == mkfs_command_of(self.filesystem),
            views(r.args@) == format_args_of(*self, device@),
    {
        let program = String::from_str(self.filesystem.mkfs_command());
        let mut args = self.filesystem.uuid_arg();
        extend_args(&mut args, self.filesystem.label_arg());
        extend_args(&mut args, self.filesystem.variant_arg());
        if self.force {
            extend_args(&mut args, self.filesystem.force_arg());
        } else {
            extend_args(&mut args, no_args());
        }
        extend_args(&mut args, args1(device));
        FormatCommand { program, args }
    }
}

} // verus!
