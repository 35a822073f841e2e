//! The file systems that the installer knows.

use vstd::prelude::*;

use crate::text::in_small_letters;

verus! {

/// The file systems that a root partition can have.
#[derive(Clone, Copy, PartialEq, Eq, Structural)]
pub enum SupportedFileSystems {
    Btrfs,
    Zfs,
}

impl DeepView for SupportedFileSystems {
    type V = SupportedFileSystems;

    open spec fn deep_view(&self) -> SupportedFileSystems {
        *self
    }
}

/// What Nix calls a file system.
pub open spec fn nix_name_of(file_system: SupportedFileSystems) -> Seq<char> {
    match file_system {
        SupportedFileSystems::Zfs => "zfs"@,
        SupportedFileSystems::Btrfs => "btrfs"@,
    }
}

/// What people call a file system.
pub open spec fn display_name_of(file_system: SupportedFileSystems) -> Seq<char> {
    match file_system {
        SupportedFileSystems::Zfs => "ZFS"@,
        SupportedFileSystems::Btrfs => "Btrfs"@,
    }
}

impl SupportedFileSystems {
    /// What Nix calls the file system.
    pub fn nix_name(&self) -> (r: String)
        ensures
            r@ == nix_name_of(*self),
    {
        match self {
            SupportedFileSystems::Zfs => "zfs".to_string(),
            SupportedFileSystems::Btrfs => "btrfs".to_string(),
        }
    }

    /// What people call the file system.
    pub fn display_name(&self) -> (r: String)
        ensures
            r@ == display_name_of(*self),
    {
        match self {
            SupportedFileSystems::Zfs => "ZFS".to_string(),
            SupportedFileSystems::Btrfs => "Btrfs".to_string(),
        }
    }
}

/// The mount paths whose partitions the installer looks up in the NixOS configuration.
#[derive(Clone, Copy, PartialEq, Eq, Structural)]
pub enum NixOSFileSystemMountPath {
    Efi,
    Root,
}

/// What messages call a partition.
pub open spec fn label_of(mount_path: NixOSFileSystemMountPath) -> Seq<char> {
    match mount_path {
        NixOSFileSystemMountPath::Efi => "EFI"@,
        NixOSFileSystemMountPath::Root => "Root"@,
    }
}

/// Where a partition is mounted.
pub open spec fn path_of(mount_path: NixOSFileSystemMountPath) -> Seq<char> {
    match mount_path {
        NixOSFileSystemMountPath::Efi => "/boot"@,
        NixOSFileSystemMountPath::Root => "/"@,
    }
}

impl NixOSFileSystemMountPath {
    /// What messages call the partition.
    pub fn label(&self) -> (r: String)
        ensures
            r@ == label_of(*self),
    {
        match self {
            NixOSFileSystemMountPath::Efi => "EFI".to_string(),
            NixOSFileSystemMountPath::Root => "Root".to_string(),
        }
    }

    /// Where the partition is mounted.
    pub fn path(&self) -> (r: String)
        ensures
            r@ == path_of(*self),
    {
        match self {
            NixOSFileSystemMountPath::Efi => "/boot".to_string(),
            NixOSFileSystemMountPath::Root => "/".to_string(),
        }
    }
}

/// What Nix calls a file system is what people call it, in small letters.
pub proof fn nix_writes_names_in_small_letters(file_system: SupportedFileSystems)
    ensures
        in_small_letters(display_name_of(file_system)) == nix_name_of(file_system),
{
    reveal_strlit("zfs");
    reveal_strlit("ZFS");
    reveal_strlit("btrfs");
    reveal_strlit("Btrfs");
    assert(in_small_letters("ZFS"@) =~= "zfs"@);
    assert(in_small_letters("Btrfs"@) =~= "btrfs"@);
}

} // verus!
