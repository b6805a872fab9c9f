//! What is known of the file to consolidate, and the checks that admit it.
use vstd::prelude::*;
use crate::platform::{btrfs_magic, btrfs_tag, file_type_mask, regular_bits, regular_file_bits, type_mask};

verus! {

/// The metadata of the target that the run goes by.
#[derive(Clone, Copy, Debug, PartialEq, Eq)]
pub struct TargetMeta {
    /// File mode: type and permission bits.
    pub mode: u32,
    /// Inode number; the scratch file is named after it.
    pub inode: u64,
    /// Length in bytes; the scratch file is preallocated to it.
    pub length: i64,
}

/// A filesystem is supported when it is btrfs.
pub open spec fn supported_filesystem(fs_type: i64) -> bool {
    fs_type == btrfs_tag()
}

/// A mode is that of a regular file when its type bits say so.
pub open spec fn regular_file(mode: u32) -> bool {
    mode & type_mask() == regular_bits()
}

/// Whether a filesystem of this type offers what the consolidation relies on.
pub fn is_supported_filesystem(fs_type: i64) -> (ok: bool)
    ensures
        ok == supported_filesystem(fs_type),
{
    fs_type == btrfs_magic()
}

/// Whether a file of this mode is a regular file. Directories, devices,
/// sockets, pipes and symbolic links are not.
pub fn is_regular_file(mode: u32) -> (ok: bool)
    ensures
        ok == regular_file(mode),
{
    mode & file_type_mask() == regular_file_bits()
}

/// The permission bits do not decide: only the type bits do.
pub proof fn regular_file_ignores_permissions(mode: u32, other: u32)
    requires
        mode & type_mask() == other & type_mask(),
    ensures
        regular_file(mode) == regular_file(other),
{
}

} // verus!
