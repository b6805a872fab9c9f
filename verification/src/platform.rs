//! The constants of the operating system that the checks go by.
use vstd::prelude::*;

verus! {

/// The filesystem type tag of btrfs, as `statfs` reports it on 64-bit Linux.
pub open spec fn btrfs_tag() -> i64 {
    0x9123_683E
}

/// The bits of a file mode that hold the file's type.
pub open spec fn type_mask() -> u32 {
    0xF000
}

/// The value of the type bits of a regular file.
pub open spec fn regular_bits() -> u32 {
    0x8000
}

/// Reads `nix::sys::statfs::BTRFS_SUPER_MAGIC`, which wraps libc's
/// `BTRFS_SUPER_MAGIC`. Trusted: on 64-bit Linux the constant is the positive
/// number `0x9123683E`.
#[verifier::external_body]
pub(crate) fn btrfs_magic() -> (tag: i64)
    ensures
        tag == btrfs_tag(),
{
    nix::sys::statfs::BTRFS_SUPER_MAGIC.0 as i64
}

/// Reads libc's `S_IFMT` through `nix::libc`. Trusted: on Linux the mask is
/// octal `170000`.
#[verifier::external_body]
pub(crate) fn file_type_mask() -> (mask: u32)
    ensures
        mask == type_mask(),
{
    nix::libc::S_IFMT
}

/// Reads libc's `S_IFREG` through `nix::libc`. Trusted: on Linux a regular
/// file's type bits are octal `100000`.
#[verifier::external_body]
pub(crate) fn regular_file_bits() -> (bits: u32)
    ensures
        bits == regular_bits(),
{
    nix::libc::S_IFREG
}

} // verus!
