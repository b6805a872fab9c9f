//! The name of the scratch file.
use vstd::prelude::*;
use vstd::string::StringExecFns;
use crate::text::{append_decimal, decimal, decimal_injective};

verus! {

/// What every scratch file's name begins with.
pub open spec fn scratch_prefix() -> Seq<char> {
    seq!['.', 'd', 'e', 'f', 'r', 'a', 'g', '.']
}

/// The scratch file's name for a target of the given inode.
pub open spec fn scratch_name_of(inode: u64) -> Seq<char> {
    scratch_prefix() + decimal(inode as nat)
}

/// The name under which the scratch file is created, in the target's
/// directory: `.defrag.` and the target's inode number in decimal.
pub fn scratch_name(inode: u64) -> (name: String)
    ensures
        name@ == scratch_name_of(inode),
{
    proof {
        reveal_strlit(".defrag.");
    }
    let mut name = String::from_str(".defrag.");
    assert(name@ =~= scratch_prefix());
    append_decimal(&mut name, inode);
    name
}

/// Two targets share a scratch name only if they share the inode number.
pub proof fn scratch_name_injective(a: u64, b: u64)
    requires
        scratch_name_of(a) == scratch_name_of(b),
    ensures
        a == b,
{
    let p = scratch_prefix();
    assert(decimal(a as nat) =~= (p + decimal(a as nat)).subrange(p.len() as int, (p + decimal(a as nat)).len() as int));
    assert(decimal(b as nat) =~= (p + decimal(b as nat)).subrange(p.len() as int, (p + decimal(b as nat)).len() as int));
    decimal_injective(a as nat, b as nat);
}

} // verus!
