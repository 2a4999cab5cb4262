//! Subset tests on flag sets, made by the graphics API binding.

use vstd::prelude::*;

verus! {

/// Whether every bit of `wanted` is set in `flags`.
pub open spec fn has_all(flags: u32, wanted: u32) -> bool {
    flags & wanted == wanted
}

/// Calls `ash::vk::QueueFlags::contains` on the two flag sets. The binding
/// defines it as the subset test: the receiver masked by the argument equals
/// the argument.
#[verifier::external_body]
pub(crate) fn queue_flags_contain(flags: u32, wanted: u32) -> (r: bool)
    ensures
        r == has_all(flags, wanted),
{
    ash::vk::QueueFlags::from_raw(flags).contains(ash::vk::QueueFlags::from_raw(wanted))
}

/// Calls `ash::vk::MemoryPropertyFlags::contains` on the two flag sets. The
/// binding defines it as the subset test: the receiver masked by the argument
/// equals the argument.
#[verifier::external_body]
pub(crate) fn memory_flags_contain(flags: u32, wanted: u32) -> (r: bool)
    ensures
        r == has_all(flags, wanted),
{
    ash::vk::MemoryPropertyFlags::from_raw(flags).contains(
        ash::vk::MemoryPropertyFlags::from_raw(wanted),
    )
}

} // verus!
