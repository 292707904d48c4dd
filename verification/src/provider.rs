//! The boundary to the `sysinfo` crate.
//!
//! A [`sysinfo::System`] is a cache of what the operating system last
//! reported. Filling it reads the host and is left to the caller; this module
//! only reads values back out of it. Nothing behind these declarations is
//! verified: each one states what is taken on trust from `sysinfo`.

use vstd::prelude::*;

verus! {

/// `sysinfo::System`, carried as an opaque value.
#[verifier::external_type_specification]
#[verifier::external_body]
pub struct ExSystem(sysinfo::System);

/// The size of physical memory, in bytes, that `system` holds.
pub uninterp spec fn total_memory_of(system: sysinfo::System) -> u64;

/// The amount of memory available for use, in bytes, that `system` holds.
pub uninterp spec fn available_memory_of(system: sysinfo::System) -> u64;

/// The amount of memory in use, in bytes, that `system` holds.
pub uninterp spec fn used_memory_of(system: sysinfo::System) -> u64;

/// The utilization of each core that `system` holds, in core order, each as
/// the bit pattern of the single-precision number that stands for a
/// percentage.
pub uninterp spec fn core_usage_bits_of(system: sysinfo::System) -> Seq<u32>;

/// `System::total_memory` returns a stored value and changes nothing: the
/// result depends on `system` alone.
pub assume_specification[ sysinfo::System::total_memory ](system: &sysinfo::System) -> (bytes: u64)
    ensures
        bytes == total_memory_of(*system),
;

/// `System::available_memory` returns a stored value and changes nothing: the
/// result depends on `system` alone.
pub assume_specification[ sysinfo::System::available_memory ](system: &sysinfo::System) -> (bytes:
    u64)
    ensures
        bytes == available_memory_of(*system),
;

/// `System::used_memory` depends on `system` alone. On some platforms it
/// subtracts the available memory from the total, so it is only called when
/// the available memory does not exceed the total.
pub assume_specification[ sysinfo::System::used_memory ](system: &sysinfo::System) -> (bytes: u64)
    requires
        available_memory_of(*system) <= total_memory_of(*system),
    ensures
        bytes == used_memory_of(*system),
;

/// Reads `Cpu::cpu_usage` of every entry of `System::cpus`, in order, and
/// hands each number out as its bit pattern (`to_bits`). Both calls return
/// stored values, so the result depends on `system` alone.
#[verifier::external_body]
pub(crate) fn core_usage_bits(system: &sysinfo::System) -> (bits: Vec<u32>)
    ensures
        bits@ == core_usage_bits_of(*system),
{
    system.cpus().iter().map(|cpu| cpu.cpu_usage().to_bits()).collect()
}

} // verus!
