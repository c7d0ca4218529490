//! Errors of the wrapper over the Apple Virtualization Framework.

use vstd::prelude::*;

verus! {

/// Errors associated with the wrappers over AVF functions.
#[derive(Debug, PartialEq, Eq)]
pub enum AvfError {
    /// AVF is not supported on this system.
    Unsupported,
    /// The AVF configuration was invalid.
    InvalidConfiguration,
}

/// The memory size in bytes of a machine of `mem_size_mib` mebibytes: the
/// size shifted left by 20 bits in 64 bits, so that the bits shifted out of
/// a size of 2^44 MiB or more are lost.
pub fn vm_memory_bytes(mem_size_mib: usize) -> (r: u64)
    ensures
        r == ((mem_size_mib as u64) as int * 0x100000) % 0x1_0000_0000_0000_0000,
{
    let m = mem_size_mib as u64;
    let r = m << 20u64;
    assert(m << 20u64 == ((m as int * 0x100000) % 0x1_0000_0000_0000_0000) as u64) by (bit_vector);
    r
}

} // verus!
