//! Memory sizes: bytes as the host reports them, mebibytes as they are shown.

use vstd::prelude::*;

verus! {

/// Bytes in one mebibyte, the unit in which memory is displayed.
pub const BYTES_PER_MIB: u64 = 1_048_576;

/// Whole mebibytes contained in `bytes`. The remainder is dropped, not
/// rounded.
pub open spec fn mib_of(bytes: nat) -> nat {
    bytes / 1_048_576
}

/// Converts a size in bytes to whole mebibytes, truncating.
pub fn bytes_to_mib(bytes: u64) -> (mib: u64)
    ensures
        mib == mib_of(bytes as nat),
        mib * BYTES_PER_MIB <= bytes < (mib + 1) * BYTES_PER_MIB,
{
    bytes / BYTES_PER_MIB
}

} // verus!
