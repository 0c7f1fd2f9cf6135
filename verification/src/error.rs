//! Errors reported by the register accessors.

use vstd::prelude::*;

verus! {

/// Why a register accessor declined to commit a value.
#[derive(Debug, Clone, Copy, PartialEq, Eq, Structural)]
pub enum Error {
    /// The address is not a multiple of the alignment that the register needs.
    NotAligned {
        /// The alignment, in bytes, that the register needs.
        alignment: u64,
        /// The address that was turned down.
        address: u64,
    },
}

} // verus!
