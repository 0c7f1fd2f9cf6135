//! Typed access to the Event Ring registers of the xHCI Runtime Register Set.
//!
//! Each register is a fixed-width cell of bits. Pointer-valued fields are
//! validated against the alignment the controller demands before they are
//! committed, so a misaligned address is rejected and the cell keeps its
//! previous bits.

pub mod alignment;
pub mod decimal;
pub mod error;
pub mod registers;
