//! Host Controller Runtime Registers.

use vstd::prelude::*;
use vstd::string::*;

use crate::alignment::{check_alignment, committed, is_aligned, validated};
use crate::decimal::{append_decimal, decimal};
use crate::error::Error;

verus! {

/// Event Ring Segment Table Size Register.
///
/// A 32-bit cell. Bits 15..0 hold the number of segments; bits 31..16 are
/// reserved and stay zero.
#[derive(Debug, Copy, Clone)]
pub struct EventRingSegmentTableSizeRegister(u32);

impl View for EventRingSegmentTableSizeRegister {
    type V = u32;

    /// The bits of the cell.
    closed spec fn view(&self) -> u32 {
        self.0
    }
}

impl EventRingSegmentTableSizeRegister {
    #[verifier::type_invariant]
    spec fn reserved_bits_are_zero(self) -> bool {
        self.0 <= 0xFFFF
    }

    /// The cell once `count` has been set on a register that held `cell`:
    /// the count, widened to the width of the cell.
    pub open spec fn after_set(cell: u32, count: u16) -> u32 {
        count as u32
    }

    /// The segment count that a cell holds: its low 16 bits.
    pub open spec fn segment_count(cell: u32) -> u16 {
        (cell & 0xFFFF) as u16
    }

    /// A register whose cell is zero.
    pub fn new() -> (r: Self)
        ensures
            r@ == 0,
    {
        Self(0)
    }

    /// Sets the number of segments the Event Ring Segment Table supports.
    pub fn set(&mut self, s: u16)
        ensures
            final(self)@ == Self::after_set(old(self)@, s),
            Self::segment_count(final(self)@) == s,
    {
        proof {
            Self::lemma_segment_count_after_set(self.0, s);
        }
        self.0 = s as u32;
    }

    /// The bits of the cell, as they go to the device.
    pub fn bits(&self) -> (b: u32)
        ensures
            b == self@,
            b <= 0xFFFF,
    {
        proof {
            use_type_invariant(self);
        }
        self.0
    }

    /// Reading the count back from the cell gives the count that was set,
    /// and the reserved bits of that cell are zero.
    pub proof fn lemma_segment_count_after_set(cell: u32, count: u16)
        ensures
            Self::segment_count(Self::after_set(cell, count)) == count,
            Self::after_set(cell, count) >> 16 == 0,
    {
        let widened: u32 = count as u32;
        assert((widened & 0xFFFF) as u16 == count && widened >> 16 == 0) by (bit_vector)
            requires
                widened == count,
        ;
    }

    /// Setting a count a second time leaves the cell as the first call left
    /// it.
    pub proof fn lemma_set_idempotent(cell: u32, count: u16)
        ensures
            Self::after_set(Self::after_set(cell, count), count) == Self::after_set(cell, count),
    {
    }
}

/// Event Ring Segment Table Base Address Register.
///
/// A 64-bit cell that holds the address of the segment table. The address is
/// 64-byte aligned: bits 5..0 of the cell are zero at all times.
#[derive(Debug, Copy, Clone)]
pub struct EventRingSegmentTableBaseAddressRegister(u64);

impl View for EventRingSegmentTableBaseAddressRegister {
    type V = u64;

    /// The bits of the cell.
    closed spec fn view(&self) -> u64 {
        self.0
    }
}

impl EventRingSegmentTableBaseAddressRegister {
    #[verifier::type_invariant]
    spec fn address_is_aligned(self) -> bool {
        is_aligned(self.0, 64)
    }

    /// A register whose cell is zero.
    pub fn new() -> (r: Self)
        ensures
            r@ == 0,
    {
        Self(0)
    }

    /// Sets the address of the Event Ring Segment Table. It must be 64 byte aligned.
    ///
    /// # Errors
    ///
    /// This method returns an [`Error::NotAligned`] error if the address is not 64 byte aligned,
    /// and then leaves the register as it was.
    pub fn set(&mut self, a: u64) -> (r: Result<(), Error>)
        ensures
            r == validated(a, 64),
            final(self)@ == committed(old(self)@, a, 64),
    {
        assert(1u64 << 6u32 == 64) by (bit_vector);
        match check_alignment(a, 6) {
            Ok(()) => {
                self.0 = a;
                Ok(())
            },
            Err(e) => Err(e),
        }
    }

    /// The bits of the cell, as they go to the device.
    pub fn bits(&self) -> (b: u64)
        ensures
            b == self@,
            is_aligned(b, 64),
    {
        proof {
            use_type_invariant(self);
        }
        self.0
    }
}

/// Event Ring Dequeue Pointer Register.
///
/// A 64-bit cell. Bits 63..4 hold the dequeue pointer, a 16-byte aligned
/// address; bits 3..0 are flag bits that this type carries and does not
/// interpret.
#[derive(Copy, Clone)]
pub struct EventRingDequeuePointerRegister(u64);

impl View for EventRingDequeuePointerRegister {
    type V = u64;

    /// The bits of the cell.
    closed spec fn view(&self) -> u64 {
        self.0
    }
}

impl EventRingDequeuePointerRegister {
    /// The dequeue pointer that a cell holds: the cell with its four low
    /// bits cleared.
    pub open spec fn pointer_of(cell: u64) -> u64 {
        cell & !0xFu64
    }

    /// The text that describes a register whose dequeue pointer is `pointer`.
    pub open spec fn debug_text(pointer: u64) -> Seq<char> {
        "EventRingDequeuePointerRegister { event_ring_dequeue_pointer: "@ + decimal(pointer as nat)
            + " }"@
    }

    /// A register whose cell holds `bits`, as read from the device.
    pub fn from_bits(bits: u64) -> (r: Self)
        ensures
            r@ == bits,
    {
        Self(bits)
    }

    /// The bits of the cell, as they go to the device.
    pub fn bits(&self) -> (b: u64)
        ensures
            b == self@,
    {
        self.0
    }

    /// Returns the address of the current Event Ring Dequeue Pointer.
    #[must_use]
    pub fn event_ring_dequeue_pointer(self) -> (p: u64)
        ensures
            p == Self::pointer_of(self@),
            is_aligned(p, 16),
            p <= self@ < p + 16,
    {
        proof {
            Self::lemma_pointer_of(self.0);
        }
        self.0 & !0xFu64
    }

    /// Sets the address of the current Event Ring Dequeue Pointer. It must be 16 byte aligned.
    ///
    /// # Errors
    ///
    /// This method returns an [`Error::NotAligned`] error if the address is not 16 byte aligned,
    /// and then leaves the register as it was.
    pub fn set_event_ring_dequeue_pointer(&mut self, p: u64) -> (r: Result<(), Error>)
        ensures
            r == validated(p, 16),
            final(self)@ == committed(old(self)@, p, 16),
    {
        assert(1u64 << 4u32 == 16) by (bit_vector);
        match check_alignment(p, 4) {
            Ok(()) => {
                self.0 = p;
                Ok(())
            },
            Err(e) => Err(e),
        }
    }

    /// Describes the register by its dequeue pointer, in decimal, and not by
    /// the bits of its cell.
    pub fn to_debug_string(&self) -> (s: String)
        ensures
            s@ == Self::debug_text(Self::pointer_of(self@)),
    {
        let mut s = String::from_str("EventRingDequeuePointerRegister { event_ring_dequeue_pointer: ");
        append_decimal(&mut s, self.event_ring_dequeue_pointer());
        s.append(" }");
        s
    }

    /// The dequeue pointer of a cell is the largest multiple of 16 that does
    /// not exceed the cell.
    pub proof fn lemma_pointer_of(cell: u64)
        ensures
            is_aligned(Self::pointer_of(cell), 16),
            Self::pointer_of(cell) == cell - cell % 16,
    {
        assert((cell & !0xFu64) % 16 == 0 && cell & !0xFu64 == cell - cell % 16) by (bit_vector);
    }

    /// Once an aligned pointer has been set, the dequeue pointer of the
    /// register is that pointer.
    pub proof fn lemma_pointer_after_set(cell: u64, pointer: u64)
        requires
            is_aligned(pointer, 16),
        ensures
            Self::pointer_of(committed(cell, pointer, 16)) == pointer,
    {
        Self::lemma_pointer_of(pointer);
    }
}

} // verus!
