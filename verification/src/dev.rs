//! Device register map: the GPIO port B block.
//!
//! One typed register view per hardware register, in datasheet byte order.
//! Binding the block to its documented base address is the unverified outer
//! layer's one trusted step; everything reachable from the bound block is
//! statically typed and field-checked.

use vstd::prelude::*;

use crate::mmio::registers::{ReadOnly, ReadWrite};
use crate::mmio::RegisterLongName;

pub mod ddrb;
pub mod portb;

verus! {

/// The GPIO port B register block: input pins, data direction, output data.
pub struct GpioBRegisters {
    pub pinb: ReadOnly<u8, PINB>,
    pub ddrb: ReadWrite<u8, ddrb::Register>,
    pub portb: ReadWrite<u8, portb::Register>,
}

/// Bit-level facts about a one-bit field at bit zero.
pub(crate) proof fn lemma_bit0()
    ensures
        ((1u8 << 0usize) >> 0usize) == 1u8,
        (1u8 << 0usize) == 1u8,
        ((1u8 & 1u8) << 0usize) == 1u8,
        ((0u8 & 1u8) << 0usize) == 0u8,
{
    assert(((1u8 << 0usize) >> 0usize) == 1u8 && (1u8 << 0usize) == 1u8 && ((1u8 & 1u8) << 0usize)
        == 1u8 && ((0u8 & 1u8) << 0usize) == 0u8) by (bit_vector);
}

/// Register tag for the port B input-pins register.
pub struct PINB {}

impl RegisterLongName for PINB {}

} // verus!
