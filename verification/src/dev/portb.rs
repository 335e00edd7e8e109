//! The port B data output register.

use vstd::prelude::*;

use crate::mmio::bitopts::FieldValue;
use crate::mmio::RegisterLongName;

verus! {

/// Register tag for the port B data output register.
pub struct Register {}

impl RegisterLongName for Register {}

/// Fragment that sets the PORTB0 bit: pin B0 drives high.
pub fn portb0_set() -> (r: FieldValue<u8, Register>)
    ensures
        r.mask == 1u8,
        r.value == 1u8,
        r.wf(),
{
    proof {
        crate::dev::lemma_bit0();
    }
    FieldValue::<u8, Register>::new(1, 0, 1)
}

/// Fragment that clears the PORTB0 bit: pin B0 drives low.
pub fn portb0_clear() -> (r: FieldValue<u8, Register>)
    ensures
        r.mask == 1u8,
        r.value == 0u8,
        r.wf(),
{
    proof {
        crate::dev::lemma_bit0();
    }
    FieldValue::<u8, Register>::new(1, 0, 0)
}

} // verus!
