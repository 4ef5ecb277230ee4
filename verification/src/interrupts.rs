//! Interrupt numbering: the hardware interrupt lines the kernel listens on,
//! offset past the CPU exception vectors.

use vstd::prelude::*;

verus! {

/// The vector number of the first hardware interrupt line; the 32 vectors
/// below it belong to CPU exceptions.
pub const PIC_1_OFFSET: u8 = 32;

/// The hardware interrupt sources the kernel handles, in vector order
/// starting at `PIC_1_OFFSET`.
#[derive(Debug, Clone, Copy, PartialEq, Eq, Structural)]
pub enum InterruptIndex {
    Timer,
    Keyboard,
    Mouse,
}

impl InterruptIndex {
    /// The interrupt's vector number.
    pub open spec fn spec_vector(self) -> u8 {
        match self {
            InterruptIndex::Timer => PIC_1_OFFSET,
            InterruptIndex::Keyboard => (PIC_1_OFFSET + 1) as u8,
            InterruptIndex::Mouse => (PIC_1_OFFSET + 2) as u8,
        }
    }

    /// The vector number as a byte.
    pub fn as_u8(self) -> (r: u8)
        ensures
            r == self.spec_vector(),
    {
        match self {
            InterruptIndex::Timer => PIC_1_OFFSET,
            InterruptIndex::Keyboard => PIC_1_OFFSET + 1,
            InterruptIndex::Mouse => PIC_1_OFFSET + 2,
        }
    }

    /// The vector number as a table index.
    pub fn as_usize(self) -> (r: usize)
        ensures
            r == self.spec_vector(),
    {
        self.as_u8() as usize
    }
}

} // verus!
