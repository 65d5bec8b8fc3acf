//! Interrupt request lines and their vector numbers.
//!
//! The two cascaded interrupt controllers remap their pins to the vectors
//! starting at 32: the master's eight pins first, then the slave's.  The
//! conversions between pin numbers and vector numbers live here; loading the
//! descriptor table and talking to the controllers is hardware setup.
use vstd::prelude::*;

verus! {

/// The vector number of the master controller's first pin.
pub const M_OFFSET: u8 = 32;

/// The number of pins on the master controller.
pub const M_PIN_COUNT: u8 = 8;

/// The vector number of the slave controller's first pin.
pub const S_OFFSET: u8 = 40;

/// Interrupt Request (IRQ): the lines this kernel handles.
#[derive(Debug, Clone, Copy, PartialEq, Eq, Structural)]
pub enum IRQ {
    Timer,
    Keyboard,
    RTC,
}

impl IRQ {
    /// The line's interrupt vector number.
    pub open spec fn vector(&self) -> u8 {
        match *self {
            IRQ::Timer => 32,
            IRQ::Keyboard => 33,
            IRQ::RTC => 40,
        }
    }

    /// Returns the line's interrupt vector number.
    pub fn as_u8(&self) -> (vector: u8)
        ensures
            vector == self.vector(),
    {
        match *self {
            IRQ::Timer => 32,
            IRQ::Keyboard => 33,
            IRQ::RTC => 40,
        }
    }

    /// Converts an index to a pin: the vector number the line is remapped to.
    pub fn index_to_pin(idx: u8) -> (pin: u8)
        requires
            idx < 224,
        ensures
            pin == M_OFFSET + idx,
    {
        M_OFFSET + idx
    }

    /// Converts a pin to an index: the line's position among the remapped
    /// vectors.
    pub fn pin_to_index(pin: IRQ) -> (idx: u8)
        ensures
            idx == pin.vector() - M_OFFSET,
    {
        pin.as_u8() - M_OFFSET
    }
}

/// Interrupt Index: the remapped vectors the interrupt handlers answer.
#[derive(Debug, Clone, Copy, PartialEq, Eq, Structural)]
pub enum InterruptIndex {
    Timer,
    Keyboard,
    RTC,
}

impl InterruptIndex {
    /// The vector number.
    pub open spec fn vector(&self) -> u8 {
        match *self {
            InterruptIndex::Timer => 32,
            InterruptIndex::Keyboard => 33,
            InterruptIndex::RTC => 40,
        }
    }

    /// Returns the vector number.
    pub fn as_u8(&self) -> (vector: u8)
        ensures
            vector == self.vector(),
    {
        match *self {
            InterruptIndex::Timer => 32,
            InterruptIndex::Keyboard => 33,
            InterruptIndex::RTC => 40,
        }
    }
}

/// Calculates the interrupt index: the vector a controller pin is remapped
/// to.
pub fn calc_interrupt_index(interrupt: u8) -> (vector: u8)
    requires
        interrupt < 224,
    ensures
        vector == M_OFFSET + interrupt,
{
    M_OFFSET + interrupt
}

/// The data port and line of the controller that masks the given index: the
/// master controller for the first eight lines, the slave for the rest.
pub fn interrupt_mask_target(idx: u8) -> (target: (u8, u16))
    requires
        idx < 16,
    ensures
        idx < M_PIN_COUNT ==> target == (idx, 0x21u16),
        idx >= M_PIN_COUNT ==> target == ((idx - M_PIN_COUNT) as u8, 0xA1u16),
{
    if idx < M_PIN_COUNT {
        (idx, 0x21)
    } else {
        (idx - M_PIN_COUNT, 0xA1)
    }
}

} // verus!
