//! Exit codes handed to the emulator's debug exit device.  Writing them to
//! the device's port is the emulator glue's edge.
use vstd::prelude::*;

verus! {

/// The port of the emulator's debug exit device.
pub const EXIT_PORT: u16 = 0xF4;

/// QEMU exit code.
#[derive(Debug, Clone, Copy, PartialEq, Eq, Structural)]
pub enum QEMUExitCode {
    Success,
    Failure,
}

impl QEMUExitCode {
    /// The value written to the exit device.
    pub open spec fn value(&self) -> u32 {
        match *self {
            QEMUExitCode::Success => 0x10,
            QEMUExitCode::Failure => 0x11,
        }
    }

    /// Returns the value written to the exit device.
    pub fn as_u32(&self) -> (value: u32)
        ensures
            value == self.value(),
    {
        match *self {
            QEMUExitCode::Success => 0x10,
            QEMUExitCode::Failure => 0x11,
        }
    }
}

} // verus!
