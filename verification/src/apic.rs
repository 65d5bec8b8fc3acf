//! I/O APIC redirection table entries.
//!
//! Each redirection table entry is a pair of 32-bit registers: the low word
//! carries the vector, the delivery mode and the flag bits, the high word the
//! destination.  The field arithmetic lives here; reading and writing the
//! memory-mapped registers is hardware access, outside this library.
use vstd::prelude::*;

verus! {

/// The bits of the low word that carry the delivery mode.
pub const IRQ_MODE_MASK: u32 = 0x0000_0700;

/// Logical destination mode (vs physical).
pub const LOGICAL_DEST: u32 = 0x800;

/// Delivery status: send pending (vs idle, readonly).
pub const SEND_PENDING: u32 = 0x1000;

/// Low-polarity interrupt signal (vs high-polarity).
pub const LOW_ACTIVE: u32 = 0x2000;

/// Remote IRR (readonly).
pub const REMOTE_IRR: u32 = 0x4000;

/// Level-triggered interrupt (vs edge-triggered).
pub const LEVEL_TRIGGERED: u32 = 0x8000;

/// Masked interrupt (vs unmasked).
pub const MASKED: u32 = 0x10000;

/// Every flag bit.
pub const ALL_FLAGS: u32 = 0x1F800;

/// The flag bits hardware owns: they are kept, never set, by `set_flags`.
pub const READONLY_FLAGS: u32 = 0x5000;

/// The register index of the first redirection table entry.
pub const IOREDTBL: u8 = 0x10;

/// IOAPIC interrupt modes.
#[derive(Debug, Clone, Copy, PartialEq, Eq, Structural)]
pub enum IrqMode {
    /// Asserts the INTR signal on all allowed processors.
    Fixed,
    /// Asserts the INTR signal on the lowest priority processor allowed.
    LowestPriority,
    /// System management interrupt.  Requires edge-triggering.
    SystemManagement,
    /// Asserts the NMI signal on all allowed processors.  Requires
    /// edge-triggering.
    NonMaskable,
    /// Asserts the INIT signal on all allowed processors.  Requires
    /// edge-triggering.
    Init,
    /// Asserts the INTR signal as a signal that originated in an
    /// externally-connected interrupt controller.  Requires edge-triggering.
    External,
}

impl IrqMode {
    /// The mode's three-bit pattern.
    pub open spec fn pattern(&self) -> u32 {
        match *self {
            IrqMode::Fixed => 0b000,
            IrqMode::LowestPriority => 0b001,
            IrqMode::SystemManagement => 0b010,
            IrqMode::NonMaskable => 0b100,
            IrqMode::Init => 0b101,
            IrqMode::External => 0b111,
        }
    }

    /// The mode's bits in place in the low register word.
    pub fn as_u32(self) -> (bits: u32)
        ensures
            bits == self.pattern() * 0x100,
            bits & IRQ_MODE_MASK == bits,
    {
        let pattern: u32 = match self {
            IrqMode::Fixed => 0b000,
            IrqMode::LowestPriority => 0b001,
            IrqMode::SystemManagement => 0b010,
            IrqMode::NonMaskable => 0b100,
            IrqMode::Init => 0b101,
            IrqMode::External => 0b111,
        };
        proof {
            assert(pattern <= 7 ==> (pattern << 8u32) == pattern * 0x100 && (pattern << 8u32)
                & 0x700 == (pattern << 8u32)) by (bit_vector);
        }
        pattern << 8
    }

    /// Reads the mode out of a low register word: exactly the six patterns
    /// above name a mode; the two remaining patterns are handed back.
    pub fn try_from(value: u32) -> (mode: Result<IrqMode, u32>)
        ensures
            match mode {
                Result::Ok(m) => m.pattern() == (value & IRQ_MODE_MASK) / 0x100,
                Result::Err(other) => {
                    &&& other == (value & IRQ_MODE_MASK) / 0x100
                    &&& (other == 0b011 || other == 0b110)
                },
            },
    {
        let pattern = (value & IRQ_MODE_MASK) >> 8;
        proof {
            assert((value & 0x700u32) >> 8 == (value & 0x700u32) / 0x100 && (value & 0x700u32)
                / 0x100 <= 7) by (bit_vector);
        }
        match pattern {
            0b000 => Ok(IrqMode::Fixed),
            0b001 => Ok(IrqMode::LowestPriority),
            0b010 => Ok(IrqMode::SystemManagement),
            0b100 => Ok(IrqMode::NonMaskable),
            0b101 => Ok(IrqMode::Init),
            0b111 => Ok(IrqMode::External),
            other => Err(other),
        }
    }
}

/// Redirection table entry flags, as a set of the flag bits above.
#[derive(Debug, Clone, Copy, PartialEq, Eq, Structural)]
pub struct IrqFlags {
    bits: u32,
}

impl IrqFlags {
    /// The raw flag bits.
    pub closed spec fn value(&self) -> u32 {
        self.bits
    }

    /// Whether only flag bits are set.
    pub open spec fn wf(&self) -> bool {
        self.value() & ALL_FLAGS == self.value()
    }

    /// Keeps the flag bits of a raw word and drops the rest.
    pub fn from_bits_truncate(bits: u32) -> (flags: IrqFlags)
        ensures
            flags.value() == bits & ALL_FLAGS,
            flags.wf(),
    {
        proof {
            assert((bits & 0x1F800u32) & 0x1F800 == bits & 0x1F800) by (bit_vector);
        }
        IrqFlags { bits: bits & ALL_FLAGS }
    }

    /// Returns the raw flag bits.
    pub fn bits(&self) -> (bits: u32)
        ensures
            bits == self.value(),
    {
        self.bits
    }

    /// Whether every bit of `other` is set.
    pub fn contains(&self, other: u32) -> (contained: bool)
        ensures
            contained == (self.value() & other == other),
    {
        self.bits & other == other
    }
}

/// Redirection table entry.
#[derive(Debug, Clone, Copy, PartialEq, Eq, Structural)]
pub struct RedirectionTableEntry {
    low: u32,
    high: u32,
}

impl RedirectionTableEntry {
    /// The low register word.
    pub closed spec fn low_word(&self) -> u32 {
        self.low
    }

    /// The high register word.
    pub closed spec fn high_word(&self) -> u32 {
        self.high
    }

    /// An entry with both words zero.
    pub fn new() -> (entry: RedirectionTableEntry)
        ensures
            entry.low_word() == 0,
            entry.high_word() == 0,
    {
        RedirectionTableEntry { low: 0, high: 0 }
    }

    /// Builds the entry from its two register words.
    pub fn from_raw(low: u32, high: u32) -> (entry: RedirectionTableEntry)
        ensures
            entry.low_word() == low,
            entry.high_word() == high,
    {
        RedirectionTableEntry { low, high }
    }

    /// Hands the two register words back.
    pub fn into_raw(self) -> (raw: (u32, u32))
        ensures
            raw == (self.low_word(), self.high_word()),
    {
        (self.low, self.high)
    }

    /// Returns the interrupt vector.
    pub fn vector(&self) -> (vector: u8)
        ensures
            vector == self.low_word() % 0x100,
    {
        proof {
            let low = self.low;
            assert((low & 0xFF) == low % 0x100 && low % 0x100 <= 0xFF) by (bit_vector);
        }
        (self.low & 0xFF) as u8
    }

    /// Sets the interrupt vector to `vector`, leaving the other bits alone.
    pub fn set_vector(&mut self, vector: u8)
        ensures
            final(self).low_word() == (old(self).low_word() & 0xFFFF_FF00) + vector,
            final(self).high_word() == old(self).high_word(),
    {
        let low = self.low;
        let v32 = vector as u32;
        proof {
            assert(v32 <= 0xFF ==> low & !0xFFu32 | v32 == (low & 0xFFFF_FF00) + v32)
                by (bit_vector);
        }
        self.low = low & !0xFF | v32;
    }

    /// Returns the interrupt delivery mode; the two bit patterns that name no
    /// mode are excluded by the caller.
    pub fn mode(&self) -> (mode: IrqMode)
        requires
            (self.low_word() & IRQ_MODE_MASK) / 0x100 != 0b011,
            (self.low_word() & IRQ_MODE_MASK) / 0x100 != 0b110,
        ensures
            mode.pattern() == (self.low_word() & IRQ_MODE_MASK) / 0x100,
    {
        match IrqMode::try_from(self.low) {
            Ok(mode) => mode,
            Err(_) => IrqMode::Fixed,
        }
    }

    /// Sets the interrupt delivery mode to `mode`, leaving the other bits
    /// alone.
    pub fn set_mode(&mut self, mode: IrqMode)
        ensures
            final(self).low_word() == (old(self).low_word() & !IRQ_MODE_MASK) + mode.pattern()
                * 0x100,
            final(self).high_word() == old(self).high_word(),
    {
        let low = self.low;
        let bits = mode.as_u32();
        proof {
            assert(bits & 0x700 == bits ==> low & !0x700u32 | bits == (low & !0x700u32) + bits)
                by (bit_vector);
        }
        self.low = low & !IRQ_MODE_MASK | bits;
    }

    /// Returns the flags.
    pub fn flags(&self) -> (flags: IrqFlags)
        ensures
            flags.value() == self.low_word() & ALL_FLAGS,
            flags.wf(),
    {
        IrqFlags::from_bits_truncate(self.low)
    }

    /// Sets the writable flags to `flags`: the readonly bits keep their
    /// hardware-owned values and the requested readonly bits are ignored.
    pub fn set_flags(&mut self, flags: IrqFlags)
        requires
            flags.wf(),
        ensures
            final(self).low_word() == (old(self).low_word() & !(ALL_FLAGS & !READONLY_FLAGS)) | (
            flags.value() & !READONLY_FLAGS),
            final(self).high_word() == old(self).high_word(),
    {
        let low = self.low;
        let requested = flags.bits();
        self.low = low & !(ALL_FLAGS & !READONLY_FLAGS) | (requested & !READONLY_FLAGS);
    }

    /// Returns the destination field.
    pub fn dest(&self) -> (dest: u8)
        ensures
            dest == self.high_word() / 0x100_0000,
    {
        proof {
            let high = self.high;
            assert(high >> 24 == high / 0x100_0000 && high / 0x100_0000 <= 0xFF) by (bit_vector);
        }
        (self.high >> 24) as u8
    }

    /// Sets the destination field to `dest`; the rest of the high word is
    /// reserved and written back as zero.
    pub fn set_dest(&mut self, dest: u8)
        ensures
            final(self).high_word() == dest * 0x100_0000,
            final(self).low_word() == old(self).low_word(),
    {
        let d32 = dest as u32;
        proof {
            assert(d32 <= 0xFF ==> (d32 << 24u32) == d32 * 0x100_0000) by (bit_vector);
        }
        self.high = d32 << 24;
    }
}

/// Gets the lower register selector for `irq`.
pub fn lo(irq: u8) -> (selector: u32)
    ensures
        selector == IOREDTBL + 2 * irq,
{
    IOREDTBL as u32 + 2 * irq as u32
}

/// Gets the upper register selector for `irq`.
pub fn hi(irq: u8) -> (selector: u32)
    ensures
        selector == IOREDTBL + 2 * irq + 1,
{
    lo(irq) + 1
}

} // verus!
