//! Binary size units.
use vstd::prelude::*;

verus! {

/// Unit.
#[derive(Debug, Clone, Copy, PartialEq, Eq)]
pub enum Unit {
    KiB,
    MiB,
    GiB,
    TiB,
}

impl Unit {
    /// The number of bytes one of this unit stands for.
    pub fn bytes(&self) -> (n: u64)
        ensures
            n == match *self {
                Unit::KiB => 0x400u64,
                Unit::MiB => 0x100000u64,
                Unit::GiB => 0x40000000u64,
                Unit::TiB => 0x10000000000u64,
            },
    {
        match self {
            Unit::KiB => 0x400,
            Unit::MiB => 0x100000,
            Unit::GiB => 0x40000000,
            Unit::TiB => 0x10000000000,
        }
    }
}

} // verus!
