//! ACPI tables: the fixed description table's register fields and the S5
//! sleep values parsed out of the DSDT.
//!
//! Finding the tables in memory and walking the AML bytecode is the ACPI
//! collaborator's work; what this module holds is the byte layout of the
//! fixed table — each register field at its documented offset, little endian
//! — and the values the power path computes from them.
use vstd::prelude::*;

verus! {

/// Value of SLP_EN: set in a PM1 control write to enter the sleep state.
pub const SLP_EN: u16 = 0x2000;

/// Custom ACPI error.
#[derive(Debug, Clone, Copy, PartialEq, Eq, Structural)]
pub enum CustomACPIError {
    ACPINotFound,
    AMLParseFailure,
    InvalidDSDT,
    FADTNotFound,
    S5ParseFailure,
}

/// Register (FADT): each field's byte offset in the fixed table.
#[derive(Debug, Clone, Copy, PartialEq, Eq, Structural)]
pub enum Register {
    PreferredPowerManagementProfile,
    SCIInterrupt,
    SMICommandPort,
    ACPIEnable,
    ACPIDisable,
    S4BIOSREQ,
    PStateControl,
    PM1AEventBlock,
    PM1BEventBlock,
    PM1AControlBlock,
    PM1BControlBlock,
    PM2ControlBlock,
    PMTimerBlock,
    GPE0Block,
    GPE1Block,
    PM1EventLength,
    PM1ControlLength,
    PM2ControlLength,
    PMTimerLength,
    GPE0Length,
    GPE1Length,
    GPE1Base,
    CStateControl,
    WorstC2Latency,
    WorstC3Latency,
    FlushSize,
    FlushStride,
    DutyOffset,
    DutyWidth,
    DayAlarm,
    MonthAlarm,
    Century,
}

impl Register {
    /// The field's byte offset in the fixed table.
    pub open spec fn spec_offset(&self) -> usize {
        match *self {
            Register::PreferredPowerManagementProfile => 45,
            Register::SCIInterrupt => 46,
            Register::SMICommandPort => 48,
            Register::ACPIEnable => 52,
            Register::ACPIDisable => 53,
            Register::S4BIOSREQ => 54,
            Register::PStateControl => 55,
            Register::PM1AEventBlock => 56,
            Register::PM1BEventBlock => 60,
            Register::PM1AControlBlock => 64,
            Register::PM1BControlBlock => 68,
            Register::PM2ControlBlock => 72,
            Register::PMTimerBlock => 76,
            Register::GPE0Block => 80,
            Register::GPE1Block => 84,
            Register::PM1EventLength => 88,
            Register::PM1ControlLength => 89,
            Register::PM2ControlLength => 90,
            Register::PMTimerLength => 91,
            Register::GPE0Length => 92,
            Register::GPE1Length => 93,
            Register::GPE1Base => 94,
            Register::CStateControl => 95,
            Register::WorstC2Latency => 96,
            Register::WorstC3Latency => 98,
            Register::FlushSize => 100,
            Register::FlushStride => 102,
            Register::DutyOffset => 103,
            Register::DutyWidth => 104,
            Register::DayAlarm => 105,
            Register::MonthAlarm => 106,
            Register::Century => 107,
        }
    }

    /// Returns the field's byte offset in the fixed table.
    pub fn offset(&self) -> (offset: usize)
        ensures
            offset == self.spec_offset(),
    {
        match *self {
            Register::PreferredPowerManagementProfile => 45,
            Register::SCIInterrupt => 46,
            Register::SMICommandPort => 48,
            Register::ACPIEnable => 52,
            Register::ACPIDisable => 53,
            Register::S4BIOSREQ => 54,
            Register::PStateControl => 55,
            Register::PM1AEventBlock => 56,
            Register::PM1BEventBlock => 60,
            Register::PM1AControlBlock => 64,
            Register::PM1BControlBlock => 68,
            Register::PM2ControlBlock => 72,
            Register::PMTimerBlock => 76,
            Register::GPE0Block => 80,
            Register::GPE1Block => 84,
            Register::PM1EventLength => 88,
            Register::PM1ControlLength => 89,
            Register::PM2ControlLength => 90,
            Register::PMTimerLength => 91,
            Register::GPE0Length => 92,
            Register::GPE1Length => 93,
            Register::GPE1Base => 94,
            Register::CStateControl => 95,
            Register::WorstC2Latency => 96,
            Register::WorstC3Latency => 98,
            Register::FlushSize => 100,
            Register::FlushStride => 102,
            Register::DutyOffset => 103,
            Register::DutyWidth => 104,
            Register::DayAlarm => 105,
            Register::MonthAlarm => 106,
            Register::Century => 107,
        }
    }
}

/// The 16-bit value two bytes hold, little endian.
pub open spec fn le16(low: u8, high: u8) -> u16 {
    (low + high * 0x100) as u16
}

/// The 32-bit value four bytes hold, little endian.
pub open spec fn le32(b0: u8, b1: u8, b2: u8, b3: u8) -> u32 {
    (b0 + b1 * 0x100 + b2 * 0x1_0000 + b3 * 0x100_0000) as u32
}

/// Reads one byte of the fixed table at the given register's offset.
pub fn read_fadt_u8(table: &[u8], register: Register) -> (value: Option<u8>)
    ensures
        match value {
            Option::Some(v) => register.spec_offset() < table@.len() && v == table@[register.spec_offset() as int],
            Option::None => register.spec_offset() >= table@.len(),
        },
{
    let offset = register.offset();
    if offset < table.len() {
        Some(table[offset])
    } else {
        None
    }
}

/// Reads a 16-bit field of the fixed table at the given register's offset,
/// little endian.
pub fn read_fadt_u16(table: &[u8], register: Register) -> (value: Option<u16>)
    ensures
        match value {
            Option::Some(v) => register.spec_offset() + 1 < table@.len() && v == le16(
                table@[register.spec_offset() as int],
                table@[register.spec_offset() + 1],
            ),
            Option::None => register.spec_offset() + 1 >= table@.len(),
        },
{
    let offset = register.offset();
    if offset + 1 < table.len() {
        Some(table[offset] as u16 + table[offset + 1] as u16 * 0x100)
    } else {
        None
    }
}

/// Reads a 32-bit field of the fixed table at the given register's offset,
/// little endian.
pub fn read_fadt_u32(table: &[u8], register: Register) -> (value: Option<u32>)
    ensures
        match value {
            Option::Some(v) => register.spec_offset() + 3 < table@.len() && v == le32(
                table@[register.spec_offset() as int],
                table@[register.spec_offset() + 1],
                table@[register.spec_offset() + 2],
                table@[register.spec_offset() + 3],
            ),
            Option::None => register.spec_offset() + 3 >= table@.len(),
        },
{
    let offset = register.offset();
    if offset + 3 < table.len() {
        Some(
            table[offset] as u32 + table[offset + 1] as u32 * 0x100 + table[offset + 2] as u32
                * 0x1_0000 + table[offset + 3] as u32 * 0x100_0000,
        )
    } else {
        None
    }
}

/// The register fields the kernel caches out of the fixed table.
#[derive(Debug, Clone, Copy, PartialEq, Eq, Structural)]
pub struct FadtInfo {
    pub sci_interrupt: u16,
    pub smi_command_port: u32,
    pub acpi_enable: u8,
    pub acpi_disable: u8,
    pub pm_1a_control_block: u32,
    pub pm_1b_control_block: u32,
}

/// Whether the cached fields are exactly what the table's bytes hold.
pub open spec fn fadt_parsed(table: Seq<u8>, info: FadtInfo) -> bool {
    &&& info.sci_interrupt == le16(table[46], table[47])
    &&& info.smi_command_port == le32(table[48], table[49], table[50], table[51])
    &&& info.acpi_enable == table[52]
    &&& info.acpi_disable == table[53]
    &&& info.pm_1a_control_block == le32(table[64], table[65], table[66], table[67])
    &&& info.pm_1b_control_block == le32(table[68], table[69], table[70], table[71])
}

/// Parses the register fields out of the fixed table: exactly the tables too
/// short to hold the PM1B control block field are refused.
pub fn parse(table: &[u8]) -> (info: Result<FadtInfo, CustomACPIError>)
    ensures
        match info {
            Result::Ok(i) => table@.len() >= 72 && fadt_parsed(table@, i),
            Result::Err(CustomACPIError::FADTNotFound) => table@.len() < 72,
            Result::Err(_) => false,
        },
{
    if table.len() < 72 {
        return Err(CustomACPIError::FADTNotFound);
    }
    let sci_interrupt = match read_fadt_u16(table, Register::SCIInterrupt) {
        Some(v) => v,
        None => {
            return Err(CustomACPIError::FADTNotFound);
        },
    };
    let smi_command_port = match read_fadt_u32(table, Register::SMICommandPort) {
        Some(v) => v,
        None => {
            return Err(CustomACPIError::FADTNotFound);
        },
    };
    let acpi_enable = match read_fadt_u8(table, Register::ACPIEnable) {
        Some(v) => v,
        None => {
            return Err(CustomACPIError::FADTNotFound);
        },
    };
    let acpi_disable = match read_fadt_u8(table, Register::ACPIDisable) {
        Some(v) => v,
        None => {
            return Err(CustomACPIError::FADTNotFound);
        },
    };
    let pm_1a_control_block = match read_fadt_u32(table, Register::PM1AControlBlock) {
        Some(v) => v,
        None => {
            return Err(CustomACPIError::FADTNotFound);
        },
    };
    let pm_1b_control_block = match read_fadt_u32(table, Register::PM1BControlBlock) {
        Some(v) => v,
        None => {
            return Err(CustomACPIError::FADTNotFound);
        },
    };
    Ok(
        FadtInfo {
            sci_interrupt,
            smi_command_port,
            acpi_enable,
            acpi_disable,
            pm_1a_control_block,
            pm_1b_control_block,
        },
    )
}

/// Returns the `ACPI Enable` register value.
pub fn acpi_enable(info: &FadtInfo) -> (value: u8)
    ensures
        value == info.acpi_enable,
{
    info.acpi_enable
}

/// Returns the `ACPI Disable` register value.
pub fn acpi_disable(info: &FadtInfo) -> (value: u8)
    ensures
        value == info.acpi_disable,
{
    info.acpi_disable
}

/// Returns the `PM-1A Control Block` register value.
pub fn pm1a_ctrl_blk_ptr(info: &FadtInfo) -> (value: u64)
    ensures
        value == info.pm_1a_control_block,
{
    info.pm_1a_control_block as u64
}

/// The S5 sleep-type values parsed out of the DSDT's \_S5 package by the AML
/// interpreter collaborator.
#[derive(Debug, Clone, Copy, PartialEq, Eq, Structural)]
pub struct S5Values {
    pub slp_typ_a: u16,
    pub slp_typ_b: u16,
}

/// Returns the value of the SLP_TYP_A register.
pub fn slp_typ_a(values: &S5Values) -> (value: u16)
    ensures
        value == values.slp_typ_a,
{
    values.slp_typ_a
}

/// Returns the value of the SLP_TYP_B register.
pub fn slp_typ_b(values: &S5Values) -> (value: u16)
    ensures
        value == values.slp_typ_b,
{
    values.slp_typ_b
}

/// The word the shutdown path writes to the PM1A control port: the S5 sleep
/// type with the sleep-enable bit set.
pub fn shutdown_command(values: &S5Values) -> (command: u16)
    ensures
        command == values.slp_typ_a | SLP_EN,
{
    values.slp_typ_a | SLP_EN
}

} // verus!
