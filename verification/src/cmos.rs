//! Decoding the CMOS real-time clock.
//!
//! The CMOS chip hands its date and time over I/O ports 0x70 and 0x71, in
//! either binary or binary-coded decimal and in either 24-hour or 12-hour
//! form, as two flag bits of status register B say.  Reading those registers
//! is the clock driver's edge; this module holds the decoding: BCD to binary,
//! 12-hour to 24-hour, and the century.
use vstd::prelude::*;

verus! {

/// Current century.
pub const RTC_CENTURY: u16 = 2000;

/// Status register B: the clock counts in binary rather than BCD.
pub const SRB_BCD_MODE: u8 = 0x04;

/// Status register B: the clock counts hours 0 to 23 rather than 1 to 12.
pub const SRB_H12_MODE: u8 = 0x02;

/// An hour byte in 12-hour form carries this bit in its second half-day.
pub const HOUR_H12_FMT: u8 = 0x80;

/// The value a binary-coded-decimal byte stands for: ten times its high
/// nibble plus its low nibble.
pub open spec fn bcd_value(bcd: u8) -> u8 {
    (((bcd / 16) * 10 + bcd % 16) % 256) as u8
}

/// The 24-hour form of an hour given in 12-hour form.
pub open spec fn h24_value(h12: u8) -> u8 {
    ((((h12 % 128) + 12) % 24) % 256) as u8
}

/// One raw read of the clock registers, together with status register B,
/// exactly as the CMOS ports handed them over.
#[derive(Debug, Clone, Copy, PartialEq, Eq, Structural)]
pub struct CmosReading {
    pub second: u8,
    pub minute: u8,
    pub hour: u8,
    pub day: u8,
    pub month: u8,
    pub year: u8,
    pub status_b: u8,
}

/// What a raw reading's field stands for once the BCD flag is honoured.
pub open spec fn field_value(raw: u8, status_b: u8) -> u8 {
    if status_b & SRB_BCD_MODE == 0 {
        bcd_value(raw)
    } else {
        raw
    }
}

/// The hour a raw reading stands for, honouring both the BCD flag and the
/// 12-hour flag.
pub open spec fn hour_value(raw_hour: u8, status_b: u8) -> u8 {
    let hour = field_value(raw_hour, status_b);
    if status_b & SRB_H12_MODE == 0 && hour & HOUR_H12_FMT == 0 {
        h24_value(hour)
    } else {
        hour
    }
}

/// Converts one binary-coded-decimal byte to binary.
pub fn bcd_to_binary(bcd: u8) -> (value: u8)
    ensures
        value == bcd_value(bcd),
{
    let high = bcd & 0xF0;
    proof {
        assert((bcd & 0xF0) >> 1 == (bcd / 16) * 8 && (bcd & 0xF0) >> 3 == (bcd / 16) * 2 && (bcd
            & 0x0F) == bcd % 16) by (bit_vector);
        assert((bcd / 16) * 8 + (bcd / 16) * 2 + bcd % 16 < 256);
    }
    (high >> 1) + (high >> 3) + (bcd & 0x0F)
}

/// Converts an hour in 12-hour form to 24-hour form.
pub fn h12_to_h24(h12: u8) -> (hour: u8)
    ensures
        hour == h24_value(h12),
{
    proof {
        assert(h12 & 0x7F == h12 % 128) by (bit_vector);
    }
    ((h12 & 0x7F) + 12) % 24
}

/// Real-Time Clock (RTC): a decoded reading of the CMOS clock.
#[derive(Debug, Clone, Copy, PartialEq, Eq, Structural)]
pub struct RTC {
    pub year: u16,
    pub month: u8,
    pub day: u8,
    pub hour: u8,
    pub minute: u8,
    pub second: u8,
}

impl RTC {
    /// Whether this clock value is the given raw reading, decoded: each field
    /// through the BCD flag, the hour also through the 12-hour flag, and the
    /// year placed in the current century.
    pub open spec fn decodes(&self, reading: CmosReading) -> bool {
        &&& self.second == field_value(reading.second, reading.status_b)
        &&& self.minute == field_value(reading.minute, reading.status_b)
        &&& self.hour == hour_value(reading.hour, reading.status_b)
        &&& self.day == field_value(reading.day, reading.status_b)
        &&& self.month == field_value(reading.month, reading.status_b)
        &&& self.year == field_value(reading.year, reading.status_b) + RTC_CENTURY
    }

    /// Creates a new object by decoding a raw reading of the CMOS registers.
    pub fn new(reading: CmosReading) -> (rtc: RTC)
        ensures
            rtc.decodes(reading),
    {
        let mut second = reading.second;
        let mut minute = reading.minute;
        let mut hour = reading.hour;
        let mut day = reading.day;
        let mut month = reading.month;
        let mut year: u16 = reading.year as u16;

        if reading.status_b & SRB_BCD_MODE == 0 {
            second = bcd_to_binary(second);
            minute = bcd_to_binary(minute);
            hour = bcd_to_binary(hour);
            day = bcd_to_binary(day);
            month = bcd_to_binary(month);
            year = bcd_to_binary(reading.year) as u16;
        }
        if (reading.status_b & SRB_H12_MODE == 0) && (hour & HOUR_H12_FMT == 0) {
            hour = h12_to_h24(hour);
        }
        year = year + RTC_CENTURY;

        RTC { year, month, day, hour, minute, second }
    }

    /// Syncs with a fresh reading of the CMOS chip.
    pub fn sync(&mut self, reading: CmosReading)
        ensures
            final(self).decodes(reading),
    {
        *self = RTC::new(reading);
    }
}

} // verus!
