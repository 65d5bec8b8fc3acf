//! Calendar names and points in time.
use vstd::prelude::*;

use crate::cmos::RTC;

verus! {

pub const SECONDS_IN_MINUTE: u64 = 60;

pub const SECONDS_IN_HOUR: u64 = 3600;

pub const SECONDS_IN_DAY: u64 = 86400;

pub const MINUTES_IN_HOUR: u64 = 60;

pub const MINUTES_IN_DAY: u64 = 1440;

pub const HOURS_IN_DAY: u64 = 24;

pub const HOURS_IN_WEEK: u64 = 168;

pub const DAYS_IN_WEEK: u64 = 7;

pub const DAYS_IN_YEAR: u64 = 365;

pub const DAYS_IN_LEAP_YEAR: u64 = 366;

pub const MONTHS_IN_YEAR: u64 = 12;

/// Weekday.
#[derive(Debug, Clone, Copy, PartialEq, Eq, Structural)]
pub enum Weekday {
    Monday,
    Tuesday,
    Wednesday,
    Thursday,
    Friday,
    Saturday,
    Sunday,
}

impl Weekday {
    /// The weekday's index, Monday first.
    pub open spec fn index(&self) -> u8 {
        match *self {
            Weekday::Monday => 0,
            Weekday::Tuesday => 1,
            Weekday::Wednesday => 2,
            Weekday::Thursday => 3,
            Weekday::Friday => 4,
            Weekday::Saturday => 5,
            Weekday::Sunday => 6,
        }
    }

    /// Returns the weekday's index, Monday first.
    pub fn as_u8(&self) -> (idx: u8)
        ensures
            idx == self.index(),
    {
        match *self {
            Weekday::Monday => 0,
            Weekday::Tuesday => 1,
            Weekday::Wednesday => 2,
            Weekday::Thursday => 3,
            Weekday::Friday => 4,
            Weekday::Saturday => 5,
            Weekday::Sunday => 6,
        }
    }
}

/// Month.
#[derive(Debug, Clone, Copy, PartialEq, Eq, Structural)]
pub enum Month {
    January,
    February,
    March,
    April,
    May,
    June,
    July,
    August,
    September,
    October,
    November,
    December,
}

impl Month {
    /// The month's index, January first.
    pub open spec fn index(&self) -> u8 {
        match *self {
            Month::January => 0,
            Month::February => 1,
            Month::March => 2,
            Month::April => 3,
            Month::May => 4,
            Month::June => 5,
            Month::July => 6,
            Month::August => 7,
            Month::September => 8,
            Month::October => 9,
            Month::November => 10,
            Month::December => 11,
        }
    }

    /// Returns the month's index, January first.
    pub fn as_u8(&self) -> (idx: u8)
        ensures
            idx == self.index(),
    {
        match *self {
            Month::January => 0,
            Month::February => 1,
            Month::March => 2,
            Month::April => 3,
            Month::May => 4,
            Month::June => 5,
            Month::July => 6,
            Month::August => 7,
            Month::September => 8,
            Month::October => 9,
            Month::November => 10,
            Month::December => 11,
        }
    }
}

/// Time Point.
#[derive(Debug, Clone, Copy, PartialEq, Eq, Structural)]
pub struct TimePoint {
    pub year: u16,
    pub month: u8,
    pub day: u8,
    pub hour: u8,
    pub minute: u8,
    pub second: u8,
}

/// Clock.
pub struct Clock;

impl Clock {
    /// Returns the current time as the given decoded real-time clock reading
    /// states it.  Reading the clock hardware is the clock driver's edge.
    pub fn now(rtc: &RTC) -> (now: TimePoint)
        ensures
            now.year == rtc.year,
            now.month == rtc.month,
            now.day == rtc.day,
            now.hour == rtc.hour,
            now.minute == rtc.minute,
            now.second == rtc.second,
    {
        TimePoint {
            year: rtc.year,
            month: rtc.month,
            day: rtc.day,
            hour: rtc.hour,
            minute: rtc.minute,
            second: rtc.second,
        }
    }
}

} // verus!
