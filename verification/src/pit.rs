//! The programmable interval timer's bookkeeping.
//!
//! The tick count and the latest clock-update tick live here, advanced by the
//! interrupt handlers; programming the timer chip's frequency divider is port
//! I/O at the hardware edge, and the command word it takes is computed here.
use vstd::prelude::*;

verus! {

/// Divider for the timer.
pub const DIVIDER: u16 = 1193;

/// Output channel for the timer's frequency divider.
pub const OUTPUT_CHANNEL: u8 = 0;

/// The command port of the timer chip.
pub const CMD_PORT: u16 = 0x43;

/// Access mode: low byte then high byte.
pub const ACCESS_MODE: u16 = 0x30;

/// Operating mode: square wave generator.
pub const OP_MODE: u16 = 0x6;

/// The timer's state: whether it was initialized, the ticks elapsed since,
/// and the tick of the latest real-time clock update.
pub struct TimerState {
    initialized: bool,
    ticks: usize,
    last_rtc_update: usize,
}

impl TimerState {
    /// Whether the timer was initialized.
    pub closed spec fn is_init(&self) -> bool {
        self.initialized
    }

    /// The ticks elapsed since initialization.
    pub closed spec fn tick_count(&self) -> usize {
        self.ticks
    }

    /// The tick of the latest real-time clock update.
    pub closed spec fn last_update(&self) -> usize {
        self.last_rtc_update
    }

    /// The state before initialization.
    pub fn new() -> (state: TimerState)
        ensures
            state.is_init() == false,
            state.tick_count() == 0,
            state.last_update() == 0,
    {
        TimerState { initialized: false, ticks: 0, last_rtc_update: 0 }
    }

    /// Records that the timer hardware was programmed.
    pub fn mark_initialized(&mut self)
        ensures
            final(self).is_init() == true,
            final(self).tick_count() == old(self).tick_count(),
            final(self).last_update() == old(self).last_update(),
    {
        self.initialized = true;
    }

    /// Whether the timer was initialized.
    pub fn is_initialized(&self) -> (initialized: bool)
        ensures
            initialized == self.is_init(),
    {
        self.initialized
    }

    /// Returns the ticks elapsed since the timer was initialized.
    pub fn ticks(&self) -> (ticks: usize)
        ensures
            ticks == self.tick_count(),
    {
        self.ticks
    }

    /// Returns the latest real-time clock update tick.
    pub fn last_rtc_update(&self) -> (tick: usize)
        ensures
            tick == self.last_update(),
    {
        self.last_rtc_update
    }

    /// The timer interrupt handler's bookkeeping: one more tick, wrapping
    /// around at the counter's top.
    pub fn timer_irq_handler(&mut self)
        ensures
            final(self).tick_count() == if old(self).tick_count() < usize::MAX {
                old(self).tick_count() + 1
            } else {
                0
            },
            final(self).is_init() == old(self).is_init(),
            final(self).last_update() == old(self).last_update(),
    {
        if self.ticks < usize::MAX {
            self.ticks = self.ticks + 1;
        } else {
            self.ticks = 0;
        }
    }

    /// The real-time clock interrupt handler's bookkeeping: remember the tick
    /// the update arrived at.  Acknowledging the clock chip is port I/O at
    /// the hardware edge.
    pub fn rtc_irq_handler(&mut self)
        ensures
            final(self).last_update() == old(self).tick_count(),
            final(self).tick_count() == old(self).tick_count(),
            final(self).is_init() == old(self).is_init(),
    {
        self.last_rtc_update = self.ticks;
    }
}

/// The command word and the divider's two bytes, low byte first, that program
/// the given channel of the timer chip.
pub fn set_pit_frequency_divider(divider: u16, channel: u8) -> (command: (u16, u8, u8))
    requires
        channel < 3,
    ensures
        command.0 == channel * 0x40 + ACCESS_MODE + OP_MODE,
        command.1 == divider % 0x100,
        command.2 == divider / 0x100,
{
    let channel_mask = (channel as u16) * 0x40;
    let low = (divider % 0x100) as u8;
    let high = (divider / 0x100) as u8;
    (channel_mask + ACCESS_MODE + OP_MODE, low, high)
}

} // verus!
