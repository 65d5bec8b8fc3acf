//! The system interface over the timer state.  Halting, sleeping, shutting
//! down and rebooting drive the hardware directly and stay at that edge.
use vstd::prelude::*;

use crate::pit::TimerState;

verus! {

/// Returns whether the timer is initialized or not.
pub fn is_timer_initialized(timer: &TimerState) -> (initialized: bool)
    ensures
        initialized == timer.is_init(),
{
    timer.is_initialized()
}

/// Returns the ticks elapsed since the timer was initialized.
pub fn ticks(timer: &TimerState) -> (elapsed: usize)
    ensures
        elapsed == timer.tick_count(),
{
    timer.ticks()
}

/// Returns the latest real-time clock update tick.
pub fn last_rtc_update(timer: &TimerState) -> (tick: usize)
    ensures
        tick == timer.last_update(),
{
    timer.last_rtc_update()
}

} // verus!
