//! The two countdown timers. A timer does not count down on every tick of
//! the machine but once in every `TIMER_PERIOD` ticks, and only while it
//! is not zero.

use vstd::prelude::*;

verus! {

/// Number of ticks of the machine between two decrements of a timer.
pub const TIMER_PERIOD: u8 = 60;

/// A timer and the number of ticks it has seen since it last counted
/// down, after one more tick.
pub open spec fn ticked(timer: u8, count: int) -> (u8, int) {
    if timer == 0 {
        (timer, count)
    } else if count + 1 >= TIMER_PERIOD {
        ((timer - 1) as u8, 0)
    } else {
        (timer, count + 1)
    }
}

/// A timer and its tick count after `n` ticks during which nothing else
/// sets the timer.
pub open spec fn ticked_n(timer: u8, count: int, n: nat) -> (u8, int)
    decreases n,
{
    if n == 0 {
        (timer, count)
    } else {
        let (t, c) = ticked_n(timer, count, (n - 1) as nat);
        ticked(t, c)
    }
}

/// Advances one timer by one tick of the machine.
pub fn tick_timer(timer: u8, count: u8) -> (next: (u8, u8))
    ensures
        (next.0, next.1 as int) == ticked(timer, count as int),
{
    if timer == 0 {
        (timer, count)
    } else if count >= TIMER_PERIOD - 1 {
        (timer - 1, 0)
    } else {
        (timer, count + 1)
    }
}

} // verus!
