use vstd::prelude::*;
use vstd::rwlock::{RwLock, RwLockPredicate};

verus! {

/// Ticks per second of both countdown timers.
pub const REFRESH_RATE: u64 = 60;

/// Length of one tick in milliseconds.
pub const TICK_MILLIS: u64 = 1000 / REFRESH_RATE;

/// One countdown step: a counter above zero loses one, zero stays zero.
pub open spec fn countdown_spec(value: u8) -> u8 {
    if value > 0 {
        (value - 1) as u8
    } else {
        0
    }
}

/// One countdown step: a counter above zero loses one, zero stays zero.
pub fn countdown(value: u8) -> (r: u8)
    ensures
        r == countdown_spec(value),
        value == 0 ==> r == 0,
        value > 0 ==> r == value - 1,
{
    if value > 0 {
        value - 1
    } else {
        0
    }
}

/// Milliseconds left to sleep in a tick after `elapsed_millis` of work,
/// so that ticks keep their average rate.
pub fn sleep_budget(elapsed_millis: u64) -> (r: u64)
    ensures
        elapsed_millis < TICK_MILLIS ==> r == TICK_MILLIS - elapsed_millis,
        elapsed_millis >= TICK_MILLIS ==> r == 0,
{
    if elapsed_millis < TICK_MILLIS {
        TICK_MILLIS - elapsed_millis
    } else {
        0
    }
}

/// Every byte may stand in a counter.
pub struct AnyByte {}

impl RwLockPredicate<u8> for AnyByte {
    open spec fn inv(self, v: u8) -> bool {
        true
    }
}

/// An 8-bit counter shared between the engine and a background tick task;
/// every read and write goes through the counter's own lock.
pub struct CountdownTimer {
    lock: RwLock<u8, AnyByte>,
}

/// What one tick of a counter saw and left behind.
#[derive(Debug, Clone, Copy, PartialEq, Eq, Structural)]
pub struct Tick {
    pub before: u8,
    pub after: u8,
}

impl CountdownTimer {
    /// A counter holding `value`.
    pub fn new(value: u8) -> (r: CountdownTimer) {
        CountdownTimer { lock: RwLock::new(value, Ghost(AnyByte {  })) }
    }

    /// The counter's current value. Another task may change it at any time,
    /// so nothing is promised about it beyond its type.
    pub fn get(&self) -> (r: u8) {
        let handle = self.lock.acquire_read();
        let value = *handle.borrow();
        handle.release_read();
        value
    }

    /// Replaces the counter's value.
    pub fn set(&self, value: u8) {
        let (_, handle) = self.lock.acquire_write();
        handle.release_write(value);
    }

    /// Performs one countdown step under the lock, and reports the value seen
    /// and the value stored: the stored one is never below zero.
    pub fn tick(&self) -> (r: Tick)
        ensures
            r.after == countdown_spec(r.before),
    {
        let (value, handle) = self.lock.acquire_write();
        let next = countdown(value);
        handle.release_write(next);
        Tick { before: value, after: next }
    }
}

/// The delay and sound timers.
pub struct Timers {
    pub delay: CountdownTimer,
    pub sound: CountdownTimer,
}

impl Timers {
    /// Both counters at zero.
    pub fn new() -> (r: Timers) {
        Timers { delay: CountdownTimer::new(0), sound: CountdownTimer::new(0) }
    }
}

} // verus!
