//! Input events and the cadence of the tick clock.

use vstd::prelude::*;

verus! {

/// The keys that the client tells apart.
#[derive(Clone, Copy, Debug, PartialEq, Eq, Structural)]
pub enum KeyCode {
    Backspace,
    Enter,
    Left,
    Right,
    Up,
    Down,
    Home,
    End,
    Delete,
    Esc,
    /// A character key.
    Char(char),
    /// Any key that is given no meaning.
    Other,
}

/// No modifier key held.
pub const MOD_NONE: u8 = 0;

/// Bit of the shift key in [`KeyEvent::modifiers`].
pub const MOD_SHIFT: u8 = 1;

/// Bit of the control key in [`KeyEvent::modifiers`].
pub const MOD_CONTROL: u8 = 2;

/// Bit of the alt key in [`KeyEvent::modifiers`].
pub const MOD_ALT: u8 = 4;

/// One key press: the key and the set of modifier keys held with it, one
/// bit for each.
#[derive(Clone, Copy, Debug, PartialEq, Eq, Structural)]
pub struct KeyEvent {
    pub code: KeyCode,
    pub modifiers: u8,
}

/// What the event source delivers.
#[derive(Clone, Copy, Debug, PartialEq, Eq, Structural)]
pub enum Event {
    /// The clock ticked.
    Tick,
    /// A key was pressed.
    Key(KeyEvent),
}

/// Length of one tick of the event clock, in milliseconds.
pub const TICK_MILLIS: u64 = 250;

/// Time the poller may wait for input, given the milliseconds that went by
/// since the last tick: what is left of the tick, or a whole tick once the
/// tick is overdue.
pub open spec fn spec_poll_timeout(elapsed: u64) -> u64 {
    if elapsed <= TICK_MILLIS {
        (TICK_MILLIS - elapsed) as u64
    } else {
        TICK_MILLIS
    }
}

/// Computes how long the poller waits for input before the next tick.
pub fn poll_timeout(elapsed: u64) -> (timeout: u64)
    ensures
        timeout == spec_poll_timeout(elapsed),
        timeout <= TICK_MILLIS,
{
    match TICK_MILLIS.checked_sub(elapsed) {
        Some(left) => left,
        None => TICK_MILLIS,
    }
}

/// Until a tick is due the poller waits exactly for what is left of it, so
/// that the wait ends when the tick is due.
pub proof fn lemma_wait_ends_with_the_tick(elapsed: u64)
    ensures
        elapsed < TICK_MILLIS ==> elapsed + spec_poll_timeout(elapsed) == TICK_MILLIS,
        elapsed == TICK_MILLIS ==> spec_poll_timeout(elapsed) == 0,
        0 <= spec_poll_timeout(elapsed) <= TICK_MILLIS,
{
}

/// Tells whether a tick has to be emitted, given the milliseconds that went
/// by since the last one.
pub fn tick_due(elapsed: u64) -> (due: bool)
    ensures
        due == (elapsed >= TICK_MILLIS),
{
    elapsed >= TICK_MILLIS
}

} // verus!
