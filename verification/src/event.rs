use vstd::prelude::*;

verus! {

/// A decoded keyboard key, as the state machine understands it.
#[derive(Debug, Clone, Copy, PartialEq, Eq)]
pub enum KeyInput {
    /// A character-producing key, with the state of the Ctrl modifier.
    Char { ch: char, ctrl: bool },
    Backspace,
    Enter,
    Esc,
    /// Any other key; the state machine ignores it.
    Other,
}

/// Events that can occur in the application.
#[derive(Debug, Clone, Copy, PartialEq, Eq)]
pub enum Event {
    /// A keyboard key was pressed.
    Key(KeyInput),
    /// A tick occurred (for periodic updates).
    Tick,
}

/// Event handler configuration: how long to wait for a key press before
/// yielding a tick.
pub struct EventHandler {
    pub tick_rate_ms: u64,
}

impl EventHandler {
    /// Create a new event handler with the given tick rate in milliseconds.
    pub fn new(tick_rate_ms: u64) -> (h: Self)
        ensures
            h.tick_rate_ms == tick_rate_ms,
    {
        EventHandler { tick_rate_ms }
    }
}

} // verus!
