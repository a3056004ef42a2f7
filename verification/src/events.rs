//! The event model of the interactive session: key presses reduced to
//! the codes and the one modifier the session reacts to. Polling the
//! terminal lives outside the crate and hands events in as these
//! values.

use vstd::prelude::*;

verus! {

/// The key codes the session distinguishes.
#[derive(Debug, Clone, Copy, PartialEq, Eq, Structural)]
pub enum KeyCode {
    Char(char),
    Enter,
    Backspace,
    Esc,
    Up,
    Down,
    Other,
}

/// One key press: its code and whether Control is held. Other
/// modifiers play no role in the session and are dropped at the edge.
#[derive(Debug, Clone, Copy, PartialEq, Eq, Structural)]
pub struct KeyPress {
    pub code: KeyCode,
    pub ctrl: bool,
}

/// One event of the session loop.
#[derive(Debug, Clone)]
pub enum Event {
    Key(KeyPress),
    Paste(String),
    Resize(u16, u16),
    Tick,
}

/// The polling cadence of the session loop.
#[derive(Debug, Clone, Copy, PartialEq, Eq, Structural)]
pub struct EventHandler {
    pub tick_rate_ms: u64,
}

impl EventHandler {
    /// A handler that polls at the given cadence.
    pub fn new(tick_rate_ms: u64) -> (r: EventHandler)
        ensures
            r.tick_rate_ms == tick_rate_ms,
    {
        EventHandler { tick_rate_ms }
    }
}

impl Default for EventHandler {
    /// Roughly sixty polls a second.
    fn default() -> (r: EventHandler)
        ensures
            r.tick_rate_ms == 16,
    {
        EventHandler::new(16)
    }
}

/// Whether a key press asks to quit: a plain `q` or `Q`, or Control-c.
pub open spec fn spec_is_quit_key(key: KeyPress) -> bool {
    ||| (!key.ctrl && (key.code == KeyCode::Char('q') || key.code == KeyCode::Char('Q')))
    ||| (key.ctrl && key.code == KeyCode::Char('c'))
}

/// Whether a key press asks to quit.
pub fn is_quit_key(key: KeyPress) -> (r: bool)
    ensures
        r == spec_is_quit_key(key),
{
    if key.ctrl {
        matches!(key.code, KeyCode::Char('c'))
    } else {
        matches!(key.code, KeyCode::Char('q') | KeyCode::Char('Q'))
    }
}

/// Whether a key press asks to go back: the escape key.
pub open spec fn spec_is_back_key(key: KeyPress) -> bool {
    key.code == KeyCode::Esc
}

/// Whether a key press asks to go back.
pub fn is_back_key(key: KeyPress) -> (r: bool)
    ensures
        r == spec_is_back_key(key),
{
    matches!(key.code, KeyCode::Esc)
}

} // verus!
