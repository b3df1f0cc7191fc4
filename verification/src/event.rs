//! The single ordered event stream that drives the render loop.
//!
//! Two signals are merged into one stream: a fixed-interval timer and an
//! input-availability poll. The shell polls for input with a timeout equal to
//! the tick interval and hands the outcome of each window to
//! [`window_event`], which gives input precedence over the timer. Exactly one
//! event comes out of every window, so the loop consumes a naturally
//! rate-limited, glitch-free interleaving without a second timing thread.

use vstd::prelude::*;

verus! {

/// A pressed key, as the render loop sees it.
#[derive(Clone, Copy, Debug, PartialEq, Eq, Structural)]
pub enum Key {
    /// A character pressed together with the control key.
    Ctrl(char),
    /// A plain character.
    Char(char),
    Up,
    Down,
    Left,
    Right,
    Enter,
    Esc,
    /// Any key this interface does not route.
    Other,
}

/// One iteration of the render loop consumes exactly one of these.
#[derive(Clone, Copy, Debug, PartialEq, Eq, Structural)]
pub enum Event {
    /// A key became available before the tick window elapsed.
    Input(Key),
    /// The tick window elapsed with no input.
    Tick,
}

/// Merges one poll window into one event: a key that arrived within the
/// window wins over the timer; an empty window yields a tick.
pub fn window_event(polled: Option<Key>) -> (r: Event)
    ensures
        polled matches Some(k) ==> r == Event::Input(k),
        polled is None ==> r == Event::Tick,
{
    match polled {
        Some(k) => Event::Input(k),
        None => Event::Tick,
    }
}

} // verus!
