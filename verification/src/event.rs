//! The events of a channel-driven event loop.

use vstd::prelude::*;

verus! {

/// A timer tick or a typed character.
#[derive(Debug, Clone, Copy, PartialEq, Eq, Structural)]
pub enum Event {
    Tick,
    Key(char),
}

} // verus!
