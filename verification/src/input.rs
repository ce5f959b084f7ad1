//! The decoded state of the controls, read once per tick.

use vstd::prelude::*;

verus! {

/// Which logical actions are held down during a tick.
#[derive(Clone, Copy, Debug, PartialEq, Eq)]
pub struct Input {
    pub move_left: bool,
    pub move_right: bool,
    pub boost: bool,
    /// Pauses a running game and restarts a finished one.
    pub pause_or_confirm: bool,
}

} // verus!
