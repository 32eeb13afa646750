//! The request payload for the popup prompt surface.
//!
//! The popup single-line input runs as a separate process; the coordinator
//! hands it the window size it should open with and waits for the text the
//! user entered. The payload itself is plain data; serializing it is the
//! caller's concern.

use vstd::prelude::*;

use crate::config::Window;

verus! {

/// The size the popup prompt window is asked to open with.
#[derive(Clone, Copy, Debug, PartialEq, Eq, Structural)]
pub struct Args {
    pub width: u32,
    pub height: u32,
}

impl Args {
    /// The popup request for the configured window size.
    pub fn from_window(w: &Window) -> (a: Args)
        ensures
            a.width == w.width,
            a.height == w.height,
    {
        Args { width: w.width, height: w.height }
    }
}

} // verus!
