//! What the frame driver runs once per tick.

use crate::context::Context;
use vstd::prelude::*;

verus! {

/// A step of the frame that reads and writes the frame context.
pub trait System {
    /// Runs the system once. `dt` is the time since the previous tick in
    /// microseconds.
    fn run(&mut self, ctx: &mut Context, dt: i64);
}

} // verus!
