//! Start-up of the loop.

use crate::context::{Context, ContextView};
use vstd::prelude::*;

verus! {

/// The application whose loop this crate drives.
pub struct App {}

impl App {
    /// The frame context of a loop that is about to start in a window of the
    /// given size. Making the window is the host's part.
    pub fn init(width: u32, height: u32) -> (ctx: Context)
        ensures
            ctx@ == ContextView::initial(width, height),
    {
        Context::new(width, height)
    }
}

} // verus!
