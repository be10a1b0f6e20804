//! The frame context: the input and window state that every system reads
//! and that only the event translator writes.

use crate::input::{key_down, KeyState, MouseState};
use vstd::prelude::*;

verus! {

/// What a [`Context`] stands for in contracts.
pub ghost struct ContextView {
    /// Last written state of every key that was written.
    pub keys: Map<u32, bool>,
    pub mouse: MouseState,
    /// Cleared by a quit request; the loop stops at the top of its next tick.
    pub running: bool,
    /// Set once the window has gained focus.
    pub focused: bool,
    /// Viewport width in pixels.
    pub width: u32,
    /// Viewport height in pixels.
    pub height: u32,
    /// Set by a resize until the size-dependent render targets were made anew.
    pub views_stale: bool,
}

impl ContextView {
    /// The context of a loop that has just started with the given viewport.
    pub open spec fn initial(width: u32, height: u32) -> ContextView {
        ContextView {
            keys: Map::empty(),
            mouse: MouseState::initial(),
            running: true,
            focused: false,
            width,
            height,
            views_stale: false,
        }
    }

    pub open spec fn with_key(self, id: u32, pressed: bool) -> ContextView {
        ContextView { keys: self.keys.insert(id, pressed), ..self }
    }

    pub open spec fn with_mouse_at(self, x: i32, y: i32) -> ContextView {
        ContextView { mouse: self.mouse.moved_to(x, y), ..self }
    }

    pub open spec fn with_scroll(self, delta: i64) -> ContextView {
        ContextView { mouse: self.mouse.scrolled(delta), ..self }
    }

    /// Focus gained: the next pointer sample is a first one.
    pub open spec fn focus_gained(self) -> ContextView {
        ContextView { focused: true, mouse: self.mouse.rearmed(), ..self }
    }

    /// Pointer entered the window: the next pointer sample is a first one.
    pub open spec fn mouse_entered(self) -> ContextView {
        ContextView { mouse: self.mouse.rearmed(), ..self }
    }

    /// New viewport size; the render targets made for the old size are stale.
    pub open spec fn resized(self, width: u32, height: u32) -> ContextView {
        ContextView { width, height, views_stale: true, ..self }
    }

    pub open spec fn views_refreshed(self) -> ContextView {
        ContextView { views_stale: false, ..self }
    }

    pub open spec fn stopped(self) -> ContextView {
        ContextView { running: false, ..self }
    }

    /// Movement and scroll were read by the camera controller.
    pub open spec fn pointer_consumed(self) -> ContextView {
        ContextView { mouse: self.mouse.without_delta().without_scroll(), ..self }
    }
}

/// Input and window state of one render loop.
pub struct Context {
    pub key_state: KeyState,
    pub mouse_state: MouseState,
    pub running: bool,
    pub focused: bool,
    pub width: u32,
    pub height: u32,
    pub views_stale: bool,
}

impl View for Context {
    type V = ContextView;

    open spec fn view(&self) -> ContextView {
        ContextView {
            keys: self.key_state@,
            mouse: self.mouse_state,
            running: self.running,
            focused: self.focused,
            width: self.width,
            height: self.height,
            views_stale: self.views_stale,
        }
    }
}

impl Context {
    /// The context of a loop about to start: running, nothing pressed, no
    /// pointer sample yet.
    pub fn new(width: u32, height: u32) -> (ctx: Context)
        ensures
            ctx@ == ContextView::initial(width, height),
    {
        Context {
            key_state: KeyState::new(),
            mouse_state: MouseState::new(),
            running: true,
            focused: false,
            width,
            height,
            views_stale: false,
        }
    }

    /// Overwrites the stored state of key `id`.
    pub fn update_key(&mut self, id: u32, pressed: bool)
        ensures
            final(self)@ == old(self)@.with_key(id, pressed),
    {
        self.key_state.update_key(id, pressed);
    }

    /// Records the pointer at `(x, y)`.
    pub fn update_mouse_pos(&mut self, x: i32, y: i32)
        ensures
            final(self)@ == old(self)@.with_mouse_at(x, y),
    {
        self.mouse_state.update_mouse_pos(x, y);
    }

    /// Adds `delta` millionths of a line to the frame's scroll.
    pub fn update_scroll(&mut self, delta: i64)
        ensures
            final(self)@ == old(self)@.with_scroll(delta),
    {
        self.mouse_state.update_scroll(delta);
    }

    /// The window gained focus.
    pub fn mark_focused(&mut self)
        ensures
            final(self)@ == old(self)@.focus_gained(),
    {
        self.focused = true;
        self.mouse_state.rearm();
    }

    /// The pointer entered the window.
    pub fn mark_mouse_entered(&mut self)
        ensures
            final(self)@ == old(self)@.mouse_entered(),
    {
        self.mouse_state.rearm();
    }

    /// Stores the new viewport size and marks the render targets stale.
    pub fn resize(&mut self, width: u32, height: u32)
        ensures
            final(self)@ == old(self)@.resized(width, height),
    {
        self.width = width;
        self.height = height;
        self.views_stale = true;
    }

    /// The render targets were made anew for the current viewport size.
    pub fn mark_views_refreshed(&mut self)
        ensures
            final(self)@ == old(self)@.views_refreshed(),
    {
        self.views_stale = false;
    }

    /// Asks the loop to stop.
    pub fn stop(&mut self)
        ensures
            final(self)@ == old(self)@.stopped(),
    {
        self.running = false;
    }
}

/// Writing a key state twice is the same as writing it once, and of two
/// writes to one key the later wins; a write to one key leaves every other
/// key as it was.
pub proof fn lemma_key_last_write_wins(
    ctx: ContextView,
    id: u32,
    first: bool,
    last: bool,
    other: u32,
)
    ensures
        ctx.with_key(id, last).with_key(id, last) == ctx.with_key(id, last),
        ctx.with_key(id, first).with_key(id, last) == ctx.with_key(id, last),
        key_down(ctx.with_key(id, last).keys, id) == last,
        other != id ==> key_down(ctx.with_key(id, last).keys, other) == key_down(ctx.keys, other),
{
    assert(ctx.keys.insert(id, last).insert(id, last) =~= ctx.keys.insert(id, last));
    assert(ctx.keys.insert(id, first).insert(id, last) =~= ctx.keys.insert(id, last));
}

/// Scroll adds up over a frame: while the sums stay in range, two scrolls
/// leave what one scroll of their sum leaves.
pub proof fn lemma_scroll_adds_up(ctx: ContextView, one: i64, two: i64)
    requires
        i64::MIN <= ctx.mouse.scroll + one <= i64::MAX,
        i64::MIN <= ctx.mouse.scroll + one + two <= i64::MAX,
    ensures
        ctx.with_scroll(one).with_scroll(two).mouse.scroll == ctx.mouse.scroll + one + two,
{
}

} // verus!
