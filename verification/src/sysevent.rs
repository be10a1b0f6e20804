//! The event translator: the only writer of the frame context's input and
//! window state.

use crate::context::{Context, ContextView};
use crate::input::KEY_ESCAPE;
use crate::system::System;
use vstd::prelude::*;

verus! {

/// One normalized window or input event.
#[derive(Clone, Copy, Debug, PartialEq, Eq)]
pub enum Event {
    /// The window was asked to close.
    CloseRequested,
    /// A key with a known identifier changed state.
    Key { id: u32, pressed: bool },
    /// The pointer moved to a position, in pixels.
    MouseMoved { x: i32, y: i32 },
    /// The window gained (`true`) or lost (`false`) focus. Only gaining it
    /// has an effect.
    Focused(bool),
    /// The pointer entered the window.
    MouseEntered,
    /// The wheel turned, in millionths of a line.
    Scroll { delta: i64 },
    /// The window has a new size, in pixels.
    Resized { width: u32, height: u32 },
    /// Anything the loop does not react to.
    Other,
}

impl ContextView {
    /// The context after one event.
    ///
    /// A close request and the escape key, pressed or released, stop the
    /// loop; the escape key is never stored as a key state. Losing focus,
    /// and anything the loop does not react to, leave the context exactly as
    /// it was.
    pub open spec fn after(self, event: Event) -> ContextView {
        match event {
            Event::CloseRequested => self.stopped(),
            Event::Key { id, pressed } => if id == KEY_ESCAPE {
                self.stopped()
            } else {
                self.with_key(id, pressed)
            },
            Event::MouseMoved { x, y } => self.with_mouse_at(x, y),
            Event::Focused(gained) => if gained {
                self.focus_gained()
            } else {
                self
            },
            Event::MouseEntered => self.mouse_entered(),
            Event::Scroll { delta } => self.with_scroll(delta),
            Event::Resized { width, height } => self.resized(width, height),
            Event::Other => self,
        }
    }

    /// The context after a sequence of events, applied first to last.
    pub open spec fn after_all(self, events: Seq<Event>) -> ContextView
        decreases events.len(),
    {
        if events.len() == 0 {
            self
        } else {
            self.after_all(events.drop_last()).after(events.last())
        }
    }
}

/// Holds the events polled for the current tick and applies them to the
/// frame context.
pub struct SysEventSystem {
    pending: Vec<Event>,
}

impl View for SysEventSystem {
    type V = Seq<Event>;

    /// The events waiting to be applied, oldest first.
    closed spec fn view(&self) -> Seq<Event> {
        self.pending@
    }
}

impl SysEventSystem {
    /// A translator with nothing pending.
    pub fn new() -> (system: SysEventSystem)
        ensures
            system@ == Seq::<Event>::empty(),
    {
        SysEventSystem { pending: Vec::new() }
    }

    /// Queues an event for the next run.
    pub fn push(&mut self, event: Event)
        ensures
            final(self)@ == old(self)@.push(event),
    {
        self.pending.push(event);
    }

    /// Applies one event to the context. Returns `true` exactly for a
    /// resize, after which the size-dependent render targets have to be made
    /// anew before the next draw.
    pub fn update(event: Event, ctx: &mut Context) -> (resized: bool)
        ensures
            final(ctx)@ == old(ctx)@.after(event),
            resized == (event is Resized),
    {
        match event {
            Event::CloseRequested => {
                ctx.stop();
                false
            },
            Event::Key { id, pressed } => {
                if id == KEY_ESCAPE {
                    ctx.stop();
                } else {
                    ctx.update_key(id, pressed);
                }
                false
            },
            Event::MouseMoved { x, y } => {
                ctx.update_mouse_pos(x, y);
                false
            },
            Event::Focused(gained) => {
                if gained {
                    ctx.mark_focused();
                }
                false
            },
            Event::MouseEntered => {
                ctx.mark_mouse_entered();
                false
            },
            Event::Scroll { delta } => {
                ctx.update_scroll(delta);
                false
            },
            Event::Resized { width, height } => {
                ctx.resize(width, height);
                true
            },
            Event::Other => false,
        }
    }

    /// Applies every pending event, oldest first, and leaves none pending.
    pub fn drain(&mut self, ctx: &mut Context)
        ensures
            final(ctx)@ == old(ctx)@.after_all(old(self)@),
            final(self)@ == Seq::<Event>::empty(),
    {
        let n = self.pending.len();
        let mut i: usize = 0;
        while i < n
            invariant
                i <= n,
                n == self.pending.len(),
                self.pending@ == old(self).pending@,
                ctx@ == old(ctx)@.after_all(self.pending@.take(i as int)),
            decreases n - i,
        {
            let event = self.pending[i];
            proof {
                let done = self.pending@.take(i as int + 1);
                assert(done.drop_last() == self.pending@.take(i as int));
                assert(done.last() == event);
            }
            SysEventSystem::update(event, ctx);
            i += 1;
        }
        assert(self.pending@.take(n as int) == self.pending@);
        self.pending.clear();
    }
}

impl System for SysEventSystem {
    /// Drains the pending events into the context; the elapsed time plays no
    /// part.
    fn run(&mut self, ctx: &mut Context, dt: i64)
        ensures
            final(ctx)@ == old(ctx)@.after_all(old(self)@),
            final(self)@ == Seq::<Event>::empty(),
    {
        self.drain(ctx);
    }
}

/// An event that the loop does not react to changes nothing, and neither
/// does losing focus: keys, pointer, scroll, flags and viewport all stay.
pub proof fn lemma_ignored_events_change_nothing(ctx: ContextView)
    ensures
        ctx.after(Event::Other) == ctx,
        ctx.after(Event::Focused(false)) == ctx,
{
}

/// A resize leaves the render targets marked stale until they are made anew,
/// whatever events follow it in the same tick.
pub proof fn lemma_resize_stays_pending(ctx: ContextView, events: Seq<Event>)
    requires
        ctx.views_stale,
    ensures
        ctx.after_all(events).views_stale,
    decreases events.len(),
{
    if events.len() > 0 {
        lemma_resize_stays_pending(ctx, events.drop_last());
    }
}

/// Once a quit was requested, no later event of the tick sets the loop
/// running again.
pub proof fn lemma_quit_is_final(ctx: ContextView, events: Seq<Event>)
    requires
        !ctx.running,
    ensures
        !ctx.after_all(events).running,
    decreases events.len(),
{
    if events.len() > 0 {
        lemma_quit_is_final(ctx, events.drop_last());
    }
}

} // verus!
