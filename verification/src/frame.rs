//! The cadence of a frame: which step the host performs next.
//!
//! The host does the work of each step (polling, drawing, presenting) and
//! asks here what follows. A tick is either complete or not begun: a quit
//! request is looked at only at the top of a tick, and a resize seen while
//! polling is answered before anything is drawn.

use crate::context::{Context, ContextView};
use vstd::prelude::*;

verus! {

/// One step of the loop.
#[derive(Clone, Copy, Debug, PartialEq, Eq)]
pub enum Step {
    /// Poll the platform and drain the events into the frame context.
    PollEvents,
    /// Run the camera controller.
    RunController,
    /// Make the size-dependent render targets anew.
    RefreshViews,
    /// Clear the colour and depth targets.
    Clear,
    /// Draw every object with its brush.
    Draw,
    /// Present the frame.
    Present,
    /// Give back what was allocated for this frame only.
    Reclaim,
    /// Leave the loop.
    Stop,
}

/// The first step of a tick: it begins only while the loop is running.
pub open spec fn tick_start(ctx: ContextView) -> Step {
    if ctx.running {
        Step::PollEvents
    } else {
        Step::Stop
    }
}

/// The step that follows `done`.
pub open spec fn step_after(done: Step, ctx: ContextView) -> Step {
    match done {
        Step::PollEvents => Step::RunController,
        Step::RunController => if ctx.views_stale {
            Step::RefreshViews
        } else {
            Step::Clear
        },
        Step::RefreshViews => Step::Clear,
        Step::Clear => Step::Draw,
        Step::Draw => Step::Present,
        Step::Present => Step::Reclaim,
        Step::Reclaim => tick_start(ctx),
        Step::Stop => Step::Stop,
    }
}

/// What the loop does first.
pub fn first_step(ctx: &Context) -> (step: Step)
    ensures
        step == tick_start(ctx@),
{
    if ctx.running {
        Step::PollEvents
    } else {
        Step::Stop
    }
}

/// What the loop does once `done` is done.
pub fn next_step(done: Step, ctx: &Context) -> (step: Step)
    ensures
        step == step_after(done, ctx@),
{
    match done {
        Step::PollEvents => Step::RunController,
        Step::RunController => {
            if ctx.views_stale {
                Step::RefreshViews
            } else {
                Step::Clear
            }
        },
        Step::RefreshViews => Step::Clear,
        Step::Clear => Step::Draw,
        Step::Draw => Step::Present,
        Step::Present => Step::Reclaim,
        Step::Reclaim => first_step(ctx),
        Step::Stop => Step::Stop,
    }
}

/// A stopped loop stays stopped, and a quit request does not cut a tick
/// short: from polling on, every step up to reclaiming follows whether or
/// not the loop is still running.
pub proof fn lemma_quit_waits_for_the_tick(done: Step, running: ContextView, quit: ContextView)
    requires
        running.views_stale == quit.views_stale,
    ensures
        step_after(Step::Stop, running) == Step::Stop,
        done != Step::Reclaim ==> step_after(done, running) == step_after(done, quit),
        !quit.running ==> step_after(Step::Reclaim, quit) == Step::Stop,
{
}

/// Nothing is drawn on stale render targets: if the size changed, the step
/// after the controller makes the targets anew, and drawing only ever
/// follows clearing, which follows either that or a controller run with
/// nothing stale.
pub proof fn lemma_resize_is_answered_before_draw(done: Step, ctx: ContextView)
    ensures
        ctx.views_stale ==> step_after(Step::RunController, ctx) == Step::RefreshViews,
        step_after(done, ctx) == Step::Draw ==> done == Step::Clear,
        step_after(done, ctx) == Step::Clear ==> done == Step::RefreshViews || (done
            == Step::RunController && !ctx.views_stale),
{
}

} // verus!
