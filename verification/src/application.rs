//! The frame driver: it owns the context and the clock and takes the embedding
//! program's state through one frame after another until the window is closed.
//!
//! The loop itself belongs to the caller, who polls the window, acquires the
//! swapchain image and talks to the device. Each turn of it is:
//! [`Application::begin_turn`], then poll, then [`Application::advance`], then
//! acquire, then [`Context::update`].

use crate::event::EventHandler;
use crate::render::Context;
use crate::time::nanos_between;
use crate::time::Clock;
use vstd::prelude::*;

verus! {

/// The frame driver.
pub struct Application {
    /// The graphics context.
    pub ctx: Context,
    /// Times the frames.
    pub clock: Clock,
    /// Whether the window has been asked to close. Once it has, the turn of the
    /// loop in which that was seen is the last.
    pub closed: bool,
    /// Whether a turn has begun, so that the clock has ticked for it, and the
    /// window's events are awaited.
    pub polling: bool,
}

impl Application {
    /// The context and the clock are well formed.
    pub open spec fn wf(&self) -> bool {
        self.ctx.wf() && self.clock.wf()
    }

    /// A driver for `ctx`, with a clock that starts now, the window open and no
    /// turn begun.
    pub fn new(ctx: Context) -> (app: Application)
        requires
            ctx.wf(),
        ensures
            app.wf(),
            app.ctx == ctx,
            !app.closed,
            !app.polling,
            app.clock == Clock::started(app.clock.init_instant, app.clock.last_instant),
    {
        Application { ctx, clock: Clock::default(), closed: false, polling: false }
    }

    /// Begins one turn of the loop: the clock ticks, and the driver awaits what
    /// the window has to report. The context stays as it is.
    pub fn begin_turn(&mut self)
        requires
            old(self).wf(),
            !old(self).closed,
            !old(self).polling,
            old(self).clock.frame_count < usize::MAX,
        ensures
            final(self).wf(),
            final(self).polling,
            !final(self).closed,
            final(self).ctx == old(self).ctx,
            final(self).clock == old(self).clock.ticked(
                final(self).clock.last_instant,
                final(self).clock.frame_durations,
            ),
            final(self).clock.frame_durations == nanos_between(
                final(self).clock.last_instant,
                old(self).clock.last_instant,
            ),
    {
        self.clock.tick();
        self.polling = true;
    }

    /// Goes on with a turn that has begun, up to the point where the swapchain
    /// image is acquired: a request to close the window is taken note of, and
    /// then `state` advances and after that queues its meshes, both on the
    /// driver's own context. This happens also where the window was asked to
    /// close in this turn. The clock and what the context keeps of the device
    /// do not change.
    pub fn advance<H: EventHandler>(&mut self, state: &mut H, close_requested: bool)
        requires
            old(self).wf(),
            !old(self).closed,
            old(self).polling,
        ensures
            final(self).wf(),
            !final(self).polling,
            final(self).closed == close_requested,
            final(self).clock == old(self).clock,
            final(self).ctx.same_device(old(self).ctx),
            exists|mid: H, mid_ctx: Context|
                #![auto]
                H::updated(old(state), &mid, old(self).ctx, mid_ctx) && H::drawn(
                    &mid,
                    final(state),
                    mid_ctx,
                    final(self).ctx,
                ),
    {
        self.polling = false;
        if close_requested {
            self.closed = true;
        }
        state.update(&mut self.ctx);
        state.draw(&mut self.ctx);
    }
}

} // verus!
