//! What an embedding program supplies: the per-frame logic of its own state.

use crate::render::Context;
use vstd::prelude::*;

verus! {

/// The state of an embedding program. Once per frame the driver asks it to
/// advance and then to queue what it wants drawn.
///
/// Both methods may queue meshes and move the camera. They must leave alone
/// what the context keeps of the device: the framebuffers, the frames in flight
/// and the uniform slots.
pub trait EventHandler {
    /// What [`EventHandler::update`] does: it may take the state `before` and
    /// the context `ctx_before` to the state `after` and the context
    /// `ctx_after`. An implementation that says nothing of itself allows every
    /// such step.
    open spec fn updated(before: &Self, after: &Self, ctx_before: Context, ctx_after: Context) -> bool {
        true
    }

    /// What [`EventHandler::draw`] does: it may take the state `before` and the
    /// context `ctx_before` to the state `after` and the context `ctx_after`.
    /// An implementation that says nothing of itself allows every such step.
    open spec fn drawn(before: &Self, after: &Self, ctx_before: Context, ctx_after: Context) -> bool {
        true
    }

    /// Advances the state by one frame.
    fn update(&mut self, ctx: &mut Context)
        requires
            old(ctx).wf(),
        ensures
            final(ctx).wf(),
            final(ctx).same_device(*old(ctx)),
            Self::updated(old(self), final(self), *old(ctx), *final(ctx)),
    ;

    /// Queues the meshes of this frame with [`Context::draw`], in drawing order.
    fn draw(&mut self, ctx: &mut Context)
        requires
            old(ctx).wf(),
        ensures
            final(ctx).wf(),
            final(ctx).same_device(*old(ctx)),
            Self::drawn(old(self), final(self), *old(ctx), *final(ctx)),
    ;
}

} // verus!
