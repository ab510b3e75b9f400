//! The graphics context: the frames it has in flight and the meshes it is about
//! to draw.
//!
//! The context decides what a frame holds. Talking to the device is the
//! caller's part: the caller acquires a swapchain image, hands its index to
//! [`Context::update`], records and submits the command buffer that comes back,
//! and reports the frame's end with [`Context::frame_finished`].

pub mod mesh;
pub mod setup;
pub mod transform;
pub mod uniform;

use crate::render::mesh::Data;
use crate::render::mesh::Mesh;
use crate::render::transform::Matrix4;
use crate::render::transform::Vector3;
use crate::render::transform::Vector4;
use crate::render::transform::MINUS_ONE;
use crate::render::transform::ONE;
use crate::render::transform::ZERO;
use crate::render::uniform::claimed_many;
use crate::render::uniform::lemma_claimed_many;
use crate::render::uniform::lemma_slot_was_free;
use crate::render::uniform::lemma_slots_distinct;
use crate::render::uniform::slot_of;
use crate::render::uniform::released;
use crate::render::uniform::UniformPool;
use vstd::prelude::*;

verus! {

/// Why a context could not be made.
#[derive(Clone, Copy, Debug, PartialEq, Eq, Structural)]
pub enum InitError {
    /// No physical device was found.
    NoDevice,
    /// No queue family of the device both draws and presents to the surface.
    NoGraphicsQueue,
    /// The surface supports no format.
    NoSurfaceFormat,
    /// The surface supports no way of compositing.
    NoCompositeAlpha,
    /// The swapchain has no image.
    NoSwapchainImage,
}

/// Width and height of a surface or an image, in pixels.
#[derive(Clone, Copy, Debug, PartialEq, Eq, Structural)]
pub struct Extent {
    pub width: u32,
    pub height: u32,
}

/// The colour and depth attachments that a render pass writes to for one
/// swapchain image. The depth attachment is shared by all framebuffers.
#[derive(Clone, Copy, Debug, PartialEq, Eq, Structural)]
pub struct Framebuffer {
    /// The index of the swapchain image that is the colour attachment.
    pub image: usize,
}

/// What one draw reads: a sampled texture, its sampler and a slot of the
/// uniform pool.
#[derive(Clone, Copy, Debug, PartialEq, Eq, Structural)]
pub struct DescriptorSet {
    pub texture: u64,
    pub sampler: u64,
    pub uniform_slot: usize,
}

/// One draw command: a vertex buffer, the descriptor set bound for it and the
/// uniform block to be copied into the set's slot before the draw.
#[derive(Clone, Copy, Debug, PartialEq, Eq, Structural)]
pub struct DrawCall {
    pub vertex_buffer: u64,
    pub vertex_count: usize,
    pub set: DescriptorSet,
    pub uniform: Data,
}

/// One recorded frame: a single render pass into one framebuffer, which clears
/// colour and depth and then runs the draws in order.
pub struct CommandBuffer {
    /// The index of the framebuffer that the pass renders into.
    pub framebuffer: usize,
    /// The colour that the pass clears to: red, green, blue, alpha.
    pub clear_color: Vector4,
    /// The depth that the pass clears to.
    pub clear_depth: u32,
    /// The draws, in the order in which the meshes were queued.
    pub draws: Vec<DrawCall>,
}

/// Opaque black.
pub open spec fn opaque_black() -> Vector4 {
    Vector4 { x: ZERO, y: ZERO, z: ZERO, w: ONE }
}

/// Where the camera stands when a context is made: one unit back from the
/// origin.
pub open spec fn initial_view() -> Matrix4 {
    Matrix4::translation(Vector3 { x: ZERO, y: ZERO, z: MINUS_ONE })
}

/// The draw of `mesh` that writes its uniform block to `slot`.
pub open spec fn draw_of(mesh: Mesh, slot: int, view: Matrix4, projection: Matrix4) -> DrawCall {
    DrawCall {
        vertex_buffer: mesh.vertex_buffer,
        vertex_count: mesh.vertex_count,
        set: DescriptorSet {
            texture: mesh.texture,
            sampler: mesh.sampler,
            uniform_slot: slot as usize,
        },
        uniform: mesh.uniform(view, projection),
    }
}

/// A uniform slot is free, or held by a frame that is in flight.
pub open spec fn held_in_flight(owner: Option<usize>, in_flight: Seq<bool>) -> bool {
    match owner {
        Some(image) => image < in_flight.len() && in_flight[image as int],
        None => true,
    }
}

/// The graphics context.
pub struct Context {
    /// Width and height of the surface, in pixels.
    pub dimensions: Extent,
    /// One framebuffer for each swapchain image, at the image's index.
    pub swapchain_framebuffers: Vec<Framebuffer>,
    /// For each swapchain image, whether a frame that renders to it has been
    /// recorded and not yet reported as finished.
    pub in_flight: Vec<bool>,
    /// The uniform slots of the frames in flight.
    pub ubo: UniformPool,
    /// The meshes to draw in the next frame, in drawing order.
    pub meshs: Vec<Mesh>,
    /// The default model matrix.
    pub world: Matrix4,
    /// The camera's view matrix.
    pub view: Matrix4,
    /// The camera's projection matrix.
    pub projection: Matrix4,
}

impl Context {
    /// The number of swapchain images.
    pub open spec fn image_count(&self) -> nat {
        self.swapchain_framebuffers@.len()
    }

    /// There is one framebuffer for each swapchain image, at the image's index,
    /// and every uniform slot that is held is held by a frame in flight.
    pub open spec fn wf(&self) -> bool {
        &&& self.in_flight@.len() == self.swapchain_framebuffers@.len()
        &&& forall|i: int|
            0 <= i < self.swapchain_framebuffers@.len() ==> (
            #[trigger] self.swapchain_framebuffers@[i]).image == i
        &&& forall|slot: int|
            0 <= slot < self.ubo@.len() ==> held_in_flight(#[trigger] self.ubo@[slot], self.in_flight@)
    }

    /// The draws of a frame for `image` over the queue `meshs`, each with the
    /// slot that its claim gets from a pool that stood at `owners`.
    pub open spec fn draws_of(
        meshs: Seq<Mesh>,
        owners: Seq<Option<usize>>,
        image: usize,
        view: Matrix4,
        projection: Matrix4,
    ) -> Seq<DrawCall> {
        Seq::new(
            meshs.len(),
            |i: int| draw_of(meshs[i], slot_of(owners, image, i as nat), view, projection),
        )
    }

    /// The context for a surface of the size `dimensions` whose swapchain has
    /// `image_count` images, with `projection` for the camera. No frame is in
    /// flight and no mesh is queued. Fails where the swapchain has no image.
    pub fn new(dimensions: Extent, image_count: usize, projection: Matrix4) -> (made: Result<
        Context,
        InitError,
    >)
        ensures
            image_count == 0 ==> made == Err::<Context, InitError>(InitError::NoSwapchainImage),
            image_count > 0 ==> made is Ok,
            made matches Ok(ctx) ==> {
                &&& ctx.wf()
                &&& ctx.image_count() == image_count
                &&& ctx.dimensions == dimensions
                &&& forall|i: int| 0 <= i < image_count ==> !ctx.in_flight@[i]
                &&& ctx.ubo@.len() == 0
                &&& ctx.meshs@.len() == 0
                &&& ctx.world == Matrix4::unit()
                &&& ctx.view == initial_view()
                &&& ctx.projection == projection
            },
    {
        if image_count == 0 {
            return Err(InitError::NoSwapchainImage);
        }
        let mut swapchain_framebuffers: Vec<Framebuffer> = Vec::new();
        let mut in_flight: Vec<bool> = Vec::new();
        let mut image: usize = 0;
        while image < image_count
            invariant
                image <= image_count,
                swapchain_framebuffers@.len() == image,
                in_flight@.len() == image,
                forall|i: int| 0 <= i < image ==> (#[trigger] swapchain_framebuffers@[i]).image == i,
                forall|i: int| 0 <= i < image ==> !in_flight@[i],
            decreases image_count - image,
        {
            swapchain_framebuffers.push(Framebuffer { image });
            in_flight.push(false);
            image = image + 1;
        }
        Ok(
            Context {
                dimensions,
                swapchain_framebuffers,
                in_flight,
                ubo: UniformPool::new(),
                meshs: Vec::new(),
                world: Matrix4::identity(),
                view: Matrix4::from_translation(Vector3 { x: ZERO, y: ZERO, z: MINUS_ONE }),
                projection,
            },
        )
    }

    /// Whether the context is well formed. A context made by [`Context::new`]
    /// and changed only through its methods always is; one whose fields were
    /// written to may not be.
    pub fn is_well_formed(&self) -> (ok: bool)
        ensures
            ok == self.wf(),
    {
        if self.in_flight.len() != self.swapchain_framebuffers.len() {
            return false;
        }
        let mut i: usize = 0;
        while i < self.swapchain_framebuffers.len()
            invariant
                i <= self.swapchain_framebuffers@.len(),
                forall|k: int| 0 <= k < i ==> (#[trigger] self.swapchain_framebuffers@[k]).image == k,
            decreases self.swapchain_framebuffers@.len() - i,
        {
            if self.swapchain_framebuffers[i].image != i {
                return false;
            }
            i = i + 1;
        }
        let mut slot: usize = 0;
        while slot < self.ubo.owners.len()
            invariant
                slot <= self.ubo@.len(),
                forall|k: int|
                    0 <= k < slot ==> held_in_flight(#[trigger] self.ubo@[k], self.in_flight@),
            decreases self.ubo@.len() - slot,
        {
            let held = match self.ubo.owners[slot] {
                Some(image) => image < self.in_flight.len() && self.in_flight[image],
                None => true,
            };
            if !held {
                assert(!held_in_flight(self.ubo@[slot as int], self.in_flight@));
                return false;
            }
            slot = slot + 1;
        }
        true
    }

    /// Whether the frame that renders to the swapchain image `image_num` has
    /// been recorded and not yet reported as finished.
    pub fn is_in_flight(&self, image_num: usize) -> (busy: bool)
        ensures
            busy == (image_num < self.in_flight@.len() && self.in_flight@[image_num as int]),
    {
        image_num < self.in_flight.len() && self.in_flight[image_num]
    }

    /// Queues `mesh` for the next frame, behind the meshes queued before it.
    pub fn draw(&mut self, mesh: Mesh)
        ensures
            final(self).meshs@ == old(self).meshs@.push(mesh),
            final(self).same_device(*old(self)),
            final(self).same_camera(*old(self)),
            old(self).wf() ==> final(self).wf(),
    {
        self.meshs.push(mesh);
    }

    /// The two contexts have the same surface, framebuffers, frames in flight
    /// and uniform slots.
    pub open spec fn same_device(self, other: Context) -> bool {
        &&& self.dimensions == other.dimensions
        &&& self.swapchain_framebuffers@ == other.swapchain_framebuffers@
        &&& self.in_flight@ == other.in_flight@
        &&& self.ubo@ == other.ubo@
    }

    /// The two contexts have the same camera.
    pub open spec fn same_camera(self, other: Context) -> bool {
        &&& self.world == other.world
        &&& self.view == other.view
        &&& self.projection == other.projection
    }

    /// `recorded` is the frame for the swapchain image `image_num` over the
    /// meshes queued in `self`, with the pool as it stands in `self`: one pass
    /// into the framebuffer of that image, cleared to opaque black and to the
    /// far depth, with one draw for each queued mesh, in queue order.
    pub open spec fn frame(self, image_num: usize, recorded: CommandBuffer) -> bool {
        &&& recorded.framebuffer == image_num
        &&& recorded.clear_color == opaque_black()
        &&& recorded.clear_depth == ONE
        &&& recorded.draws@ == Context::draws_of(
            self.meshs@,
            self.ubo@,
            image_num,
            self.view,
            self.projection,
        )
    }

    /// Every uniform slot that a frame for `image_num` over the queued meshes
    /// would claim has a number that fits the machine.
    pub open spec fn slots_fit(self, image_num: usize) -> bool {
        forall|i: int|
            0 <= i < self.meshs@.len() ==> 0 <= #[trigger] slot_of(self.ubo@, image_num, i as nat)
                <= usize::MAX
    }

    /// This context brought to `after` by recording a frame for `image_num`:
    /// the image is in flight, each queued mesh has claimed one uniform slot,
    /// and the rest of the device's state and the camera are as before.
    pub open spec fn recorded_as(self, image_num: usize, after: Context) -> bool {
        &&& after.dimensions == self.dimensions
        &&& after.swapchain_framebuffers@ == self.swapchain_framebuffers@
        &&& after.in_flight@ == self.in_flight@.update(image_num as int, true)
        &&& after.ubo@ == claimed_many(self.ubo@, image_num, self.meshs@.len())
        &&& after.same_camera(self)
    }

    /// Records the frame for the swapchain image `image_num`: one render pass
    /// into the framebuffer of that image, which clears to opaque black and to
    /// the far depth and draws every queued mesh once, in queue order, each
    /// through a uniform slot claimed for it. The queue stays as it is.
    pub fn draw_meshs(&mut self, image_num: usize) -> (recorded: CommandBuffer)
        requires
            old(self).wf(),
            image_num < old(self).image_count(),
            !old(self).in_flight@[image_num as int],
        ensures
            final(self).wf(),
            old(self).frame(image_num, recorded),
            old(self).slots_fit(image_num),
            old(self).recorded_as(image_num, *final(self)),
            final(self).meshs@ == old(self).meshs@,
    {
        let begun = CommandBuffer {
            framebuffer: self.swapchain_framebuffers[image_num].image,
            clear_color: Vector4 { x: ZERO, y: ZERO, z: ZERO, w: ONE },
            clear_depth: ONE,
            draws: Vec::new(),
        };
        self.in_flight.set(image_num, true);
        let recorded = self.draw_mesh(image_num, begun);
        proof {
            let before = old(self).ubo@;
            let count = old(self).meshs@.len();
            lemma_claimed_many(before, image_num, count);
            assert forall|slot: int| 0 <= slot < self.ubo@.len() implies held_in_flight(
                #[trigger] self.ubo@[slot],
                self.in_flight@,
            ) by {
                if self.ubo@[slot] != Some(image_num) {
                    assert(slot < before.len() && self.ubo@[slot] == before[slot]);
                    assert(held_in_flight(old(self).ubo@[slot], old(self).in_flight@));
                }
            }
        }
        recorded
    }

    /// Adds to `recording` one draw for each queued mesh, in queue order. Each
    /// draw gets the mesh's uniform block under the context's camera and a
    /// uniform slot claimed for the frame of `image_num`.
    fn draw_mesh(&mut self, image_num: usize, recording: CommandBuffer) -> (recorded: CommandBuffer)
        requires
            recording.draws@.len() == 0,
        ensures
            recorded.framebuffer == recording.framebuffer,
            recorded.clear_color == recording.clear_color,
            recorded.clear_depth == recording.clear_depth,
            recorded.draws@ == Context::draws_of(
                old(self).meshs@,
                old(self).ubo@,
                image_num,
                old(self).view,
                old(self).projection,
            ),
            old(self).slots_fit(image_num),
            final(self).ubo@ == claimed_many(old(self).ubo@, image_num, old(self).meshs@.len()),
            final(self).meshs@ == old(self).meshs@,
            final(self).dimensions == old(self).dimensions,
            final(self).swapchain_framebuffers@ == old(self).swapchain_framebuffers@,
            final(self).in_flight@ == old(self).in_flight@,
            final(self).same_camera(*old(self)),
    {
        let ghost begun = recording;
        let mut recording = recording;
        let ghost owners = self.ubo@;
        let ghost wanted = Context::draws_of(
            self.meshs@,
            owners,
            image_num,
            self.view,
            self.projection,
        );
        let mut i: usize = 0;
        while i < self.meshs.len()
            invariant
                i <= self.meshs@.len(),
                self.meshs@ == old(self).meshs@,
                self.dimensions == old(self).dimensions,
                self.swapchain_framebuffers@ == old(self).swapchain_framebuffers@,
                self.in_flight@ == old(self).in_flight@,
                self.same_camera(*old(self)),
                owners == old(self).ubo@,
                wanted == Context::draws_of(
                    old(self).meshs@,
                    owners,
                    image_num,
                    old(self).view,
                    old(self).projection,
                ),
                self.ubo@ == claimed_many(owners, image_num, i as nat),
                recording.framebuffer == begun.framebuffer,
                recording.clear_color == begun.clear_color,
                recording.clear_depth == begun.clear_depth,
                recording.draws@.len() == i,
                forall|k: int| 0 <= k < i ==> recording.draws@[k] == wanted[k],
                forall|k: int|
                    0 <= k < i ==> 0 <= #[trigger] slot_of(owners, image_num, k as nat) <= usize::MAX,
            decreases self.meshs@.len() - i,
        {
            let mesh = self.meshs[i];
            let uniform = mesh.update(self.view, self.projection, self.world);
            let uniform_slot = self.ubo.next(image_num);
            recording.draws.push(
                DrawCall {
                    vertex_buffer: mesh.vertex_buffer,
                    vertex_count: mesh.vertex_count,
                    set: DescriptorSet { texture: mesh.texture, sampler: mesh.sampler, uniform_slot },
                    uniform,
                },
            );
            i = i + 1;
        }
        assert(recording.draws@ =~= wanted);
        recording
    }

    /// Flushes the frame for the swapchain image `image_num`, which the caller
    /// has acquired: records it as [`Context::draw_meshs`] does and empties the
    /// queue. The caller submits what comes back and presents the image,
    /// and the queue is empty whether or not that succeeds.
    pub fn update(&mut self, image_num: usize) -> (recorded: CommandBuffer)
        requires
            old(self).wf(),
            image_num < old(self).image_count(),
            !old(self).in_flight@[image_num as int],
        ensures
            final(self).wf(),
            old(self).frame(image_num, recorded),
            old(self).slots_fit(image_num),
            old(self).recorded_as(image_num, *final(self)),
            final(self).meshs@ == Seq::<Mesh>::empty(),
    {
        let recorded = self.draw_meshs(image_num);
        self.meshs.clear();
        recorded
    }

    /// Takes note that the device has finished the frame that rendered to the
    /// swapchain image `image_num`: the image is no longer in flight and the
    /// uniform slots of that frame are free again. The slots of other frames,
    /// the queue and the camera stay.
    pub fn frame_finished(&mut self, image_num: usize)
        requires
            old(self).wf(),
            image_num < old(self).image_count(),
        ensures
            final(self).wf(),
            final(self).in_flight@ == old(self).in_flight@.update(image_num as int, false),
            final(self).ubo@ == released(old(self).ubo@, image_num),
            final(self).dimensions == old(self).dimensions,
            final(self).swapchain_framebuffers@ == old(self).swapchain_framebuffers@,
            final(self).meshs@ == old(self).meshs@,
            final(self).same_camera(*old(self)),
    {
        self.ubo.release(image_num);
        self.in_flight.set(image_num, false);
        proof {
            assert forall|slot: int| 0 <= slot < self.ubo@.len() implies held_in_flight(
                #[trigger] self.ubo@[slot],
                self.in_flight@,
            ) by {
                assert(held_in_flight(old(self).ubo@[slot], old(self).in_flight@));
            }
        }
    }
}

/// In a well-formed context the framebuffers are as many as the swapchain
/// images, and the framebuffer at each index renders to the image at that
/// index. Every operation on a context keeps it well formed, so this holds from
/// the making of the context on.
pub proof fn lemma_framebuffers_match_images(ctx: Context, index: int)
    requires
        ctx.wf(),
        0 <= index < ctx.image_count(),
    ensures
        ctx.swapchain_framebuffers@.len() == ctx.in_flight@.len(),
        ctx.swapchain_framebuffers@[index].image == index,
{
}

/// The draws of one frame write to uniform slots of their own: no two draws of
/// the frame share a slot, and no draw gets a slot that a frame in flight held
/// when the frame was recorded.
pub proof fn lemma_frame_slots_are_fresh(ctx: Context, image_num: usize, recorded: CommandBuffer)
    requires
        ctx.frame(image_num, recorded),
        ctx.slots_fit(image_num),
    ensures
        forall|i: int, j: int|
            0 <= i < j < recorded.draws@.len() ==> (#[trigger] recorded.draws@[i]).set.uniform_slot != (
            #[trigger] recorded.draws@[j]).set.uniform_slot,
        forall|i: int|
            0 <= i < recorded.draws@.len() && (#[trigger] recorded.draws@[i]).set.uniform_slot
                < ctx.ubo@.len() ==> ctx.ubo@[recorded.draws@[i].set.uniform_slot as int] is None,
{
    assert forall|i: int, j: int| 0 <= i < j < recorded.draws@.len() implies (
    #[trigger] recorded.draws@[i]).set.uniform_slot != (
    #[trigger] recorded.draws@[j]).set.uniform_slot by {
        lemma_slots_distinct(ctx.ubo@, image_num, i as nat, j as nat);
        assert(0 <= slot_of(ctx.ubo@, image_num, i as nat) <= usize::MAX);
        assert(0 <= slot_of(ctx.ubo@, image_num, j as nat) <= usize::MAX);
    }
    assert forall|i: int|
        0 <= i < recorded.draws@.len() && (#[trigger] recorded.draws@[i]).set.uniform_slot
            < ctx.ubo@.len() implies ctx.ubo@[recorded.draws@[i].set.uniform_slot as int] is None by {
        lemma_slot_was_free(ctx.ubo@, image_num, i as nat);
        assert(0 <= slot_of(ctx.ubo@, image_num, i as nat) <= usize::MAX);
    }
}

/// A frame over an empty queue is a render pass without draws, and it claims
/// no uniform slot.
pub proof fn lemma_empty_queue_records_nothing(ctx: Context, image_num: usize)
    requires
        ctx.meshs@.len() == 0,
    ensures
        Context::draws_of(ctx.meshs@, ctx.ubo@, image_num, ctx.view, ctx.projection).len() == 0,
        claimed_many(ctx.ubo@, image_num, ctx.meshs@.len()) == ctx.ubo@,
{
}

} // verus!
