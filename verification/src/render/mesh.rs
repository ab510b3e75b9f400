//! One renderable object: its resources on the device and its transform.

use crate::render::transform::Matrix4;
use crate::render::transform::Transform;
use crate::render::transform::ONE;
use crate::render::transform::ZERO;
use vstd::prelude::*;

verus! {

/// The model matrix of a mesh, given as its two factors. The matrix itself is
/// the product `scale × translation`; the rotation of the transform has no part
/// in it.
#[derive(Clone, Copy, Debug, PartialEq, Eq, Structural)]
pub struct Model {
    /// The left factor: the scale of the transform.
    pub scale: Matrix4,
    /// The right factor: the translation matrix of the position.
    pub translation: Matrix4,
}

/// The uniform block of one draw: the model, view and projection matrices, in
/// that order.
#[derive(Clone, Copy, Debug, PartialEq, Eq, Structural)]
pub struct Data {
    pub model: Model,
    pub view: Matrix4,
    pub projection: Matrix4,
}

/// How a texture is read between its texels.
#[derive(Clone, Copy, Debug, PartialEq, Eq, Structural)]
pub enum Filter {
    Nearest,
    Linear,
}

/// How a texture is read between its mipmap levels.
#[derive(Clone, Copy, Debug, PartialEq, Eq, Structural)]
pub enum MipmapMode {
    Nearest,
    Linear,
}

/// How a texture is read outside its edges.
#[derive(Clone, Copy, Debug, PartialEq, Eq, Structural)]
pub enum SamplerAddressMode {
    Repeat,
    MirroredRepeat,
    ClampToEdge,
}

/// The settings of a sampler.
#[derive(Clone, Copy, Debug, PartialEq, Eq, Structural)]
pub struct SamplerInfo {
    pub mag_filter: Filter,
    pub min_filter: Filter,
    pub mipmap_mode: MipmapMode,
    pub address_u: SamplerAddressMode,
    pub address_v: SamplerAddressMode,
    pub address_w: SamplerAddressMode,
    pub mip_lod_bias: u32,
    pub max_anisotropy: u32,
    pub min_lod: u32,
    pub max_lod: u32,
}

impl SamplerInfo {
    /// The sampler of every mesh: linear filters, the texture repeated along
    /// all three axes, a single mipmap level, no bias on the level of detail.
    pub open spec fn textured() -> SamplerInfo {
        SamplerInfo {
            mag_filter: Filter::Linear,
            min_filter: Filter::Linear,
            mipmap_mode: MipmapMode::Nearest,
            address_u: SamplerAddressMode::Repeat,
            address_v: SamplerAddressMode::Repeat,
            address_w: SamplerAddressMode::Repeat,
            mip_lod_bias: ZERO,
            max_anisotropy: ONE,
            min_lod: ZERO,
            max_lod: ZERO,
        }
    }

    /// The settings with which the sampler of a mesh is made.
    pub fn for_mesh() -> (info: SamplerInfo)
        ensures
            info == SamplerInfo::textured(),
    {
        let repeat = SamplerAddressMode::Repeat;
        SamplerInfo {
            mag_filter: Filter::Linear,
            min_filter: Filter::Linear,
            mipmap_mode: MipmapMode::Nearest,
            address_u: repeat,
            address_v: repeat,
            address_w: repeat,
            mip_lod_bias: ZERO,
            max_anisotropy: ONE,
            min_lod: ZERO,
            max_lod: ZERO,
        }
    }
}

/// A mesh. The vertex buffer, the texture and the sampler live on the device
/// and are named here by their handles; copies of a mesh share them. The
/// transform is the mesh's own: a copy carries the transform of the moment it
/// was made.
#[derive(Clone, Copy, Debug, PartialEq, Eq, Structural)]
pub struct Mesh {
    /// The handle of the vertex buffer.
    pub vertex_buffer: u64,
    /// The number of vertices in the buffer, fixed when the mesh is made. A
    /// mesh without vertices is valid and draws nothing.
    pub vertex_count: usize,
    /// The handle of the texture image.
    pub texture: u64,
    /// The handle of the sampler.
    pub sampler: u64,
    /// Where the mesh stands, how it is turned and how large it is.
    pub transform: Transform,
}

impl Mesh {
    /// The uniform block of this mesh under the camera `view`, `projection`.
    pub open spec fn uniform(self, view: Matrix4, projection: Matrix4) -> Data {
        Data {
            model: Model {
                scale: self.transform.scale,
                translation: Matrix4::translation(self.transform.position),
            },
            view,
            projection,
        }
    }

    /// A mesh over resources that are on the device already, at the origin,
    /// unturned and at its own size.
    pub fn new(vertex_buffer: u64, vertex_count: usize, texture: u64, sampler: u64) -> (mesh: Mesh)
        ensures
            mesh == (Mesh {
                vertex_buffer,
                vertex_count,
                texture,
                sampler,
                transform: Transform::initial(),
            }),
    {
        Mesh { vertex_buffer, vertex_count, texture, sampler, transform: Transform::new() }
    }

    /// The uniform block for one draw of this mesh: the factors of its model
    /// matrix, with `view` and `projection` as given. `world` is not used. The
    /// mesh does not change, and equal arguments give equal blocks.
    pub fn update(&self, view: Matrix4, projection: Matrix4, world: Matrix4) -> (data: Data)
        ensures
            data == self.uniform(view, projection),
    {
        Data {
            model: Model {
                scale: self.transform.scale,
                translation: self.transform.translation_matrix(),
            },
            view,
            projection,
        }
    }
}

/// A mesh whose scale is the identity has the identity as the left factor of
/// its model matrix and the translation matrix of its position as the right
/// one, whatever its rotation and whatever the camera.
pub proof fn lemma_unscaled_model(mesh: Mesh, view: Matrix4, projection: Matrix4)
    requires
        mesh.transform.scale == Matrix4::unit(),
    ensures
        mesh.uniform(view, projection).model.scale == Matrix4::unit(),
        mesh.uniform(view, projection).model.translation == Matrix4::translation(
            mesh.transform.position,
        ),
        mesh.uniform(view, projection).view == view,
        mesh.uniform(view, projection).projection == projection,
{
}

} // verus!
