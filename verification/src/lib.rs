//! Descriptor-driven translation layer for an immediate-mode, state-machine
//! style graphics context.
//!
//! Callers describe resources (buffers, images, views, samplers), pipelines
//! and fixed-function state as small, explicit value objects. This crate
//! resolves each description into the concrete targets, formats, flags and
//! state-configuration call sequences that the underlying context expects:
//!
//! * the [`format`] module enumerates sized storage formats and derives their
//!   channel layout and component count;
//! * the [`buffer`] module translates abstract memory intent into concrete
//!   storage-creation and mapping-access flags;
//! * the [`image`] module resolves a declarative shape into the concrete
//!   resource target and storage-allocation plan;
//! * the [`vertex`] module maps semantic vertex-attribute formats onto the
//!   input-assembler configuration calls;
//! * the [`pipeline`] module represents fixed-function state as pure data and
//!   computes the exact replay sequence that binding that state performs.
//!
//! The calls themselves are issued by a thin shim around this crate; every
//! decision about *which* calls to make, with *which* arguments, is made here
//! and carries a proved contract.

use vstd::prelude::*;

pub mod buffer;
pub mod command;
pub mod debug;
pub mod device;
pub mod error;
pub mod format;
pub mod framebuffer;
pub mod image;
pub mod pipeline;
pub mod query;
pub mod sampler;
pub mod sync;
pub mod transfer;
pub mod vertex;

pub use crate::buffer::{
    Buffer, BufferRange, BufferStorageFlags, MapAccessFlags, MappingFlags, MemoryFlags,
    to_creation_flags, to_mapping_flags,
};
pub use crate::command::{
    DispatchIndirectCmd, DrawIndexedIndirectCmd, DrawIndirectCmd, IndexTy, Primitive,
    region_coords,
};
pub use crate::debug::{
    DebugControlCommand, DebugReport, DebugSeverity, DebugSource, DebugType, MsgFilter, Object,
    ObjectType, debug_control_commands,
};
pub use crate::device::{DeviceFeatures, DeviceLimits};
pub use crate::error::{Error, OUT_OF_MEMORY_CODE, error_from_code};
pub use crate::format::{BaseFormat, Format, FormatLayout};
pub use crate::framebuffer::{Attachment, AttachmentView, Framebuffer, Renderbuffer};
pub use crate::image::{
    Image, ImagePlan, ImageType, ImageView, ImageViewType, StorageAllocation, SubresourceLayers,
    SubresourceRange, Target, default_view_plan, plan_image, view_target,
};
pub use crate::pipeline::{
    BlendChannel, BlendFactor, BlendOp, ColorBlend, ColorBlendAttachment, CullMode, DepthStencil,
    Face, FrontFace, GraphicsPipelineDesc, InputAssembly, MeshPipelineDesc, Multisample, Pipeline,
    PipelineFlags, PolygonMode, Rasterization, Shader, ShaderFlags, ShaderStage, StateCommand,
    StencilFace, StencilOp, VertexPipelineDesc, color_blend_commands, compile_result,
    depth_stencil_commands, input_assembly_commands, link_result, multisample_commands,
    rasterization_commands,
};
pub use crate::query::{ConditionalMode, Query, QueryType};
pub use crate::sampler::{
    Filter, MinFilter, Sampler, SamplerAddress, SamplerCommand, SamplerDesc, map_min_filter,
    sampler_commands,
};
pub use crate::sync::{Barrier, MemoryBarrierPlan, RegionBarrier, memory_barrier_plan};
pub use crate::transfer::{
    BufferImageCopy, HostImageCopy, ImageCopy, MemoryLayout, SubImageCommand,
    map_subresource_region, plan_copy_to_image,
};
pub use crate::vertex::{
    InputRate, VertexArray, VertexArrayCommand, VertexAttributeDesc, VertexBase,
    VertexBufferView, VertexFormat, VertexFormatDesc, VertexScalarType, describe_vertex_attributes,
};

verus! {

/// A rectangular region of a surface, in pixels.
#[derive(Copy, Clone, Debug, PartialEq, Eq, Hash, Structural)]
pub struct Region {
    pub x: i32,
    pub y: i32,
    /// Width.
    pub w: i32,
    /// Height.
    pub h: i32,
}

/// Starting location for copying from or to texture data.
#[derive(Copy, Clone, Debug, PartialEq, Eq, Hash, Structural)]
pub struct Offset {
    pub x: i32,
    pub y: i32,
    pub z: i32,
}

impl Offset {
    /// The zero offset.
    pub fn origin() -> (r: Offset)
        ensures
            r.x == 0 && r.y == 0 && r.z == 0,
    {
        Offset { x: 0, y: 0, z: 0 }
    }
}

/// Size of a copied or allocated image region, in texels.
#[derive(Copy, Clone, Debug, PartialEq, Eq, Hash, Structural)]
pub struct Extent {
    pub width: u32,
    pub height: u32,
    pub depth: u32,
}

/// Comparison operator.
///
/// Used in the depth test, the stencil test and when sampling depth textures.
#[derive(Debug, Copy, Clone, PartialEq, Eq, Hash, Structural)]
pub enum Compare {
    Less,
    LessEqual,
    Greater,
    GreaterEqual,
    Equal,
    NotEqual,
    Always,
    Never,
}

} // verus!
