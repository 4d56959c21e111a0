//! Device capability tables.
//!
//! The device façade itself wraps the live context and its loaded entry
//! points, which sit outside this crate; the capability tables it reports
//! are plain data and are kept here.

use vstd::prelude::*;

verus! {

/// Implementation-dependent limits read back from the context.
#[derive(Clone, Debug, PartialEq, Eq)]
pub struct DeviceLimits {
    /// Maximum number of total invocations in a single workgroup.
    pub max_compute_work_group_invocations: u32,
    /// Maximum number of local workgroups per dispatch call.
    pub max_compute_work_group_count: [u32; 3],
    /// Maximum size of a local workgroup in each dimension.
    pub max_compute_work_group_size: [u32; 3],
    /// Maximum size in bytes of all shared memory variables in the compute
    /// pipeline.
    pub max_compute_shared_memory_size: u32,
    /// Maximum number of clip distances in a shader stage.
    pub max_clip_distances: u32,
    /// Maximum number of cull distances in a shader stage.
    pub max_cull_distances: u32,
    pub max_viewports: u32,
    pub max_viewport_dimensions: [u32; 2],
    pub max_framebuffer_width: u32,
    pub max_framebuffer_height: u32,
    pub max_framebuffer_layers: u32,
    pub max_color_attachments: u32,
    pub max_vertex_input_attributes: u32,
    pub max_vertex_input_bindings: u32,
    pub max_vertex_input_attribute_offset: u32,
    pub max_vertex_input_binding_stride: u32,
    pub max_vertex_output_components: u32,
}

/// Optional device features; none are modelled at present.
#[derive(Clone, Debug, PartialEq, Eq)]
pub struct DeviceFeatures {}

} // verus!
