//! Queries and conditional rendering.

use vstd::prelude::*;

verus! {

/// What a query counts or measures.
#[derive(Debug, Copy, Clone, PartialEq, Eq, Structural)]
pub enum QueryType {
    Timestamp,
    TimeElapsed,
    Occlusion,
    OcclusionConservative,
    OcclusionPrecision,
    InputAssemblyVertices,
    InputAssemblyPrimitives,
    /// Number of vertex shader invocations.
    VertexShaderInvocations,
    /// Number of geometry shader invocations.
    GeometryShaderInvocations,
    GeometryShaderPrimitives,
    TransformFeedbackPrimitivesWritten,
    TransformFeedbackOverflow,
    TransformFeedbackStreamOverflow,
    /// Number of input primitives for the primitive clipping stage.
    ClippingInvocations,
    /// Number of output primitives for the primitive clipping stage.
    ClippingPrimitives,
    /// Number of fragment shader invocations.
    FragmentShaderInvocations,
    /// Number of patches processed by the tessellation control shader.
    TessellationControlShaderPatches,
    /// Number of tessellation evaluation shader invocations.
    TessellationEvaluationShaderInvocations,
    /// Number of compute shader invocations.
    ComputeShaderInvocations,
}

/// How conditional rendering waits on a query result.
#[derive(Debug, Copy, Clone, PartialEq, Eq, Structural)]
pub enum ConditionalMode {
    NoWait,
    NoWaitInverted,
    /// Wait for query results to be available.
    Wait,
    /// Wait for query results to be available (inverted condition).
    WaitInverted,
    WaitByRegion,
    WaitByRegionInverted,
}

/// Query handle together with the type it was created for, which later
/// begin/end calls need.
#[derive(Debug, Copy, Clone, PartialEq, Eq, Structural)]
pub struct Query {
    /// Opaque name issued by the context.
    pub raw: u32,
    /// The type the query was created with.
    pub ty: QueryType,
}

} // verus!
