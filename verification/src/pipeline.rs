//! Graphics and compute pipelines and fixed-function state.
//!
//! Pipeline state objects ([`Rasterization`], [`ColorBlend`],
//! [`DepthStencil`], [`Multisample`], [`InputAssembly`]) are pure data.
//! Binding one replays every field onto context state; the exact call
//! sequence that a bind performs is computed here as a list of
//! [`StateCommand`] values, which a thin shim then issues one by one.

use vstd::prelude::*;

use crate::debug::Object;
use crate::debug::ObjectType;

use crate::Compare;
use crate::error::Error;

verus! {

/// Shader handle.
///
/// Shaders are the programmable parts of a [`Pipeline`]; each one is created
/// for a fixed [`ShaderStage`] and may be reused in several pipelines.
#[derive(Clone, Copy, Debug, PartialEq, Eq, Structural)]
pub struct Shader(pub u32);

/// Graphics or compute pipeline handle.
///
/// Specifies how draw or dispatch commands are executed.
#[derive(Clone, Copy, Debug, PartialEq, Eq, Structural)]
pub struct Pipeline(pub u32);

/// Shader stages.
///
/// Each [`Shader`] has an associated stage in the pipeline.
#[derive(Debug, Clone, Copy, PartialEq, Eq, Hash, Structural)]
pub enum ShaderStage {
    /// Vertex stage.
    Vertex,
    /// Tessellation (control) stage.
    TessellationControl,
    /// Tessellation (evaluation) stage.
    TessellationEvaluation,
    /// Geometry stage.
    Geometry,
    /// Fragment stage.
    Fragment,
    /// Compute stage.
    Compute,
    /// Mesh stage (vendor extension).
    MeshNv,
    /// Task stage (vendor extension).
    TaskNv,
}

/// Shader compilation flags.
#[derive(Debug, Copy, Clone, PartialEq, Eq, Structural)]
pub struct ShaderFlags {
    /// Write compilation errors to stdout.
    pub verbose: bool,
}

/// Pipeline link flags.
#[derive(Debug, Copy, Clone, PartialEq, Eq, Structural)]
pub struct PipelineFlags {
    /// Write link errors to stdout.
    pub verbose: bool,
}

/// Graphics pipeline descriptor: one optional shader per stage slot.
///
/// The mesh and task slots belong to the mesh shading path, which excludes
/// the vertex, tessellation and geometry slots; a descriptor is built either
/// from a [`VertexPipelineDesc`] or from a [`MeshPipelineDesc`], which makes
/// the two paths mutually exclusive by construction.
#[derive(Copy, Clone, Debug, PartialEq, Eq, Structural)]
pub struct GraphicsPipelineDesc {
    pub vertex_shader: Option<Shader>,
    pub tessellation_control_shader: Option<Shader>,
    pub tessellation_evaluation_shader: Option<Shader>,
    pub geometry_shader: Option<Shader>,
    pub fragment_shader: Option<Shader>,
    pub mesh_shader: Option<Shader>,
    pub task_shader: Option<Shader>,
}

/// Descriptor for a pipeline on the vertex shading path.
#[derive(Copy, Clone, Debug, PartialEq, Eq, Structural)]
pub struct VertexPipelineDesc {
    pub vertex_shader: Shader,
    pub tessellation_control_shader: Option<Shader>,
    pub tessellation_evaluation_shader: Option<Shader>,
    pub geometry_shader: Option<Shader>,
    pub fragment_shader: Option<Shader>,
}

/// Descriptor for a pipeline on the mesh shading path.
#[derive(Copy, Clone, Debug, PartialEq, Eq, Structural)]
pub struct MeshPipelineDesc {
    pub mesh_shader: Shader,
    pub task_shader: Option<Shader>,
    pub fragment_shader: Option<Shader>,
}

impl From<VertexPipelineDesc> for GraphicsPipelineDesc {
    /// A vertex-path descriptor fills the vertex-path slots and leaves the
    /// mesh-path slots empty.
    fn from(desc: VertexPipelineDesc) -> (r: GraphicsPipelineDesc) {
        GraphicsPipelineDesc {
            vertex_shader: Some(desc.vertex_shader),
            tessellation_control_shader: desc.tessellation_control_shader,
            tessellation_evaluation_shader: desc.tessellation_evaluation_shader,
            geometry_shader: desc.geometry_shader,
            fragment_shader: desc.fragment_shader,
            mesh_shader: None,
            task_shader: None,
        }
    }
}

impl vstd::std_specs::convert::FromSpecImpl<VertexPipelineDesc> for GraphicsPipelineDesc {
    open spec fn obeys_from_spec() -> bool {
        true
    }

    open spec fn from_spec(desc: VertexPipelineDesc) -> GraphicsPipelineDesc {
        GraphicsPipelineDesc {
            vertex_shader: Some(desc.vertex_shader),
            tessellation_control_shader: desc.tessellation_control_shader,
            tessellation_evaluation_shader: desc.tessellation_evaluation_shader,
            geometry_shader: desc.geometry_shader,
            fragment_shader: desc.fragment_shader,
            mesh_shader: None,
            task_shader: None,
        }
    }
}

impl From<MeshPipelineDesc> for GraphicsPipelineDesc {
    /// A mesh-path descriptor fills the mesh-path slots and leaves the
    /// vertex-path slots empty.
    fn from(desc: MeshPipelineDesc) -> (r: GraphicsPipelineDesc) {
        GraphicsPipelineDesc {
            vertex_shader: None,
            tessellation_control_shader: None,
            tessellation_evaluation_shader: None,
            geometry_shader: None,
            fragment_shader: desc.fragment_shader,
            mesh_shader: Some(desc.mesh_shader),
            task_shader: desc.task_shader,
        }
    }
}

impl vstd::std_specs::convert::FromSpecImpl<MeshPipelineDesc> for GraphicsPipelineDesc {
    open spec fn obeys_from_spec() -> bool {
        true
    }

    open spec fn from_spec(desc: MeshPipelineDesc) -> GraphicsPipelineDesc {
        GraphicsPipelineDesc {
            vertex_shader: None,
            tessellation_control_shader: None,
            tessellation_evaluation_shader: None,
            geometry_shader: None,
            fragment_shader: desc.fragment_shader,
            mesh_shader: Some(desc.mesh_shader),
            task_shader: desc.task_shader,
        }
    }
}

impl GraphicsPipelineDesc {
    /// Well-formedness of a descriptor: the mesh shading path (mesh and
    /// task slots) excludes the vertex shading path (vertex, tessellation
    /// and geometry slots).
    pub open spec fn spec_paths_exclusive(self) -> bool {
        (self.mesh_shader is Some || self.task_shader is Some) ==> {
            &&& self.vertex_shader is None
            &&& self.tessellation_control_shader is None
            &&& self.tessellation_evaluation_shader is None
            &&& self.geometry_shader is None
        }
    }
}

/// Law (mutually exclusive shading paths): a descriptor built from either
/// path descriptor is well-formed: the vertex path fills no mesh slot and
/// the mesh path fills no vertex slot.
pub proof fn lemma_desc_paths_exclusive(v: VertexPipelineDesc, m: MeshPipelineDesc)
    ensures
        <GraphicsPipelineDesc as vstd::std_specs::convert::FromSpec<VertexPipelineDesc>>::from_spec(
            v,
        ).spec_paths_exclusive(),
        <GraphicsPipelineDesc as vstd::std_specs::convert::FromSpec<MeshPipelineDesc>>::from_spec(
            m,
        ).spec_paths_exclusive(),
{
}

/// The shaders an optional stage slot contributes: one or none.
pub open spec fn spec_slot_shaders(slot: Option<Shader>) -> Seq<Shader> {
    match slot {
        Some(s) => seq![s],
        None => Seq::empty(),
    }
}

impl GraphicsPipelineDesc {
    /// The shaders present in the descriptor, in stage order.
    pub open spec fn spec_stage_shaders(self) -> Seq<Shader> {
        spec_slot_shaders(self.vertex_shader) + spec_slot_shaders(self.tessellation_control_shader)
            + spec_slot_shaders(self.tessellation_evaluation_shader) + spec_slot_shaders(
            self.geometry_shader,
        ) + spec_slot_shaders(self.fragment_shader) + spec_slot_shaders(self.mesh_shader)
            + spec_slot_shaders(self.task_shader)
    }

    /// Collect the shaders of the filled stage slots, in stage order; these
    /// are the shaders that linking the pipeline attaches.
    #[verifier::rlimit(50)]
    pub fn stage_shaders(&self) -> (r: Vec<Shader>)
        ensures
            r@ == self.spec_stage_shaders(),
    {
        let mut out: Vec<Shader> = Vec::new();
        if let Some(s) = self.vertex_shader {
            out.push(s);
        }
        if let Some(s) = self.tessellation_control_shader {
            out.push(s);
        }
        if let Some(s) = self.tessellation_evaluation_shader {
            out.push(s);
        }
        if let Some(s) = self.geometry_shader {
            out.push(s);
        }
        if let Some(s) = self.fragment_shader {
            out.push(s);
        }
        if let Some(s) = self.mesh_shader {
            out.push(s);
        }
        if let Some(s) = self.task_shader {
            out.push(s);
        }
        proof {
            assert(out@ =~= self.spec_stage_shaders());
        }
        out
    }
}

/// Turn the compile status the context reports for a shader into the result
/// of shader creation: the handle itself on success, and on failure an error
/// that carries the same, still-valid handle.
pub fn compile_result(shader: Shader, compiled: bool) -> (r: Result<Shader, Error>)
    ensures
        compiled ==> r == Ok::<Shader, Error>(shader),
        !compiled ==> r == Err::<Shader, Error>(Error::CompileError(shader)),
{
    if compiled {
        Ok(shader)
    } else {
        Err(Error::CompileError(shader))
    }
}

/// Input assembly descriptor.
///
/// Configures the input assembler for primitive shading.
#[derive(Debug, Copy, Clone, PartialEq, Eq, Structural)]
pub struct InputAssembly {
    /// A special vertex index that indicates a restart of the primitive
    /// assembly, if any.
    pub primitive_restart: Option<u32>,
}

/// Rasterizer descriptor.
///
/// Controls the rasterization process for converting primitives into
/// fragments.
#[derive(Debug, Copy, Clone, PartialEq, Eq, Structural)]
pub struct Rasterization {
    /// Clamp depth values of fragments to the z-planes instead of clipping.
    pub depth_clamp: bool,
    /// Discard primitives before rasterization.
    pub rasterizer_discard: bool,
    /// Specifies how polygons will be rendered.
    pub polygon_mode: PolygonMode,
    /// Which faces are culled, if any.
    pub cull_mode: Option<CullMode>,
    /// The winding order that determines the visible face of a triangle.
    pub front_face: FrontFace,
    /// Apply a depth bias to rasterized fragments.
    pub depth_bias: bool,
}

/// Polygon rendering mode, used during [`Rasterization`].
#[derive(Debug, Copy, Clone, PartialEq, Eq, Structural)]
pub enum PolygonMode {
    Point,
    Line,
    Fill,
}

/// Polygon culling mode, used during [`Rasterization`].
#[derive(Debug, Copy, Clone, PartialEq, Eq, Structural)]
pub enum CullMode {
    Front,
    Back,
    FrontBack,
}

/// Polygon front face, used during [`Rasterization`].
#[derive(Debug, Copy, Clone, PartialEq, Eq, Structural)]
pub enum FrontFace {
    CounterClockwise,
    Clockwise,
}

/// Color blend state: one entry per color attachment slot.
#[derive(Debug, Clone)]
pub struct ColorBlend {
    pub attachments: Vec<ColorBlendAttachment>,
}

/// Blend factor applied to a source or destination channel.
#[derive(Debug, Copy, Clone, PartialEq, Eq, Structural)]
pub enum BlendFactor {
    Zero,
    One,
    SrcColor,
    OneMinusSrcColor,
    DstColor,
    OneMinusDstColor,
    SrcAlpha,
    OneMinusSrcAlpha,
    DstAlpha,
    OneMinusDstAlpha,
    ConstantColor,
    OneMinusConstantColor,
    ConstantAlpha,
    OneMinusConstantAlpha,
    SrcAlphaSaturate,
    Src1Color,
    OneMinusSrc1Color,
    Src1Alpha,
    OneMinusSrc1Alpha,
}

/// Operation combining the weighted source and destination channels.
#[derive(Debug, Copy, Clone, PartialEq, Eq, Structural)]
pub enum BlendOp {
    Add,
    Substract,
    ReverseSubstract,
    Min,
    Max,
}

/// Blend equation for one channel group: factors and operation.
#[derive(Debug, Copy, Clone, PartialEq, Eq, Structural)]
pub struct BlendChannel {
    pub src_factor: BlendFactor,
    pub dst_factor: BlendFactor,
    pub blend_op: BlendOp,
}

/// Per-attachment color blend state. When blending is disabled for the slot,
/// the equation and factor fields are meaningless and are never written.
#[derive(Debug, Copy, Clone, PartialEq, Eq, Structural)]
pub struct ColorBlendAttachment {
    pub blend_enable: bool,
    pub color: BlendChannel,
    pub alpha: BlendChannel,
}

/// Stencil operation applied on a stencil test outcome.
#[derive(Debug, Copy, Clone, PartialEq, Eq, Structural)]
pub enum StencilOp {
    Keep,
    Zero,
    Replace,
    IncrementClamp,
    DecrementClamp,
    Invert,
    IncrementWrap,
    DecrementWrap,
}

/// Stencil state for one face orientation: the operation triple, compare
/// function, compare mask and reference value.
#[derive(Debug, Copy, Clone, PartialEq, Eq, Structural)]
pub struct StencilFace {
    pub fail: StencilOp,
    pub pass: StencilOp,
    pub depth_fail: StencilOp,
    pub compare_op: Compare,
    pub compare_mask: u32,
    pub reference: u32,
}

impl StencilFace {
    /// The "always pass, never write" face state: every operation keeps the
    /// stored value and the compare function always passes.
    pub fn keep() -> (r: StencilFace)
        ensures
            r == (StencilFace {
                fail: StencilOp::Keep,
                pass: StencilOp::Keep,
                depth_fail: StencilOp::Keep,
                compare_op: Compare::Always,
                compare_mask: 0xffff_ffff,
                reference: 0,
            }),
    {
        StencilFace {
            fail: StencilOp::Keep,
            pass: StencilOp::Keep,
            depth_fail: StencilOp::Keep,
            compare_op: Compare::Always,
            compare_mask: 0xffff_ffff,
            reference: 0,
        }
    }
}

/// Depth and stencil state. The depth group (test, write mask, compare
/// function) and the stencil group are independent; the stencil group keeps
/// separate front-face and back-face state.
#[derive(Debug, Copy, Clone, PartialEq, Eq, Structural)]
pub struct DepthStencil {
    pub depth_test: bool,
    pub depth_write: bool,
    pub depth_compare_op: Compare,
    pub stencil_test: bool,
    pub stencil_front: StencilFace,
    pub stencil_back: StencilFace,
}

/// Multisample state.
///
/// The minimum sample shading fraction is carried as the raw bit pattern of
/// a 32-bit IEEE-754 value; the shim that issues the call reinterprets it.
#[derive(Debug, Copy, Clone, PartialEq, Eq, Structural)]
pub struct Multisample {
    pub sample_shading: bool,
    /// Bit pattern of the minimum fraction of shaded samples.
    pub min_sample_shading_bits: u32,
    pub sample_mask: u64,
    pub alpha_to_coverage: bool,
    pub alpha_to_one: bool,
}

/// A face orientation addressed by a stencil configuration call.
#[derive(Debug, Copy, Clone, PartialEq, Eq, Structural)]
pub enum Face {
    Front,
    Back,
}

/// One stateful configuration call against the context. Binding a pipeline
/// state object replays the object, field by field, as a sequence of these;
/// a thin shim issues each one as the matching context call.
#[derive(Debug, Copy, Clone, PartialEq, Eq, Structural)]
pub enum StateCommand {
    /// Enable primitive restart (`enable`), or disable it.
    PrimitiveRestart { enable: bool },
    /// Set the vertex index that restarts primitive assembly.
    PrimitiveRestartIndex { index: u32 },
    /// Enable blending for one attachment slot.
    BlendEnable { slot: u32 },
    /// Disable blending for one attachment slot.
    BlendDisable { slot: u32 },
    /// Set the per-channel blend operations for one attachment slot.
    BlendEquation { slot: u32, color_op: BlendOp, alpha_op: BlendOp },
    /// Set the four blend factors for one attachment slot.
    BlendFactors {
        slot: u32,
        src_color: BlendFactor,
        dst_color: BlendFactor,
        src_alpha: BlendFactor,
        dst_alpha: BlendFactor,
    },
    /// Enable the depth test.
    DepthTestEnable,
    /// Disable the depth test.
    DepthTestDisable,
    /// Set the depth write mask.
    DepthWrite { enable: bool },
    /// Set the depth compare function.
    DepthCompare { op: Compare },
    /// Enable the stencil test.
    StencilTestEnable,
    /// Disable the stencil test.
    StencilTestDisable,
    /// Set compare function, reference and mask for one face orientation.
    StencilFunc { face: Face, op: Compare, reference: u32, mask: u32 },
    /// Set the operation triple for one face orientation.
    StencilOps { face: Face, fail: StencilOp, depth_fail: StencilOp, pass: StencilOp },
    /// Enable or disable depth clamping.
    DepthClamp { enable: bool },
    /// Enable or disable discarding primitives before rasterization.
    RasterizerDiscard { enable: bool },
    /// Enable or disable the depth bias toggle that belongs to the selected
    /// polygon mode; the toggle must match the mode being bound.
    DepthBias { mode: PolygonMode, enable: bool },
    /// Set the polygon rendering mode for both faces.
    SetPolygonMode { mode: PolygonMode },
    /// Set the front-face winding order.
    SetFrontFace { front: FrontFace },
    /// Enable face culling with the given mode.
    CullEnable { mode: CullMode },
    /// Disable face culling.
    CullDisable,
    /// Enable multisampling.
    MultisampleEnable,
    /// Disable multisampling.
    MultisampleDisable,
    /// Enable sample shading with the given minimum fraction (IEEE-754 bit
    /// pattern).
    SampleShadingEnable { min_bits: u32 },
    /// Disable sample shading.
    SampleShadingDisable,
    /// Set one 32-bit word of the sample mask.
    SampleMask { word: u32, mask: u32 },
    /// Enable or disable alpha-to-coverage.
    AlphaToCoverage { enable: bool },
    /// Enable or disable alpha-to-one.
    AlphaToOne { enable: bool },
}

/// The replay sequence of an input assembly state: with a restart index the
/// restart is enabled and the index set; without one it is disabled.
pub open spec fn spec_input_assembly_cmds(state: InputAssembly) -> Seq<StateCommand> {
    match state.primitive_restart {
        Some(index) => seq![
            StateCommand::PrimitiveRestart { enable: true },
            StateCommand::PrimitiveRestartIndex { index },
        ],
        None => seq![StateCommand::PrimitiveRestart { enable: false }],
    }
}

/// Compute the configuration calls that binding an input assembly state
/// performs.
pub fn input_assembly_commands(state: &InputAssembly) -> (r: Vec<StateCommand>)
    ensures
        r@ == spec_input_assembly_cmds(*state),
{
    let mut out: Vec<StateCommand> = Vec::new();
    match state.primitive_restart {
        Some(index) => {
            out.push(StateCommand::PrimitiveRestart { enable: true });
            out.push(StateCommand::PrimitiveRestartIndex { index });
        },
        None => {
            out.push(StateCommand::PrimitiveRestart { enable: false });
        },
    }
    proof {
        assert(out@ =~= spec_input_assembly_cmds(*state));
    }
    out
}

/// The replay commands for one color attachment slot: an enabled attachment
/// writes its enable bit, equation and factors; a disabled one writes its
/// disable bit only.
pub open spec fn spec_blend_attachment_cmds(att: ColorBlendAttachment, slot: u32) -> Seq<
    StateCommand,
> {
    if att.blend_enable {
        seq![
            StateCommand::BlendEnable { slot },
            StateCommand::BlendEquation {
                slot,
                color_op: att.color.blend_op,
                alpha_op: att.alpha.blend_op,
            },
            StateCommand::BlendFactors {
                slot,
                src_color: att.color.src_factor,
                dst_color: att.color.dst_factor,
                src_alpha: att.alpha.src_factor,
                dst_alpha: att.alpha.dst_factor,
            },
        ]
    } else {
        seq![StateCommand::BlendDisable { slot }]
    }
}

/// The replay sequence of a color blend state: the commands of each
/// attachment in slot order.
pub open spec fn spec_color_blend_cmds(atts: Seq<ColorBlendAttachment>) -> Seq<StateCommand>
    decreases atts.len(),
{
    if atts.len() == 0 {
        Seq::empty()
    } else {
        spec_color_blend_cmds(atts.drop_last()) + spec_blend_attachment_cmds(
            atts.last(),
            (atts.len() - 1) as u32,
        )
    }
}

/// Compute the configuration calls that binding a color blend state
/// performs: for each attachment slot, either enable plus equation plus
/// factors, or a lone disable.
pub fn color_blend_commands(state: &ColorBlend) -> (r: Vec<StateCommand>)
    requires
        state.attachments@.len() <= u32::MAX,
    ensures
        r@ == spec_color_blend_cmds(state.attachments@),
{
    let mut out: Vec<StateCommand> = Vec::new();
    let n = state.attachments.len();
    let mut i: usize = 0;
    while i < n
        invariant
            n == state.attachments@.len() <= u32::MAX,
            i <= n,
            out@ == spec_color_blend_cmds(state.attachments@.subrange(0, i as int)),
        decreases n - i,
    {
        let att = &state.attachments[i];
        let slot = i as u32;
        if att.blend_enable {
            out.push(StateCommand::BlendEnable { slot });
            out.push(
                StateCommand::BlendEquation {
                    slot,
                    color_op: att.color.blend_op,
                    alpha_op: att.alpha.blend_op,
                },
            );
            out.push(
                StateCommand::BlendFactors {
                    slot,
                    src_color: att.color.src_factor,
                    dst_color: att.color.dst_factor,
                    src_alpha: att.alpha.src_factor,
                    dst_alpha: att.alpha.dst_factor,
                },
            );
        } else {
            out.push(StateCommand::BlendDisable { slot });
        }
        proof {
            let prefix = state.attachments@.subrange(0, i as int);
            let grown = state.attachments@.subrange(0, i as int + 1);
            assert(grown.drop_last() =~= prefix);
            assert(out@ =~= spec_color_blend_cmds(grown));
        }
        i = i + 1;
    }
    proof {
        assert(state.attachments@.subrange(0, n as int) =~= state.attachments@);
    }
    out
}

/// Which blend slot a state command configures, if any.
pub open spec fn spec_blend_slot(c: StateCommand) -> Option<u32> {
    match c {
        StateCommand::BlendEnable { slot } => Some(slot),
        StateCommand::BlendDisable { slot } => Some(slot),
        StateCommand::BlendEquation { slot, .. } => Some(slot),
        StateCommand::BlendFactors { slot, .. } => Some(slot),
        _ => None,
    }
}

/// Every command of a color-blend replay addresses a slot below the number
/// of attachments.
proof fn lemma_blend_slots_in_range(atts: Seq<ColorBlendAttachment>)
    requires
        atts.len() <= u32::MAX,
    ensures
        forall|k: int|
            0 <= k < spec_color_blend_cmds(atts).len() ==> {
                let s = spec_blend_slot(#[trigger] spec_color_blend_cmds(atts)[k]);
                s is Some && s->0 < atts.len()
            },
    decreases atts.len(),
{
    if atts.len() > 0 {
        lemma_blend_slots_in_range(atts.drop_last());
    }
}

/// Law (blend independence): the replay of a color blend state touches slot
/// `i` only with the commands derived from attachment `i` itself; state
/// bound for one attachment never leaks into another slot.
pub proof fn lemma_blend_slot_isolation(atts: Seq<ColorBlendAttachment>, i: int)
    requires
        0 <= i < atts.len(),
        atts.len() <= u32::MAX,
    ensures
        forall|k: int|
            0 <= k < spec_color_blend_cmds(atts).len() && spec_blend_slot(
                #[trigger] spec_color_blend_cmds(atts)[k],
            ) == Some(i as u32) ==> spec_blend_attachment_cmds(atts[i], i as u32).contains(
                spec_color_blend_cmds(atts)[k],
            ),
    decreases atts.len(),
{
    let cmds = spec_color_blend_cmds(atts);
    let prefix = spec_color_blend_cmds(atts.drop_last());
    let last_cmds = spec_blend_attachment_cmds(atts.last(), (atts.len() - 1) as u32);
    if i == atts.len() - 1 {
        lemma_blend_slots_in_range(atts.drop_last());
        assert forall|k: int|
            0 <= k < cmds.len() && spec_blend_slot(cmds[k]) == Some(i as u32) implies last_cmds
            .contains(cmds[k]) by {
            if k < prefix.len() {
                assert(cmds[k] == prefix[k]);
                assert(spec_blend_slot(prefix[k])->0 < atts.len() - 1);
            } else {
                assert(cmds[k] == last_cmds[k - prefix.len()]);
            }
        }
    } else {
        lemma_blend_slot_isolation(atts.drop_last(), i);
        assert(atts.drop_last()[i] == atts[i]);
        assert forall|k: int|
            0 <= k < cmds.len() && spec_blend_slot(cmds[k]) == Some(i as u32) implies
        spec_blend_attachment_cmds(atts[i], i as u32).contains(cmds[k]) by {
            if k < prefix.len() {
                assert(cmds[k] == prefix[k]);
            } else {
                assert(cmds[k] == last_cmds[k - prefix.len()]);
                assert(spec_blend_slot(last_cmds[k - prefix.len()]) == Some(
                    (atts.len() - 1) as u32,
                ));
            }
        }
    }
}

/// The commands derived from attachment `i` all appear in the replay of the
/// whole color blend state.
proof fn lemma_blend_cmds_include_attachment(atts: Seq<ColorBlendAttachment>, i: int)
    requires
        0 <= i < atts.len(),
        atts.len() <= u32::MAX,
    ensures
        forall|c: StateCommand|
            spec_blend_attachment_cmds(atts[i], i as u32).contains(c)
                ==> spec_color_blend_cmds(atts).contains(c),
    decreases atts.len(),
{
    let cmds = spec_color_blend_cmds(atts);
    let prefix = spec_color_blend_cmds(atts.drop_last());
    let last_cmds = spec_blend_attachment_cmds(atts.last(), (atts.len() - 1) as u32);
    if i == atts.len() - 1 {
        assert forall|c: StateCommand| last_cmds.contains(c) implies cmds.contains(c) by {
            let j = choose|j: int| 0 <= j < last_cmds.len() && last_cmds[j] == c;
            assert(cmds[prefix.len() + j] == c);
        }
    } else {
        lemma_blend_cmds_include_attachment(atts.drop_last(), i);
        assert(atts.drop_last()[i] == atts[i]);
        assert forall|c: StateCommand|
            spec_blend_attachment_cmds(atts[i], i as u32).contains(c) implies cmds.contains(c) by {
            assert(prefix.contains(c));
            let j = choose|j: int| 0 <= j < prefix.len() && prefix[j] == c;
            assert(cmds[j] == c);
        }
    }
}

/// Law (blend independence, disabled slot): when attachment `i` has blending
/// disabled, the replay writes slot `i`'s disable bit and nothing else for
/// that slot; its equation and factors are never written.
pub proof fn lemma_blend_disabled_slot_untouched(atts: Seq<ColorBlendAttachment>, i: int)
    requires
        0 <= i < atts.len(),
        atts.len() <= u32::MAX,
        !atts[i].blend_enable,
    ensures
        spec_color_blend_cmds(atts).contains((StateCommand::BlendDisable { slot: i as u32 })),
        forall|k: int|
            0 <= k < spec_color_blend_cmds(atts).len() && spec_blend_slot(
                #[trigger] spec_color_blend_cmds(atts)[k],
            ) == Some(i as u32) ==> spec_color_blend_cmds(atts)[k]
                == (StateCommand::BlendDisable { slot: i as u32 }),
{
    lemma_blend_cmds_include_attachment(atts, i);
    assert(spec_blend_attachment_cmds(atts[i], i as u32)[0] == (StateCommand::BlendDisable {
        slot: i as u32,
    }));
    assert(spec_blend_attachment_cmds(atts[i], i as u32).contains(
        (StateCommand::BlendDisable { slot: i as u32 }),
    ));
    lemma_blend_slot_isolation(atts, i);
}

/// The two configuration calls that one stencil face receives: compare
/// state, then the operation triple.
pub open spec fn spec_stencil_face_cmds(face: Face, st: StencilFace) -> Seq<StateCommand> {
    seq![
        StateCommand::StencilFunc {
            face,
            op: st.compare_op,
            reference: st.reference,
            mask: st.compare_mask,
        },
        StateCommand::StencilOps { face, fail: st.fail, depth_fail: st.depth_fail, pass: st.pass },
    ]
}

/// The replay sequence of a depth-stencil state: the depth group (enable,
/// write mask, compare function) when the depth test is on, a lone disable
/// otherwise; then the stencil group with separate front and back face
/// state, or a lone disable.
pub open spec fn spec_depth_stencil_cmds(state: DepthStencil) -> Seq<StateCommand> {
    (if state.depth_test {
        seq![
            StateCommand::DepthTestEnable,
            StateCommand::DepthWrite { enable: state.depth_write },
            StateCommand::DepthCompare { op: state.depth_compare_op },
        ]
    } else {
        seq![StateCommand::DepthTestDisable]
    }) + (if state.stencil_test {
        seq![StateCommand::StencilTestEnable] + spec_stencil_face_cmds(
            Face::Front,
            state.stencil_front,
        ) + spec_stencil_face_cmds(Face::Back, state.stencil_back)
    } else {
        seq![StateCommand::StencilTestDisable]
    })
}

/// Compute the configuration calls that binding a depth-stencil state
/// performs; front and back stencil faces are configured independently.
pub fn depth_stencil_commands(state: &DepthStencil) -> (r: Vec<StateCommand>)
    ensures
        r@ == spec_depth_stencil_cmds(*state),
{
    let mut out: Vec<StateCommand> = Vec::new();
    if state.depth_test {
        out.push(StateCommand::DepthTestEnable);
        out.push(StateCommand::DepthWrite { enable: state.depth_write });
        out.push(StateCommand::DepthCompare { op: state.depth_compare_op });
    } else {
        out.push(StateCommand::DepthTestDisable);
    }
    if state.stencil_test {
        out.push(StateCommand::StencilTestEnable);
        out.push(
            StateCommand::StencilFunc {
                face: Face::Front,
                op: state.stencil_front.compare_op,
                reference: state.stencil_front.reference,
                mask: state.stencil_front.compare_mask,
            },
        );
        out.push(
            StateCommand::StencilOps {
                face: Face::Front,
                fail: state.stencil_front.fail,
                depth_fail: state.stencil_front.depth_fail,
                pass: state.stencil_front.pass,
            },
        );
        out.push(
            StateCommand::StencilFunc {
                face: Face::Back,
                op: state.stencil_back.compare_op,
                reference: state.stencil_back.reference,
                mask: state.stencil_back.compare_mask,
            },
        );
        out.push(
            StateCommand::StencilOps {
                face: Face::Back,
                fail: state.stencil_back.fail,
                depth_fail: state.stencil_back.depth_fail,
                pass: state.stencil_back.pass,
            },
        );
    } else {
        out.push(StateCommand::StencilTestDisable);
    }
    proof {
        assert(out@ =~= spec_depth_stencil_cmds(*state));
    }
    out
}

/// The replay sequence of a rasterization state. The depth bias toggle is
/// coupled to the selected polygon mode: each mode has its own toggle, and
/// the one written is the one belonging to the mode being bound.
pub open spec fn spec_rasterization_cmds(state: Rasterization) -> Seq<StateCommand> {
    seq![
        StateCommand::DepthClamp { enable: state.depth_clamp },
        StateCommand::RasterizerDiscard { enable: state.rasterizer_discard },
        StateCommand::DepthBias { mode: state.polygon_mode, enable: state.depth_bias },
        StateCommand::SetPolygonMode { mode: state.polygon_mode },
        StateCommand::SetFrontFace { front: state.front_face },
    ] + (match state.cull_mode {
        Some(mode) => seq![StateCommand::CullEnable { mode }],
        None => seq![StateCommand::CullDisable],
    })
}

/// Compute the configuration calls that binding a rasterization state
/// performs.
pub fn rasterization_commands(state: &Rasterization) -> (r: Vec<StateCommand>)
    ensures
        r@ == spec_rasterization_cmds(*state),
{
    let mut out: Vec<StateCommand> = Vec::new();
    out.push(StateCommand::DepthClamp { enable: state.depth_clamp });
    out.push(StateCommand::RasterizerDiscard { enable: state.rasterizer_discard });
    out.push(StateCommand::DepthBias { mode: state.polygon_mode, enable: state.depth_bias });
    out.push(StateCommand::SetPolygonMode { mode: state.polygon_mode });
    out.push(StateCommand::SetFrontFace { front: state.front_face });
    match state.cull_mode {
        Some(mode) => out.push(StateCommand::CullEnable { mode }),
        None => out.push(StateCommand::CullDisable),
    }
    proof {
        assert(out@ =~= spec_rasterization_cmds(*state));
    }
    out
}

/// The replay sequence of a multisample state: absent state disables
/// multisampling and writes nothing else; present state enables it, then
/// configures sample shading, both sample mask words, alpha-to-coverage and
/// alpha-to-one.
pub open spec fn spec_multisample_cmds(state: Option<Multisample>) -> Seq<StateCommand> {
    match state {
        None => seq![StateCommand::MultisampleDisable],
        Some(s) => seq![StateCommand::MultisampleEnable] + (if s.sample_shading {
            seq![StateCommand::SampleShadingEnable { min_bits: s.min_sample_shading_bits }]
        } else {
            seq![StateCommand::SampleShadingDisable]
        }) + seq![
            StateCommand::SampleMask { word: 0, mask: (s.sample_mask & 0xffff_ffff) as u32 },
            StateCommand::SampleMask { word: 1, mask: ((s.sample_mask >> 32) & 0xffff_ffff) as u32 },
            StateCommand::AlphaToCoverage { enable: s.alpha_to_coverage },
            StateCommand::AlphaToOne { enable: s.alpha_to_one },
        ],
    }
}

/// Compute the configuration calls that binding a multisample state (or
/// unbinding it, with `None`) performs.
pub fn multisample_commands(state: Option<&Multisample>) -> (r: Vec<StateCommand>)
    ensures
        r@ == spec_multisample_cmds(
            match state {
                Some(s) => Some(*s),
                None => None,
            },
        ),
{
    let mut out: Vec<StateCommand> = Vec::new();
    match state {
        Some(s) => {
            out.push(StateCommand::MultisampleEnable);
            if s.sample_shading {
                out.push(
                    StateCommand::SampleShadingEnable { min_bits: s.min_sample_shading_bits },
                );
            } else {
                out.push(StateCommand::SampleShadingDisable);
            }
            out.push(
                StateCommand::SampleMask { word: 0, mask: (s.sample_mask & 0xffff_ffff) as u32 },
            );
            out.push(
                StateCommand::SampleMask {
                    word: 1,
                    mask: ((s.sample_mask >> 32u64) & 0xffff_ffff) as u32,
                },
            );
            out.push(StateCommand::AlphaToCoverage { enable: s.alpha_to_coverage });
            out.push(StateCommand::AlphaToOne { enable: s.alpha_to_one });
            proof {
                assert(out@ =~= spec_multisample_cmds(Some(*s)));
            }
        },
        None => {
            out.push(StateCommand::MultisampleDisable);
        },
    }
    out
}

/// Turn the link status the context reports for a pipeline into the result
/// of pipeline creation: the handle itself on success, and on failure an
/// error that carries the same, still-valid handle.
pub fn link_result(pipeline: Pipeline, linked: bool) -> (r: Result<Pipeline, Error>)
    ensures
        linked ==> r == Ok::<Pipeline, Error>(pipeline),
        !linked ==> r == Err::<Pipeline, Error>(Error::LinkError(pipeline)),
{
    if linked {
        Ok(pipeline)
    } else {
        Err(Error::LinkError(pipeline))
    }
}

impl Object for Shader {
    /// Shaders label under the shader namespace.
    fn object_type(&self) -> ObjectType {
        ObjectType::Shader
    }

    fn handle(&self) -> u32 {
        self.0
    }
}

impl Object for Pipeline {
    /// Pipelines label under the pipeline namespace.
    fn object_type(&self) -> ObjectType {
        ObjectType::Pipeline
    }

    fn handle(&self) -> u32 {
        self.0
    }
}

} // verus!
