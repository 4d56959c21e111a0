use grr::Compare;
use grr::error::Error;
use grr::pipeline::{
    BlendChannel, BlendFactor, BlendOp, ColorBlend, ColorBlendAttachment, CullMode, DepthStencil,
    Face, FrontFace, GraphicsPipelineDesc, InputAssembly, MeshPipelineDesc, Multisample,
    Pipeline, PolygonMode, Rasterization, Shader, StateCommand, StencilFace, StencilOp,
    VertexPipelineDesc, color_blend_commands, compile_result, depth_stencil_commands,
    input_assembly_commands, link_result, multisample_commands, rasterization_commands,
};

fn additive() -> BlendChannel {
    BlendChannel {
        src_factor: BlendFactor::One,
        dst_factor: BlendFactor::One,
        blend_op: BlendOp::Add,
    }
}

fn alpha_over() -> BlendChannel {
    BlendChannel {
        src_factor: BlendFactor::SrcAlpha,
        dst_factor: BlendFactor::OneMinusSrcAlpha,
        blend_op: BlendOp::Add,
    }
}

#[test]
fn blend_disabled_slot_gets_only_its_disable() {
    // attachment 0 enabled, attachment 1 disabled: slot 1 sees its disable
    // bit and nothing else; its equation and factors are never written
    let state = ColorBlend {
        attachments: vec![
            ColorBlendAttachment { blend_enable: true, color: alpha_over(), alpha: additive() },
            ColorBlendAttachment { blend_enable: false, color: additive(), alpha: additive() },
        ],
    };
    let cmds = color_blend_commands(&state);
    assert_eq!(cmds.len(), 4);
    assert_eq!(cmds[0], StateCommand::BlendEnable { slot: 0 });
    assert_eq!(
        cmds[1],
        StateCommand::BlendEquation { slot: 0, color_op: BlendOp::Add, alpha_op: BlendOp::Add }
    );
    assert_eq!(
        cmds[2],
        StateCommand::BlendFactors {
            slot: 0,
            src_color: BlendFactor::SrcAlpha,
            dst_color: BlendFactor::OneMinusSrcAlpha,
            src_alpha: BlendFactor::One,
            dst_alpha: BlendFactor::One,
        }
    );
    assert_eq!(cmds[3], StateCommand::BlendDisable { slot: 1 });

    let touching_slot_1: Vec<_> = cmds
        .iter()
        .filter(|c| {
            matches!(
                c,
                StateCommand::BlendEnable { slot: 1 }
                    | StateCommand::BlendDisable { slot: 1 }
                    | StateCommand::BlendEquation { slot: 1, .. }
                    | StateCommand::BlendFactors { slot: 1, .. }
            )
        })
        .collect();
    assert_eq!(touching_slot_1, vec![&StateCommand::BlendDisable { slot: 1 }]);
}

#[test]
fn blend_slots_are_independent() {
    // flipping attachment 1 leaves attachment 0's commands unchanged
    let a0 = ColorBlendAttachment { blend_enable: true, color: alpha_over(), alpha: alpha_over() };
    let enabled = ColorBlend {
        attachments: vec![
            a0,
            ColorBlendAttachment { blend_enable: true, color: additive(), alpha: additive() },
        ],
    };
    let disabled = ColorBlend {
        attachments: vec![
            a0,
            ColorBlendAttachment { blend_enable: false, color: additive(), alpha: additive() },
        ],
    };
    let with = color_blend_commands(&enabled);
    let without = color_blend_commands(&disabled);
    assert_eq!(&with[0..3], &without[0..3]);
}

#[test]
fn depth_stencil_replay_both_groups() {
    let keep = StencilFace::keep();
    let state = DepthStencil {
        depth_test: true,
        depth_write: true,
        depth_compare_op: Compare::LessEqual,
        stencil_test: true,
        stencil_front: StencilFace { reference: 1, ..keep },
        stencil_back: StencilFace { compare_op: Compare::Never, ..keep },
    };
    let cmds = depth_stencil_commands(&state);
    assert_eq!(
        cmds,
        vec![
            StateCommand::DepthTestEnable,
            StateCommand::DepthWrite { enable: true },
            StateCommand::DepthCompare { op: Compare::LessEqual },
            StateCommand::StencilTestEnable,
            StateCommand::StencilFunc {
                face: Face::Front,
                op: Compare::Always,
                reference: 1,
                mask: 0xffff_ffff,
            },
            StateCommand::StencilOps {
                face: Face::Front,
                fail: StencilOp::Keep,
                depth_fail: StencilOp::Keep,
                pass: StencilOp::Keep,
            },
            StateCommand::StencilFunc {
                face: Face::Back,
                op: Compare::Never,
                reference: 0,
                mask: 0xffff_ffff,
            },
            StateCommand::StencilOps {
                face: Face::Back,
                fail: StencilOp::Keep,
                depth_fail: StencilOp::Keep,
                pass: StencilOp::Keep,
            },
        ]
    );
}

#[test]
fn depth_stencil_replay_disabled_groups() {
    let state = DepthStencil {
        depth_test: false,
        depth_write: true,
        depth_compare_op: Compare::Less,
        stencil_test: false,
        stencil_front: StencilFace::keep(),
        stencil_back: StencilFace::keep(),
    };
    assert_eq!(
        depth_stencil_commands(&state),
        vec![StateCommand::DepthTestDisable, StateCommand::StencilTestDisable]
    );
}

#[test]
fn stencil_keep_is_always_pass_never_write() {
    let keep = StencilFace::keep();
    assert_eq!(keep.fail, StencilOp::Keep);
    assert_eq!(keep.pass, StencilOp::Keep);
    assert_eq!(keep.depth_fail, StencilOp::Keep);
    assert_eq!(keep.compare_op, Compare::Always);
    assert_eq!(keep.compare_mask, !0u32);
    assert_eq!(keep.reference, 0);
}

#[test]
fn rasterization_bias_toggle_matches_polygon_mode() {
    let state = Rasterization {
        depth_clamp: false,
        rasterizer_discard: false,
        polygon_mode: PolygonMode::Line,
        cull_mode: Some(CullMode::Back),
        front_face: FrontFace::CounterClockwise,
        depth_bias: true,
    };
    let cmds = rasterization_commands(&state);
    assert_eq!(
        cmds,
        vec![
            StateCommand::DepthClamp { enable: false },
            StateCommand::RasterizerDiscard { enable: false },
            StateCommand::DepthBias { mode: PolygonMode::Line, enable: true },
            StateCommand::SetPolygonMode { mode: PolygonMode::Line },
            StateCommand::SetFrontFace { front: FrontFace::CounterClockwise },
            StateCommand::CullEnable { mode: CullMode::Back },
        ]
    );

    // with fill rasterization the fill-mode toggle is the one written
    let fill = Rasterization { polygon_mode: PolygonMode::Fill, cull_mode: None, ..state };
    let cmds = rasterization_commands(&fill);
    assert_eq!(cmds[2], StateCommand::DepthBias { mode: PolygonMode::Fill, enable: true });
    assert_eq!(cmds[5], StateCommand::CullDisable);
}

#[test]
fn multisample_replay() {
    assert_eq!(multisample_commands(None), vec![StateCommand::MultisampleDisable]);

    let state = Multisample {
        sample_shading: true,
        min_sample_shading_bits: 1.0f32.to_bits(),
        sample_mask: 0x1234_5678_9abc_def0,
        alpha_to_coverage: true,
        alpha_to_one: false,
    };
    assert_eq!(
        multisample_commands(Some(&state)),
        vec![
            StateCommand::MultisampleEnable,
            StateCommand::SampleShadingEnable { min_bits: 1.0f32.to_bits() },
            StateCommand::SampleMask { word: 0, mask: 0x9abc_def0 },
            StateCommand::SampleMask { word: 1, mask: 0x1234_5678 },
            StateCommand::AlphaToCoverage { enable: true },
            StateCommand::AlphaToOne { enable: false },
        ]
    );

    let quiet = Multisample { sample_shading: false, ..state };
    let cmds = multisample_commands(Some(&quiet));
    assert_eq!(cmds[1], StateCommand::SampleShadingDisable);
}

#[test]
fn input_assembly_replay() {
    assert_eq!(
        input_assembly_commands(&InputAssembly { primitive_restart: Some(0xffff) }),
        vec![
            StateCommand::PrimitiveRestart { enable: true },
            StateCommand::PrimitiveRestartIndex { index: 0xffff },
        ]
    );
    assert_eq!(
        input_assembly_commands(&InputAssembly { primitive_restart: None }),
        vec![StateCommand::PrimitiveRestart { enable: false }]
    );
}

#[test]
fn vertex_pipeline_desc_fills_vertex_path() {
    let desc = VertexPipelineDesc {
        vertex_shader: Shader(1),
        tessellation_control_shader: None,
        tessellation_evaluation_shader: None,
        geometry_shader: Some(Shader(2)),
        fragment_shader: Some(Shader(3)),
    };
    let g: GraphicsPipelineDesc = desc.into();
    assert_eq!(g.vertex_shader, Some(Shader(1)));
    assert_eq!(g.geometry_shader, Some(Shader(2)));
    assert_eq!(g.fragment_shader, Some(Shader(3)));
    assert_eq!(g.mesh_shader, None);
    assert_eq!(g.task_shader, None);
    assert_eq!(g.stage_shaders(), vec![Shader(1), Shader(2), Shader(3)]);
}

#[test]
fn mesh_pipeline_desc_fills_mesh_path() {
    let desc = MeshPipelineDesc {
        mesh_shader: Shader(7),
        task_shader: Some(Shader(8)),
        fragment_shader: Some(Shader(9)),
    };
    let g: GraphicsPipelineDesc = desc.into();
    assert_eq!(g.vertex_shader, None);
    assert_eq!(g.mesh_shader, Some(Shader(7)));
    assert_eq!(g.task_shader, Some(Shader(8)));
    // stage order puts the fragment shader before the mesh path slots
    assert_eq!(g.stage_shaders(), vec![Shader(9), Shader(7), Shader(8)]);
}

#[test]
fn compile_and_link_results_carry_handles() {
    assert_eq!(compile_result(Shader(5), true), Ok(Shader(5)));
    assert_eq!(compile_result(Shader(5), false), Err(Error::CompileError(Shader(5))));
    assert_eq!(link_result(Pipeline(6), true), Ok(Pipeline(6)));
    assert_eq!(link_result(Pipeline(6), false), Err(Error::LinkError(Pipeline(6))));
}
