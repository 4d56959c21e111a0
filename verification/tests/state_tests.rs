use grr::Compare;
use grr::Offset;
use grr::Region;
use grr::command::{IndexTy, region_coords};
use grr::debug::{
    DebugReport, DebugSeverity, DebugSource, DebugType, MsgFilter, Object, ObjectType,
    debug_control_commands,
};
use grr::error::{Error, OUT_OF_MEMORY_CODE, error_from_code};
use grr::framebuffer::{Attachment, Framebuffer, Renderbuffer};
use grr::sampler::{
    Filter, MinFilter, Sampler, SamplerAddress, SamplerCommand, SamplerDesc, map_min_filter,
    sampler_commands,
};
use grr::sync::{Barrier, RegionBarrier, memory_barrier_plan};

#[test]
fn min_filter_combinations() {
    assert_eq!(map_min_filter(Filter::Nearest, None), MinFilter::Nearest);
    assert_eq!(
        map_min_filter(Filter::Nearest, Some(Filter::Nearest)),
        MinFilter::NearestMipmapNearest
    );
    assert_eq!(
        map_min_filter(Filter::Nearest, Some(Filter::Linear)),
        MinFilter::NearestMipmapLinear
    );
    assert_eq!(map_min_filter(Filter::Linear, None), MinFilter::Linear);
    assert_eq!(
        map_min_filter(Filter::Linear, Some(Filter::Nearest)),
        MinFilter::LinearMipmapNearest
    );
    assert_eq!(
        map_min_filter(Filter::Linear, Some(Filter::Linear)),
        MinFilter::LinearMipmapLinear
    );
}

#[test]
fn default_sampler_descriptor() {
    let desc = SamplerDesc::default();
    assert_eq!(desc.min_filter, Filter::Nearest);
    assert_eq!(desc.mag_filter, Filter::Linear);
    assert_eq!(desc.mip_map, Some(Filter::Linear));
    assert_eq!(
        desc.address,
        (SamplerAddress::Repeat, SamplerAddress::Repeat, SamplerAddress::Repeat)
    );
    assert_eq!(desc.lod_bias_bits, 0.0f32.to_bits());
    assert_eq!(desc.min_lod_bits, (-1000.0f32).to_bits());
    assert_eq!(desc.max_lod_bits, 1000.0f32.to_bits());
    assert_eq!(desc.compare, None);
    assert_eq!(desc.border_color_bits, (0, 0, 0, 0));
}

#[test]
fn sampler_replay_without_comparison() {
    let desc = SamplerDesc::default();
    let cmds = sampler_commands(&desc);
    assert_eq!(
        cmds,
        vec![
            SamplerCommand::SetMinFilter { filter: MinFilter::NearestMipmapLinear },
            SamplerCommand::SetMagFilter { filter: Filter::Linear },
            SamplerCommand::WrapS { address: SamplerAddress::Repeat },
            SamplerCommand::WrapT { address: SamplerAddress::Repeat },
            SamplerCommand::WrapR { address: SamplerAddress::Repeat },
            SamplerCommand::LodBias { bits: 0 },
            SamplerCommand::MinLod { bits: (-1000.0f32).to_bits() },
            SamplerCommand::MaxLod { bits: 1000.0f32.to_bits() },
            SamplerCommand::CompareMode { enable: false },
            SamplerCommand::BorderColor { bits: (0, 0, 0, 0) },
        ]
    );
}

#[test]
fn sampler_replay_with_comparison() {
    let desc = SamplerDesc { compare: Some(Compare::LessEqual), ..SamplerDesc::default() };
    let cmds = sampler_commands(&desc);
    assert_eq!(cmds.len(), 11);
    assert_eq!(cmds[8], SamplerCommand::CompareMode { enable: true });
    assert_eq!(cmds[9], SamplerCommand::CompareFunc { op: Compare::LessEqual });
    assert_eq!(cmds[10], SamplerCommand::BorderColor { bits: (0, 0, 0, 0) });
}

#[test]
fn barrier_masks() {
    let only_uniform = Barrier { uniform_read: true, ..Barrier::empty() };
    assert_eq!(only_uniform.mask(), 0x0004);
    let mixed = Barrier {
        vertex_attribute_read: true,
        index_read: true,
        storage_buffer_rw: true,
        ..Barrier::empty()
    };
    assert_eq!(mixed.mask(), 0x0001 | 0x0002 | 0x2000);
    assert_eq!(Barrier::all().mask(), 0x3fef);
    assert_eq!(Barrier::empty().mask(), 0);
}

#[test]
fn memory_barrier_plans() {
    let none = memory_barrier_plan(Barrier::empty());
    assert!(!none.texture_barrier);
    assert_eq!(none.memory_barrier_mask, None);

    let input_only = Barrier { input_attachment_read: true, ..Barrier::empty() };
    let plan = memory_barrier_plan(input_only);
    assert!(plan.texture_barrier);
    assert_eq!(plan.memory_barrier_mask, None);

    let both = Barrier { input_attachment_read: true, framebuffer_rw: true, ..Barrier::empty() };
    let plan = memory_barrier_plan(both);
    assert!(plan.texture_barrier);
    assert_eq!(plan.memory_barrier_mask, Some(0x0400));

    let all = memory_barrier_plan(Barrier::all());
    assert!(all.texture_barrier);
    assert_eq!(all.memory_barrier_mask, Some(0x3fef));
}

#[test]
fn region_barrier_mask() {
    let flags = RegionBarrier {
        uniform_read: true,
        sampled_image_read: false,
        storage_image_rw: true,
        storage_buffer_rw: false,
        framebuffer_rw: false,
        atomic_counter_rw: true,
    };
    assert_eq!(flags.mask(), 0x0004 | 0x0020 | 0x1000);
}

#[test]
fn debug_control_fans_out_by_severity() {
    let all = debug_control_commands(
        true,
        MsgFilter::All,
        MsgFilter::All,
        DebugReport::all(),
    );
    assert_eq!(all.len(), 4);
    assert_eq!(all[0].severity, DebugSeverity::Notification);
    assert_eq!(all[1].severity, DebugSeverity::Warning);
    assert_eq!(all[2].severity, DebugSeverity::Error);
    assert_eq!(all[3].severity, DebugSeverity::PerformanceWarning);
    assert!(all.iter().all(|c| c.enable));

    let one = debug_control_commands(
        false,
        MsgFilter::Only(DebugSource::ShaderCompiler),
        MsgFilter::Only(DebugType::Performance),
        DebugReport { error: true, ..DebugReport::empty() },
    );
    assert_eq!(one.len(), 1);
    assert_eq!(one[0].severity, DebugSeverity::Error);
    assert_eq!(one[0].src, MsgFilter::Only(DebugSource::ShaderCompiler));
    assert_eq!(one[0].ty, MsgFilter::Only(DebugType::Performance));
    assert!(!one[0].enable);

    let none = debug_control_commands(true, MsgFilter::All, MsgFilter::All, DebugReport::empty());
    assert!(none.is_empty());
}

#[test]
fn attachment_targets() {
    assert_eq!(Attachment::Color(0).target(), 0x8ce0);
    assert_eq!(Attachment::Color(3).target(), 0x8ce3);
    assert_eq!(Attachment::Depth.target(), 0x8d00);
    assert_eq!(Attachment::Stencil.target(), 0x8d20);
    assert_eq!(Attachment::DepthStencil.target(), 0x821a);
}

#[test]
fn default_framebuffer_is_the_base_one() {
    assert_eq!(Framebuffer::default(), Framebuffer(0));
}

#[test]
fn error_code_interpretation() {
    assert_eq!(error_from_code(OUT_OF_MEMORY_CODE), Err(Error::OutOfMemory));
    assert_eq!(error_from_code(0), Ok(()));
    assert_eq!(error_from_code(0x0501), Ok(()));
}

#[test]
fn index_sizes_and_offsets() {
    assert_eq!(IndexTy::U8.size(), 1);
    assert_eq!(IndexTy::U16.size(), 2);
    assert_eq!(IndexTy::U32.size(), 4);
    assert_eq!(IndexTy::U16.buffer_offset(10), 20);
    assert_eq!(IndexTy::U32.buffer_offset(u32::MAX), 4 * (u32::MAX as u64));
}

#[test]
fn region_coordinate_flattening() {
    let regions = vec![
        Region { x: 0, y: 0, w: 640, h: 480 },
        Region { x: 10, y: 20, w: 30, h: 40 },
    ];
    assert_eq!(region_coords(&regions), vec![0, 0, 640, 480, 10, 20, 30, 40]);
    assert_eq!(region_coords(&vec![]), Vec::<i32>::new());
}

#[test]
fn object_handles_and_namespaces() {
    let sampler = Sampler(11);
    assert_eq!(sampler.handle(), 11);
    assert_eq!(sampler.object_type(), ObjectType::Sampler);
    let rb = Renderbuffer(12);
    assert_eq!(rb.handle(), 12);
    assert_eq!(rb.object_type(), ObjectType::Renderbuffer);
}

#[test]
fn origin_offset() {
    assert_eq!(Offset::origin(), Offset { x: 0, y: 0, z: 0 });
}
