//! Samplers: filtering, addressing, comparison, level-of-detail and border
//! configuration.
//!
//! A sampler is immutable once created; creating one replays every field of
//! its descriptor onto the new sampler object. The exact parameter calls are
//! computed by [`sampler_commands`]. Fractional values (LOD bounds and bias,
//! border color) are carried as raw bit patterns of 32-bit IEEE-754 values;
//! the shim that issues the calls reinterprets them.

use vstd::prelude::*;

use crate::debug::Object;
use crate::debug::ObjectType;

use crate::Compare;

verus! {

/// Sampler handle.
#[derive(Clone, Copy, Debug, PartialEq, Eq, Structural)]
pub struct Sampler(pub u32);

/// Filter options for computing pixels when the texture maps to an area
/// different from one texture element.
#[derive(Debug, Copy, Clone, PartialEq, Eq, Hash, Structural)]
pub enum Filter {
    /// Use the closest texel, by Manhattan distance.
    Nearest,
    /// Use a weighted average of the four texels closest to the pixel.
    Linear,
}

/// Sampler addressing mode: how coordinates outside the `[0, 1]` texture
/// coordinate range are treated.
#[derive(Debug, Copy, Clone, PartialEq, Eq, Hash, Structural)]
pub enum SamplerAddress {
    /// Strip off the integer part of the coordinate, repeating the texture
    /// across the entire space.
    Repeat,
    /// Like `Repeat`, but mirror the coordinate when the integer part is
    /// odd, alternately flipping the repeated images.
    MirrorRepeat,
    /// Clamp the coordinate to `[0.0, 1.0]`.
    ClampEdge,
    /// Use the border color for coordinates outside `[0.0, 1.0]`.
    ClampBorder,
    /// Mirror `[-1.0, 0.0]` onto `[0.0, 1.0]`; clamp to the edge beyond.
    MirrorClampEdge,
}

/// The combined minification filter: the base filter, possibly combined
/// with a filter between mipmap levels.
#[derive(Debug, Copy, Clone, PartialEq, Eq, Structural)]
pub enum MinFilter {
    /// Nearest texel, no mipmapping.
    Nearest,
    /// Weighted average, no mipmapping.
    Linear,
    /// Nearest texel on the nearest mip level.
    NearestMipmapNearest,
    /// Nearest texel, averaged between the two nearest mip levels.
    NearestMipmapLinear,
    /// Weighted average on the nearest mip level.
    LinearMipmapNearest,
    /// Weighted average, averaged between the two nearest mip levels.
    LinearMipmapLinear,
}

/// The combined minification filter for a base filter and an optional
/// mipmap filter.
pub open spec fn spec_map_min_filter(filter: Filter, mip_map: Option<Filter>) -> MinFilter {
    match (filter, mip_map) {
        (Filter::Nearest, None) => MinFilter::Nearest,
        (Filter::Nearest, Some(Filter::Nearest)) => MinFilter::NearestMipmapNearest,
        (Filter::Nearest, Some(Filter::Linear)) => MinFilter::NearestMipmapLinear,
        (Filter::Linear, None) => MinFilter::Linear,
        (Filter::Linear, Some(Filter::Nearest)) => MinFilter::LinearMipmapNearest,
        (Filter::Linear, Some(Filter::Linear)) => MinFilter::LinearMipmapLinear,
    }
}

/// Combine the minification filter with the optional mipmap filter into the
/// single minification mode the context understands.
pub fn map_min_filter(filter: Filter, mip_map: Option<Filter>) -> (r: MinFilter)
    ensures
        r == spec_map_min_filter(filter, mip_map),
{
    match (filter, mip_map) {
        (Filter::Nearest, None) => MinFilter::Nearest,
        (Filter::Nearest, Some(Filter::Nearest)) => MinFilter::NearestMipmapNearest,
        (Filter::Nearest, Some(Filter::Linear)) => MinFilter::NearestMipmapLinear,
        (Filter::Linear, None) => MinFilter::Linear,
        (Filter::Linear, Some(Filter::Nearest)) => MinFilter::LinearMipmapNearest,
        (Filter::Linear, Some(Filter::Linear)) => MinFilter::LinearMipmapLinear,
    }
}

/// Bit pattern of the 32-bit IEEE-754 value -1000.0, the default lower LOD
/// bound.
pub const DEFAULT_MIN_LOD_BITS: u32 = 0xC47A_0000;

/// Bit pattern of the 32-bit IEEE-754 value 1000.0, the default upper LOD
/// bound.
pub const DEFAULT_MAX_LOD_BITS: u32 = 0x447A_0000;

/// Sampler descriptor. Fractional fields carry bit patterns of 32-bit
/// IEEE-754 values.
#[derive(Debug, Clone, Copy, PartialEq, Eq)]
pub struct SamplerDesc {
    pub min_filter: Filter,
    pub mag_filter: Filter,
    /// Filter between mipmap levels, if mipmapping is used.
    pub mip_map: Option<Filter>,
    /// Addressing mode per coordinate axis.
    pub address: (SamplerAddress, SamplerAddress, SamplerAddress),
    /// Bit pattern of the level-of-detail bias.
    pub lod_bias_bits: u32,
    /// Bit pattern of the lower level-of-detail bound.
    pub min_lod_bits: u32,
    /// Bit pattern of the upper level-of-detail bound.
    pub max_lod_bits: u32,
    /// Comparison function for depth-reference sampling, if any.
    pub compare: Option<Compare>,
    /// Bit patterns of the four border color channels.
    pub border_color_bits: (u32, u32, u32, u32),
}

/// The default sampler: nearest minification, linear magnification, linear
/// mipmapping, repeat addressing on all axes, zero LOD bias, the full
/// default LOD range, no comparison, and a transparent black border.
pub open spec fn spec_default_sampler_desc() -> SamplerDesc {
    SamplerDesc {
        min_filter: Filter::Nearest,
        mag_filter: Filter::Linear,
        mip_map: Some(Filter::Linear),
        address: (SamplerAddress::Repeat, SamplerAddress::Repeat, SamplerAddress::Repeat),
        lod_bias_bits: 0,
        min_lod_bits: DEFAULT_MIN_LOD_BITS,
        max_lod_bits: DEFAULT_MAX_LOD_BITS,
        compare: None,
        border_color_bits: (0, 0, 0, 0),
    }
}

impl Default for SamplerDesc {
    /// The default sampler descriptor.
    fn default() -> (r: SamplerDesc)
        ensures
            r == spec_default_sampler_desc(),
    {
        SamplerDesc {
            min_filter: Filter::Nearest,
            mag_filter: Filter::Linear,
            mip_map: Some(Filter::Linear),
            address: (SamplerAddress::Repeat, SamplerAddress::Repeat, SamplerAddress::Repeat),
            lod_bias_bits: 0,
            min_lod_bits: DEFAULT_MIN_LOD_BITS,
            max_lod_bits: DEFAULT_MAX_LOD_BITS,
            compare: None,
            border_color_bits: (0, 0, 0, 0),
        }
    }
}

/// One parameter call performed while creating a sampler.
#[derive(Debug, Clone, Copy, PartialEq, Eq)]
pub enum SamplerCommand {
    /// Set the combined minification filter.
    SetMinFilter { filter: MinFilter },
    /// Set the magnification filter.
    SetMagFilter { filter: Filter },
    /// Set the addressing mode of the first coordinate axis.
    WrapS { address: SamplerAddress },
    /// Set the addressing mode of the second coordinate axis.
    WrapT { address: SamplerAddress },
    /// Set the addressing mode of the third coordinate axis.
    WrapR { address: SamplerAddress },
    /// Set the level-of-detail bias (IEEE-754 bit pattern).
    LodBias { bits: u32 },
    /// Set the lower level-of-detail bound (IEEE-754 bit pattern).
    MinLod { bits: u32 },
    /// Set the upper level-of-detail bound (IEEE-754 bit pattern).
    MaxLod { bits: u32 },
    /// Enable or disable depth-reference comparison.
    CompareMode { enable: bool },
    /// Set the comparison function; written only when comparison is
    /// enabled.
    CompareFunc { op: Compare },
    /// Set the four border color channels (IEEE-754 bit patterns).
    BorderColor { bits: (u32, u32, u32, u32) },
}

/// The parameter calls that creating a sampler from a descriptor performs,
/// in order: filters, addressing, LOD state, comparison state (the compare
/// function only when comparison is requested), border color.
pub open spec fn spec_sampler_cmds(desc: SamplerDesc) -> Seq<SamplerCommand> {
    seq![
        SamplerCommand::SetMinFilter {
            filter: spec_map_min_filter(desc.min_filter, desc.mip_map),
        },
        SamplerCommand::SetMagFilter { filter: desc.mag_filter },
        SamplerCommand::WrapS { address: desc.address.0 },
        SamplerCommand::WrapT { address: desc.address.1 },
        SamplerCommand::WrapR { address: desc.address.2 },
        SamplerCommand::LodBias { bits: desc.lod_bias_bits },
        SamplerCommand::MinLod { bits: desc.min_lod_bits },
        SamplerCommand::MaxLod { bits: desc.max_lod_bits },
        SamplerCommand::CompareMode { enable: desc.compare is Some },
    ] + (match desc.compare {
        Some(op) => seq![SamplerCommand::CompareFunc { op }],
        None => Seq::empty(),
    }) + seq![SamplerCommand::BorderColor { bits: desc.border_color_bits }]
}

/// Compute the parameter calls that creating a sampler performs.
pub fn sampler_commands(desc: &SamplerDesc) -> (r: Vec<SamplerCommand>)
    ensures
        r@ == spec_sampler_cmds(*desc),
{
    let mut out: Vec<SamplerCommand> = Vec::new();
    out.push(
        SamplerCommand::SetMinFilter { filter: map_min_filter(desc.min_filter, desc.mip_map) },
    );
    out.push(SamplerCommand::SetMagFilter { filter: desc.mag_filter });
    out.push(SamplerCommand::WrapS { address: desc.address.0 });
    out.push(SamplerCommand::WrapT { address: desc.address.1 });
    out.push(SamplerCommand::WrapR { address: desc.address.2 });
    out.push(SamplerCommand::LodBias { bits: desc.lod_bias_bits });
    out.push(SamplerCommand::MinLod { bits: desc.min_lod_bits });
    out.push(SamplerCommand::MaxLod { bits: desc.max_lod_bits });
    match desc.compare {
        Some(op) => {
            out.push(SamplerCommand::CompareMode { enable: true });
            out.push(SamplerCommand::CompareFunc { op });
        },
        None => {
            out.push(SamplerCommand::CompareMode { enable: false });
        },
    }
    out.push(SamplerCommand::BorderColor { bits: desc.border_color_bits });
    proof {
        assert(out@ =~= spec_sampler_cmds(*desc));
    }
    out
}

impl Object for Sampler {
    /// Samplers label under the sampler namespace.
    fn object_type(&self) -> ObjectType {
        ObjectType::Sampler
    }

    fn handle(&self) -> u32 {
        self.0
    }
}

} // verus!
