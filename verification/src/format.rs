//! Sized storage formats, their channel layouts and component counts.

use vstd::prelude::*;

verus! {

/// A sized internal format of texture storage.
///
/// Each channel letter (`R`, `G`, `B`, `A`, `D` for depth, `S` for stencil)
/// is followed by the number of bits used to represent it. The suffix gives
/// the encoding:
///
/// * `_UNORM`: unsigned integers remapped to the `[0.0, 1.0]` range;
/// * `_SNORM`: signed integers remapped to the `[-1.0, 1.0]` range;
/// * `_SFLOAT`: floating point;
/// * `_INT` / `_UINT`: signed / unsigned integers delivered unmodified;
/// * `_SRGB`: unsigned normalized integers in the sRGB color space (a
///   trailing alpha channel, where present, stays linear).
#[allow(non_camel_case_types)]
#[derive(Debug, Copy, Clone, PartialEq, Eq, Structural)]
pub enum Format {
    // unsigned normalized integer formats
    R8_UNORM,
    R8G8_UNORM,
    R8G8B8_UNORM,
    R8G8B8A8_UNORM,
    R16_UNORM,
    R16G16_UNORM,
    R16G16B16_UNORM,
    R16G16B16A16_UNORM,
    // signed normalized integer formats
    R8_SNORM,
    R8G8_SNORM,
    R8G8B8_SNORM,
    R8G8B8A8_SNORM,
    R16_SNORM,
    R16G16_SNORM,
    R16G16B16_SNORM,
    R16G16B16A16_SNORM,
    // floating point formats
    R16_SFLOAT,
    R16G16_SFLOAT,
    R16G16B16_SFLOAT,
    R16G16B16A16_SFLOAT,
    R32_SFLOAT,
    R32G32_SFLOAT,
    R32G32B32_SFLOAT,
    R32G32B32A32_SFLOAT,
    // signed integer formats
    R8_INT,
    R8G8_INT,
    R8G8B8_INT,
    R8G8B8A8_INT,
    R16_INT,
    R16G16_INT,
    R16G16B16_INT,
    R16G16B16A16_INT,
    R32_INT,
    R32G32_INT,
    R32G32B32_INT,
    R32G32B32A32_INT,
    // unsigned integer formats
    R8_UINT,
    R8G8_UINT,
    R8G8B8_UINT,
    R8G8B8A8_UINT,
    R16_UINT,
    R16G16_UINT,
    R16G16B16_UINT,
    R16G16B16A16_UINT,
    R32_UINT,
    R32G32_UINT,
    R32G32B32_UINT,
    R32G32B32A32_UINT,
    // sRGB normalized integer formats
    R8G8B8_SRGB,
    /// sRGB color channels with a linear alpha channel.
    R8G8B8A8_SRGB,
    // depth and stencil formats
    D16_UNORM,
    D24_UNORM,
    D32_UNORM,
    D32_SFLOAT,
    S8_UINT,
    D24_UNORM_S8_UINT,
    D32_SFLOAT_S8_UINT,
}

/// The channel layout of a format, independent of bit width and encoding.
#[derive(Debug, Copy, Clone, PartialEq, Eq, Structural)]
pub enum BaseFormat {
    R,
    RG,
    RGB,
    RGBA,
    Depth,
    DepthStencil,
    Stencil,
}

/// The scalar encoding used when transferring raw pixel bytes.
#[derive(Debug, Copy, Clone, PartialEq, Eq, Structural)]
pub enum FormatLayout {
    U8,
    U16,
    U32,
    I8,
    I16,
    I32,
    F16,
    F32,
    U24U8,
    F32U8,
}

impl Format {
    /// The channel layout of this format.
    pub open spec fn spec_base_format(self) -> BaseFormat {
        match self {
            Format::R8_UNORM | Format::R16_UNORM | Format::R8_SNORM | Format::R16_SNORM
            | Format::R8_INT | Format::R16_INT | Format::R32_INT | Format::R8_UINT
            | Format::R16_UINT | Format::R32_UINT | Format::R16_SFLOAT
            | Format::R32_SFLOAT => BaseFormat::R,

            Format::R8G8_UNORM | Format::R16G16_UNORM | Format::R8G8_SNORM
            | Format::R16G16_SNORM | Format::R8G8_INT | Format::R16G16_INT
            | Format::R32G32_INT | Format::R8G8_UINT | Format::R16G16_UINT
            | Format::R32G32_UINT | Format::R16G16_SFLOAT | Format::R32G32_SFLOAT => {
                BaseFormat::RG
            },

            Format::R8G8B8_UNORM | Format::R16G16B16_UNORM | Format::R8G8B8_SNORM
            | Format::R16G16B16_SNORM | Format::R8G8B8_INT | Format::R16G16B16_INT
            | Format::R32G32B32_INT | Format::R8G8B8_UINT | Format::R16G16B16_UINT
            | Format::R32G32B32_UINT | Format::R16G16B16_SFLOAT | Format::R32G32B32_SFLOAT
            | Format::R8G8B8_SRGB => BaseFormat::RGB,

            Format::R8G8B8A8_UNORM | Format::R16G16B16A16_UNORM | Format::R8G8B8A8_SNORM
            | Format::R16G16B16A16_SNORM | Format::R8G8B8A8_INT | Format::R16G16B16A16_INT
            | Format::R32G32B32A32_INT | Format::R8G8B8A8_UINT | Format::R16G16B16A16_UINT
            | Format::R32G32B32A32_UINT | Format::R16G16B16A16_SFLOAT
            | Format::R32G32B32A32_SFLOAT | Format::R8G8B8A8_SRGB => BaseFormat::RGBA,

            Format::D32_SFLOAT | Format::D16_UNORM | Format::D24_UNORM | Format::D32_UNORM => {
                BaseFormat::Depth
            },

            Format::S8_UINT => BaseFormat::Stencil,

            Format::D32_SFLOAT_S8_UINT | Format::D24_UNORM_S8_UINT => BaseFormat::DepthStencil,
        }
    }

    /// The number of components of this format, derived through its channel
    /// layout.
    pub open spec fn spec_num_components(self) -> u32 {
        self.spec_base_format().spec_num_components()
    }

    /// Return the number of components of the pixel format.
    pub fn num_components(self) -> (r: u32)
        ensures
            r == self.spec_num_components(),
    {
        self.base_format().num_components()
    }

    /// Return the corresponding base format for this format.
    pub fn base_format(self) -> (r: BaseFormat)
        ensures
            r == self.spec_base_format(),
    {
        match self {
            Format::R8_UNORM | Format::R16_UNORM | Format::R8_SNORM | Format::R16_SNORM
            | Format::R8_INT | Format::R16_INT | Format::R32_INT | Format::R8_UINT
            | Format::R16_UINT | Format::R32_UINT | Format::R16_SFLOAT
            | Format::R32_SFLOAT => BaseFormat::R,

            Format::R8G8_UNORM | Format::R16G16_UNORM | Format::R8G8_SNORM
            | Format::R16G16_SNORM | Format::R8G8_INT | Format::R16G16_INT
            | Format::R32G32_INT | Format::R8G8_UINT | Format::R16G16_UINT
            | Format::R32G32_UINT | Format::R16G16_SFLOAT | Format::R32G32_SFLOAT => {
                BaseFormat::RG
            },

            Format::R8G8B8_UNORM | Format::R16G16B16_UNORM | Format::R8G8B8_SNORM
            | Format::R16G16B16_SNORM | Format::R8G8B8_INT | Format::R16G16B16_INT
            | Format::R32G32B32_INT | Format::R8G8B8_UINT | Format::R16G16B16_UINT
            | Format::R32G32B32_UINT | Format::R16G16B16_SFLOAT | Format::R32G32B32_SFLOAT
            | Format::R8G8B8_SRGB => BaseFormat::RGB,

            Format::R8G8B8A8_UNORM | Format::R16G16B16A16_UNORM | Format::R8G8B8A8_SNORM
            | Format::R16G16B16A16_SNORM | Format::R8G8B8A8_INT | Format::R16G16B16A16_INT
            | Format::R32G32B32A32_INT | Format::R8G8B8A8_UINT | Format::R16G16B16A16_UINT
            | Format::R32G32B32A32_UINT | Format::R16G16B16A16_SFLOAT
            | Format::R32G32B32A32_SFLOAT | Format::R8G8B8A8_SRGB => BaseFormat::RGBA,

            Format::D32_SFLOAT | Format::D16_UNORM | Format::D24_UNORM | Format::D32_UNORM => {
                BaseFormat::Depth
            },

            Format::S8_UINT => BaseFormat::Stencil,

            Format::D32_SFLOAT_S8_UINT | Format::D24_UNORM_S8_UINT => BaseFormat::DepthStencil,
        }
    }
}

impl BaseFormat {
    /// The number of components that compose this channel layout: one per
    /// color channel, one for depth, one for stencil.
    pub open spec fn spec_num_components(self) -> u32 {
        match self {
            BaseFormat::R => 1,
            BaseFormat::RG => 2,
            BaseFormat::RGB => 3,
            BaseFormat::RGBA => 4,
            BaseFormat::Depth => 1,
            BaseFormat::DepthStencil => 2,
            BaseFormat::Stencil => 1,
        }
    }

    /// Return the number of components that compose this format.
    pub fn num_components(self) -> (r: u32)
        ensures
            r == self.spec_num_components(),
    {
        match self {
            BaseFormat::R => 1,
            BaseFormat::RG => 2,
            BaseFormat::RGB => 3,
            BaseFormat::RGBA => 4,
            BaseFormat::Depth => 1,
            BaseFormat::DepthStencil => 2,
            BaseFormat::Stencil => 1,
        }
    }
}

/// The number of channels that a format's own name declares: the count of
/// color channel letters, or one for depth-only and stencil-only formats and
/// two for combined depth-stencil formats.
pub open spec fn spec_channel_count(f: Format) -> u32 {
    match f {
        Format::R8_UNORM | Format::R16_UNORM | Format::R8_SNORM | Format::R16_SNORM
        | Format::R8_INT | Format::R16_INT | Format::R32_INT | Format::R8_UINT
        | Format::R16_UINT | Format::R32_UINT | Format::R16_SFLOAT | Format::R32_SFLOAT
        | Format::D16_UNORM | Format::D24_UNORM | Format::D32_UNORM | Format::D32_SFLOAT
        | Format::S8_UINT => 1,

        Format::R8G8_UNORM | Format::R16G16_UNORM | Format::R8G8_SNORM | Format::R16G16_SNORM
        | Format::R8G8_INT | Format::R16G16_INT | Format::R32G32_INT | Format::R8G8_UINT
        | Format::R16G16_UINT | Format::R32G32_UINT | Format::R16G16_SFLOAT
        | Format::R32G32_SFLOAT | Format::D24_UNORM_S8_UINT | Format::D32_SFLOAT_S8_UINT => 2,

        Format::R8G8B8_UNORM | Format::R16G16B16_UNORM | Format::R8G8B8_SNORM
        | Format::R16G16B16_SNORM | Format::R8G8B8_INT | Format::R16G16B16_INT
        | Format::R32G32B32_INT | Format::R8G8B8_UINT | Format::R16G16B16_UINT
        | Format::R32G32B32_UINT | Format::R16G16B16_SFLOAT | Format::R32G32B32_SFLOAT
        | Format::R8G8B8_SRGB => 3,

        Format::R8G8B8A8_UNORM | Format::R16G16B16A16_UNORM | Format::R8G8B8A8_SNORM
        | Format::R16G16B16A16_SNORM | Format::R8G8B8A8_INT | Format::R16G16B16A16_INT
        | Format::R32G32B32A32_INT | Format::R8G8B8A8_UINT | Format::R16G16B16A16_UINT
        | Format::R32G32B32A32_UINT | Format::R16G16B16A16_SFLOAT
        | Format::R32G32B32A32_SFLOAT | Format::R8G8B8A8_SRGB => 4,
    }
}

/// Law: for every format, the component count derived through the base format
/// equals the channel count that the format's own name implies, and lies in
/// `1 ..= 4`.
pub proof fn lemma_components_match_channels(f: Format)
    ensures
        f.spec_num_components() == spec_channel_count(f),
        1 <= f.spec_num_components() <= 4,
{
}

} // verus!
