//! Transfers between host memory, buffers and images.
//!
//! One layout shape ([`MemoryLayout`]) describes the byte layout of the
//! host or buffer side of every transfer. The per-target dispatch of a
//! transfer — which sub-image call to issue, and how a subresource's layer
//! range folds into offsets and extents — is computed here.

use vstd::prelude::*;

use crate::Extent;
use crate::Offset;
use crate::format::BaseFormat;
use crate::format::FormatLayout;
use crate::image::SubresourceLayers;
use crate::image::Target;

verus! {

/// The layout of host or buffer memory taking part in a transfer.
#[derive(Debug, Copy, Clone, PartialEq, Eq, Structural)]
pub struct MemoryLayout {
    /// Channel layout of the transferred texels.
    pub base_format: BaseFormat,
    /// Scalar encoding of the transferred texels.
    pub format_layout: FormatLayout,
    /// Number of texels per row; zero for tightly packed rows.
    pub row_length: u32,
    /// Number of rows per image; zero for tightly packed images.
    pub image_height: u32,
    /// Row alignment in bytes.
    pub alignment: u32,
}

/// A copy between two images.
#[derive(Debug, Clone)]
pub struct ImageCopy {
    /// Layers of the source image.
    pub src_subresource: SubresourceLayers,
    /// Initial x,y,z texel offsets in the subregion of the source image.
    pub src_offset: Offset,
    /// Layers of the destination image.
    pub dst_subresource: SubresourceLayers,
    /// Initial x,y,z texel offsets in the subregion of the destination
    /// image.
    pub dst_offset: Offset,
    /// Size of texels to copy in the subregion of the source/destination
    /// image.
    pub extent: Extent,
}

/// A copy between a buffer and an image.
#[derive(Debug, Clone)]
pub struct BufferImageCopy {
    /// Offset in bytes from the start of the source/destination buffer.
    pub buffer_offset: u64,
    /// Layout of the source/destination buffer.
    pub buffer_layout: MemoryLayout,
    /// Layers of the source/destination image.
    pub image_subresource: SubresourceLayers,
    /// Initial x,y,z texel offsets in the subregion of the
    /// source/destination image.
    pub image_offset: Offset,
    /// Size of texels to copy in the subregion of the source/destination
    /// image.
    pub image_extent: Extent,
}

/// A copy between host memory and an image.
#[derive(Debug, Clone)]
pub struct HostImageCopy {
    /// Layout of the source/destination host memory.
    pub host_layout: MemoryLayout,
    /// Layers of the source/destination image.
    pub image_subresource: SubresourceLayers,
    /// Initial x,y,z texel offsets in the subregion of the
    /// source/destination image.
    pub image_offset: Offset,
    /// Size of texels to copy in the subregion of the source/destination
    /// image.
    pub image_extent: Extent,
}

/// Whether a target takes part in region transfers here: plain and arrayed
/// one- and two-dimensional images and three-dimensional images do;
/// multisampled, cube and cube-array targets do not.
pub open spec fn spec_region_target_supported(target: Target) -> bool {
    match target {
        Target::D1 => true,
        Target::D1Array => true,
        Target::D2 => true,
        Target::D2Array => true,
        Target::D3 => true,
        _ => false,
    }
}

/// Whether a subresource's layer range is well-formed for casting into the
/// signed coordinates of the context's calls.
pub open spec fn spec_layers_fit(layers_start: u32, layers_end: u32) -> bool {
    layers_start <= layers_end <= 0x7fff_ffff
}

/// Fold a subresource's layer range into the three-dimensional offset and
/// extent of the context's transfer calls: arrayed targets address their
/// layers through the coordinate after their own dimensions, plain targets
/// collapse the unused coordinates to zero offset and unit extent.
pub fn map_subresource_region(
    target: Target,
    subresource: &SubresourceLayers,
    offset: Offset,
    extent: Extent,
) -> (r: (Offset, Extent))
    requires
        spec_region_target_supported(target),
        spec_layers_fit(subresource.layers.start, subresource.layers.end),
    ensures
        target == Target::D1 ==> r == ((Offset { x: offset.x, y: 0, z: 0 }), (Extent {
            width: extent.width,
            height: 1,
            depth: 1,
        })),
        target == Target::D1Array ==> r == ((Offset {
            x: offset.x,
            y: subresource.layers.start as i32,
            z: 0,
        }), (Extent {
            width: extent.width,
            height: (subresource.layers.end - subresource.layers.start) as u32,
            depth: 1,
        })),
        target == Target::D2 ==> r == ((Offset { x: offset.x, y: offset.y, z: 0 }), (Extent {
            width: extent.width,
            height: extent.height,
            depth: 1,
        })),
        target == Target::D2Array ==> r == ((Offset {
            x: offset.x,
            y: offset.y,
            z: subresource.layers.start as i32,
        }), (Extent {
            width: extent.width,
            height: extent.height,
            depth: (subresource.layers.end - subresource.layers.start) as u32,
        })),
        target == Target::D3 ==> r == (offset, extent),
{
    match target {
        Target::D1 => (
            Offset { x: offset.x, y: 0, z: 0 },
            Extent { width: extent.width, height: 1, depth: 1 },
        ),
        Target::D1Array => (
            Offset { x: offset.x, y: subresource.layers.start as i32, z: 0 },
            Extent {
                width: extent.width,
                height: subresource.layers.end - subresource.layers.start,
                depth: 1,
            },
        ),
        Target::D2 => (
            Offset { x: offset.x, y: offset.y, z: 0 },
            Extent { width: extent.width, height: extent.height, depth: 1 },
        ),
        Target::D2Array => (
            Offset { x: offset.x, y: offset.y, z: subresource.layers.start as i32 },
            Extent {
                width: extent.width,
                height: extent.height,
                depth: subresource.layers.end - subresource.layers.start,
            },
        ),
        _ => (offset, extent),
    }
}

/// The sub-image upload call of one target family.
#[derive(Debug, Copy, Clone, PartialEq, Eq, Structural)]
pub enum SubImageCommand {
    /// One-dimensional upload.
    Sub1D { level: u32, x: i32, width: u32 },
    /// Two-dimensional upload: plain two-dimensional images and
    /// one-dimensional arrays (layers as rows).
    Sub2D { level: u32, x: i32, y: i32, width: u32, height: u32 },
    /// Three-dimensional upload: two-dimensional arrays (layers as depth)
    /// and three-dimensional images.
    Sub3D { level: u32, x: i32, y: i32, z: i32, width: u32, height: u32, depth: u32 },
}

/// Whether an upload to the given target with the given layer range is
/// dispatchable: plain targets take exactly their single layer, arrayed
/// targets any well-formed layer range.
pub open spec fn spec_upload_supported(
    target: Target,
    layers_start: u32,
    layers_end: u32,
) -> bool {
    match target {
        Target::D1 => layers_start == 0 && layers_end == 1,
        Target::D2 => layers_start == 0 && layers_end == 1,
        Target::D3 => layers_start == 0 && layers_end == 1,
        Target::D1Array => spec_layers_fit(layers_start, layers_end),
        Target::D2Array => spec_layers_fit(layers_start, layers_end),
        _ => false,
    }
}

/// The sub-image call that an upload to the given target performs.
pub open spec fn spec_copy_to_image_cmd(
    target: Target,
    subresource: SubresourceLayers,
    offset: Offset,
    extent: Extent,
) -> SubImageCommand {
    match target {
        Target::D1 => SubImageCommand::Sub1D {
            level: subresource.level,
            x: offset.x,
            width: extent.width,
        },
        Target::D1Array => SubImageCommand::Sub2D {
            level: subresource.level,
            x: offset.x,
            y: subresource.layers.start as i32,
            width: extent.width,
            height: (subresource.layers.end - subresource.layers.start) as u32,
        },
        Target::D2 => SubImageCommand::Sub2D {
            level: subresource.level,
            x: offset.x,
            y: offset.y,
            width: extent.width,
            height: extent.height,
        },
        Target::D2Array => SubImageCommand::Sub3D {
            level: subresource.level,
            x: offset.x,
            y: offset.y,
            z: subresource.layers.start as i32,
            width: extent.width,
            height: extent.height,
            depth: (subresource.layers.end - subresource.layers.start) as u32,
        },
        _ => SubImageCommand::Sub3D {
            level: subresource.level,
            x: offset.x,
            y: offset.y,
            z: offset.z,
            width: extent.width,
            height: extent.height,
            depth: extent.depth,
        },
    }
}

/// Dispatch an upload into an image by the image's target: which sub-image
/// call carries the data, and how the layer range folds into its
/// coordinates.
pub fn plan_copy_to_image(
    target: Target,
    subresource: &SubresourceLayers,
    offset: Offset,
    extent: Extent,
) -> (r: SubImageCommand)
    requires
        spec_upload_supported(target, subresource.layers.start, subresource.layers.end),
    ensures
        r == spec_copy_to_image_cmd(target, *subresource, offset, extent),
{
    match target {
        Target::D1 => SubImageCommand::Sub1D {
            level: subresource.level,
            x: offset.x,
            width: extent.width,
        },
        Target::D1Array => SubImageCommand::Sub2D {
            level: subresource.level,
            x: offset.x,
            y: subresource.layers.start as i32,
            width: extent.width,
            height: subresource.layers.end - subresource.layers.start,
        },
        Target::D2 => SubImageCommand::Sub2D {
            level: subresource.level,
            x: offset.x,
            y: offset.y,
            width: extent.width,
            height: extent.height,
        },
        Target::D2Array => SubImageCommand::Sub3D {
            level: subresource.level,
            x: offset.x,
            y: offset.y,
            z: subresource.layers.start as i32,
            width: extent.width,
            height: extent.height,
            depth: subresource.layers.end - subresource.layers.start,
        },
        _ => SubImageCommand::Sub3D {
            level: subresource.level,
            x: offset.x,
            y: offset.y,
            z: offset.z,
            width: extent.width,
            height: extent.height,
            depth: extent.depth,
        },
    }
}

} // verus!
