//! Image storage and views.
//!
//! An image is described by a declarative shape ([`ImageType`]); the
//! concrete resource target is never picked by the caller but resolved from
//! the shape's dimensionality, layer count and sample count
//! ([`ImageType::resolve_target`]). Storage allocation is then dispatched by
//! target family ([`plan_image`]), and the default view of an image is
//! derived from the same table ([`ImageType::view_ty`]).

use vstd::prelude::*;

use crate::debug::Object;
use crate::debug::ObjectType;

use crate::Extent;
use crate::error::Error;

verus! {

/// Image resource handle.
///
/// Images are multidimensional, formatted data arrays: the actual storage of
/// the data together with its layout metadata. The resolved target is kept
/// beside the name because later per-target dispatch (transfers, views)
/// depends on it.
#[derive(Clone, Copy, Debug, PartialEq, Eq, Structural)]
pub struct Image {
    /// Opaque name issued by the context.
    pub raw: u32,
    /// The target the image's shape resolved to at creation.
    pub target: Target,
}

impl Image {
    /// Get an image view aliasing the whole image.
    ///
    /// The returned view must not be deleted.
    pub fn as_view(&self) -> (r: ImageView)
        ensures
            r.0 == self.raw,
    {
        ImageView(self.raw)
    }
}

/// The concrete resource target (kind) that a shape resolves to. The target
/// decides which allocation and configuration calls are valid for the
/// resource.
#[derive(Debug, Clone, Copy, PartialEq, Eq, Structural)]
pub enum Target {
    /// Plain one-dimensional image.
    D1,
    /// Array of one-dimensional layers.
    D1Array,
    /// Plain two-dimensional image.
    D2,
    /// Array of two-dimensional layers.
    D2Array,
    /// Cube map: exactly six two-dimensional faces.
    Cube,
    /// Array of cube maps: a multiple of six faces.
    CubeArray,
    /// Multisampled two-dimensional image.
    D2Multisample,
    /// Array of multisampled two-dimensional layers.
    D2MultisampleArray,
    /// Three-dimensional image.
    D3,
    /// Image storage backed by a buffer range. Never produced by shape
    /// resolution; carried by images created over a texel buffer.
    TexelBuffer,
}

/// Image dimensionality type.
///
/// Layers, as in arrays or cube maps, don't affect the dimensionality type.
#[derive(Clone, Copy, Debug, PartialEq, Eq, Structural)]
pub enum ImageType {
    /// One dimensional image.
    D1 {
        /// Width.
        width: u32,
        /// Number of layers; `1` for non-array textures.
        layers: u32,
    },
    /// Two dimensional image.
    D2 {
        /// Width.
        width: u32,
        /// Height.
        height: u32,
        /// Number of layers; `1` for non-array textures.
        layers: u32,
        /// Number of samples per texel; `1` for single-sampled textures.
        samples: u32,
    },
    /// Three dimensional image.
    D3 {
        /// Width.
        width: u32,
        /// Height.
        height: u32,
        /// Depth.
        depth: u32,
    },
}

impl ImageType {
    /// The target the shape resolves to, by priority: a one-dimensional
    /// shape is plain or arrayed by its layer count; a single-sampled
    /// two-dimensional shape with exactly six layers is a cube map, with
    /// another positive multiple of six a cube-map array, with one layer
    /// plain, and otherwise an array; a multisampled two-dimensional shape
    /// is plain or arrayed by its layer count; a three-dimensional shape is
    /// always the three-dimensional target.
    pub open spec fn spec_resolve_target(self) -> Target {
        match self {
            ImageType::D1 { layers, .. } => {
                if layers == 1 {
                    Target::D1
                } else {
                    Target::D1Array
                }
            },
            ImageType::D2 { layers, samples, .. } => {
                if samples == 1 {
                    if layers == 1 {
                        Target::D2
                    } else if layers == 6 {
                        Target::Cube
                    } else if layers % 6 == 0 {
                        Target::CubeArray
                    } else {
                        Target::D2Array
                    }
                } else {
                    if layers == 1 {
                        Target::D2Multisample
                    } else {
                        Target::D2MultisampleArray
                    }
                }
            },
            ImageType::D3 { .. } => Target::D3,
        }
    }

    /// Resolve the concrete resource target from this shape. The target is a
    /// pure function of dimensionality, layer count and sample count;
    /// callers never pick it directly.
    pub fn resolve_target(&self) -> (r: Target)
        ensures
            r == self.spec_resolve_target(),
    {
        match *self {
            ImageType::D1 { layers, .. } => {
                if layers == 1 {
                    Target::D1
                } else {
                    Target::D1Array
                }
            },
            ImageType::D2 { layers, samples, .. } => {
                if samples == 1 {
                    if layers == 1 {
                        Target::D2
                    } else if layers == 6 {
                        Target::Cube
                    } else if layers % 6 == 0 {
                        Target::CubeArray
                    } else {
                        Target::D2Array
                    }
                } else {
                    if layers == 1 {
                        Target::D2Multisample
                    } else {
                        Target::D2MultisampleArray
                    }
                }
            },
            ImageType::D3 { .. } => Target::D3,
        }
    }

    /// The width of the image.
    pub open spec fn spec_width(self) -> u32 {
        match self {
            ImageType::D1 { width, .. } => width,
            ImageType::D2 { width, .. } => width,
            ImageType::D3 { width, .. } => width,
        }
    }

    /// Return the width of the image.
    pub fn width(&self) -> (r: u32)
        ensures
            r == self.spec_width(),
    {
        match *self {
            ImageType::D1 { width, .. } => width,
            ImageType::D2 { width, .. } => width,
            ImageType::D3 { width, .. } => width,
        }
    }

    /// The height of the image; one for one-dimensional images.
    pub open spec fn spec_height(self) -> u32 {
        match self {
            ImageType::D1 { .. } => 1,
            ImageType::D2 { height, .. } => height,
            ImageType::D3 { height, .. } => height,
        }
    }

    /// Return the height of the image.
    pub fn height(&self) -> (r: u32)
        ensures
            r == self.spec_height(),
    {
        match *self {
            ImageType::D1 { .. } => 1,
            ImageType::D2 { height, .. } => height,
            ImageType::D3 { height, .. } => height,
        }
    }

    /// The depth of the image; one for one- and two-dimensional images.
    pub open spec fn spec_depth(self) -> u32 {
        match self {
            ImageType::D1 { .. } => 1,
            ImageType::D2 { .. } => 1,
            ImageType::D3 { depth, .. } => depth,
        }
    }

    /// Return the depth of the image.
    pub fn depth(&self) -> (r: u32)
        ensures
            r == self.spec_depth(),
    {
        match *self {
            ImageType::D1 { .. } => 1,
            ImageType::D2 { .. } => 1,
            ImageType::D3 { depth, .. } => depth,
        }
    }

    /// The number of samples in a texel; one except for multisampled
    /// two-dimensional images.
    pub open spec fn spec_samples(self) -> u32 {
        match self {
            ImageType::D1 { .. } => 1,
            ImageType::D2 { samples, .. } => samples,
            ImageType::D3 { .. } => 1,
        }
    }

    /// Return the number of samples in a texel of the image.
    pub fn samples(&self) -> (r: u32)
        ensures
            r == self.spec_samples(),
    {
        match *self {
            ImageType::D1 { .. } => 1,
            ImageType::D2 { samples, .. } => samples,
            ImageType::D3 { .. } => 1,
        }
    }

    /// The number of layers; one for three-dimensional images, whose depth
    /// is not a layer count.
    pub open spec fn spec_layers(self) -> u32 {
        match self {
            ImageType::D1 { layers, .. } => layers,
            ImageType::D2 { layers, .. } => layers,
            ImageType::D3 { .. } => 1,
        }
    }

    /// Return the number of layers in the texture.
    pub fn layers(&self) -> (r: u32)
        ensures
            r == self.spec_layers(),
    {
        match *self {
            ImageType::D1 { layers, .. } => layers,
            ImageType::D2 { layers, .. } => layers,
            ImageType::D3 { .. } => 1,
        }
    }

    /// The number of texels in the top layer of the image.
    pub open spec fn spec_num_texels(self) -> int {
        match self {
            ImageType::D1 { width, .. } => width as int,
            ImageType::D2 { width, height, .. } => width * height,
            ImageType::D3 { width, height, depth } => width * height * depth,
        }
    }

    /// Whether the texel count of the top layer (and each intermediate
    /// product) fits the machine's word size.
    pub open spec fn spec_texels_fit(self) -> bool {
        match self {
            ImageType::D1 { width, .. } => width <= usize::MAX,
            ImageType::D2 { width, height, .. } => width * height <= usize::MAX,
            ImageType::D3 { width, height, depth } => width * height <= usize::MAX && width
                * height * depth <= usize::MAX,
        }
    }

    /// Return the number of texels in the top layer of the image.
    pub fn num_texels(&self) -> (r: usize)
        requires
            self.spec_texels_fit(),
        ensures
            r == self.spec_num_texels(),
    {
        match *self {
            ImageType::D1 { width, .. } => width as usize,
            ImageType::D2 { width, height, .. } => (width as usize) * (height as usize),
            ImageType::D3 { width, height, depth } => (width as usize) * (height as usize) * (
            depth as usize),
        }
    }

    /// Full extent of the image dimensions for a single layer.
    pub fn full_extent(&self) -> (r: Extent)
        ensures
            r.width == self.spec_width(),
            r.height == self.spec_height(),
            r.depth == self.spec_depth(),
    {
        Extent { width: self.width(), height: self.height(), depth: self.depth() }
    }

    /// The view type that a default view of this shape receives. The table
    /// follows the same priority rules as target resolution; multisampled
    /// shapes view as plain or arrayed two-dimensional.
    pub open spec fn spec_view_ty(self) -> ImageViewType {
        match self {
            ImageType::D1 { layers, .. } => {
                if layers == 1 {
                    ImageViewType::D1
                } else {
                    ImageViewType::D1Array
                }
            },
            ImageType::D2 { layers, samples, .. } => {
                if samples == 1 {
                    if layers == 1 {
                        ImageViewType::D2
                    } else if layers == 6 {
                        ImageViewType::Cube
                    } else if layers % 6 == 0 {
                        ImageViewType::CubeArray
                    } else {
                        ImageViewType::D2Array
                    }
                } else {
                    if layers == 1 {
                        ImageViewType::D2
                    } else {
                        ImageViewType::D2Array
                    }
                }
            },
            ImageType::D3 { .. } => ImageViewType::D3,
        }
    }

    /// The view type derived from the shape, used when creating an image
    /// together with its matching default view.
    pub fn view_ty(&self) -> (r: ImageViewType)
        ensures
            r == self.spec_view_ty(),
    {
        match *self {
            ImageType::D1 { layers, .. } => {
                if layers == 1 {
                    ImageViewType::D1
                } else {
                    ImageViewType::D1Array
                }
            },
            ImageType::D2 { layers, samples, .. } => {
                if samples == 1 {
                    if layers == 1 {
                        ImageViewType::D2
                    } else if layers == 6 {
                        ImageViewType::Cube
                    } else if layers % 6 == 0 {
                        ImageViewType::CubeArray
                    } else {
                        ImageViewType::D2Array
                    }
                } else {
                    if layers == 1 {
                        ImageViewType::D2
                    } else {
                        ImageViewType::D2Array
                    }
                }
            },
            ImageType::D3 { .. } => ImageViewType::D3,
        }
    }
}

/// Law (pure resolution): the resolved target depends on the shape alone;
/// resolving the same shape twice yields the same target.
pub proof fn lemma_resolve_target_deterministic(a: ImageType, b: ImageType)
    requires
        a == b,
    ensures
        a.spec_resolve_target() == b.spec_resolve_target(),
{
}

/// Law (priority table characterization): each target comes from exactly
/// the shapes its priority rule describes. In particular a cube map means
/// exactly six single-sampled layers; a cube-map array any other
/// single-sampled layer count that is a multiple of six; and no shape
/// resolves to the buffer-backed target.
pub proof fn lemma_target_characterization(ty: ImageType)
    ensures
        ty.spec_resolve_target() == Target::Cube <==> (ty matches ImageType::D2 {
            layers: 6,
            samples: 1,
            ..
        }),
        ty.spec_resolve_target() == Target::CubeArray <==> (ty matches ImageType::D2 {
            layers,
            samples: 1,
            ..
        } && layers % 6 == 0 && layers != 6),
        ty.spec_resolve_target() == Target::D2 <==> (ty matches ImageType::D2 {
            layers: 1,
            samples: 1,
            ..
        }),
        ty.spec_resolve_target() == Target::D2Array <==> (ty matches ImageType::D2 {
            layers,
            samples: 1,
            ..
        } && layers != 1 && layers % 6 != 0),
        ty.spec_resolve_target() == Target::D2Multisample <==> (ty matches ImageType::D2 {
            layers: 1,
            samples,
            ..
        } && samples != 1),
        ty.spec_resolve_target() == Target::D2MultisampleArray <==> (ty matches ImageType::D2 {
            layers,
            samples,
            ..
        } && layers != 1 && samples != 1),
        ty.spec_resolve_target() == Target::D1 <==> (ty matches ImageType::D1 { layers: 1, .. }),
        ty.spec_resolve_target() == Target::D1Array <==> (ty matches ImageType::D1 {
            layers,
            ..
        } && layers != 1),
        ty.spec_resolve_target() == Target::D3 <==> ty is D3,
        ty.spec_resolve_target() != Target::TexelBuffer,
{
}

/// The view type that views of a target receive by default: each target
/// views as itself, except that the multisampled targets view as their
/// single-sampled counterparts; buffer-backed storage has no view type.
pub open spec fn spec_view_type_of_target(target: Target) -> Option<ImageViewType> {
    match target {
        Target::D1 => Some(ImageViewType::D1),
        Target::D1Array => Some(ImageViewType::D1Array),
        Target::D2 => Some(ImageViewType::D2),
        Target::D2Array => Some(ImageViewType::D2Array),
        Target::Cube => Some(ImageViewType::Cube),
        Target::CubeArray => Some(ImageViewType::CubeArray),
        Target::D2Multisample => Some(ImageViewType::D2),
        Target::D2MultisampleArray => Some(ImageViewType::D2Array),
        Target::D3 => Some(ImageViewType::D3),
        Target::TexelBuffer => None,
    }
}

/// Law (consistent view derivation): every target a shape resolves to has a
/// view type, and it is the one the shape derives directly, so that "create
/// image plus matching default view" is consistent.
pub proof fn lemma_view_ty_matches_target(ty: ImageType)
    ensures
        spec_view_type_of_target(ty.spec_resolve_target()) == Some(ty.spec_view_ty()),
{
}

/// Image view handle.
///
/// Image views denote subranges of an image storage; pipelines access image
/// data only through views, which alias the memory of the parent image.
#[derive(Copy, Clone, Debug, PartialEq, Eq, Structural)]
pub struct ImageView(pub u32);

/// Image view type.
#[derive(Debug, Clone, Copy, PartialEq, Eq, Structural)]
pub enum ImageViewType {
    D1,
    D2,
    D3,
    Cube,
    D1Array,
    D2Array,
    CubeArray,
}

/// Subresource of an image.
#[derive(Debug)]
pub struct SubresourceRange {
    /// Range of mip levels.
    pub levels: core::ops::Range<u32>,
    /// Range of array layers.
    pub layers: core::ops::Range<u32>,
}

impl Clone for SubresourceRange {
    /// A clone spans the same levels and layers.
    fn clone(&self) -> (r: Self)
        ensures
            r == *self,
    {
        SubresourceRange {
            levels: self.levels.start..self.levels.end,
            layers: self.layers.start..self.layers.end,
        }
    }
}

/// One mip level together with a range of array layers.
#[derive(Debug)]
pub struct SubresourceLayers {
    /// Mipmap level.
    pub level: u32,
    /// Range of array layers.
    pub layers: core::ops::Range<u32>,
}

impl Clone for SubresourceLayers {
    /// A clone addresses the same level and layers.
    fn clone(&self) -> (r: Self)
        ensures
            r == *self,
    {
        SubresourceLayers { level: self.level, layers: self.layers.start..self.layers.end }
    }
}

/// The storage-allocation call of one target family. Allocation is
/// dispatched by family, not by the original shape tag: one-dimensional
/// arrays and cube maps, for instance, share the two-dimensional call,
/// differing only in the target passed alongside.
#[derive(Debug, Clone, Copy, PartialEq, Eq, Structural)]
pub enum StorageAllocation {
    /// One-dimensional storage: plain one-dimensional images.
    S1 { width: u32 },
    /// Two-dimensional storage: one-dimensional arrays (layers as height),
    /// plain two-dimensional images and cube maps.
    S2 { width: u32, height: u32 },
    /// Three-dimensional storage: two-dimensional arrays and cube-map
    /// arrays (layers as depth) and three-dimensional images.
    S3 { width: u32, height: u32, depth: u32 },
}

/// Everything image creation needs: the resolved target, the storage
/// allocation of its family, and the requested mip level count.
#[derive(Debug, Clone, Copy, PartialEq, Eq, Structural)]
pub struct ImagePlan {
    /// The target the shape resolved to.
    pub target: Target,
    /// The storage-allocation call to issue.
    pub storage: StorageAllocation,
    /// Number of mip levels to allocate.
    pub levels: u32,
}

/// The storage allocation of a shape, dispatched by the family of its
/// resolved target. Multisampled storage is not representable here and is
/// an explicit unsupported-combination error, never a silent fallback.
pub open spec fn spec_plan_storage(ty: ImageType) -> Result<StorageAllocation, Error> {
    match ty.spec_resolve_target() {
        Target::D1 => Ok(StorageAllocation::S1 { width: ty.spec_width() }),
        Target::D1Array => Ok(
            StorageAllocation::S2 { width: ty.spec_width(), height: ty.spec_layers() },
        ),
        Target::D2 => Ok(
            StorageAllocation::S2 { width: ty.spec_width(), height: ty.spec_height() },
        ),
        Target::Cube => Ok(
            StorageAllocation::S2 { width: ty.spec_width(), height: ty.spec_height() },
        ),
        Target::D2Array => Ok(
            StorageAllocation::S3 {
                width: ty.spec_width(),
                height: ty.spec_height(),
                depth: ty.spec_layers(),
            },
        ),
        Target::CubeArray => Ok(
            StorageAllocation::S3 {
                width: ty.spec_width(),
                height: ty.spec_height(),
                depth: ty.spec_layers(),
            },
        ),
        Target::D3 => Ok(
            StorageAllocation::S3 {
                width: ty.spec_width(),
                height: ty.spec_height(),
                depth: ty.spec_depth(),
            },
        ),
        Target::D2Multisample => Err(Error::Unsupported),
        Target::D2MultisampleArray => Err(Error::Unsupported),
        Target::TexelBuffer => Err(Error::Unsupported),
    }
}

/// Resolve a shape into its creation plan: the target, the
/// storage-allocation call of the target's family, and the requested level
/// count. Fails exactly on the shapes whose target is multisampled, for
/// which no storage call is representable.
pub fn plan_image(ty: &ImageType, levels: u32) -> (r: Result<ImagePlan, Error>)
    ensures
        r is Ok <==> spec_plan_storage(*ty) is Ok,
        r matches Ok(p) ==> {
            &&& p.target == ty.spec_resolve_target()
            &&& Ok::<StorageAllocation, Error>(p.storage) == spec_plan_storage(*ty)
            &&& p.levels == levels
        },
        r is Err <==> (ty.spec_resolve_target() == Target::D2Multisample
            || ty.spec_resolve_target() == Target::D2MultisampleArray),
        r matches Err(e) ==> e == Error::Unsupported,
{
    let target = ty.resolve_target();
    let storage = match target {
        Target::D1 => StorageAllocation::S1 { width: ty.width() },
        Target::D1Array => StorageAllocation::S2 { width: ty.width(), height: ty.layers() },
        Target::D2 => StorageAllocation::S2 { width: ty.width(), height: ty.height() },
        Target::Cube => StorageAllocation::S2 { width: ty.width(), height: ty.height() },
        Target::D2Array => StorageAllocation::S3 {
            width: ty.width(),
            height: ty.height(),
            depth: ty.layers(),
        },
        Target::CubeArray => StorageAllocation::S3 {
            width: ty.width(),
            height: ty.height(),
            depth: ty.layers(),
        },
        Target::D3 => StorageAllocation::S3 {
            width: ty.width(),
            height: ty.height(),
            depth: ty.depth(),
        },
        Target::D2Multisample => {
            return Err(Error::Unsupported);
        },
        Target::D2MultisampleArray => {
            return Err(Error::Unsupported);
        },
        Target::TexelBuffer => {
            proof {
                assert(ty.spec_resolve_target() != Target::TexelBuffer);
            }
            return Err(Error::Unsupported);
        },
    };
    Ok(ImagePlan { target, storage, levels })
}

/// The concrete target of a view: the requested view type's own target,
/// except that a plain or arrayed two-dimensional view of a multisampled
/// image keeps the image's multisampled target. The image's intrinsic
/// multisample classification is not changeable through a view.
pub open spec fn spec_view_target(view_ty: ImageViewType, image_target: Target) -> Target {
    match view_ty {
        ImageViewType::D1 => Target::D1,
        ImageViewType::D2 => {
            if image_target == Target::D2Multisample {
                Target::D2Multisample
            } else {
                Target::D2
            }
        },
        ImageViewType::D3 => Target::D3,
        ImageViewType::Cube => Target::Cube,
        ImageViewType::D1Array => Target::D1Array,
        ImageViewType::D2Array => {
            if image_target == Target::D2MultisampleArray {
                Target::D2MultisampleArray
            } else {
                Target::D2Array
            }
        },
        ImageViewType::CubeArray => Target::CubeArray,
    }
}

/// Select the concrete target for a view of an image with the given target.
pub fn view_target(view_ty: ImageViewType, image_target: Target) -> (r: Target)
    ensures
        r == spec_view_target(view_ty, image_target),
{
    match view_ty {
        ImageViewType::D1 => Target::D1,
        ImageViewType::D2 => {
            if image_target == Target::D2Multisample {
                Target::D2Multisample
            } else {
                Target::D2
            }
        },
        ImageViewType::D3 => Target::D3,
        ImageViewType::Cube => Target::Cube,
        ImageViewType::D1Array => Target::D1Array,
        ImageViewType::D2Array => {
            if image_target == Target::D2MultisampleArray {
                Target::D2MultisampleArray
            } else {
                Target::D2Array
            }
        },
        ImageViewType::CubeArray => Target::CubeArray,
    }
}

/// The default view of an image created from a shape: the view type the
/// shape derives, all of its layers, and the whole requested mip range.
pub fn default_view_plan(ty: &ImageType, levels: u32) -> (r: (ImageViewType, SubresourceRange))
    ensures
        r.0 == ty.spec_view_ty(),
        r.1.levels.start == 0 && r.1.levels.end == levels,
        r.1.layers.start == 0 && r.1.layers.end == ty.spec_layers(),
{
    (ty.view_ty(), SubresourceRange { levels: 0..levels, layers: 0..ty.layers() })
}

impl Object for Image {
    /// Images label under the image namespace.
    fn object_type(&self) -> ObjectType {
        ObjectType::Image
    }

    fn handle(&self) -> u32 {
        self.raw
    }
}

impl Object for ImageView {
    /// A view is internally an image and labels under the image namespace.
    fn object_type(&self) -> ObjectType {
        ObjectType::Image
    }

    fn handle(&self) -> u32 {
        self.0
    }
}

} // verus!
