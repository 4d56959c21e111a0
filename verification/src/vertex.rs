//! Vertex arrays and the vertex attribute format resolver.
//!
//! [`VertexFormat::resolve`] is a total mapping from each semantic vertex
//! format to the tuple of base class, component count, scalar type and
//! normalization flag that drives the input assembler. The base class picks
//! one of three mutually exclusive configuration paths: the integer path
//! delivers values unmodified as integers, the float path delivers them as
//! floating point (normalized or scaled), and the double path carries
//! 64-bit floats. [`describe_vertex_attributes`] computes the exact
//! configuration calls that creating a vertex array performs.

use vstd::prelude::*;

use crate::debug::Object;
use crate::debug::ObjectType;

use crate::buffer::Buffer;

verus! {

/// Vertex array handle.
#[derive(Clone, Copy, Debug, PartialEq, Eq, Structural)]
pub struct VertexArray(pub u32);

/// Buffer binding for vertex attribute fetching: which buffer feeds a
/// binding slot, from which offset, with which stride and addressing rate.
#[derive(Debug, Clone, Copy, PartialEq, Eq, Structural)]
pub struct VertexBufferView {
    pub buffer: Buffer,
    pub offset: u64,
    pub stride: u32,
    pub input_rate: InputRate,
}

/// One vertex attribute: its shader location, the binding slot it fetches
/// from, its format and its byte offset within an element.
#[derive(Debug, Clone, Copy, PartialEq, Eq, Structural)]
pub struct VertexAttributeDesc {
    pub location: u32,
    pub binding: u32,
    pub format: VertexFormat,
    pub offset: u32,
}

/// Vertex attribute addressing.
///
/// Specifies whether attribute data is fetched by vertex index or by
/// instance index.
#[derive(Debug, Clone, Copy, PartialEq, Eq, Structural)]
pub enum InputRate {
    /// Vertex index addressing.
    Vertex,
    /// Instance index addressing: the instance index is divided by
    /// `divisor` to obtain the addressing index, so `divisor` consecutive
    /// instances share the same attribute data.
    Instance { divisor: usize },
}

impl InputRate {
    /// The divisor value written for a vertex buffer binding: zero for
    /// per-vertex addressing, the chosen divisor for per-instance
    /// addressing.
    pub open spec fn spec_divisor(self) -> usize {
        match self {
            InputRate::Vertex => 0,
            InputRate::Instance { divisor } => divisor,
        }
    }

    /// Return the binding divisor this addressing mode configures.
    pub fn divisor(&self) -> (r: usize)
        ensures
            r == self.spec_divisor(),
    {
        match *self {
            InputRate::Vertex => 0,
            InputRate::Instance { divisor } => divisor,
        }
    }
}

/// Vertex attribute formats, grouped by scalar width (8/16/32/64 bit),
/// interpretation (integer, unsigned integer, normalized, scaled, float)
/// and component count (`X` one through `Xyzw` four).
#[derive(Debug, Clone, Copy, PartialEq, Eq, Structural)]
pub enum VertexFormat {
    X8Int,
    X8Uint,
    X8Unorm,
    X8Inorm,
    X8Uscaled,
    X8Iscaled,
    Xy8Int,
    Xy8Uint,
    Xy8Unorm,
    Xy8Inorm,
    Xy8Uscaled,
    Xy8Iscaled,
    Xyz8Int,
    Xyz8Uint,
    Xyz8Unorm,
    Xyz8Inorm,
    Xyz8Uscaled,
    Xyz8Iscaled,
    Xyzw8Int,
    Xyzw8Uint,
    Xyzw8Unorm,
    Xyzw8Inorm,
    Xyzw8Uscaled,
    Xyzw8Iscaled,
    X16Int,
    X16Uint,
    X16Float,
    X16Unorm,
    X16Inorm,
    X16Uscaled,
    X16Iscaled,
    Xy16Int,
    Xy16Uint,
    Xy16Float,
    Xy16Unorm,
    Xy16Inorm,
    Xy16Uscaled,
    Xy16Iscaled,
    Xyz16Int,
    Xyz16Uint,
    Xyz16Float,
    Xyz16Unorm,
    Xyz16Inorm,
    Xyz16Uscaled,
    Xyz16Iscaled,
    Xyzw16Int,
    Xyzw16Uint,
    Xyzw16Float,
    Xyzw16Unorm,
    Xyzw16Inorm,
    Xyzw16Uscaled,
    Xyzw16Iscaled,
    X32Int,
    X32Uint,
    X32Float,
    X32Unorm,
    X32Inorm,
    X32Uscaled,
    X32Iscaled,
    Xy32Int,
    Xy32Uint,
    Xy32Float,
    Xy32Unorm,
    Xy32Inorm,
    Xy32Uscaled,
    Xy32Iscaled,
    Xyz32Int,
    Xyz32Uint,
    Xyz32Float,
    Xyz32Unorm,
    Xyz32Inorm,
    Xyz32Uscaled,
    Xyz32Iscaled,
    Xyzw32Int,
    Xyzw32Uint,
    Xyzw32Float,
    Xyzw32Unorm,
    Xyzw32Inorm,
    Xyzw32Uscaled,
    Xyzw32Iscaled,
    X64Float,
    Xy64Float,
    Xyz64Float,
    Xyzw64Float,
}

/// The scalar base class of a vertex format: decides which of the three
/// mutually exclusive attribute-configuration paths registers it.
#[derive(Debug, Clone, Copy, PartialEq, Eq, Structural)]
pub enum VertexBase {
    /// Integer path: values are delivered unmodified as integers.
    Int,
    /// Float path: values are delivered as floating point; the
    /// normalization flag decides between remapping and scaling.
    Float,
    /// Double path: 64-bit floating point values.
    Double,
}

/// The scalar storage type of one component of a vertex format.
#[derive(Debug, Clone, Copy, PartialEq, Eq, Structural)]
pub enum VertexScalarType {
    I8,
    U8,
    I16,
    U16,
    I32,
    U32,
    F16,
    F32,
    F64,
}

/// The resolution of a vertex format: base class, component count, scalar
/// storage type, and whether integer storage is remapped to the unit range
/// rather than left as scaled integers.
#[derive(Debug, Clone, Copy, PartialEq, Eq, Structural)]
pub struct VertexFormatDesc {
    pub base: VertexBase,
    pub components: u32,
    pub scalar: VertexScalarType,
    pub normalized: bool,
}

impl VertexFormat {
    /// The (base class, component count, scalar type, normalized) tuple of
    /// this format.
    pub open spec fn spec_resolve(self) -> VertexFormatDesc {
        match self {
            VertexFormat::X8Int => VertexFormatDesc {
                base: VertexBase::Int,
                components: 1,
                scalar: VertexScalarType::I8,
                normalized: false,
            },
            VertexFormat::X8Uint => VertexFormatDesc {
                base: VertexBase::Int,
                components: 1,
                scalar: VertexScalarType::U8,
                normalized: false,
            },
            VertexFormat::X8Unorm => VertexFormatDesc {
                base: VertexBase::Float,
                components: 1,
                scalar: VertexScalarType::U8,
                normalized: true,
            },
            VertexFormat::X8Inorm => VertexFormatDesc {
                base: VertexBase::Float,
                components: 1,
                scalar: VertexScalarType::I8,
                normalized: true,
            },
            VertexFormat::X8Uscaled => VertexFormatDesc {
                base: VertexBase::Float,
                components: 1,
                scalar: VertexScalarType::U8,
                normalized: false,
            },
            VertexFormat::X8Iscaled => VertexFormatDesc {
                base: VertexBase::Float,
                components: 1,
                scalar: VertexScalarType::I8,
                normalized: false,
            },
            VertexFormat::Xy8Int => VertexFormatDesc {
                base: VertexBase::Int,
                components: 2,
                scalar: VertexScalarType::I8,
                normalized: false,
            },
            VertexFormat::Xy8Uint => VertexFormatDesc {
                base: VertexBase::Int,
                components: 2,
                scalar: VertexScalarType::U8,
                normalized: false,
            },
            VertexFormat::Xy8Unorm => VertexFormatDesc {
                base: VertexBase::Float,
                components: 2,
                scalar: VertexScalarType::U8,
                normalized: true,
            },
            VertexFormat::Xy8Inorm => VertexFormatDesc {
                base: VertexBase::Float,
                components: 2,
                scalar: VertexScalarType::I8,
                normalized: true,
            },
            VertexFormat::Xy8Uscaled => VertexFormatDesc {
                base: VertexBase::Float,
                components: 2,
                scalar: VertexScalarType::U8,
                normalized: false,
            },
            VertexFormat::Xy8Iscaled => VertexFormatDesc {
                base: VertexBase::Float,
                components: 2,
                scalar: VertexScalarType::I8,
                normalized: false,
            },
            VertexFormat::Xyz8Int => VertexFormatDesc {
                base: VertexBase::Int,
                components: 3,
                scalar: VertexScalarType::I8,
                normalized: false,
            },
            VertexFormat::Xyz8Uint => VertexFormatDesc {
                base: VertexBase::Int,
                components: 3,
                scalar: VertexScalarType::U8,
                normalized: false,
            },
            VertexFormat::Xyz8Unorm => VertexFormatDesc {
                base: VertexBase::Float,
                components: 3,
                scalar: VertexScalarType::U8,
                normalized: true,
            },
            VertexFormat::Xyz8Inorm => VertexFormatDesc {
                base: VertexBase::Float,
                components: 3,
                scalar: VertexScalarType::I8,
                normalized: true,
            },
            VertexFormat::Xyz8Uscaled => VertexFormatDesc {
                base: VertexBase::Float,
                components: 3,
                scalar: VertexScalarType::U8,
                normalized: false,
            },
            VertexFormat::Xyz8Iscaled => VertexFormatDesc {
                base: VertexBase::Float,
                components: 3,
                scalar: VertexScalarType::I8,
                normalized: false,
            },
            VertexFormat::Xyzw8Int => VertexFormatDesc {
                base: VertexBase::Int,
                components: 4,
                scalar: VertexScalarType::I8,
                normalized: false,
            },
            VertexFormat::Xyzw8Uint => VertexFormatDesc {
                base: VertexBase::Int,
                components: 4,
                scalar: VertexScalarType::U8,
                normalized: false,
            },
            VertexFormat::Xyzw8Unorm => VertexFormatDesc {
                base: VertexBase::Float,
                components: 4,
                scalar: VertexScalarType::U8,
                normalized: true,
            },
            VertexFormat::Xyzw8Inorm => VertexFormatDesc {
                base: VertexBase::Float,
                components: 4,
                scalar: VertexScalarType::I8,
                normalized: true,
            },
            VertexFormat::Xyzw8Uscaled => VertexFormatDesc {
                base: VertexBase::Float,
                components: 4,
                scalar: VertexScalarType::U8,
                normalized: false,
            },
            VertexFormat::Xyzw8Iscaled => VertexFormatDesc {
                base: VertexBase::Float,
                components: 4,
                scalar: VertexScalarType::I8,
                normalized: false,
            },
            VertexFormat::X16Int => VertexFormatDesc {
                base: VertexBase::Int,
                components: 1,
                scalar: VertexScalarType::I16,
                normalized: false,
            },
            VertexFormat::X16Uint => VertexFormatDesc {
                base: VertexBase::Int,
                components: 1,
                scalar: VertexScalarType::U16,
                normalized: false,
            },
            VertexFormat::X16Float => VertexFormatDesc {
                base: VertexBase::Float,
                components: 1,
                scalar: VertexScalarType::F16,
                normalized: false,
            },
            VertexFormat::X16Unorm => VertexFormatDesc {
                base: VertexBase::Float,
                components: 1,
                scalar: VertexScalarType::U16,
                normalized: true,
            },
            VertexFormat::X16Inorm => VertexFormatDesc {
                base: VertexBase::Float,
                components: 1,
                scalar: VertexScalarType::I16,
                normalized: true,
            },
            VertexFormat::X16Uscaled => VertexFormatDesc {
                base: VertexBase::Float,
                components: 1,
                scalar: VertexScalarType::U16,
                normalized: false,
            },
            VertexFormat::X16Iscaled => VertexFormatDesc {
                base: VertexBase::Float,
                components: 1,
                scalar: VertexScalarType::I16,
                normalized: false,
            },
            VertexFormat::Xy16Int => VertexFormatDesc {
                base: VertexBase::Int,
                components: 2,
                scalar: VertexScalarType::I16,
                normalized: false,
            },
            VertexFormat::Xy16Uint => VertexFormatDesc {
                base: VertexBase::Int,
                components: 2,
                scalar: VertexScalarType::U16,
                normalized: false,
            },
            VertexFormat::Xy16Float => VertexFormatDesc {
                base: VertexBase::Float,
                components: 2,
                scalar: VertexScalarType::F16,
                normalized: false,
            },
            VertexFormat::Xy16Unorm => VertexFormatDesc {
                base: VertexBase::Float,
                components: 2,
                scalar: VertexScalarType::U16,
                normalized: true,
            },
            VertexFormat::Xy16Inorm => VertexFormatDesc {
                base: VertexBase::Float,
                components: 2,
                scalar: VertexScalarType::I16,
                normalized: true,
            },
            VertexFormat::Xy16Uscaled => VertexFormatDesc {
                base: VertexBase::Float,
                components: 2,
                scalar: VertexScalarType::U16,
                normalized: false,
            },
            VertexFormat::Xy16Iscaled => VertexFormatDesc {
                base: VertexBase::Float,
                components: 2,
                scalar: VertexScalarType::I16,
                normalized: false,
            },
            VertexFormat::Xyz16Int => VertexFormatDesc {
                base: VertexBase::Int,
                components: 3,
                scalar: VertexScalarType::I16,
                normalized: false,
            },
            VertexFormat::Xyz16Uint => VertexFormatDesc {
                base: VertexBase::Int,
                components: 3,
                scalar: VertexScalarType::U16,
                normalized: false,
            },
            VertexFormat::Xyz16Float => VertexFormatDesc {
                base: VertexBase::Float,
                components: 3,
                scalar: VertexScalarType::F16,
                normalized: false,
            },
            VertexFormat::Xyz16Unorm => VertexFormatDesc {
                base: VertexBase::Float,
                components: 3,
                scalar: VertexScalarType::U16,
                normalized: true,
            },
            VertexFormat::Xyz16Inorm => VertexFormatDesc {
                base: VertexBase::Float,
                components: 3,
                scalar: VertexScalarType::I16,
                normalized: true,
            },
            VertexFormat::Xyz16Uscaled => VertexFormatDesc {
                base: VertexBase::Float,
                components: 3,
                scalar: VertexScalarType::U16,
                normalized: false,
            },
            VertexFormat::Xyz16Iscaled => VertexFormatDesc {
                base: VertexBase::Float,
                components: 3,
                scalar: VertexScalarType::I16,
                normalized: false,
            },
            VertexFormat::Xyzw16Int => VertexFormatDesc {
                base: VertexBase::Int,
                components: 4,
                scalar: VertexScalarType::I16,
                normalized: false,
            },
            VertexFormat::Xyzw16Uint => VertexFormatDesc {
                base: VertexBase::Int,
                components: 4,
                scalar: VertexScalarType::U16,
                normalized: false,
            },
            VertexFormat::Xyzw16Float => VertexFormatDesc {
                base: VertexBase::Float,
                components: 4,
                scalar: VertexScalarType::F16,
                normalized: false,
            },
            VertexFormat::Xyzw16Unorm => VertexFormatDesc {
                base: VertexBase::Float,
                components: 4,
                scalar: VertexScalarType::U16,
                normalized: true,
            },
            VertexFormat::Xyzw16Inorm => VertexFormatDesc {
                base: VertexBase::Float,
                components: 4,
                scalar: VertexScalarType::I16,
                normalized: true,
            },
            VertexFormat::Xyzw16Uscaled => VertexFormatDesc {
                base: VertexBase::Float,
                components: 4,
                scalar: VertexScalarType::U16,
                normalized: false,
            },
            VertexFormat::Xyzw16Iscaled => VertexFormatDesc {
                base: VertexBase::Float,
                components: 4,
                scalar: VertexScalarType::I16,
                normalized: false,
            },
            VertexFormat::X32Int => VertexFormatDesc {
                base: VertexBase::Int,
                components: 1,
                scalar: VertexScalarType::I32,
                normalized: false,
            },
            VertexFormat::X32Uint => VertexFormatDesc {
                base: VertexBase::Int,
                components: 1,
                scalar: VertexScalarType::U32,
                normalized: false,
            },
            VertexFormat::X32Float => VertexFormatDesc {
                base: VertexBase::Float,
                components: 1,
                scalar: VertexScalarType::F32,
                normalized: false,
            },
            VertexFormat::X32Unorm => VertexFormatDesc {
                base: VertexBase::Float,
                components: 1,
                scalar: VertexScalarType::U32,
                normalized: true,
            },
            VertexFormat::X32Inorm => VertexFormatDesc {
                base: VertexBase::Float,
                components: 1,
                scalar: VertexScalarType::I32,
                normalized: true,
            },
            VertexFormat::X32Uscaled => VertexFormatDesc {
                base: VertexBase::Float,
                components: 1,
                scalar: VertexScalarType::U32,
                normalized: false,
            },
            VertexFormat::X32Iscaled => VertexFormatDesc {
                base: VertexBase::Float,
                components: 1,
                scalar: VertexScalarType::I32,
                normalized: false,
            },
            VertexFormat::Xy32Int => VertexFormatDesc {
                base: VertexBase::Int,
                components: 2,
                scalar: VertexScalarType::I32,
                normalized: false,
            },
            VertexFormat::Xy32Uint => VertexFormatDesc {
                base: VertexBase::Int,
                components: 2,
                scalar: VertexScalarType::U32,
                normalized: false,
            },
            VertexFormat::Xy32Float => VertexFormatDesc {
                base: VertexBase::Float,
                components: 2,
                scalar: VertexScalarType::F32,
                normalized: false,
            },
            VertexFormat::Xy32Unorm => VertexFormatDesc {
                base: VertexBase::Float,
                components: 2,
                scalar: VertexScalarType::U32,
                normalized: true,
            },
            VertexFormat::Xy32Inorm => VertexFormatDesc {
                base: VertexBase::Float,
                components: 2,
                scalar: VertexScalarType::I32,
                normalized: true,
            },
            VertexFormat::Xy32Uscaled => VertexFormatDesc {
                base: VertexBase::Float,
                components: 2,
                scalar: VertexScalarType::U32,
                normalized: false,
            },
            VertexFormat::Xy32Iscaled => VertexFormatDesc {
                base: VertexBase::Float,
                components: 2,
                scalar: VertexScalarType::I32,
                normalized: false,
            },
            VertexFormat::Xyz32Int => VertexFormatDesc {
                base: VertexBase::Int,
                components: 3,
                scalar: VertexScalarType::I32,
                normalized: false,
            },
            VertexFormat::Xyz32Uint => VertexFormatDesc {
                base: VertexBase::Int,
                components: 3,
                scalar: VertexScalarType::U32,
                normalized: false,
            },
            VertexFormat::Xyz32Float => VertexFormatDesc {
                base: VertexBase::Float,
                components: 3,
                scalar: VertexScalarType::F32,
                normalized: false,
            },
            VertexFormat::Xyz32Unorm => VertexFormatDesc {
                base: VertexBase::Float,
                components: 3,
                scalar: VertexScalarType::U32,
                normalized: true,
            },
            VertexFormat::Xyz32Inorm => VertexFormatDesc {
                base: VertexBase::Float,
                components: 3,
                scalar: VertexScalarType::I32,
                normalized: true,
            },
            VertexFormat::Xyz32Uscaled => VertexFormatDesc {
                base: VertexBase::Float,
                components: 3,
                scalar: VertexScalarType::U32,
                normalized: false,
            },
            VertexFormat::Xyz32Iscaled => VertexFormatDesc {
                base: VertexBase::Float,
                components: 3,
                scalar: VertexScalarType::I32,
                normalized: false,
            },
            VertexFormat::Xyzw32Int => VertexFormatDesc {
                base: VertexBase::Int,
                components: 4,
                scalar: VertexScalarType::I32,
                normalized: false,
            },
            VertexFormat::Xyzw32Uint => VertexFormatDesc {
                base: VertexBase::Int,
                components: 4,
                scalar: VertexScalarType::U32,
                normalized: false,
            },
            VertexFormat::Xyzw32Float => VertexFormatDesc {
                base: VertexBase::Float,
                components: 4,
                scalar: VertexScalarType::F32,
                normalized: false,
            },
            VertexFormat::Xyzw32Unorm => VertexFormatDesc {
                base: VertexBase::Float,
                components: 4,
                scalar: VertexScalarType::U32,
                normalized: true,
            },
            VertexFormat::Xyzw32Inorm => VertexFormatDesc {
                base: VertexBase::Float,
                components: 4,
                scalar: VertexScalarType::I32,
                normalized: true,
            },
            VertexFormat::Xyzw32Uscaled => VertexFormatDesc {
                base: VertexBase::Float,
                components: 4,
                scalar: VertexScalarType::U32,
                normalized: false,
            },
            VertexFormat::Xyzw32Iscaled => VertexFormatDesc {
                base: VertexBase::Float,
                components: 4,
                scalar: VertexScalarType::I32,
                normalized: false,
            },
            VertexFormat::X64Float => VertexFormatDesc {
                base: VertexBase::Double,
                components: 1,
                scalar: VertexScalarType::F64,
                normalized: false,
            },
            VertexFormat::Xy64Float => VertexFormatDesc {
                base: VertexBase::Double,
                components: 2,
                scalar: VertexScalarType::F64,
                normalized: false,
            },
            VertexFormat::Xyz64Float => VertexFormatDesc {
                base: VertexBase::Double,
                components: 3,
                scalar: VertexScalarType::F64,
                normalized: false,
            },
            VertexFormat::Xyzw64Float => VertexFormatDesc {
                base: VertexBase::Double,
                components: 4,
                scalar: VertexScalarType::F64,
                normalized: false,
            },
        }
    }

    /// Resolve this format into the tuple that drives the input assembler
    /// configuration. Total: every format yields exactly one tuple, with a
    /// component count between one and four.
    pub fn resolve(self) -> (r: VertexFormatDesc)
        ensures
            r == self.spec_resolve(),
            1 <= r.components <= 4,
    {
        match self {
            VertexFormat::X8Int => VertexFormatDesc {
                base: VertexBase::Int,
                components: 1,
                scalar: VertexScalarType::I8,
                normalized: false,
            },
            VertexFormat::X8Uint => VertexFormatDesc {
                base: VertexBase::Int,
                components: 1,
                scalar: VertexScalarType::U8,
                normalized: false,
            },
            VertexFormat::X8Unorm => VertexFormatDesc {
                base: VertexBase::Float,
                components: 1,
                scalar: VertexScalarType::U8,
                normalized: true,
            },
            VertexFormat::X8Inorm => VertexFormatDesc {
                base: VertexBase::Float,
                components: 1,
                scalar: VertexScalarType::I8,
                normalized: true,
            },
            VertexFormat::X8Uscaled => VertexFormatDesc {
                base: VertexBase::Float,
                components: 1,
                scalar: VertexScalarType::U8,
                normalized: false,
            },
            VertexFormat::X8Iscaled => VertexFormatDesc {
                base: VertexBase::Float,
                components: 1,
                scalar: VertexScalarType::I8,
                normalized: false,
            },
            VertexFormat::Xy8Int => VertexFormatDesc {
                base: VertexBase::Int,
                components: 2,
                scalar: VertexScalarType::I8,
                normalized: false,
            },
            VertexFormat::Xy8Uint => VertexFormatDesc {
                base: VertexBase::Int,
                components: 2,
                scalar: VertexScalarType::U8,
                normalized: false,
            },
            VertexFormat::Xy8Unorm => VertexFormatDesc {
                base: VertexBase::Float,
                components: 2,
                scalar: VertexScalarType::U8,
                normalized: true,
            },
            VertexFormat::Xy8Inorm => VertexFormatDesc {
                base: VertexBase::Float,
                components: 2,
                scalar: VertexScalarType::I8,
                normalized: true,
            },
            VertexFormat::Xy8Uscaled => VertexFormatDesc {
                base: VertexBase::Float,
                components: 2,
                scalar: VertexScalarType::U8,
                normalized: false,
            },
            VertexFormat::Xy8Iscaled => VertexFormatDesc {
                base: VertexBase::Float,
                components: 2,
                scalar: VertexScalarType::I8,
                normalized: false,
            },
            VertexFormat::Xyz8Int => VertexFormatDesc {
                base: VertexBase::Int,
                components: 3,
                scalar: VertexScalarType::I8,
                normalized: false,
            },
            VertexFormat::Xyz8Uint => VertexFormatDesc {
                base: VertexBase::Int,
                components: 3,
                scalar: VertexScalarType::U8,
                normalized: false,
            },
            VertexFormat::Xyz8Unorm => VertexFormatDesc {
                base: VertexBase::Float,
                components: 3,
                scalar: VertexScalarType::U8,
                normalized: true,
            },
            VertexFormat::Xyz8Inorm => VertexFormatDesc {
                base: VertexBase::Float,
                components: 3,
                scalar: VertexScalarType::I8,
                normalized: true,
            },
            VertexFormat::Xyz8Uscaled => VertexFormatDesc {
                base: VertexBase::Float,
                components: 3,
                scalar: VertexScalarType::U8,
                normalized: false,
            },
            VertexFormat::Xyz8Iscaled => VertexFormatDesc {
                base: VertexBase::Float,
                components: 3,
                scalar: VertexScalarType::I8,
                normalized: false,
            },
            VertexFormat::Xyzw8Int => VertexFormatDesc {
                base: VertexBase::Int,
                components: 4,
                scalar: VertexScalarType::I8,
                normalized: false,
            },
            VertexFormat::Xyzw8Uint => VertexFormatDesc {
                base: VertexBase::Int,
                components: 4,
                scalar: VertexScalarType::U8,
                normalized: false,
            },
            VertexFormat::Xyzw8Unorm => VertexFormatDesc {
                base: VertexBase::Float,
                components: 4,
                scalar: VertexScalarType::U8,
                normalized: true,
            },
            VertexFormat::Xyzw8Inorm => VertexFormatDesc {
                base: VertexBase::Float,
                components: 4,
                scalar: VertexScalarType::I8,
                normalized: true,
            },
            VertexFormat::Xyzw8Uscaled => VertexFormatDesc {
                base: VertexBase::Float,
                components: 4,
                scalar: VertexScalarType::U8,
                normalized: false,
            },
            VertexFormat::Xyzw8Iscaled => VertexFormatDesc {
                base: VertexBase::Float,
                components: 4,
                scalar: VertexScalarType::I8,
                normalized: false,
            },
            VertexFormat::X16Int => VertexFormatDesc {
                base: VertexBase::Int,
                components: 1,
                scalar: VertexScalarType::I16,
                normalized: false,
            },
            VertexFormat::X16Uint => VertexFormatDesc {
                base: VertexBase::Int,
                components: 1,
                scalar: VertexScalarType::U16,
                normalized: false,
            },
            VertexFormat::X16Float => VertexFormatDesc {
                base: VertexBase::Float,
                components: 1,
                scalar: VertexScalarType::F16,
                normalized: false,
            },
            VertexFormat::X16Unorm => VertexFormatDesc {
                base: VertexBase::Float,
                components: 1,
                scalar: VertexScalarType::U16,
                normalized: true,
            },
            VertexFormat::X16Inorm => VertexFormatDesc {
                base: VertexBase::Float,
                components: 1,
                scalar: VertexScalarType::I16,
                normalized: true,
            },
            VertexFormat::X16Uscaled => VertexFormatDesc {
                base: VertexBase::Float,
                components: 1,
                scalar: VertexScalarType::U16,
                normalized: false,
            },
            VertexFormat::X16Iscaled => VertexFormatDesc {
                base: VertexBase::Float,
                components: 1,
                scalar: VertexScalarType::I16,
                normalized: false,
            },
            VertexFormat::Xy16Int => VertexFormatDesc {
                base: VertexBase::Int,
                components: 2,
                scalar: VertexScalarType::I16,
                normalized: false,
            },
            VertexFormat::Xy16Uint => VertexFormatDesc {
                base: VertexBase::Int,
                components: 2,
                scalar: VertexScalarType::U16,
                normalized: false,
            },
            VertexFormat::Xy16Float => VertexFormatDesc {
                base: VertexBase::Float,
                components: 2,
                scalar: VertexScalarType::F16,
                normalized: false,
            },
            VertexFormat::Xy16Unorm => VertexFormatDesc {
                base: VertexBase::Float,
                components: 2,
                scalar: VertexScalarType::U16,
                normalized: true,
            },
            VertexFormat::Xy16Inorm => VertexFormatDesc {
                base: VertexBase::Float,
                components: 2,
                scalar: VertexScalarType::I16,
                normalized: true,
            },
            VertexFormat::Xy16Uscaled => VertexFormatDesc {
                base: VertexBase::Float,
                components: 2,
                scalar: VertexScalarType::U16,
                normalized: false,
            },
            VertexFormat::Xy16Iscaled => VertexFormatDesc {
                base: VertexBase::Float,
                components: 2,
                scalar: VertexScalarType::I16,
                normalized: false,
            },
            VertexFormat::Xyz16Int => VertexFormatDesc {
                base: VertexBase::Int,
                components: 3,
                scalar: VertexScalarType::I16,
                normalized: false,
            },
            VertexFormat::Xyz16Uint => VertexFormatDesc {
                base: VertexBase::Int,
                components: 3,
                scalar: VertexScalarType::U16,
                normalized: false,
            },
            VertexFormat::Xyz16Float => VertexFormatDesc {
                base: VertexBase::Float,
                components: 3,
                scalar: VertexScalarType::F16,
                normalized: false,
            },
            VertexFormat::Xyz16Unorm => VertexFormatDesc {
                base: VertexBase::Float,
                components: 3,
                scalar: VertexScalarType::U16,
                normalized: true,
            },
            VertexFormat::Xyz16Inorm => VertexFormatDesc {
                base: VertexBase::Float,
                components: 3,
                scalar: VertexScalarType::I16,
                normalized: true,
            },
            VertexFormat::Xyz16Uscaled => VertexFormatDesc {
                base: VertexBase::Float,
                components: 3,
                scalar: VertexScalarType::U16,
                normalized: false,
            },
            VertexFormat::Xyz16Iscaled => VertexFormatDesc {
                base: VertexBase::Float,
                components: 3,
                scalar: VertexScalarType::I16,
                normalized: false,
            },
            VertexFormat::Xyzw16Int => VertexFormatDesc {
                base: VertexBase::Int,
                components: 4,
                scalar: VertexScalarType::I16,
                normalized: false,
            },
            VertexFormat::Xyzw16Uint => VertexFormatDesc {
                base: VertexBase::Int,
                components: 4,
                scalar: VertexScalarType::U16,
                normalized: false,
            },
            VertexFormat::Xyzw16Float => VertexFormatDesc {
                base: VertexBase::Float,
                components: 4,
                scalar: VertexScalarType::F16,
                normalized: false,
            },
            VertexFormat::Xyzw16Unorm => VertexFormatDesc {
                base: VertexBase::Float,
                components: 4,
                scalar: VertexScalarType::U16,
                normalized: true,
            },
            VertexFormat::Xyzw16Inorm => VertexFormatDesc {
                base: VertexBase::Float,
                components: 4,
                scalar: VertexScalarType::I16,
                normalized: true,
            },
            VertexFormat::Xyzw16Uscaled => VertexFormatDesc {
                base: VertexBase::Float,
                components: 4,
                scalar: VertexScalarType::U16,
                normalized: false,
            },
            VertexFormat::Xyzw16Iscaled => VertexFormatDesc {
                base: VertexBase::Float,
                components: 4,
                scalar: VertexScalarType::I16,
                normalized: false,
            },
            VertexFormat::X32Int => VertexFormatDesc {
                base: VertexBase::Int,
                components: 1,
                scalar: VertexScalarType::I32,
                normalized: false,
            },
            VertexFormat::X32Uint => VertexFormatDesc {
                base: VertexBase::Int,
                components: 1,
                scalar: VertexScalarType::U32,
                normalized: false,
            },
            VertexFormat::X32Float => VertexFormatDesc {
                base: VertexBase::Float,
                components: 1,
                scalar: VertexScalarType::F32,
                normalized: false,
            },
            VertexFormat::X32Unorm => VertexFormatDesc {
                base: VertexBase::Float,
                components: 1,
                scalar: VertexScalarType::U32,
                normalized: true,
            },
            VertexFormat::X32Inorm => VertexFormatDesc {
                base: VertexBase::Float,
                components: 1,
                scalar: VertexScalarType::I32,
                normalized: true,
            },
            VertexFormat::X32Uscaled => VertexFormatDesc {
                base: VertexBase::Float,
                components: 1,
                scalar: VertexScalarType::U32,
                normalized: false,
            },
            VertexFormat::X32Iscaled => VertexFormatDesc {
                base: VertexBase::Float,
                components: 1,
                scalar: VertexScalarType::I32,
                normalized: false,
            },
            VertexFormat::Xy32Int => VertexFormatDesc {
                base: VertexBase::Int,
                components: 2,
                scalar: VertexScalarType::I32,
                normalized: false,
            },
            VertexFormat::Xy32Uint => VertexFormatDesc {
                base: VertexBase::Int,
                components: 2,
                scalar: VertexScalarType::U32,
                normalized: false,
            },
            VertexFormat::Xy32Float => VertexFormatDesc {
                base: VertexBase::Float,
                components: 2,
                scalar: VertexScalarType::F32,
                normalized: false,
            },
            VertexFormat::Xy32Unorm => VertexFormatDesc {
                base: VertexBase::Float,
                components: 2,
                scalar: VertexScalarType::U32,
                normalized: true,
            },
            VertexFormat::Xy32Inorm => VertexFormatDesc {
                base: VertexBase::Float,
                components: 2,
                scalar: VertexScalarType::I32,
                normalized: true,
            },
            VertexFormat::Xy32Uscaled => VertexFormatDesc {
                base: VertexBase::Float,
                components: 2,
                scalar: VertexScalarType::U32,
                normalized: false,
            },
            VertexFormat::Xy32Iscaled => VertexFormatDesc {
                base: VertexBase::Float,
                components: 2,
                scalar: VertexScalarType::I32,
                normalized: false,
            },
            VertexFormat::Xyz32Int => VertexFormatDesc {
                base: VertexBase::Int,
                components: 3,
                scalar: VertexScalarType::I32,
                normalized: false,
            },
            VertexFormat::Xyz32Uint => VertexFormatDesc {
                base: VertexBase::Int,
                components: 3,
                scalar: VertexScalarType::U32,
                normalized: false,
            },
            VertexFormat::Xyz32Float => VertexFormatDesc {
                base: VertexBase::Float,
                components: 3,
                scalar: VertexScalarType::F32,
                normalized: false,
            },
            VertexFormat::Xyz32Unorm => VertexFormatDesc {
                base: VertexBase::Float,
                components: 3,
                scalar: VertexScalarType::U32,
                normalized: true,
            },
            VertexFormat::Xyz32Inorm => VertexFormatDesc {
                base: VertexBase::Float,
                components: 3,
                scalar: VertexScalarType::I32,
                normalized: true,
            },
            VertexFormat::Xyz32Uscaled => VertexFormatDesc {
                base: VertexBase::Float,
                components: 3,
                scalar: VertexScalarType::U32,
                normalized: false,
            },
            VertexFormat::Xyz32Iscaled => VertexFormatDesc {
                base: VertexBase::Float,
                components: 3,
                scalar: VertexScalarType::I32,
                normalized: false,
            },
            VertexFormat::Xyzw32Int => VertexFormatDesc {
                base: VertexBase::Int,
                components: 4,
                scalar: VertexScalarType::I32,
                normalized: false,
            },
            VertexFormat::Xyzw32Uint => VertexFormatDesc {
                base: VertexBase::Int,
                components: 4,
                scalar: VertexScalarType::U32,
                normalized: false,
            },
            VertexFormat::Xyzw32Float => VertexFormatDesc {
                base: VertexBase::Float,
                components: 4,
                scalar: VertexScalarType::F32,
                normalized: false,
            },
            VertexFormat::Xyzw32Unorm => VertexFormatDesc {
                base: VertexBase::Float,
                components: 4,
                scalar: VertexScalarType::U32,
                normalized: true,
            },
            VertexFormat::Xyzw32Inorm => VertexFormatDesc {
                base: VertexBase::Float,
                components: 4,
                scalar: VertexScalarType::I32,
                normalized: true,
            },
            VertexFormat::Xyzw32Uscaled => VertexFormatDesc {
                base: VertexBase::Float,
                components: 4,
                scalar: VertexScalarType::U32,
                normalized: false,
            },
            VertexFormat::Xyzw32Iscaled => VertexFormatDesc {
                base: VertexBase::Float,
                components: 4,
                scalar: VertexScalarType::I32,
                normalized: false,
            },
            VertexFormat::X64Float => VertexFormatDesc {
                base: VertexBase::Double,
                components: 1,
                scalar: VertexScalarType::F64,
                normalized: false,
            },
            VertexFormat::Xy64Float => VertexFormatDesc {
                base: VertexBase::Double,
                components: 2,
                scalar: VertexScalarType::F64,
                normalized: false,
            },
            VertexFormat::Xyz64Float => VertexFormatDesc {
                base: VertexBase::Double,
                components: 3,
                scalar: VertexScalarType::F64,
                normalized: false,
            },
            VertexFormat::Xyzw64Float => VertexFormatDesc {
                base: VertexBase::Double,
                components: 4,
                scalar: VertexScalarType::F64,
                normalized: false,
            },
        }
    }
}

/// Law (total resolution): every vertex format resolves to a component
/// count between one and four.
pub proof fn lemma_resolve_component_count(f: VertexFormat)
    ensures
        1 <= f.spec_resolve().components <= 4,
{
}

/// One configuration call performed while building a vertex array. Each
/// attribute contributes an enable, exactly one format call on the path its
/// base class picks, and its binding-slot association.
#[derive(Debug, Clone, Copy, PartialEq, Eq, Structural)]
pub enum VertexArrayCommand {
    /// Enable the attribute at `location`.
    EnableAttribute { location: u32 },
    /// Register the attribute through the integer path.
    AttributeIntFormat { location: u32, components: u32, scalar: VertexScalarType, offset: u32 },
    /// Register the attribute through the float path; `normalized` decides
    /// between unit-range remapping and scaled integers.
    AttributeFloatFormat {
        location: u32,
        components: u32,
        scalar: VertexScalarType,
        normalized: bool,
        offset: u32,
    },
    /// Register the attribute through the double path.
    AttributeDoubleFormat {
        location: u32,
        components: u32,
        scalar: VertexScalarType,
        offset: u32,
    },
    /// Associate the attribute at `location` with a binding slot.
    AttributeBinding { location: u32, binding: u32 },
}

/// The format-configuration call of one attribute: its resolved tuple,
/// registered through the one path its base class picks.
pub open spec fn spec_attribute_format_cmd(desc: VertexAttributeDesc) -> VertexArrayCommand {
    let d = desc.format.spec_resolve();
    match d.base {
        VertexBase::Int => VertexArrayCommand::AttributeIntFormat {
            location: desc.location,
            components: d.components,
            scalar: d.scalar,
            offset: desc.offset,
        },
        VertexBase::Float => VertexArrayCommand::AttributeFloatFormat {
            location: desc.location,
            components: d.components,
            scalar: d.scalar,
            normalized: d.normalized,
            offset: desc.offset,
        },
        VertexBase::Double => VertexArrayCommand::AttributeDoubleFormat {
            location: desc.location,
            components: d.components,
            scalar: d.scalar,
            offset: desc.offset,
        },
    }
}

/// The three configuration calls of one attribute: enable, one format
/// call, binding association.
pub open spec fn spec_attribute_cmds(desc: VertexAttributeDesc) -> Seq<VertexArrayCommand> {
    seq![
        VertexArrayCommand::EnableAttribute { location: desc.location },
        spec_attribute_format_cmd(desc),
        VertexArrayCommand::AttributeBinding { location: desc.location, binding: desc.binding },
    ]
}

/// The configuration calls of a whole attribute list, in order.
pub open spec fn spec_vertex_attribute_cmds(descs: Seq<VertexAttributeDesc>) -> Seq<
    VertexArrayCommand,
>
    decreases descs.len(),
{
    if descs.len() == 0 {
        Seq::empty()
    } else {
        spec_vertex_attribute_cmds(descs.drop_last()) + spec_attribute_cmds(descs.last())
    }
}

/// Compute the configuration calls that creating a vertex array for the
/// given attributes performs: for each attribute in order, an enable, the
/// single format call of its resolved base class, and the binding
/// association.
pub fn describe_vertex_attributes(attributes: &Vec<VertexAttributeDesc>) -> (r: Vec<
    VertexArrayCommand,
>)
    ensures
        r@ == spec_vertex_attribute_cmds(attributes@),
        r@.len() == 3 * attributes@.len(),
{
    let mut out: Vec<VertexArrayCommand> = Vec::new();
    let n = attributes.len();
    let mut i: usize = 0;
    while i < n
        invariant
            n == attributes@.len(),
            i <= n,
            out@ == spec_vertex_attribute_cmds(attributes@.subrange(0, i as int)),
            out@.len() == 3 * i,
        decreases n - i,
    {
        let desc = &attributes[i];
        let d = desc.format.resolve();
        out.push(VertexArrayCommand::EnableAttribute { location: desc.location });
        match d.base {
            VertexBase::Int => {
                out.push(
                    VertexArrayCommand::AttributeIntFormat {
                        location: desc.location,
                        components: d.components,
                        scalar: d.scalar,
                        offset: desc.offset,
                    },
                );
            },
            VertexBase::Float => {
                out.push(
                    VertexArrayCommand::AttributeFloatFormat {
                        location: desc.location,
                        components: d.components,
                        scalar: d.scalar,
                        normalized: d.normalized,
                        offset: desc.offset,
                    },
                );
            },
            VertexBase::Double => {
                out.push(
                    VertexArrayCommand::AttributeDoubleFormat {
                        location: desc.location,
                        components: d.components,
                        scalar: d.scalar,
                        offset: desc.offset,
                    },
                );
            },
        }
        out.push(
            VertexArrayCommand::AttributeBinding {
                location: desc.location,
                binding: desc.binding,
            },
        );
        proof {
            let prefix = attributes@.subrange(0, i as int);
            let grown = attributes@.subrange(0, i as int + 1);
            assert(grown.drop_last() =~= prefix);
            assert(out@ =~= spec_vertex_attribute_cmds(grown));
        }
        i = i + 1;
    }
    proof {
        assert(attributes@.subrange(0, n as int) =~= attributes@);
    }
    out
}

/// Whether a command is one of the three format-configuration calls.
pub open spec fn spec_is_format_cmd(c: VertexArrayCommand) -> bool {
    match c {
        VertexArrayCommand::AttributeIntFormat { .. } => true,
        VertexArrayCommand::AttributeFloatFormat { .. } => true,
        VertexArrayCommand::AttributeDoubleFormat { .. } => true,
        _ => false,
    }
}

/// Law (one path per attribute): the three calls of one attribute contain
/// exactly one format-configuration call, and it runs on the path that the
/// attribute's resolved base class picks: the integer path for `Int`, the
/// float path for `Float`, the double path for `Double`.
pub proof fn lemma_attribute_single_path(desc: VertexAttributeDesc)
    ensures
        spec_attribute_cmds(desc).len() == 3,
        spec_is_format_cmd(spec_attribute_cmds(desc)[1]),
        !spec_is_format_cmd(spec_attribute_cmds(desc)[0]),
        !spec_is_format_cmd(spec_attribute_cmds(desc)[2]),
        desc.format.spec_resolve().base == VertexBase::Int <==> spec_attribute_cmds(
            desc,
        )[1] matches VertexArrayCommand::AttributeIntFormat { .. },
        desc.format.spec_resolve().base == VertexBase::Float <==> spec_attribute_cmds(
            desc,
        )[1] matches VertexArrayCommand::AttributeFloatFormat { .. },
        desc.format.spec_resolve().base == VertexBase::Double <==> spec_attribute_cmds(
            desc,
        )[1] matches VertexArrayCommand::AttributeDoubleFormat { .. },
{
}

impl Object for VertexArray {
    /// Vertex arrays label under the vertex-array namespace.
    fn object_type(&self) -> ObjectType {
        ObjectType::VertexArray
    }

    fn handle(&self) -> u32 {
        self.0
    }
}

} // verus!
