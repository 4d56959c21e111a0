//! Drawing and dispatching related commands: primitive topology, index
//! types and the small computations draw submission performs.

use vstd::prelude::*;

use crate::Region;

verus! {

/// Primitive topology: how the input assembler builds primitives from the
/// incoming vertex data.
#[derive(Copy, Clone, Debug, PartialEq, Eq, Structural)]
pub enum Primitive {
    /// Independent vertex points.
    Points,
    /// Line segment list: every two consecutive vertices form a segment.
    Lines,
    /// Connected list of line segments.
    LineStrip,
    /// Triangle list: every three consecutive vertices form a triangle.
    Triangles,
    TriangleStrip,
    LinesAdjacency,
    LinesStripAdjacency,
    TrianglesAdjacency,
    TrianglesStripAdjacency,
    Patches,
}

/// Index size used in indexed draw calls.
#[derive(Copy, Clone, Debug, PartialEq, Eq, Structural)]
pub enum IndexTy {
    /// 8-bit unsigned integer.
    U8,
    /// 16-bit unsigned integer.
    U16,
    /// 32-bit unsigned integer.
    U32,
}

impl IndexTy {
    /// The size of one index of this type, in bytes.
    pub open spec fn spec_size(self) -> u32 {
        match self {
            IndexTy::U8 => 1,
            IndexTy::U16 => 2,
            IndexTy::U32 => 4,
        }
    }

    /// Return the size of one index in bytes.
    pub fn size(self) -> (r: u32)
        ensures
            r == self.spec_size(),
    {
        match self {
            IndexTy::U8 => 1,
            IndexTy::U16 => 2,
            IndexTy::U32 => 4,
        }
    }

    /// The byte offset into the bound index buffer at which the given first
    /// index starts.
    pub fn buffer_offset(self, first_index: u32) -> (r: u64)
        ensures
            r == self.spec_size() * first_index,
    {
        match self {
            IndexTy::U8 => first_index as u64,
            IndexTy::U16 => 2 * (first_index as u64),
            IndexTy::U32 => 4 * (first_index as u64),
        }
    }
}

/// Indirect draw command structure, laid out as the context reads it.
#[derive(Copy, Clone, Debug, PartialEq, Eq, Structural)]
pub struct DrawIndirectCmd {
    pub vertex_count: u32,
    pub instance_count: u32,
    pub first_vertex: u32,
    pub first_instance: u32,
}

/// Indirect indexed draw command structure, laid out as the context reads
/// it.
#[derive(Copy, Clone, Debug, PartialEq, Eq, Structural)]
pub struct DrawIndexedIndirectCmd {
    pub index_count: u32,
    pub instance_count: u32,
    pub first_index: u32,
    pub base_vertex: i32,
    pub first_instance: u32,
}

/// Indirect dispatch command structure, laid out as the context reads it.
#[derive(Copy, Clone, Debug, PartialEq, Eq, Structural)]
pub struct DispatchIndirectCmd {
    /// Number of local workgroups in the x dimension.
    pub x: u32,
    /// Number of local workgroups in the y dimension.
    pub y: u32,
    /// Number of local workgroups in the z dimension.
    pub z: u32,
}

/// The flattened coordinates of a region list: for each region in order,
/// its x, y, width and height.
pub open spec fn spec_region_coords(rs: Seq<Region>) -> Seq<i32>
    decreases rs.len(),
{
    if rs.len() == 0 {
        Seq::empty()
    } else {
        spec_region_coords(rs.drop_last()) + seq![
            rs.last().x,
            rs.last().y,
            rs.last().w,
            rs.last().h,
        ]
    }
}

/// Flatten a list of regions into the coordinate array that scissor
/// configuration passes to the context: x, y, width, height per region.
pub fn region_coords(regions: &Vec<Region>) -> (r: Vec<i32>)
    ensures
        r@ == spec_region_coords(regions@),
        r@.len() == 4 * regions@.len(),
{
    let mut out: Vec<i32> = Vec::new();
    let n = regions.len();
    let mut i: usize = 0;
    while i < n
        invariant
            n == regions@.len(),
            i <= n,
            out@ == spec_region_coords(regions@.subrange(0, i as int)),
            out@.len() == 4 * i,
        decreases n - i,
    {
        let region = &regions[i];
        out.push(region.x);
        out.push(region.y);
        out.push(region.w);
        out.push(region.h);
        proof {
            let prefix = regions@.subrange(0, i as int);
            let grown = regions@.subrange(0, i as int + 1);
            assert(grown.drop_last() =~= prefix);
            assert(out@ =~= spec_region_coords(grown));
        }
        i = i + 1;
    }
    proof {
        assert(regions@.subrange(0, n as int) =~= regions@);
    }
    out
}

} // verus!
