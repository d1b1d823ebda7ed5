//! Vertex layout descriptions.
//!
//! A vertex record is uploaded to the GPU as a raw byte blob, so the attribute
//! markers attached to a buffer must describe that blob exactly: the markers
//! must partition the record's byte layout, in order, with no gap and no
//! overlap. `markers_partition` states that invariant and `check_markers`
//! decides it; the layouts shipped here are proved to satisfy it.

use vstd::prelude::*;

use crate::types::{ShaderAttrib, VertexAttrib};
use crate::util::SurfacePoint;

verus! {

/// Marks one attribute of a vertex record for the native attribute-pointer
/// registration: which shader slot it feeds, its component type and count,
/// whether the native API should normalize it, and its byte offset within
/// the record.
#[derive(Copy, Clone, PartialEq, Eq, Structural, Debug)]
pub struct VBOAttribMarker {
    pub name: ShaderAttrib,
    pub data_type: VertexAttrib,
    pub elements_per_vertex: u32,
    pub normalize: bool,
    pub offset: usize,
}

impl VBOAttribMarker {
    pub fn new(
        name: ShaderAttrib,
        data_type: VertexAttrib,
        elements_per_vertex: u32,
        normalize: bool,
        offset: usize,
    ) -> (r: VBOAttribMarker)
        ensures
            r == (VBOAttribMarker { name, data_type, elements_per_vertex, normalize, offset }),
    {
        VBOAttribMarker { name, data_type, elements_per_vertex, normalize, offset }
    }
}

/// Number of bytes the marked attribute occupies in the vertex record.
pub open spec fn marker_span(m: VBOAttribMarker) -> int {
    m.elements_per_vertex * m.data_type.spec_byte_size()
}

/// First byte past the marked attribute.
pub open spec fn marker_end(m: VBOAttribMarker) -> int {
    m.offset + marker_span(m)
}

/// The markers partition a record of `stride` bytes: the first attribute
/// starts at byte zero, each next one starts where the previous one ends,
/// and the last one ends at the stride.
pub open spec fn markers_partition(ms: Seq<VBOAttribMarker>, stride: int) -> bool {
    &&& ms.len() > 0
    &&& ms[0].offset == 0
    &&& forall|i: int| 0 < i < ms.len() ==> (#[trigger] ms[i]).offset == marker_end(ms[i - 1])
    &&& marker_end(ms[ms.len() - 1]) == stride
}

/// Decides `markers_partition` for a marker list.
pub fn check_markers(ms: &Vec<VBOAttribMarker>, stride: usize) -> (r: bool)
    ensures
        r == markers_partition(ms@, stride as int),
{
    if ms.len() == 0 {
        return false;
    }
    let first = ms[0];
    if first.offset != 0 {
        return false;
    }
    let mut i: usize = 1;
    while i < ms.len()
        invariant
            1 <= i <= ms@.len(),
            ms@.len() > 0,
            ms@[0].offset == 0,
            forall|j: int| 0 < j < i ==> (#[trigger] ms@[j]).offset == marker_end(ms@[j - 1]),
        decreases ms@.len() - i,
    {
        let prev = ms[i - 1];
        let cur = ms[i];
        let prev_size = prev.data_type.byte_size();
        assert(prev_size <= 4);
        let prev_end: u128 = prev.offset as u128 + (prev.elements_per_vertex as u128) * (
        prev_size as u128);
        if cur.offset as u128 != prev_end {
            return false;
        }
        i = i + 1;
    }
    let last = ms[ms.len() - 1];
    let last_size = last.data_type.byte_size();
    assert(last_size <= 4);
    let last_end: u128 = last.offset as u128 + (last.elements_per_vertex as u128) * (
    last_size as u128);
    last_end == stride as u128
}

/// Interface for vertex data representations.
///
/// An implementing type describes its own byte layout as an ordered list of
/// attribute markers and knows how to build itself from a surface point
/// descriptor. The tessellators and buffer wrappers are generic over this
/// capability; no behaviour of an implementation is assumed, only used.
pub trait Vertex: Sized {
    /// Attribute markers that tell the native API how to interpret the raw
    /// buffer data backing this vertex type.
    fn vertex_attrib_markers() -> Vec<VBOAttribMarker>;

    /// Construct a vertex from a surface point descriptor, projecting
    /// whichever subset of position, normal and texture coordinates the
    /// layout carries.
    fn from_point3d(point: &SurfacePoint) -> Self;
}

/// Marker list for a vertex of one 3-float position: 12 bytes.
pub fn vertex_p_markers() -> (r: Vec<VBOAttribMarker>)
    ensures
        r@.len() == 1,
        r@[0] == (VBOAttribMarker {
            name: ShaderAttrib::POSITION,
            data_type: VertexAttrib::FLOAT,
            elements_per_vertex: 3,
            normalize: false,
            offset: 0,
        }),
        markers_partition(r@, 12),
{
    let mut r: Vec<VBOAttribMarker> = Vec::new();
    r.push(VBOAttribMarker::new(ShaderAttrib::POSITION, VertexAttrib::FLOAT, 3, false, 0));
    r
}

/// Marker list for a vertex of position and texture coordinates: 20 bytes.
pub fn vertex_uv_markers() -> (r: Vec<VBOAttribMarker>)
    ensures
        r@.len() == 2,
        r@[0] == (VBOAttribMarker {
            name: ShaderAttrib::POSITION,
            data_type: VertexAttrib::FLOAT,
            elements_per_vertex: 3,
            normalize: false,
            offset: 0,
        }),
        r@[1] == (VBOAttribMarker {
            name: ShaderAttrib::TEXCOORD0,
            data_type: VertexAttrib::FLOAT,
            elements_per_vertex: 2,
            normalize: false,
            offset: 12,
        }),
        markers_partition(r@, 20),
{
    let mut r: Vec<VBOAttribMarker> = Vec::new();
    r.push(VBOAttribMarker::new(ShaderAttrib::POSITION, VertexAttrib::FLOAT, 3, false, 0));
    r.push(VBOAttribMarker::new(ShaderAttrib::TEXCOORD0, VertexAttrib::FLOAT, 2, false, 12));
    r
}

/// Marker list for a vertex of position and normal: 24 bytes.
pub fn vertex_n_markers() -> (r: Vec<VBOAttribMarker>)
    ensures
        r@.len() == 2,
        r@[0] == (VBOAttribMarker {
            name: ShaderAttrib::POSITION,
            data_type: VertexAttrib::FLOAT,
            elements_per_vertex: 3,
            normalize: false,
            offset: 0,
        }),
        r@[1] == (VBOAttribMarker {
            name: ShaderAttrib::NORMAL,
            data_type: VertexAttrib::FLOAT,
            elements_per_vertex: 3,
            normalize: false,
            offset: 12,
        }),
        markers_partition(r@, 24),
{
    let mut r: Vec<VBOAttribMarker> = Vec::new();
    r.push(VBOAttribMarker::new(ShaderAttrib::POSITION, VertexAttrib::FLOAT, 3, false, 0));
    r.push(VBOAttribMarker::new(ShaderAttrib::NORMAL, VertexAttrib::FLOAT, 3, false, 12));
    r
}

/// Marker list for a vertex of position, normal and texture coordinates:
/// 32 bytes.
pub fn vertex_nt_markers() -> (r: Vec<VBOAttribMarker>)
    ensures
        r@.len() == 3,
        r@[0] == (VBOAttribMarker {
            name: ShaderAttrib::POSITION,
            data_type: VertexAttrib::FLOAT,
            elements_per_vertex: 3,
            normalize: false,
            offset: 0,
        }),
        r@[1] == (VBOAttribMarker {
            name: ShaderAttrib::NORMAL,
            data_type: VertexAttrib::FLOAT,
            elements_per_vertex: 3,
            normalize: false,
            offset: 12,
        }),
        r@[2] == (VBOAttribMarker {
            name: ShaderAttrib::TEXCOORD0,
            data_type: VertexAttrib::FLOAT,
            elements_per_vertex: 2,
            normalize: false,
            offset: 24,
        }),
        markers_partition(r@, 32),
{
    let mut r: Vec<VBOAttribMarker> = Vec::new();
    r.push(VBOAttribMarker::new(ShaderAttrib::POSITION, VertexAttrib::FLOAT, 3, false, 0));
    r.push(VBOAttribMarker::new(ShaderAttrib::NORMAL, VertexAttrib::FLOAT, 3, false, 12));
    r.push(VBOAttribMarker::new(ShaderAttrib::TEXCOORD0, VertexAttrib::FLOAT, 2, false, 24));
    proof {
        assert(r@[2].data_type == VertexAttrib::FLOAT);
        assert(marker_span(r@[0]) == 12);
        assert(marker_span(r@[1]) == 12);
        assert(marker_span(r@[2]) == 8);
    }
    r
}

/// A cube corner vertex of three signed bytes, each `-1` or `1`.
///
/// This is the native layout of the skybox cube: positions need no more
/// precision than one byte per axis.
#[derive(Copy, Clone, PartialEq, Eq, Structural, Debug)]
pub struct CornerVertex {
    pub x: i8,
    pub y: i8,
    pub z: i8,
}

/// Marker list for a `CornerVertex`: 3 bytes.
pub fn corner_markers() -> (r: Vec<VBOAttribMarker>)
    ensures
        r@.len() == 1,
        r@[0] == (VBOAttribMarker {
            name: ShaderAttrib::POSITION,
            data_type: VertexAttrib::BYTE,
            elements_per_vertex: 3,
            normalize: false,
            offset: 0,
        }),
        markers_partition(r@, 3),
{
    let mut r: Vec<VBOAttribMarker> = Vec::new();
    r.push(VBOAttribMarker::new(ShaderAttrib::POSITION, VertexAttrib::BYTE, 3, false, 0));
    r
}

impl Vertex for CornerVertex {
    fn vertex_attrib_markers() -> Vec<VBOAttribMarker> {
        corner_markers()
    }

    /// Corner points carry their coordinates directly; any other descriptor
    /// maps to the fixed corner `(1, 1, 1)`, since this layout can only
    /// hold cube corners.
    fn from_point3d(point: &SurfacePoint) -> Self {
        match point {
            SurfacePoint::Corner { x, y, z } => CornerVertex { x: *x, y: *y, z: *z },
            _ => CornerVertex { x: 1, y: 1, z: 1 },
        }
    }
}

} // verus!
