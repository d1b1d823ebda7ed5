//! Shape-level wrappers and their error taxonomy.
//!
//! A [`ShapeGL`] owns the three native objects behind one drawable shape —
//! vertex buffer, index buffer and draw object — and computes the native
//! call sequences that set it up and draw it. The tessellated primitives
//! are built here from the mesh generators of [`crate::sphere`] and
//! [`crate::cylinder`], projected through a caller-supplied vertex type.

use vstd::prelude::*;

use crate::buffer::{DrawMethod, GlOp, IBO, VAO, VBO};
use crate::cylinder::{
    cylinder_index_count, cylinder_mesh, cylinder_params_ok, cylinder_vertex_count,
};
use crate::data::Vertex;
use crate::shader;
use crate::sphere::{sphere_index_count, sphere_mesh, sphere_params_ok, sphere_vertex_count};
use crate::types::GlLayout;
use crate::uniform;

verus! {

/// Rejected tessellation parameters.
#[derive(Copy, Clone, PartialEq, Eq, Structural, Debug)]
pub enum TessellationError {
    /// The resolution is below the supported minimum, or so large that the
    /// vertex count would overflow a 32-bit index.
    InvalidResolution,
}

/// Errors surfaced while drawing a shape.
#[derive(Clone, PartialEq, Eq, Debug)]
pub enum DrawError {
    /// A uniform assignment failed.
    UniformError { inner: uniform::Error },
}

impl From<uniform::Error> for DrawError {
    fn from(other: uniform::Error) -> (r: Self) {
        DrawError::UniformError { inner: other }
    }
}

impl vstd::std_specs::convert::FromSpecImpl<uniform::Error> for DrawError {
    open spec fn obeys_from_spec() -> bool {
        true
    }

    open spec fn from_spec(other: uniform::Error) -> Self {
        DrawError::UniformError { inner: other }
    }
}

/// Errors surfaced while constructing a shape.
#[derive(Clone, PartialEq, Eq, Debug)]
pub enum InitError {
    /// A shader program could not be built.
    ShaderError(shader::Error),
    /// A resource the shape needs could not be loaded; carries the
    /// loader's message.
    ResourceError(String),
}

impl From<shader::Error> for InitError {
    fn from(other: shader::Error) -> (r: Self) {
        InitError::ShaderError(other)
    }
}

impl vstd::std_specs::convert::FromSpecImpl<shader::Error> for InitError {
    open spec fn obeys_from_spec() -> bool {
        true
    }

    open spec fn from_spec(other: shader::Error) -> Self {
        InitError::ShaderError(other)
    }
}

/// Every index refers to a vertex of the associated buffer.
pub open spec fn indices_in_bounds(indices: Seq<u32>, nverts: int) -> bool {
    forall|i: int| 0 <= i < indices.len() ==> (#[trigger] indices[i]) < nverts
}

/// Owner of the native objects behind one drawable shape: vertex buffer,
/// index buffer and draw object.
pub struct ShapeGL {
    pub vbo: VBO,
    pub ibo: IBO,
    pub vao: VAO,
}

impl ShapeGL {
    /// Associate vertex data with a drawing order over it.
    ///
    /// The three ids are the native handles the embedder generated for the
    /// vertex buffer, the index buffer and the draw object. Every index
    /// must be in bounds of the vertex data, as a mesh requires.
    pub fn new<T: Vertex>(
        vbo_id: u32,
        ibo_id: u32,
        vao_id: u32,
        vertex_data: &Vec<T>,
        indices: &Vec<u32>,
        layout: GlLayout,
    ) -> (r: ShapeGL)
        requires
            indices_in_bounds(indices@, vertex_data@.len() as int),
        ensures
            r.vbo.id == vbo_id,
            r.vbo.buffer_size == vertex_data@.len(),
            r.vbo.stride == vstd::layout::size_of::<T>(),
            r.ibo.id == ibo_id,
            r.ibo.buffer_size == indices@.len(),
            r.vao.id == vao_id,
            r.vao.layout == layout,
            r.vao.draw_method == DrawMethod::INDEXED,
            r.vao.num_vertices == indices@.len(),
    {
        let vbo = VBO::from_data::<T>(vbo_id, vertex_data);
        let ibo = IBO::from_data(ibo_id, indices);
        let vao = VAO::new(vao_id, &vbo, Some(&ibo), layout);
        ShapeGL { vbo, ibo, vao }
    }

    /// Native calls that bind this shape's buffers into its draw object,
    /// in the fixed binding order.
    pub fn setup_ops(&self) -> (r: Vec<GlOp>)
        ensures
            r@ == crate::buffer::setup_ops_spec(self.vao.id, self.vbo, Some(self.ibo)),
    {
        self.vao.setup_ops(&self.vbo, Some(&self.ibo))
    }

    /// Number of vertices one draw call renders.
    pub fn vertex_count(&self) -> (r: usize)
        ensures
            r == self.vao.num_vertices,
    {
        self.vao.vertex_count()
    }

    /// Native calls of one draw: bind the draw object and index buffer,
    /// issue the draw, unbind both.
    pub fn draw_vertices(&self) -> (r: Vec<GlOp>)
        ensures
            r@.len() == 5,
            r@[0] == GlOp::BindVertexArray(self.vao.id),
            r@[1] == GlOp::BindElementArrayBuffer(self.ibo.id),
            self.vao.draw_method == DrawMethod::INDEXED ==> r@[2] == (GlOp::DrawElements {
                mode: self.vao.layout,
                count: self.vao.num_vertices,
            }),
            self.vao.draw_method == DrawMethod::ARRAYS ==> r@[2] == (GlOp::DrawArrays {
                mode: self.vao.layout,
                first: 0,
                count: self.vao.num_vertices,
            }),
            r@[3] == GlOp::BindElementArrayBuffer(0),
            r@[4] == GlOp::BindVertexArray(0),
    {
        let mut r: Vec<GlOp> = Vec::new();
        r.push(self.vao.bind());
        r.push(self.ibo.bind());
        r.push(self.vao.draw());
        r.push(self.ibo.unbind());
        r.push(self.vao.unbind());
        r
    }

    /// Tessellate a sphere of unit diameter and wrap it for drawing,
    /// projecting each surface point through the vertex type.
    pub fn sphere<T: Vertex>(
        vbo_id: u32,
        ibo_id: u32,
        vao_id: u32,
        lat_strips: u32,
        lon_slices: u32,
    ) -> (r: Result<ShapeGL, TessellationError>)
        ensures
            r is Ok <==> sphere_params_ok(lat_strips, lon_slices),
            r matches Err(e) ==> e == TessellationError::InvalidResolution,
            r matches Ok(sg) ==> {
                &&& sg.vbo.id == vbo_id
                &&& sg.vbo.buffer_size == sphere_vertex_count(lat_strips, lon_slices)
                &&& sg.ibo.id == ibo_id
                &&& sg.ibo.buffer_size == sphere_index_count(lat_strips, lon_slices)
                &&& sg.vao.id == vao_id
                &&& sg.vao.layout == GlLayout::Triangles
                &&& sg.vao.draw_method == DrawMethod::INDEXED
                &&& sg.vao.num_vertices == sphere_index_count(lat_strips, lon_slices)
            },
    {
        let (points, indices) = match sphere_mesh(lat_strips, lon_slices) {
            Ok(m) => m,
            Err(e) => {
                return Err(e);
            },
        };
        let verts = project_points::<T>(&points);
        Ok(ShapeGL::new(vbo_id, ibo_id, vao_id, &verts, &indices, GlLayout::Triangles))
    }

    /// Tessellate a cylinder of unit diameter and unit height and wrap it
    /// for drawing, projecting each surface point through the vertex type.
    pub fn cylinder<T: Vertex>(
        vbo_id: u32,
        ibo_id: u32,
        vao_id: u32,
        strips: u32,
        slices: u32,
    ) -> (r: Result<ShapeGL, TessellationError>)
        ensures
            r is Ok <==> cylinder_params_ok(strips, slices),
            r matches Err(e) ==> e == TessellationError::InvalidResolution,
            r matches Ok(sg) ==> {
                &&& sg.vbo.id == vbo_id
                &&& sg.vbo.buffer_size == cylinder_vertex_count(strips, slices)
                &&& sg.ibo.id == ibo_id
                &&& sg.ibo.buffer_size == cylinder_index_count(strips, slices)
                &&& sg.vao.id == vao_id
                &&& sg.vao.layout == GlLayout::Triangles
                &&& sg.vao.draw_method == DrawMethod::INDEXED
                &&& sg.vao.num_vertices == cylinder_index_count(strips, slices)
            },
    {
        let (points, indices) = match cylinder_mesh(strips, slices) {
            Ok(m) => m,
            Err(e) => {
                return Err(e);
            },
        };
        let verts = project_points::<T>(&points);
        Ok(ShapeGL::new(vbo_id, ibo_id, vao_id, &verts, &indices, GlLayout::Triangles))
    }
}

/// The quad's two triangles over its four corners: the winding
/// `0 1 2, 2 1 3`. Every index addresses one of the four vertices, so the
/// list can drive any four-vertex buffer.
pub fn quad_indices() -> (r: Vec<u32>)
    ensures
        r@ == seq![0u32, 1u32, 2u32, 2u32, 1u32, 3u32],
        indices_in_bounds(r@, 4),
{
    let mut r: Vec<u32> = Vec::new();
    r.push(0);
    r.push(1);
    r.push(2);
    r.push(2);
    r.push(1);
    r.push(3);
    proof {
        assert(r@ =~= seq![0u32, 1u32, 2u32, 2u32, 1u32, 3u32]);
    }
    r
}

/// Project each surface point into a vertex of the caller's layout.
fn project_points<T: Vertex>(points: &Vec<crate::util::SurfacePoint>) -> (r: Vec<T>)
    ensures
        r@.len() == points@.len(),
{
    let mut r: Vec<T> = Vec::new();
    let mut i: usize = 0;
    while i < points.len()
        invariant
            i <= points@.len(),
            r@.len() == i,
        decreases points@.len() - i,
    {
        r.push(T::from_point3d(&points[i]));
        i = i + 1;
    }
    r
}

} // verus!
