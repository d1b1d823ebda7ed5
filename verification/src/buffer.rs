//! Buffer and vertex-array wrappers.
//!
//! Each wrapper owns one native object handle (a plain integer the embedder
//! obtained from the native API) together with the bookkeeping the draw path
//! needs: element counts, record stride, attribute markers, topology. The
//! wrappers compute the exact sequences of native calls — as [`GlOp`]
//! descriptions — that set up and draw the objects, so the binding protocol
//! is fixed here and the embedder only has to replay it.

use vstd::prelude::*;

use crate::data::{VBOAttribMarker, Vertex};
use crate::types::{GlLayout, TextureParam, TextureTarget, VertexAttrib};

verus! {

/// One native call for the embedder to issue, in order.
///
/// Binding a handle of `0` unbinds the target, as in the native API.
#[derive(Copy, Clone, PartialEq, Eq, Structural, Debug)]
pub enum GlOp {
    /// Bind a vertex-array (draw) object.
    BindVertexArray(u32),
    /// Bind a buffer to the vertex-data target.
    BindArrayBuffer(u32),
    /// Bind a buffer to the index-data target.
    BindElementArrayBuffer(u32),
    /// Enable the attribute slot at this location.
    EnableVertexAttribArray(u32),
    /// Register an attribute pointer for the currently bound buffers.
    VertexAttribPointer {
        location: u32,
        elements_per_vertex: u32,
        data_type: VertexAttrib,
        normalize: bool,
        stride: usize,
        offset: usize,
    },
    /// Draw `count` vertices starting at `first` from the bound vertex data.
    DrawArrays { mode: GlLayout, first: usize, count: usize },
    /// Draw `count` 32-bit indices from the bound index data.
    DrawElements { mode: GlLayout, count: usize },
    /// Make a shader program the active one.
    UseProgram(u32),
    /// Bind a texture to a target.
    BindTexture { target: TextureTarget, id: u32 },
    /// Set an integer-valued parameter of the bound texture.
    TexParameter { target: TextureTarget, param: TextureParam, value: u32 },
    /// Generate mipmaps for the bound texture.
    GenerateMipmap { target: TextureTarget },
    /// Select the active texture unit; the value is the raw enumerant.
    ActiveTexture(u32),
    /// Upload one 2D image to the bound texture. `target_code` is the raw
    /// enumerant, since cubemap faces address targets with no name of their
    /// own; the remaining fields follow the native call's parameter order.
    TexImage2D {
        target_code: u32,
        level: u32,
        internal_format: u32,
        width: u32,
        height: u32,
        format: u32,
        pixel_type: u32,
    },
}

/// Vertex buffer object.
///
/// Owns the handle of one native allocation holding `buffer_size` vertex
/// records of `stride` bytes, laid out as `markers` describes.
pub struct VBO {
    pub id: u32,
    pub markers: Vec<VBOAttribMarker>,
    pub buffer_size: usize,
    pub stride: usize,
}

/// The attribute-registration calls for a buffer with the given markers and
/// stride: for each marker, enable its slot and register its pointer.
pub open spec fn enable_ops_spec(ms: Seq<VBOAttribMarker>, stride: usize) -> Seq<GlOp> {
    Seq::new(
        2 * ms.len(),
        |i: int|
            if i % 2 == 0 {
                GlOp::EnableVertexAttribArray(ms[i / 2].name.spec_location())
            } else {
                GlOp::VertexAttribPointer {
                    location: ms[i / 2].name.spec_location(),
                    elements_per_vertex: ms[i / 2].elements_per_vertex,
                    data_type: ms[i / 2].data_type,
                    normalize: ms[i / 2].normalize,
                    stride: stride,
                    offset: ms[i / 2].offset,
                }
            },
    )
}

impl VBO {
    /// Wrap native buffer `id` around an immutable snapshot of `data`,
    /// recording the count, stride and attribute layout of the vertex type.
    pub fn from_data<T: Vertex>(id: u32, data: &Vec<T>) -> (r: VBO)
        ensures
            r.id == id,
            r.buffer_size == data@.len(),
            r.stride == vstd::layout::size_of::<T>(),
    {
        let markers = T::vertex_attrib_markers();
        let stride = core::mem::size_of::<T>();
        VBO { id, markers, buffer_size: data.len(), stride }
    }

    /// Byte size of the native allocation: count times stride.
    pub fn upload_bytes(&self) -> (r: u128)
        ensures
            r == self.buffer_size * self.stride,
    {
        proof {
            assert(self.buffer_size as int * self.stride as int <= 0xFFFF_FFFF_FFFF_FFFF
                * 0xFFFF_FFFF_FFFF_FFFF) by (nonlinear_arith)
                requires
                    self.buffer_size as int <= 0xFFFF_FFFF_FFFF_FFFF,
                    self.stride as int <= 0xFFFF_FFFF_FFFF_FFFF,
            ;
        }
        (self.buffer_size as u128) * (self.stride as u128)
    }

    /// The native call that binds this buffer to the vertex-data target.
    pub fn bind(&self) -> (r: GlOp)
        ensures
            r == GlOp::BindArrayBuffer(self.id),
    {
        GlOp::BindArrayBuffer(self.id)
    }

    /// The native call that unbinds the vertex-data target.
    pub fn unbind(&self) -> (r: GlOp)
        ensures
            r == GlOp::BindArrayBuffer(0),
    {
        GlOp::BindArrayBuffer(0)
    }

    /// Attribute-registration calls for this buffer. The buffer must be
    /// bound, and a draw object bound around it, when the embedder issues
    /// them, since the native API captures the registrations in the bound
    /// draw object.
    pub fn enable_ops(&self) -> (r: Vec<GlOp>)
        ensures
            r@ == enable_ops_spec(self.markers@, self.stride),
    {
        let mut r: Vec<GlOp> = Vec::new();
        let mut i: usize = 0;
        while i < self.markers.len()
            invariant
                i <= self.markers@.len(),
                r@.len() == 2 * i,
                forall|j: int|
                    0 <= j < 2 * i ==> r@[j] == enable_ops_spec(self.markers@, self.stride)[j],
            decreases self.markers@.len() - i,
        {
            let m = self.markers[i];
            r.push(GlOp::EnableVertexAttribArray(m.name.location()));
            r.push(
                GlOp::VertexAttribPointer {
                    location: m.name.location(),
                    elements_per_vertex: m.elements_per_vertex,
                    data_type: m.data_type,
                    normalize: m.normalize,
                    stride: self.stride,
                    offset: m.offset,
                },
            );
            proof {
                assert((2 * i as int) % 2 == 0);
                assert((2 * i as int + 1) % 2 == 1);
                assert((2 * i as int) / 2 == i as int);
                assert((2 * i as int + 1) / 2 == i as int);
            }
            i = i + 1;
        }
        proof {
            assert(r@ =~= enable_ops_spec(self.markers@, self.stride));
        }
        r
    }
}

/// Index buffer object.
///
/// Owns the handle of one native allocation holding `buffer_size` indices
/// into an associated vertex buffer, defining a drawing order.
pub struct IBO {
    pub id: u32,
    pub buffer_size: usize,
}

impl IBO {
    /// Wrap native buffer `id` around an immutable snapshot of `data`.
    pub fn from_data(id: u32, data: &Vec<u32>) -> (r: IBO)
        ensures
            r.id == id,
            r.buffer_size == data@.len(),
    {
        IBO { id, buffer_size: data.len() }
    }

    /// The native call that binds this buffer to the index-data target.
    pub fn bind(&self) -> (r: GlOp)
        ensures
            r == GlOp::BindElementArrayBuffer(self.id),
    {
        GlOp::BindElementArrayBuffer(self.id)
    }

    /// The native call that unbinds the index-data target.
    pub fn unbind(&self) -> (r: GlOp)
        ensures
            r == GlOp::BindElementArrayBuffer(0),
    {
        GlOp::BindElementArrayBuffer(0)
    }
}

/// How a draw object sources its vertices.
#[derive(Copy, Clone, PartialEq, Eq, Structural, Debug)]
pub enum DrawMethod {
    /// Straight from the vertex buffer.
    ARRAYS,
    /// Through an index buffer.
    INDEXED,
}

/// Vertex array (draw) object.
///
/// Associates one vertex buffer's attribute layout, and optionally one index
/// buffer, into a drawable unit with a fixed topology and vertex count.
pub struct VAO {
    pub id: u32,
    pub num_vertices: usize,
    pub layout: GlLayout,
    pub draw_method: DrawMethod,
}

/// Ghost copy of an optional borrowed index buffer.
pub open spec fn opt_ibo(ibo: Option<&IBO>) -> Option<IBO> {
    match ibo {
        Some(i) => Some(*i),
        None => None,
    }
}

/// The setup sequence of a draw object: bind the draw object, bind the
/// vertex buffer, register its attributes, bind the index buffer if one is
/// given, then unbind vertex buffer, index buffer and draw object.
pub open spec fn setup_ops_spec(vao_id: u32, vbo: VBO, ibo: Option<IBO>) -> Seq<GlOp> {
    seq![GlOp::BindVertexArray(vao_id), GlOp::BindArrayBuffer(vbo.id)] + enable_ops_spec(
        vbo.markers@,
        vbo.stride,
    ) + (match ibo {
        Some(i) => seq![GlOp::BindElementArrayBuffer(i.id)],
        None => Seq::<GlOp>::empty(),
    }) + seq![GlOp::BindArrayBuffer(0)] + (match ibo {
        Some(i) => seq![GlOp::BindElementArrayBuffer(0)],
        None => Seq::<GlOp>::empty(),
    }) + seq![GlOp::BindVertexArray(0)]
}

impl VAO {
    /// Build a draw object over `vbo`, drawing through `ibo` when one is
    /// given. The vertex count for drawing is the index count if an index
    /// buffer is attached, else the vertex buffer's count.
    pub fn new(id: u32, vbo: &VBO, ibo: Option<&IBO>, layout: GlLayout) -> (r: VAO)
        ensures
            r.id == id,
            r.layout == layout,
            match ibo {
                Some(i) => r.num_vertices == i.buffer_size && r.draw_method == DrawMethod::INDEXED,
                None => r.num_vertices == vbo.buffer_size && r.draw_method == DrawMethod::ARRAYS,
            },
    {
        match ibo {
            Some(i) => VAO {
                id,
                num_vertices: i.buffer_size,
                layout,
                draw_method: DrawMethod::INDEXED,
            },
            None => VAO {
                id,
                num_vertices: vbo.buffer_size,
                layout,
                draw_method: DrawMethod::ARRAYS,
            },
        }
    }

    /// Number of vertices one draw call renders.
    pub fn vertex_count(&self) -> (r: usize)
        ensures
            r == self.num_vertices,
    {
        self.num_vertices
    }

    /// The native call that binds this draw object.
    pub fn bind(&self) -> (r: GlOp)
        ensures
            r == GlOp::BindVertexArray(self.id),
    {
        GlOp::BindVertexArray(self.id)
    }

    /// The native call that unbinds the draw object target.
    pub fn unbind(&self) -> (r: GlOp)
        ensures
            r == GlOp::BindVertexArray(0),
    {
        GlOp::BindVertexArray(0)
    }

    /// Native calls that associate the buffers' layout with this draw
    /// object. Pass the same buffers the draw object was built over.
    pub fn setup_ops(&self, vbo: &VBO, ibo: Option<&IBO>) -> (r: Vec<GlOp>)
        ensures
            r@ == setup_ops_spec(self.id, *vbo, opt_ibo(ibo)),
    {
        let mut r: Vec<GlOp> = Vec::new();
        r.push(GlOp::BindVertexArray(self.id));
        r.push(GlOp::BindArrayBuffer(vbo.id));
        let mut enables = vbo.enable_ops();
        r.append(&mut enables);
        match ibo {
            Some(i) => r.push(GlOp::BindElementArrayBuffer(i.id)),
            None => (),
        }
        r.push(GlOp::BindArrayBuffer(0));
        match ibo {
            Some(_) => r.push(GlOp::BindElementArrayBuffer(0)),
            None => (),
        }
        r.push(GlOp::BindVertexArray(0));
        proof {
            assert(r@ =~= setup_ops_spec(self.id, *vbo, opt_ibo(ibo)));
        }
        r
    }

    /// The draw call for this object: an array draw or an indexed draw,
    /// over the stored topology and vertex count.
    pub fn draw(&self) -> (r: GlOp)
        ensures
            self.draw_method == DrawMethod::ARRAYS ==> r == (GlOp::DrawArrays {
                mode: self.layout,
                first: 0,
                count: self.num_vertices,
            }),
            self.draw_method == DrawMethod::INDEXED ==> r == (GlOp::DrawElements {
                mode: self.layout,
                count: self.num_vertices,
            }),
    {
        match self.draw_method {
            DrawMethod::ARRAYS => GlOp::DrawArrays {
                mode: self.layout,
                first: 0,
                count: self.num_vertices,
            },
            DrawMethod::INDEXED => GlOp::DrawElements {
                mode: self.layout,
                count: self.num_vertices,
            },
        }
    }
}

} // verus!
