//! Skybox: a cube drawn around the camera, textured by a cubemap.
//!
//! The cube is the classic 36-vertex triangle list over the eight corners
//! of an axis-aligned cube of half-extent one; [`cube_corners_spec`] pins
//! every corner and its winding. Corner positions need one signed byte per
//! axis, so the shape uses the [`CornerVertex`] layout.

use vstd::prelude::*;

use crate::buffer::GlOp;
use crate::data::CornerVertex;
use crate::shader::{lookup_uniform, Program};
use crate::shape::{DrawError, ShapeGL};
use crate::texture::Texture;
use crate::types::{GlLayout, TextureTarget};
use crate::uniform::{perspective_name, perspective_name_bytes, view_name, view_name_bytes};

verus! {

/// The 36 cube corners, as two triangles per face: back, left, right,
/// front, top, bottom.
pub open spec fn cube_corners_spec() -> Seq<CornerVertex> {
    seq![
        (CornerVertex { x: -1i8, y: 1i8, z: -1i8 }),
        (CornerVertex { x: -1i8, y: -1i8, z: -1i8 }),
        (CornerVertex { x: 1i8, y: -1i8, z: -1i8 }),
        (CornerVertex { x: 1i8, y: -1i8, z: -1i8 }),
        (CornerVertex { x: 1i8, y: 1i8, z: -1i8 }),
        (CornerVertex { x: -1i8, y: 1i8, z: -1i8 }),
        (CornerVertex { x: -1i8, y: -1i8, z: 1i8 }),
        (CornerVertex { x: -1i8, y: -1i8, z: -1i8 }),
        (CornerVertex { x: -1i8, y: 1i8, z: -1i8 }),
        (CornerVertex { x: -1i8, y: 1i8, z: -1i8 }),
        (CornerVertex { x: -1i8, y: 1i8, z: 1i8 }),
        (CornerVertex { x: -1i8, y: -1i8, z: 1i8 }),
        (CornerVertex { x: 1i8, y: -1i8, z: -1i8 }),
        (CornerVertex { x: 1i8, y: -1i8, z: 1i8 }),
        (CornerVertex { x: 1i8, y: 1i8, z: 1i8 }),
        (CornerVertex { x: 1i8, y: 1i8, z: 1i8 }),
        (CornerVertex { x: 1i8, y: 1i8, z: -1i8 }),
        (CornerVertex { x: 1i8, y: -1i8, z: -1i8 }),
        (CornerVertex { x: -1i8, y: -1i8, z: 1i8 }),
        (CornerVertex { x: -1i8, y: 1i8, z: 1i8 }),
        (CornerVertex { x: 1i8, y: 1i8, z: 1i8 }),
        (CornerVertex { x: 1i8, y: 1i8, z: 1i8 }),
        (CornerVertex { x: 1i8, y: -1i8, z: 1i8 }),
        (CornerVertex { x: -1i8, y: -1i8, z: 1i8 }),
        (CornerVertex { x: -1i8, y: 1i8, z: -1i8 }),
        (CornerVertex { x: 1i8, y: 1i8, z: -1i8 }),
        (CornerVertex { x: 1i8, y: 1i8, z: 1i8 }),
        (CornerVertex { x: 1i8, y: 1i8, z: 1i8 }),
        (CornerVertex { x: -1i8, y: 1i8, z: 1i8 }),
        (CornerVertex { x: -1i8, y: 1i8, z: -1i8 }),
        (CornerVertex { x: -1i8, y: -1i8, z: -1i8 }),
        (CornerVertex { x: -1i8, y: -1i8, z: 1i8 }),
        (CornerVertex { x: 1i8, y: -1i8, z: -1i8 }),
        (CornerVertex { x: 1i8, y: -1i8, z: -1i8 }),
        (CornerVertex { x: -1i8, y: -1i8, z: 1i8 }),
        (CornerVertex { x: 1i8, y: -1i8, z: 1i8 }),
    ]
}

/// The cube's vertex data.
pub fn cube_corners() -> (r: Vec<CornerVertex>)
    ensures
        r@ == cube_corners_spec(),
{
    let mut r: Vec<CornerVertex> = Vec::new();
    r.push(CornerVertex { x: -1, y: 1, z: -1 });
    r.push(CornerVertex { x: -1, y: -1, z: -1 });
    r.push(CornerVertex { x: 1, y: -1, z: -1 });
    r.push(CornerVertex { x: 1, y: -1, z: -1 });
    r.push(CornerVertex { x: 1, y: 1, z: -1 });
    r.push(CornerVertex { x: -1, y: 1, z: -1 });
    r.push(CornerVertex { x: -1, y: -1, z: 1 });
    r.push(CornerVertex { x: -1, y: -1, z: -1 });
    r.push(CornerVertex { x: -1, y: 1, z: -1 });
    r.push(CornerVertex { x: -1, y: 1, z: -1 });
    r.push(CornerVertex { x: -1, y: 1, z: 1 });
    r.push(CornerVertex { x: -1, y: -1, z: 1 });
    r.push(CornerVertex { x: 1, y: -1, z: -1 });
    r.push(CornerVertex { x: 1, y: -1, z: 1 });
    r.push(CornerVertex { x: 1, y: 1, z: 1 });
    r.push(CornerVertex { x: 1, y: 1, z: 1 });
    r.push(CornerVertex { x: 1, y: 1, z: -1 });
    r.push(CornerVertex { x: 1, y: -1, z: -1 });
    r.push(CornerVertex { x: -1, y: -1, z: 1 });
    r.push(CornerVertex { x: -1, y: 1, z: 1 });
    r.push(CornerVertex { x: 1, y: 1, z: 1 });
    r.push(CornerVertex { x: 1, y: 1, z: 1 });
    r.push(CornerVertex { x: 1, y: -1, z: 1 });
    r.push(CornerVertex { x: -1, y: -1, z: 1 });
    r.push(CornerVertex { x: -1, y: 1, z: -1 });
    r.push(CornerVertex { x: 1, y: 1, z: -1 });
    r.push(CornerVertex { x: 1, y: 1, z: 1 });
    r.push(CornerVertex { x: 1, y: 1, z: 1 });
    r.push(CornerVertex { x: -1, y: 1, z: 1 });
    r.push(CornerVertex { x: -1, y: 1, z: -1 });
    r.push(CornerVertex { x: -1, y: -1, z: -1 });
    r.push(CornerVertex { x: -1, y: -1, z: 1 });
    r.push(CornerVertex { x: 1, y: -1, z: -1 });
    r.push(CornerVertex { x: 1, y: -1, z: -1 });
    r.push(CornerVertex { x: -1, y: -1, z: 1 });
    r.push(CornerVertex { x: 1, y: -1, z: 1 });
    proof {
        assert(r@ =~= cube_corners_spec());
    }
    r
}

/// A skybox: the cube shape, the program that renders it, and its cubemap
/// texture.
pub struct Skybox {
    pub program: Program,
    pub shapegl: ShapeGL,
    pub texture: Texture,
}

impl Skybox {
    /// The cube's draw data: 36 corner vertices drawn in emission order.
    pub fn cube_shape(vbo_id: u32, ibo_id: u32, vao_id: u32) -> (r: ShapeGL)
        ensures
            r.vbo.id == vbo_id,
            r.vbo.buffer_size == 36,
            r.ibo.id == ibo_id,
            r.ibo.buffer_size == 36,
            r.vao.id == vao_id,
            r.vao.num_vertices == 36,
            r.vao.layout == GlLayout::Triangles,
    {
        let vertex_data = cube_corners();
        let mut index_data: Vec<u32> = Vec::new();
        let mut i: u32 = 0;
        while i < 36
            invariant
                i <= 36,
                index_data@.len() == i,
                forall|k: int| 0 <= k < i ==> (#[trigger] index_data@[k]) == k,
            decreases 36 - i,
        {
            index_data.push(i);
            i = i + 1;
        }
        ShapeGL::new::<CornerVertex>(
            vbo_id,
            ibo_id,
            vao_id,
            &vertex_data,
            &index_data,
            GlLayout::Triangles,
        )
    }

    /// Assemble a skybox from its linked program, its cubemap texture, and
    /// the native handles for the cube's buffers and draw object.
    pub fn new(program: Program, texture: Texture, vbo_id: u32, ibo_id: u32, vao_id: u32) -> (r:
        Skybox)
        requires
            texture.target == TextureTarget::TexCubeMap,
        ensures
            r.program == program,
            r.texture == texture,
            r.shapegl.vbo.buffer_size == 36,
            r.shapegl.ibo.buffer_size == 36,
            r.shapegl.vao.num_vertices == 36,
            r.shapegl.vao.layout == GlLayout::Triangles,
    {
        let shapegl = Skybox::cube_shape(vbo_id, ibo_id, vao_id);
        Skybox { program, shapegl, texture }
    }

    /// Native calls of one skybox draw: activate the program, bind the
    /// cubemap, set the camera uniforms, draw the cube, unbind the cubemap.
    /// Succeeds exactly when the program discovered both camera uniforms.
    pub fn draw<T: crate::uniform::UniformSet>(&self, view: &T, perspective: &T) -> (r: Result<
        Vec<GlOp>,
        DrawError,
    >)
        requires
            self.program.wf(),
        ensures
            r is Ok <==> (lookup_uniform(self.program.uniforms@, view_name()) is Some
                && lookup_uniform(self.program.uniforms@, perspective_name()) is Some),
            r matches Ok(ops) ==> {
                &&& ops@.len() == 8
                &&& ops@[0] == GlOp::UseProgram(self.program.id)
                &&& ops@[1] == (GlOp::BindTexture {
                    target: self.texture.target,
                    id: self.texture.id,
                })
                &&& ops@[2] == GlOp::BindVertexArray(self.shapegl.vao.id)
                &&& ops@[3] == GlOp::BindElementArrayBuffer(self.shapegl.ibo.id)
                &&& self.shapegl.vao.draw_method == crate::buffer::DrawMethod::INDEXED
                    ==> ops@[4] == (GlOp::DrawElements {
                    mode: self.shapegl.vao.layout,
                    count: self.shapegl.vao.num_vertices,
                })
                &&& ops@[5] == GlOp::BindElementArrayBuffer(0)
                &&& ops@[6] == GlOp::BindVertexArray(0)
                &&& ops@[7] == (GlOp::BindTexture { target: self.texture.target, id: 0 })
            },
            r matches Err(e) ==> e matches DrawError::UniformError { inner },
    {
        let mut ops: Vec<GlOp> = Vec::new();
        ops.push(self.program.bind());
        ops.push(self.texture.bind());
        match self.program.set_uniform(&view_name_bytes(), view) {
            Ok(u) => (),
            Err(e) => {
                return Err(DrawError::UniformError { inner: e });
            },
        }
        match self.program.set_uniform(&perspective_name_bytes(), perspective) {
            Ok(u) => (),
            Err(e) => {
                return Err(DrawError::UniformError { inner: e });
            },
        }
        let mut draw = self.shapegl.draw_vertices();
        ops.append(&mut draw);
        ops.push(self.texture.unbind());
        Ok(ops)
    }
}

} // verus!
