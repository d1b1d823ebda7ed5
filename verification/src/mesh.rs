//! Mesh models: loaded scene models, their material shader, and the
//! triangle-strip index pattern of a depth-sampled grid.
//!
//! A depth mesh is a row-major grid of `num_rows * num_cols` samples whose
//! vertices the embedder computes; the strip indices that sew the grid into
//! one triangle strip are pure grid arithmetic and are generated here, each
//! emitted index pinned by [`depth_strip_index`].

use vstd::arithmetic::div_mod::lemma_fundamental_div_mod_converse;
use vstd::prelude::*;

use crate::buffer::{DrawMethod, GlOp};
use crate::shader::{lookup_uniform, Program};
use crate::shape::{DrawError, ShapeGL};
use crate::uniform;
use crate::uniform::{
    model_name, model_name_bytes, perspective_name, perspective_name_bytes, view_name,
    view_name_bytes, UniformSet,
};

verus! {

/// One model of a loaded scene: its draw data and the index of its
/// material in the scene's material list, if it names one.
pub struct SceneModel {
    pub shapegl: ShapeGL,
    pub material_id: Option<usize>,
}

impl SceneModel {
    pub fn new(shapegl: ShapeGL, material_id: Option<usize>) -> (r: SceneModel)
        ensures
            r.shapegl == shapegl,
            r.material_id == material_id,
    {
        SceneModel { shapegl, material_id }
    }
}

/// The bytes of the diffuse-colour uniform's name, `cDiffuse`.
pub open spec fn diffuse_name() -> Seq<u8> {
    seq![99u8, 68u8, 105u8, 102u8, 102u8, 117u8, 115u8, 101u8]
}

fn diffuse_name_bytes() -> (r: Vec<u8>)
    ensures
        r@ == diffuse_name(),
{
    let mut r: Vec<u8> = Vec::new();
    r.push(99);
    r.push(68);
    r.push(105);
    r.push(102);
    r.push(102);
    r.push(117);
    r.push(115);
    r.push(101);
    proof {
        assert(r@ =~= diffuse_name());
    }
    r
}

/// A shader program driven by per-model material values.
pub struct MaterialShader {
    pub program: Program,
}

impl MaterialShader {
    pub fn new(program: Program) -> (r: MaterialShader)
        ensures
            r.program == program,
    {
        MaterialShader { program }
    }

    /// Set the material's diffuse colour on the program, which must be the
    /// active one. Succeeds exactly when the program discovered the
    /// diffuse uniform.
    pub fn apply_material<T: UniformSet>(&self, diffuse: &T) -> (r: Result<(), uniform::Error>)
        requires
            self.program.wf(),
        ensures
            r is Ok <==> lookup_uniform(self.program.uniforms@, diffuse_name()) is Some,
    {
        self.program.set_uniform(&diffuse_name_bytes(), diffuse)
    }
}

/// A renderable mesh: its models and the material shader that draws them.
///
/// The material values themselves are the embedder's; a model names its
/// material by index, and a model with no material index falls back to the
/// last entry of the material list, which the caller keeps as the default.
pub struct MeshObject {
    pub shader: MaterialShader,
    pub models: Vec<SceneModel>,
}

impl MeshObject {
    pub fn new(shader: MaterialShader, models: Vec<SceneModel>) -> (r: MeshObject)
        ensures
            r.shader == shader,
            r.models == models,
    {
        MeshObject { shader, models }
    }

    /// Every model's material index names an entry of a material list of
    /// `nmats` entries.
    pub open spec fn materials_in_bounds(self, nmats: int) -> bool {
        forall|i: int|
            0 <= i < self.models@.len() ==> ((#[trigger] self.models@[i]).material_id matches Some(
                id,
            ) ==> id < nmats)
    }

    /// Native calls of one mesh draw: activate the program, set the camera
    /// and model-transform uniforms, then for each model set its material's
    /// diffuse colour and draw it. Succeeds exactly when the program
    /// discovered the three matrix uniforms, and — if there is a model to
    /// draw — the diffuse uniform.
    pub fn draw<T: UniformSet, M: UniformSet>(
        &self,
        view: &T,
        perspective: &T,
        model: &T,
        materials: &Vec<M>,
    ) -> (r: Result<Vec<GlOp>, DrawError>)
        requires
            self.shader.program.wf(),
            materials@.len() >= 1,
            self.materials_in_bounds(materials@.len() as int),
        ensures
            r is Ok <==> {
                &&& lookup_uniform(self.shader.program.uniforms@, view_name()) is Some
                &&& lookup_uniform(self.shader.program.uniforms@, perspective_name()) is Some
                &&& lookup_uniform(self.shader.program.uniforms@, model_name()) is Some
                &&& self.models@.len() > 0 ==> lookup_uniform(
                    self.shader.program.uniforms@,
                    diffuse_name(),
                ) is Some
            },
            r matches Ok(ops) ==> {
                &&& ops@.len() == 1 + 5 * self.models@.len()
                &&& ops@[0] == GlOp::UseProgram(self.shader.program.id)
                &&& forall|i: int|
                    0 <= i < self.models@.len() ==> {
                        let sg = (#[trigger] self.models@[i]).shapegl;
                        &&& ops@[1 + 5 * i] == GlOp::BindVertexArray(sg.vao.id)
                        &&& ops@[2 + 5 * i] == GlOp::BindElementArrayBuffer(sg.ibo.id)
                        &&& sg.vao.draw_method == DrawMethod::INDEXED ==> ops@[3 + 5 * i] == (
                        GlOp::DrawElements { mode: sg.vao.layout, count: sg.vao.num_vertices })
                        &&& ops@[4 + 5 * i] == GlOp::BindElementArrayBuffer(0)
                        &&& ops@[5 + 5 * i] == GlOp::BindVertexArray(0)
                    }
            },
            r matches Err(e) ==> e matches DrawError::UniformError { inner },
    {
        let mut ops: Vec<GlOp> = Vec::new();
        ops.push(self.shader.program.bind());
        match self.shader.program.set_uniform(&view_name_bytes(), view) {
            Ok(u) => (),
            Err(e) => {
                return Err(DrawError::UniformError { inner: e });
            },
        }
        match self.shader.program.set_uniform(&perspective_name_bytes(), perspective) {
            Ok(u) => (),
            Err(e) => {
                return Err(DrawError::UniformError { inner: e });
            },
        }
        match self.shader.program.set_uniform(&model_name_bytes(), model) {
            Ok(u) => (),
            Err(e) => {
                return Err(DrawError::UniformError { inner: e });
            },
        }
        let mut i: usize = 0;
        while i < self.models.len()
            invariant
                self.shader.program.wf(),
                materials@.len() >= 1,
                self.materials_in_bounds(materials@.len() as int),
                i <= self.models@.len(),
                ops@.len() == 1 + 5 * i,
                ops@[0] == GlOp::UseProgram(self.shader.program.id),
                i > 0 ==> lookup_uniform(self.shader.program.uniforms@, diffuse_name()) is Some,
                forall|k: int|
                    0 <= k < i ==> {
                        let sg = (#[trigger] self.models@[k]).shapegl;
                        &&& ops@[1 + 5 * k] == GlOp::BindVertexArray(sg.vao.id)
                        &&& ops@[2 + 5 * k] == GlOp::BindElementArrayBuffer(sg.ibo.id)
                        &&& sg.vao.draw_method == DrawMethod::INDEXED ==> ops@[3 + 5 * k] == (
                        GlOp::DrawElements { mode: sg.vao.layout, count: sg.vao.num_vertices })
                        &&& ops@[4 + 5 * k] == GlOp::BindElementArrayBuffer(0)
                        &&& ops@[5 + 5 * k] == GlOp::BindVertexArray(0)
                    },
            decreases self.models@.len() - i,
        {
            let id: usize = match self.models[i].material_id {
                Some(id) => id,
                None => materials.len() - 1,
            };
            match self.shader.apply_material(&materials[id]) {
                Ok(u) => (),
                Err(e) => {
                    return Err(DrawError::UniformError { inner: e });
                },
            }
            let mut draw = self.models[i].shapegl.draw_vertices();
            ops.append(&mut draw);
            i = i + 1;
        }
        Ok(ops)
    }
}

/// Indices per grid row band: one pair per column walked right to left,
/// then the two stitching indices that wrap to the next band.
pub open spec fn depth_strip_group(num_cols: usize) -> int {
    2 * num_cols + 2
}

/// Number of strip indices of a `num_rows` by `num_cols` grid.
pub open spec fn depth_strip_count(num_rows: usize, num_cols: usize) -> int {
    (num_rows - 1) * depth_strip_group(num_cols)
}

/// The `j`-th strip index. Within band `i`, the walk visits column
/// `num_cols - 1 - w / 2` of row `i` (even positions `w`) and row `i + 1`
/// (odd positions), and ends with the two indices that stitch the band to
/// the next: the first and last vertex of row `i + 1`.
pub open spec fn depth_strip_index(num_rows: usize, num_cols: usize, j: int) -> int {
    let cc = num_cols as int;
    let group = depth_strip_group(num_cols);
    let i = j / group;
    let w = j % group;
    if w < 2 * cc {
        let col = cc - 1 - w / 2;
        if w % 2 == 0 {
            i * cc + col
        } else {
            (i + 1) * cc + col
        }
    } else if w == 2 * cc {
        (i + 1) * cc
    } else {
        (i + 1) * cc + cc - 1
    }
}

/// The strip indices that draw a row-major grid of depth samples as one
/// triangle strip. Every emitted index is in bounds of the grid.
pub fn depth_strip_indices(num_rows: usize, num_cols: usize) -> (r: Vec<u32>)
    requires
        num_rows >= 1,
        num_cols >= 1,
        num_rows * num_cols <= u32::MAX,
    ensures
        r@.len() == depth_strip_count(num_rows, num_cols),
        forall|j: int| 0 <= j < r@.len() ==> r@[j] == depth_strip_index(num_rows, num_cols, j),
        forall|j: int|
            0 <= j < r@.len() ==> (#[trigger] r@[j]) < num_rows * num_cols,
{
    let cc: u64 = num_cols as u64;
    let rr: u64 = num_rows as u64;
    proof {
        assert(rr as int * cc as int <= u32::MAX && cc <= u32::MAX && rr <= u32::MAX)
            by (nonlinear_arith)
            requires
                rr >= 1,
                cc >= 1,
                rr as int * cc as int == num_rows as int * num_cols as int,
                num_rows as int * num_cols as int <= u32::MAX,
        ;
    }
    let group: u64 = 2 * cc + 2;
    let mut r: Vec<u32> = Vec::new();
    let mut band: u64 = 0;
    while band < rr - 1
        invariant
            num_rows >= 1,
            num_cols >= 1,
            rr == num_rows,
            cc == num_cols,
            cc >= 1,
            rr as int * cc as int <= u32::MAX,
            cc <= u32::MAX,
            rr <= u32::MAX,
            group == depth_strip_group(num_cols),
            band <= rr - 1,
            r@.len() == band * group,
            forall|j: int|
                0 <= j < r@.len() ==> r@[j] == depth_strip_index(num_rows, num_cols, j),
            forall|j: int|
                0 <= j < r@.len() ==> (#[trigger] r@[j]) < num_rows as int * num_cols as int,
        decreases rr - 1 - band,
    {
        proof {
            assert(band as int * group + group <= (rr as int - 1) * group) by (nonlinear_arith)
                requires
                    band < rr - 1,
                    group >= 0,
            ;
            assert((band as int + 2) * cc <= rr as int * cc) by (nonlinear_arith)
                requires
                    band as int + 2 <= rr,
                    cc >= 0,
            ;
            assert((band as int + 1) * cc == band as int * cc + cc) by (nonlinear_arith);
            assert((band as int + 2) * cc == band as int * cc + 2 * cc) by (nonlinear_arith);
        }
        let ghost w0: int = band as int * group;
        let row_base: u64 = band * cc;

        // One pair per column, walked right to left.
        let mut m: u64 = 0;
        while m < cc
            invariant
                num_rows >= 1,
                num_cols >= 1,
                rr == num_rows,
                cc == num_cols,
                cc >= 1,
                rr as int * cc as int <= u32::MAX,
                group == depth_strip_group(num_cols),
                band < rr - 1,
                row_base == band as int * cc,
                row_base + 2 * cc <= rr as int * cc,
                w0 == band as int * group,
                m <= cc,
                r@.len() == w0 + 2 * m,
                forall|j: int|
                    0 <= j < r@.len() ==> r@[j] == depth_strip_index(num_rows, num_cols, j),
                forall|j: int|
                    0 <= j < r@.len() ==> (#[trigger] r@[j]) < num_rows as int * num_cols as int,
            decreases cc - m,
        {
            let col: u64 = cc - 1 - m;
            proof {
                let w = 2 * m as int;
                lemma_depth_pos(num_rows, num_cols, band as int, w);
                lemma_depth_pos(num_rows, num_cols, band as int, w + 1);
                lemma_fundamental_div_mod_converse(w, 2, m as int, 0);
                lemma_fundamental_div_mod_converse(w + 1, 2, m as int, 1);
                assert((band as int + 1) * cc == band as int * cc + cc) by (nonlinear_arith);
            }
            r.push((row_base + col) as u32);
            r.push((row_base + cc + col) as u32);
            m = m + 1;
        }

        // Stitch to the next band: first and last vertex of the next row.
        proof {
            lemma_depth_pos(num_rows, num_cols, band as int, 2 * cc as int);
            lemma_depth_pos(num_rows, num_cols, band as int, 2 * cc as int + 1);
        }
        r.push((row_base + cc) as u32);
        r.push((row_base + cc + cc - 1) as u32);

        proof {
            assert((band + 1) * group == band * group + group) by (nonlinear_arith);
        }
        band = band + 1;
    }
    proof {
        assert((rr as int - 1) * group == depth_strip_count(num_rows, num_cols))
            by (nonlinear_arith)
            requires
                group == depth_strip_group(num_cols),
                rr == num_rows,
        ;
    }
    r
}

/// Position `w` of band `i` sits at global position `i * group + w`, so the
/// global index formula reduces to the band formula there.
proof fn lemma_depth_pos(num_rows: usize, num_cols: usize, i: int, w: int)
    requires
        num_cols >= 1,
        0 <= i,
        0 <= w < depth_strip_group(num_cols),
    ensures
        depth_strip_index(num_rows, num_cols, i * depth_strip_group(num_cols) + w) == {
            let cc = num_cols as int;
            if w < 2 * cc {
                let col = cc - 1 - w / 2;
                if w % 2 == 0 {
                    i * cc + col
                } else {
                    (i + 1) * cc + col
                }
            } else if w == 2 * cc {
                (i + 1) * cc
            } else {
                (i + 1) * cc + cc - 1
            }
        },
{
    lemma_fundamental_div_mod_converse(
        i * depth_strip_group(num_cols) + w,
        depth_strip_group(num_cols),
        i,
        w,
    );
}

} // verus!
