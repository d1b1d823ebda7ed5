use rendergl::buffer::GlOp;
use rendergl::mesh::{MaterialShader, SceneModel};
use rendergl::shader::{
    clean_uniform_name, shader_type_for_extension, uniform_element_names, Program, Shader,
};
use rendergl::shape::{DrawError, ShapeGL};
use rendergl::skybox::Skybox;
use rendergl::texture::Texture;
use rendergl::types::GlLayout;
use rendergl::uniform::{Error, UniformSet};

/// A value the tests can "set": the native assignment is a no-op here.
struct Probe;

impl UniformSet for Probe {
    fn set_uniform_gl(&self, _location: i32) {}
}

#[test]
fn uniform_lookup_by_name_and_index() {
    let mut program = Program::new(7);
    program.add_uniform(&b"lights[0]\0\0".to_vec(), vec![10, 11, 12]);
    program.add_uniform(&b"model\0".to_vec(), vec![3]);

    // Index 0 answers the base location a name-only lookup uses.
    assert_eq!(program.uniform_location(&b"lights".to_vec(), 0).unwrap(), 10);
    assert_eq!(program.uniform_location(&b"lights".to_vec(), 2).unwrap(), 12);
    assert_eq!(program.uniform_location(&b"model".to_vec(), 0).unwrap(), 3);
}

#[test]
fn uniform_lookup_errors() {
    let mut program = Program::new(7);
    program.add_uniform(&b"lights[0]".to_vec(), vec![10, 11, 12]);

    match program.uniform_location(&b"lights".to_vec(), 3).unwrap_err() {
        Error::IndexError { index } => assert_eq!(index, 3),
        other => panic!("expected an index error, found {:?}", other),
    }
    match program.uniform_location(&b"nope".to_vec(), 0).unwrap_err() {
        Error::NotFoundError { name } => assert_eq!(name, b"nope".to_vec()),
        other => panic!("expected a not-found error, found {:?}", other),
    }
}

#[test]
fn set_uniform_is_index_zero() {
    let mut program = Program::new(7);
    program.add_uniform(&b"u_time\0\0".to_vec(), vec![42]);
    assert!(program.set_uniform(&b"u_time".to_vec(), &Probe).is_ok());
    assert!(program.set_uniform_by_index(&b"u_time".to_vec(), &Probe, 0).is_ok());
    assert!(matches!(
        program.set_uniform_by_index(&b"u_time".to_vec(), &Probe, 1),
        Err(Error::IndexError { index: 1 })
    ));
    assert!(matches!(
        program.set_uniform(&b"missing".to_vec(), &Probe),
        Err(Error::NotFoundError { .. })
    ));
}

#[test]
fn later_entries_shadow_earlier_ones() {
    let mut program = Program::new(7);
    program.add_uniform(&b"model".to_vec(), vec![1]);
    program.add_uniform(&b"model".to_vec(), vec![2]);
    assert_eq!(program.uniform_location(&b"model".to_vec(), 0).unwrap(), 2);
}

#[test]
fn clean_uniform_name_cases() {
    assert_eq!(clean_uniform_name(&b"lights[0]\0\0\0".to_vec()), b"lights".to_vec());
    assert_eq!(clean_uniform_name(&b"model".to_vec()), b"model".to_vec());
    assert_eq!(clean_uniform_name(&b"a[0]b[0]".to_vec()), b"ab".to_vec());
    assert_eq!(clean_uniform_name(&b"\0\0".to_vec()), b"".to_vec());
    assert_eq!(clean_uniform_name(&b"m[1]".to_vec()), b"m[1]".to_vec());
    assert_eq!(clean_uniform_name(&b"".to_vec()), b"".to_vec());
}

#[test]
fn uniform_element_names_enumerate_to_the_cap() {
    let names = uniform_element_names(&b"lights[0]".to_vec(), 4);
    assert_eq!(
        names,
        vec![
            b"lights[0]".to_vec(),
            b"lights[1]".to_vec(),
            b"lights[2]".to_vec(),
            b"lights[3]".to_vec(),
        ]
    );
    assert_eq!(uniform_element_names(&b"lights[0]".to_vec(), 12).len(), 9);
    assert_eq!(uniform_element_names(&b"m".to_vec(), 0), vec![b"m".to_vec()]);
    assert_eq!(uniform_element_names(&b"m".to_vec(), 1), vec![b"m".to_vec()]);
}

#[test]
fn shader_stage_from_extension() {
    assert_eq!(shader_type_for_extension(&b"vert".to_vec()).unwrap(), 0x8B31);
    assert_eq!(shader_type_for_extension(&b"frag".to_vec()).unwrap(), 0x8B30);
    assert!(shader_type_for_extension(&b"geom".to_vec()).is_none());
    assert!(shader_type_for_extension(&b"".to_vec()).is_none());
    let shader = Shader::new(12);
    assert_eq!(shader.id, 12);
}

#[test]
fn compile_and_link_outcomes() {
    let shader =
        Shader::from_compile_status(3, true, String::from("sky.vert"), String::new()).unwrap();
    assert_eq!(shader.id, 3);
    match Shader::from_compile_status(3, false, String::from("sky.vert"), String::from("bad"))
        .unwrap_err()
    {
        rendergl::shader::Error::CompileError { name, message } => {
            assert_eq!(name, "sky.vert");
            assert_eq!(message, "bad");
        }
        other => panic!("expected a compile error, found {:?}", other),
    }

    let program =
        Program::from_link_status(4, true, String::from("sky"), String::new()).unwrap();
    assert_eq!(program.id, 4);
    assert!(program.uniforms.is_empty());
    match Program::from_link_status(4, false, String::from("sky"), String::from("undefined"))
        .unwrap_err()
    {
        rendergl::shader::Error::LinkError { name, message } => {
            assert_eq!(name, "sky");
            assert_eq!(message, "undefined");
        }
        other => panic!("expected a link error, found {:?}", other),
    }
}

#[test]
fn program_bind_ops() {
    let program = Program::new(8);
    assert_eq!(program.bind(), GlOp::UseProgram(8));
    assert_eq!(program.unbind(), GlOp::UseProgram(0));
    assert_eq!(Program::bind_default(), GlOp::UseProgram(0));
}

#[test]
fn error_conversions() {
    let d = DrawError::from(Error::IndexError { index: 2 });
    assert!(matches!(d, DrawError::UniformError { inner: Error::IndexError { index: 2 } }));
    let i = rendergl::shape::InitError::from(rendergl::shader::Error::EncodingError);
    assert!(matches!(
        i,
        rendergl::shape::InitError::ShaderError(rendergl::shader::Error::EncodingError)
    ));
}

#[test]
fn material_shader_applies_diffuse() {
    let mut program = Program::new(5);
    program.add_uniform(&b"cDiffuse\0".to_vec(), vec![4]);
    let shader = MaterialShader::new(program);
    assert!(shader.apply_material(&Probe).is_ok());

    let bare = MaterialShader::new(Program::new(5));
    assert!(bare.apply_material(&Probe).is_err());
}

#[test]
fn scene_model_keeps_its_material() {
    let data: Vec<rendergl::data::CornerVertex> = rendergl::skybox::cube_corners();
    let indices: Vec<u32> = (0..36).collect();
    let shape = ShapeGL::new(1, 2, 3, &data, &indices, GlLayout::Triangles);
    let model = SceneModel::new(shape, Some(4));
    assert_eq!(model.material_id, Some(4));
    assert_eq!(model.shapegl.vertex_count(), 36);
}

#[test]
fn mesh_object_draw_sequences() {
    let cube = || {
        let data = rendergl::skybox::cube_corners();
        let indices: Vec<u32> = (0..36).collect();
        ShapeGL::new(1, 2, 3, &data, &indices, GlLayout::Triangles)
    };
    let full_program = || {
        let mut p = Program::new(1);
        p.add_uniform(&b"view\0".to_vec(), vec![0]);
        p.add_uniform(&b"perspective\0".to_vec(), vec![1]);
        p.add_uniform(&b"model\0".to_vec(), vec![2]);
        p.add_uniform(&b"cDiffuse\0".to_vec(), vec![3]);
        p
    };
    let materials = vec![Probe, Probe];

    let mesh = rendergl::mesh::MeshObject::new(
        MaterialShader::new(full_program()),
        vec![SceneModel::new(cube(), Some(0)), SceneModel::new(cube(), None)],
    );
    let ops = mesh.draw(&Probe, &Probe, &Probe, &materials).unwrap();
    assert_eq!(ops.len(), 11);
    assert_eq!(ops[0], GlOp::UseProgram(1));
    assert_eq!(ops[3], GlOp::DrawElements { mode: GlLayout::Triangles, count: 36 });
    assert_eq!(ops[8], GlOp::DrawElements { mode: GlLayout::Triangles, count: 36 });

    // Without the diffuse uniform a mesh with models cannot draw, but an
    // empty mesh can.
    let mut bare = Program::new(1);
    bare.add_uniform(&b"view\0".to_vec(), vec![0]);
    bare.add_uniform(&b"perspective\0".to_vec(), vec![1]);
    bare.add_uniform(&b"model\0".to_vec(), vec![2]);
    let no_diffuse = rendergl::mesh::MeshObject::new(
        MaterialShader::new(bare),
        vec![SceneModel::new(cube(), Some(0))],
    );
    assert!(no_diffuse.draw(&Probe, &Probe, &Probe, &materials).is_err());

    let mut bare2 = Program::new(1);
    bare2.add_uniform(&b"view\0".to_vec(), vec![0]);
    bare2.add_uniform(&b"perspective\0".to_vec(), vec![1]);
    bare2.add_uniform(&b"model\0".to_vec(), vec![2]);
    let empty = rendergl::mesh::MeshObject::new(MaterialShader::new(bare2), Vec::new());
    assert_eq!(empty.draw(&Probe, &Probe, &Probe, &materials).unwrap().len(), 1);
}

#[test]
fn skybox_draw_needs_both_camera_uniforms() {
    let mut program = Program::new(2);
    program.add_uniform(&b"view\0".to_vec(), vec![0]);
    program.add_uniform(&b"perspective\0".to_vec(), vec![1]);
    let texture = Texture::texture_cubemap(9);
    let skybox = Skybox::new(program, texture, 4, 5, 6);
    let ops = skybox.draw(&Probe, &Probe).unwrap();
    assert_eq!(ops.len(), 8);
    assert_eq!(ops[0], GlOp::UseProgram(2));
    assert_eq!(
        ops[1],
        GlOp::BindTexture { target: rendergl::types::TextureTarget::TexCubeMap, id: 9 }
    );
    assert_eq!(ops[2], GlOp::BindVertexArray(6));
    assert_eq!(ops[3], GlOp::BindElementArrayBuffer(5));
    assert_eq!(ops[4], GlOp::DrawElements { mode: GlLayout::Triangles, count: 36 });
    assert_eq!(
        ops[7],
        GlOp::BindTexture { target: rendergl::types::TextureTarget::TexCubeMap, id: 0 }
    );

    let half = {
        let mut p = Program::new(2);
        p.add_uniform(&b"view\0".to_vec(), vec![0]);
        p
    };
    let skybox2 = Skybox::new(half, Texture::texture_cubemap(9), 4, 5, 6);
    assert!(matches!(
        skybox2.draw(&Probe, &Probe),
        Err(DrawError::UniformError { .. })
    ));
}
