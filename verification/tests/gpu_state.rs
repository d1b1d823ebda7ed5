use rendergl::buffer::{DrawMethod, GlOp, IBO, VAO, VBO};
use rendergl::data::{
    check_markers, corner_markers, vertex_n_markers, vertex_nt_markers, vertex_p_markers,
    vertex_uv_markers, CornerVertex, VBOAttribMarker, Vertex,
};
use rendergl::shape::ShapeGL;
use rendergl::skybox::Skybox;
use rendergl::texture::{
    FilterMethod, ImageDesc, PixelLayout, Texture, TextureError, TextureParameters, WrapMethod,
};
use rendergl::types::{GlLayout, ShaderAttrib, TextureParam, TextureTarget, VertexAttrib};
use rendergl::util::SurfacePoint;

/// A position-only vertex of three floats, as the embedder would define it.
#[derive(Copy, Clone)]
struct TestVertexP {
    _pos: [f32; 3],
}

impl Vertex for TestVertexP {
    fn vertex_attrib_markers() -> Vec<VBOAttribMarker> {
        vertex_p_markers()
    }

    fn from_point3d(_point: &SurfacePoint) -> Self {
        TestVertexP { _pos: [0.0, 0.0, 0.0] }
    }
}

fn sample_vertices(n: usize) -> Vec<TestVertexP> {
    vec![TestVertexP { _pos: [0.0, 0.0, 0.0] }; n]
}

#[test]
fn vao_vertex_count_round_trip() {
    // Without an index buffer the draw count is the vertex count; with one
    // it is the index count.
    let data = sample_vertices(7);
    let vbo = VBO::from_data(1, &data);
    let vao = VAO::new(3, &vbo, None, GlLayout::Triangles);
    assert_eq!(vao.vertex_count(), 7);

    let indices: Vec<u32> = vec![0, 1, 2, 2, 1, 3, 3, 2, 4];
    let ibo = IBO::from_data(2, &indices);
    let vao_indexed = VAO::new(3, &vbo, Some(&ibo), GlLayout::Triangles);
    assert_eq!(vao_indexed.vertex_count(), 9);
}

#[test]
fn vbo_records_count_stride_and_layout() {
    let data = sample_vertices(5);
    let vbo = VBO::from_data(11, &data);
    assert_eq!(vbo.id, 11);
    assert_eq!(vbo.buffer_size, 5);
    assert_eq!(vbo.stride, std::mem::size_of::<TestVertexP>());
    assert_eq!(vbo.upload_bytes(), 5 * std::mem::size_of::<TestVertexP>() as u128);
    assert_eq!(vbo.markers.len(), 1);
    assert_eq!(vbo.markers[0].name, ShaderAttrib::POSITION);
}

#[test]
fn vao_setup_ops_follow_binding_order() {
    let data = sample_vertices(4);
    let vbo = VBO::from_data(1, &data);
    let indices: Vec<u32> = vec![0, 1, 2];
    let ibo = IBO::from_data(2, &indices);
    let vao = VAO::new(3, &vbo, Some(&ibo), GlLayout::Triangles);
    let ops = vao.setup_ops(&vbo, Some(&ibo));
    assert_eq!(
        ops,
        vec![
            GlOp::BindVertexArray(3),
            GlOp::BindArrayBuffer(1),
            GlOp::EnableVertexAttribArray(0),
            GlOp::VertexAttribPointer {
                location: 0,
                elements_per_vertex: 3,
                data_type: VertexAttrib::FLOAT,
                normalize: false,
                stride: 12,
                offset: 0,
            },
            GlOp::BindElementArrayBuffer(2),
            GlOp::BindArrayBuffer(0),
            GlOp::BindElementArrayBuffer(0),
            GlOp::BindVertexArray(0),
        ]
    );
}

#[test]
fn vao_draw_methods() {
    let data = sample_vertices(4);
    let vbo = VBO::from_data(1, &data);
    let vao = VAO::new(3, &vbo, None, GlLayout::TriangleStrip);
    assert_eq!(vao.draw_method, DrawMethod::ARRAYS);
    assert_eq!(vao.draw(), GlOp::DrawArrays { mode: GlLayout::TriangleStrip, first: 0, count: 4 });

    let indices: Vec<u32> = vec![0, 1, 2, 3, 1];
    let ibo = IBO::from_data(2, &indices);
    let vao_indexed = VAO::new(3, &vbo, Some(&ibo), GlLayout::Triangles);
    assert_eq!(vao_indexed.draw_method, DrawMethod::INDEXED);
    assert_eq!(vao_indexed.draw(), GlOp::DrawElements { mode: GlLayout::Triangles, count: 5 });
}

#[test]
fn shapegl_draw_vertices_sequence() {
    let data = sample_vertices(4);
    let indices: Vec<u32> = vec![0, 1, 2, 2, 1, 3];
    let shape = ShapeGL::new(1, 2, 3, &data, &indices, GlLayout::Triangles);
    assert_eq!(shape.vertex_count(), 6);
    let ops = shape.draw_vertices();
    assert_eq!(
        ops,
        vec![
            GlOp::BindVertexArray(3),
            GlOp::BindElementArrayBuffer(2),
            GlOp::DrawElements { mode: GlLayout::Triangles, count: 6 },
            GlOp::BindElementArrayBuffer(0),
            GlOp::BindVertexArray(0),
        ]
    );
}

#[test]
fn shapegl_sphere_counts() {
    let shape = ShapeGL::sphere::<TestVertexP>(1, 2, 3, 4, 4).unwrap();
    assert_eq!(shape.vbo.buffer_size, 25);
    assert_eq!(shape.ibo.buffer_size, 72);
    assert_eq!(shape.vertex_count(), 72);
    assert!(ShapeGL::sphere::<TestVertexP>(1, 2, 3, 1, 4).is_err());
}

#[test]
fn shapegl_cylinder_counts() {
    let shape = ShapeGL::cylinder::<TestVertexP>(1, 2, 3, 1, 3).unwrap();
    assert_eq!(shape.vbo.buffer_size, 24);
    assert_eq!(shape.ibo.buffer_size, 90);
    assert_eq!(shape.vertex_count(), 90);
    assert!(ShapeGL::cylinder::<TestVertexP>(1, 2, 3, 0, 3).is_err());
}

#[test]
fn quad_winding() {
    let indices = rendergl::shape::quad_indices();
    assert_eq!(indices, vec![0, 1, 2, 2, 1, 3]);
    let data = sample_vertices(4);
    let quad = ShapeGL::new(1, 2, 3, &data, &indices, GlLayout::Triangles);
    assert_eq!(quad.vertex_count(), 6);
}

#[test]
fn marker_lists_partition_their_strides() {
    assert!(check_markers(&vertex_p_markers(), 12));
    assert!(check_markers(&vertex_uv_markers(), 20));
    assert!(check_markers(&vertex_n_markers(), 24));
    assert!(check_markers(&vertex_nt_markers(), 32));
    assert!(check_markers(&corner_markers(), 3));
    // Wrong stride, gap, and empty list are all rejected.
    assert!(!check_markers(&vertex_nt_markers(), 31));
    let gapped = vec![
        VBOAttribMarker::new(ShaderAttrib::POSITION, VertexAttrib::FLOAT, 3, false, 0),
        VBOAttribMarker::new(ShaderAttrib::NORMAL, VertexAttrib::FLOAT, 3, false, 16),
    ];
    assert!(!check_markers(&gapped, 28));
    assert!(!check_markers(&Vec::new(), 0));
}

#[test]
fn vertex_nt_layout_offsets() {
    let ms = vertex_nt_markers();
    assert_eq!(ms.len(), 3);
    assert_eq!((ms[0].name, ms[0].offset), (ShaderAttrib::POSITION, 0));
    assert_eq!((ms[1].name, ms[1].offset), (ShaderAttrib::NORMAL, 12));
    assert_eq!((ms[2].name, ms[2].offset), (ShaderAttrib::TEXCOORD0, 24));
    for m in &ms {
        assert_eq!(m.data_type, VertexAttrib::FLOAT);
        assert!(!m.normalize);
    }
}

#[test]
fn gl_enum_codes() {
    assert_eq!(GlLayout::Triangles.code(), 0x0004);
    assert_eq!(GlLayout::TriangleStrip.code(), 0x0005);
    assert_eq!(GlLayout::TriangleFan.code(), 0x0006);
    assert_eq!(GlLayout::LineStrip.code(), 0x0003);
    assert_eq!(ShaderAttrib::POSITION.location(), 0);
    assert_eq!(ShaderAttrib::TEXCOORD0.location(), 5);
    assert_eq!(VertexAttrib::FLOAT.code(), 0x1406);
    assert_eq!(VertexAttrib::FLOAT.byte_size(), 4);
    assert_eq!(VertexAttrib::BYTE.byte_size(), 1);
    assert_eq!(TextureTarget::Tex2D.code(), 0x0DE1);
    assert_eq!(TextureTarget::TexCubeMap.code(), 0x8513);
    assert_eq!(TextureParam::MinFilter.code(), 0x2801);
    assert_eq!(TextureParam::WrapR.code(), 0x8072);
    assert_eq!(FilterMethod::Linear.code(), 0x2601);
    assert_eq!(WrapMethod::ClampToEdge.code(), 0x812F);
}

#[test]
fn cubemap_needs_exactly_six_faces() {
    let face = ImageDesc { width: 8, height: 8, layout: PixelLayout::Rgba8 };
    assert!(Texture::cubemap(1, &vec![face; 5]).is_none());
    assert!(Texture::cubemap(1, &vec![face; 7]).is_none());
    assert!(Texture::cubemap(1, &vec![face; 0]).is_none());
    let (tex, ops) = Texture::cubemap(9, &vec![face; 6]).unwrap();
    assert_eq!(tex.id, 9);
    assert_eq!(tex.target, TextureTarget::TexCubeMap);
    assert_eq!(ops.len(), 8);
    assert_eq!(ops[0], GlOp::BindTexture { target: TextureTarget::TexCubeMap, id: 9 });
    for i in 0..6u32 {
        match ops[1 + i as usize] {
            GlOp::TexImage2D { target_code, width, height, format, .. } => {
                assert_eq!(target_code, 0x8515 + i);
                assert_eq!((width, height), (8, 8));
                assert_eq!(format, 0x1908);
            }
            ref other => panic!("expected an upload, found {:?}", other),
        }
    }
    assert_eq!(ops[7], GlOp::BindTexture { target: TextureTarget::TexCubeMap, id: 0 });
}

#[test]
fn texture_2d_upload_parameters() {
    let img = ImageDesc { width: 640, height: 480, layout: PixelLayout::Bgr8 };
    let (tex, ops) = Texture::from_image(4, &img);
    assert_eq!(tex.target, TextureTarget::Tex2D);
    assert_eq!(ops.len(), 3);
    assert_eq!(ops[0], GlOp::BindTexture { target: TextureTarget::Tex2D, id: 4 });
    assert_eq!(
        ops[1],
        GlOp::TexImage2D {
            target_code: 0x0DE1,
            level: 0,
            internal_format: 0x8058,
            width: 640,
            height: 480,
            format: 0x80E0,
            pixel_type: 0x1401,
        }
    );
    assert_eq!(ops[2], GlOp::BindTexture { target: TextureTarget::Tex2D, id: 0 });
}

#[test]
fn pixel_layout_from_channels() {
    assert_eq!(PixelLayout::from_channels(1, false).unwrap(), PixelLayout::Luma8);
    assert_eq!(PixelLayout::from_channels(2, false).unwrap(), PixelLayout::LumaA8);
    assert_eq!(PixelLayout::from_channels(3, false).unwrap(), PixelLayout::Rgb8);
    assert_eq!(PixelLayout::from_channels(4, false).unwrap(), PixelLayout::Rgba8);
    assert_eq!(PixelLayout::from_channels(3, true).unwrap(), PixelLayout::Bgr8);
    assert_eq!(PixelLayout::from_channels(4, true).unwrap(), PixelLayout::Bgra8);
    assert_eq!(
        PixelLayout::from_channels(2, true).unwrap_err(),
        TextureError::UnsupportedImageFormat { channels: 2, swapped: true }
    );
    assert_eq!(
        PixelLayout::from_channels(5, false).unwrap_err(),
        TextureError::UnsupportedImageFormat { channels: 5, swapped: false }
    );
    assert_eq!(PixelLayout::Luma8.gl_format(), 0x1903);
    assert_eq!(PixelLayout::LumaA8.gl_format(), 0x8227);
    assert_eq!(PixelLayout::Rgb8.gl_format(), 0x1907);
}

#[test]
fn texture_parameter_batches() {
    let mut params = TextureParameters::new();
    params.filter_method(FilterMethod::Linear);
    params.wrap_method3d(WrapMethod::ClampToEdge);
    let tex = Texture::texture_cubemap(5);
    let ops = params.apply_to(&tex);
    let t = TextureTarget::TexCubeMap;
    assert_eq!(
        ops,
        vec![
            GlOp::BindTexture { target: t, id: 5 },
            GlOp::TexParameter { target: t, param: TextureParam::MinFilter, value: 0x2601 },
            GlOp::TexParameter { target: t, param: TextureParam::MagFilter, value: 0x2601 },
            GlOp::TexParameter { target: t, param: TextureParam::WrapS, value: 0x812F },
            GlOp::TexParameter { target: t, param: TextureParam::WrapT, value: 0x812F },
            GlOp::TexParameter { target: t, param: TextureParam::WrapR, value: 0x812F },
            GlOp::BindTexture { target: t, id: 0 },
        ]
    );
}

#[test]
fn texture_parameter_set_param_appends() {
    let mut params = TextureParameters::new();
    params.set_param(TextureParam::BaseLevel, 2);
    params.wrap_method2d(WrapMethod::Repeat);
    assert_eq!(
        params.params,
        vec![
            (TextureParam::BaseLevel, 2),
            (TextureParam::WrapS, 0x2901),
            (TextureParam::WrapT, 0x2901),
        ]
    );
}

#[test]
fn texture_misc_ops() {
    let tex = Texture::texture_2d(6);
    assert_eq!(tex.bind(), GlOp::BindTexture { target: TextureTarget::Tex2D, id: 6 });
    assert_eq!(tex.unbind(), GlOp::BindTexture { target: TextureTarget::Tex2D, id: 0 });
    assert_eq!(tex.generate_mipmap(), GlOp::GenerateMipmap { target: TextureTarget::Tex2D });
    assert_eq!(Texture::active_texture(2), GlOp::ActiveTexture(0x84C2));
}

#[test]
fn skybox_cube_shape_is_the_36_corner_cube() {
    let shape = Skybox::cube_shape(1, 2, 3);
    assert_eq!(shape.vbo.buffer_size, 36);
    assert_eq!(shape.ibo.buffer_size, 36);
    assert_eq!(shape.vertex_count(), 36);
    let corners = rendergl::skybox::cube_corners();
    assert_eq!(corners.len(), 36);
    for c in &corners {
        assert!(c.x == 1 || c.x == -1);
        assert!(c.y == 1 || c.y == -1);
        assert!(c.z == 1 || c.z == -1);
    }
    assert_eq!(corners[0], CornerVertex { x: -1, y: 1, z: -1 });
    assert_eq!(corners[35], CornerVertex { x: 1, y: -1, z: 1 });
}
