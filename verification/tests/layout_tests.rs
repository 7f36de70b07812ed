use scene_renderer::binding::{
    BindGroup, BindGroupEntry, BindGroupLayout, BindGroupLayoutEntry, BindingResource, BindingType,
    ShaderStages, Uniform,
};
use scene_renderer::buffer::BufferUsage;
use scene_renderer::camera::CameraUniform;
use scene_renderer::color::Color;
use scene_renderer::context::{is_loadable, Context};
use scene_renderer::mesh::element_count;
use scene_renderer::instance::InstanceRaw;
use scene_renderer::light::LightUniform;
use scene_renderer::mesh::{flatten, ParsedMesh};
use scene_renderer::model::Area3D;
use scene_renderer::pipeline::{
    create_render_pipeline, light_pipeline, main_pipeline, BlendState, DepthStencilState,
    EntryPoint, Face, FrontFace, LayoutId, PipelineLayout, PolygonMode, PrimitiveTopology, Shader,
};
use scene_renderer::surface::{clamp_dimension, PresentMode, SurfaceConfiguration};
use scene_renderer::texture::{CompareFunction, Texture, TextureFormat, TextureUsages};
use scene_renderer::vertex::{
    ModelVertex, Vertex, VertexAttribute, VertexFormat, VertexStepMode,
};

#[test]
fn model_vertex_layout() {
    let layout = ModelVertex::desc();
    assert_eq!(layout.array_stride, 32);
    assert_eq!(layout.step_mode, VertexStepMode::Vertex);
    assert_eq!(
        layout.attributes,
        vec![
            VertexAttribute { offset: 0, shader_location: 0, format: VertexFormat::Float32x3 },
            VertexAttribute { offset: 12, shader_location: 1, format: VertexFormat::Float32x2 },
            VertexAttribute { offset: 20, shader_location: 2, format: VertexFormat::Float32x3 },
        ]
    );
}

#[test]
fn instance_layout() {
    let layout = InstanceRaw::desc();
    assert_eq!(layout.array_stride, 100);
    assert_eq!(layout.step_mode, VertexStepMode::Instance);
    assert_eq!(layout.attributes.len(), 7);
    let mut end = 0;
    for (k, a) in layout.attributes.iter().enumerate() {
        assert_eq!(a.offset, end);
        assert_eq!(a.shader_location, 5 + k as u32);
        end += a.format.size();
    }
    assert_eq!(end, 100);
    assert_eq!(layout.attributes[3].format, VertexFormat::Float32x4);
    assert_eq!(layout.attributes[4].format, VertexFormat::Float32x3);
}

#[test]
fn vertex_format_sizes() {
    assert_eq!(VertexFormat::Float32x2.size(), 8);
    assert_eq!(VertexFormat::Float32x3.size(), 12);
    assert_eq!(VertexFormat::Float32x4.size(), 16);
}

#[test]
fn instance_records_are_packed_column_by_column() {
    let mut model = [[0u32; 4]; 4];
    let mut normal = [[0u32; 3]; 3];
    let mut expected = Vec::new();
    for c in 0..4 {
        for r in 0..4 {
            model[c][r] = (10 * c + r) as u32;
            expected.push(model[c][r]);
        }
    }
    for c in 0..3 {
        for r in 0..3 {
            normal[c][r] = (100 + 10 * c + r) as u32;
            expected.push(normal[c][r]);
        }
    }
    let record = InstanceRaw { model, normal };
    let mut words = vec![9];
    record.write_to(&mut words);
    assert_eq!(words[0], 9);
    assert_eq!(&words[1..], &expected[..]);

    let buffer = InstanceRaw::pack(&vec![record, record]);
    assert_eq!(buffer.usage, BufferUsage::Vertex);
    assert_eq!(buffer.contents.len(), 200);
    let bytes: Vec<u8> = expected.iter().chain(expected.iter()).flat_map(|w| w.to_ne_bytes()).collect();
    assert_eq!(buffer.contents, bytes);
    assert!(InstanceRaw::pack(&Vec::new()).contents.is_empty());
}

#[test]
fn flatten_lays_vertices_out_in_order() {
    let v = ModelVertex { position: [1, 2, 3], tex_coords: [4, 5], normal: [6, 7, 8] };
    let w = ModelVertex { position: [11, 12, 13], tex_coords: [14, 15], normal: [16, 17, 18] };
    assert_eq!(flatten(&vec![v, w]), vec![1, 2, 3, 4, 5, 6, 7, 8, 11, 12, 13, 14, 15, 16, 17, 18]);
    assert!(flatten(&Vec::new()).is_empty());
}

#[test]
fn parsed_vertices_ignore_trailing_components() {
    let parsed = ParsedMesh {
        positions: vec![1, 2, 3, 4, 5],
        texcoords: vec![6, 7, 8],
        normals: vec![9, 10, 11, 12],
        indices: vec![],
        material_id: None,
    };
    assert!(parsed.is_complete());
    let vertices = parsed.vertices();
    assert_eq!(vertices.len(), 1);
    assert_eq!(vertices[0].position, [1, 2, 3]);
    assert_eq!(vertices[0].tex_coords, [6, 7]);
    assert_eq!(vertices[0].normal, [9, 10, 11]);
}

#[test]
fn element_count_keeps_the_low_32_bits() {
    assert_eq!(element_count(0), 0);
    assert_eq!(element_count(36), 36);
    assert_eq!(element_count(u32::MAX as usize), u32::MAX);
    if usize::BITS > 32 {
        assert_eq!(element_count((1usize << 32) + 5), 5);
    }
}

#[test]
fn loadable_needs_complete_meshes_and_known_materials() {
    let mesh = |material_id| ParsedMesh {
        positions: vec![0; 3],
        texcoords: vec![0; 2],
        normals: vec![0; 3],
        indices: vec![0; 3],
        material_id,
    };
    assert!(is_loadable(&vec![], 0));
    assert!(is_loadable(&vec![mesh(None), mesh(Some(1))], 2));
    assert!(!is_loadable(&vec![mesh(None), mesh(Some(2))], 2));
    assert!(!is_loadable(&vec![mesh(None)], 0));
    let mut short = mesh(None);
    short.normals.pop();
    assert!(!is_loadable(&vec![mesh(None), short], 1));
}

#[test]
fn light_uniform_layout() {
    let light = LightUniform::new(Area3D(1, 2, 3), Color::new(4, 5, 6));
    assert_eq!(light.position, [1, 2, 3]);
    assert_eq!(light._padding, 0);
    assert_eq!(light.color, [4, 5, 6]);
    assert_eq!(light._padding2, 0);
    assert_eq!(light.to_words(), vec![1, 2, 3, 0, 4, 5, 6, 0]);
    let bytes: Vec<u8> = [1u32, 2, 3, 0, 4, 5, 6, 0].iter().flat_map(|w| w.to_ne_bytes()).collect();
    assert_eq!(light.to_bytes(), bytes);
}

#[test]
fn camera_uniform_starts_as_identity() {
    let mut camera = CameraUniform::new();
    let one = 1.0f32.to_bits();
    assert_eq!(camera.view_proj, [one, 0, 0, 0, 0, one, 0, 0, 0, 0, one, 0, 0, 0, 0, one]);
    assert_eq!(camera.to_bytes().len(), 64);
    let matrix: [u32; 16] = core::array::from_fn(|k| k as u32 * 3);
    camera.update_view_proj(matrix);
    assert_eq!(camera.to_words(), matrix.to_vec());
}

#[test]
fn color_and_area_hand_out_their_components() {
    assert_eq!(Color::new(7, 8, 9).color(), [7, 8, 9]);
    assert_eq!(Area3D(1, 2, 3).position(), [1, 2, 3]);
    assert!(Area3D(0, 0x8000_0000, 0).is_zero());
    assert!(!Area3D(0, 1, 0).is_zero());
    assert!(!Area3D(f32::NAN.to_bits(), 0, 0).is_zero());
}

#[test]
fn binding_layouts_and_sets() {
    let fragment = ShaderStages { vertex: false, fragment: true };
    assert_eq!(
        BindGroupLayout::texture().entries,
        vec![
            BindGroupLayoutEntry { binding: 0, visibility: fragment, ty: BindingType::Texture },
            BindGroupLayoutEntry { binding: 1, visibility: fragment, ty: BindingType::FilteringSampler },
        ]
    );
    assert_eq!(
        BindGroupLayout::uniform().entries,
        vec![BindGroupLayoutEntry {
            binding: 0,
            visibility: ShaderStages { vertex: true, fragment: true },
            ty: BindingType::UniformBuffer,
        }]
    );
    assert_eq!(
        BindGroup::uniform(Uniform::Light).entries,
        vec![BindGroupEntry { binding: 0, resource: BindingResource::Buffer(Uniform::Light) }]
    );
    let config = SurfaceConfiguration {
        usage: TextureUsages { render_attachment: true, texture_binding: false, copy_dst: false },
        format: TextureFormat::Surface,
        width: 1,
        height: 1,
        present_mode: PresentMode::Fifo,
    };
    let ctx = Context::new(BindGroupLayout::texture(), config);
    let texture = Texture::from_rgba8(1, 1, vec![0, 0, 0, 0], None);
    assert_eq!(
        ctx.create_bind_group(&texture).entries,
        vec![
            BindGroupEntry { binding: 0, resource: BindingResource::TextureView },
            BindGroupEntry { binding: 1, resource: BindingResource::Sampler },
        ]
    );
}

#[test]
fn configure_clamps_and_skips_empty_sizes() {
    assert_eq!(clamp_dimension(0), 0);
    assert_eq!(clamp_dimension(8191), 8191);
    assert_eq!(clamp_dimension(8192), 8192);
    assert_eq!(clamp_dimension(8193), 8192);
    let mut config = SurfaceConfiguration {
        usage: TextureUsages { render_attachment: true, texture_binding: false, copy_dst: false },
        format: TextureFormat::Surface,
        width: 640,
        height: 480,
        present_mode: PresentMode::Fifo,
    };
    let before = config;
    assert!(!config.configure(0, 10));
    assert_eq!(config, before);
    assert!(config.configure(9000, 10));
    assert_eq!((config.width, config.height), (8192, 10));
    assert_eq!(config.format, TextureFormat::Surface);
}

#[test]
fn pipelines_of_the_renderer() {
    let main = main_pipeline(TextureFormat::Surface);
    assert_eq!(main.layout.bind_group_layouts, vec![LayoutId::Texture, LayoutId::Camera, LayoutId::Light]);
    assert_eq!(main.shader, Shader::Normal);
    assert_eq!(main.buffers.len(), 2);
    assert_eq!(main.buffers[0].array_stride, 32);
    assert_eq!(main.buffers[1].array_stride, 100);
    let light = light_pipeline(TextureFormat::Surface);
    assert_eq!(light.layout.bind_group_layouts, vec![LayoutId::Camera, LayoutId::Light]);
    assert_eq!(light.shader, Shader::Light);
    assert_eq!(light.buffers.len(), 1);
    for p in [&main, &light] {
        assert_eq!(p.vertex_entry_point, EntryPoint::VsMain);
        assert_eq!(p.fragment_entry_point, EntryPoint::FsMain);
        assert_eq!(p.target.format, TextureFormat::Surface);
        assert_eq!(p.target.blend, Some(BlendState::Replace));
        assert_eq!(p.primitive.topology, PrimitiveTopology::TriangleList);
        assert_eq!(p.primitive.front_face, FrontFace::Ccw);
        assert_eq!(p.primitive.cull_mode, Some(Face::Back));
        assert_eq!(p.primitive.polygon_mode, PolygonMode::Fill);
        assert_eq!(
            p.depth_stencil,
            Some(DepthStencilState {
                format: TextureFormat::Depth32Float,
                depth_write_enabled: true,
                depth_compare: CompareFunction::Less,
            })
        );
        assert_eq!(p.multisample.count, 1);
        assert_eq!(p.multisample.mask, u64::MAX);
        assert!(!p.multisample.alpha_to_coverage_enabled);
    }
}

#[test]
fn pipeline_without_depth_format_has_no_depth_test() {
    let p = create_render_pipeline(
        PipelineLayout::light(),
        TextureFormat::Rgba8UnormSrgb,
        None,
        Vec::new(),
        Shader::Light,
    );
    assert_eq!(p.depth_stencil, None);
    assert_eq!(p.target.format, TextureFormat::Rgba8UnormSrgb);
    assert!(p.buffers.is_empty());
}

#[test]
fn pass_clears_to_dark_blue_and_farthest_depth() {
    let clear = scene_renderer::command::RenderPass::clear_values();
    let color: Vec<f64> = clear.color.iter().map(|c| f64::from_bits(*c)).collect();
    assert_eq!(color, vec![0.1, 0.2, 0.3, 1.0]);
    assert_eq!(f32::from_bits(clear.depth), 1.0);
}
