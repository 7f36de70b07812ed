use cgmath::Rotation3;
use scene_renderer::binding::Uniform;
use scene_renderer::command::{BindGroupRef, Command, PipelineId, VertexSource};
use scene_renderer::context::TextureSource;
use scene_renderer::decode::ResourceError;
use scene_renderer::instance::{Axis, Instance, Rotation};
use scene_renderer::mesh::ParsedMesh;
use scene_renderer::model::Area3D;
use scene_renderer::surface::{Recovery, SurfaceError};
use scene_renderer::texture::Extent3d;
use scene_renderer::world::{InstanceBuffer, PhysicalSize, World};

fn bits(values: &[f32]) -> Vec<u32> {
    values.iter().map(|v| v.to_bits()).collect()
}

fn area(x: f32, y: f32, z: f32) -> Area3D {
    Area3D(x.to_bits(), y.to_bits(), z.to_bits())
}

fn identity() -> [u32; 16] {
    let mut m = [0u32; 16];
    for k in 0..4 {
        m[5 * k] = 1.0f32.to_bits();
    }
    m
}

fn world(width: u32, height: u32) -> World {
    World::new(PhysicalSize { width, height }, identity())
}

fn triangle(material_id: Option<usize>) -> ParsedMesh {
    ParsedMesh {
        positions: bits(&[0.0, 0.0, 0.0, 1.0, 0.0, 0.0, 0.0, 1.0, 0.0]),
        texcoords: bits(&[0.0, 0.0, 1.0, 0.0, 0.0, 1.0]),
        normals: bits(&[0.0, 0.0, 1.0, 0.0, 0.0, 1.0, 0.0, 0.0, 1.0]),
        indices: vec![0, 1, 2],
        material_id,
    }
}

fn quad(material_id: Option<usize>) -> ParsedMesh {
    ParsedMesh {
        positions: bits(&[0.0, 0.0, 0.0, 1.0, 0.0, 0.0, 1.0, 1.0, 0.0, 0.0, 1.0, 0.0]),
        texcoords: bits(&[0.0, 0.0, 1.0, 0.0, 1.0, 1.0, 0.0, 1.0]),
        normals: bits(&[0.0, 0.0, 1.0, 0.0, 0.0, 1.0, 0.0, 0.0, 1.0, 0.0, 0.0, 1.0]),
        indices: vec![0, 1, 2, 0, 2, 3],
        material_id,
    }
}

fn png(pixel: [u8; 4]) -> Vec<u8> {
    let buffer = image::RgbaImage::from_pixel(1, 1, image::Rgba(pixel));
    let mut bytes = Vec::new();
    image::DynamicImage::ImageRgba8(buffer)
        .write_to(&mut std::io::Cursor::new(&mut bytes), image::ImageOutputFormat::Png)
        .unwrap();
    bytes
}

fn texture(name: &str) -> TextureSource {
    TextureSource { name: name.to_string(), bytes: png([255, 255, 0, 255]) }
}

#[test]
fn new_world_is_empty_and_sized_like_the_window() {
    let w = world(800, 600);
    assert_eq!(w.size, PhysicalSize { width: 800, height: 600 });
    assert_eq!(w.ctx.config.width, 800);
    assert_eq!(w.ctx.config.height, 600);
    assert_eq!(
        w.depth_texture.texture.size,
        Extent3d { width: 800, height: 600, depth_or_array_layers: 1 }
    );
    assert!(w.ctx.models.is_empty());
    assert!(w.instances.is_empty());
    assert_eq!(w.instance_buffer, None);
    assert_eq!(w.camera.uniform.view_proj, identity());
    assert_eq!(w.camera.buffer.contents.len(), 64);
    assert_eq!(w.light.uniform.position, [2.0f32.to_bits(); 3]);
    assert_eq!(w.light.uniform.color, [1.0f32.to_bits(); 3]);
    assert_eq!(w.light.buffer.contents.len(), 32);
    assert!(w.wants_frame());
}

#[test]
fn instances_track_models_after_every_load() {
    let mut w = world(640, 480);
    let placements = [area(1.0, 0.0, 0.0), area(0.0, 0.0, 0.0), area(-3.0, 2.0, 5.5)];
    for (n, p) in placements.iter().enumerate() {
        let r = w.add_model("thing.obj", *p, vec![triangle(None)], vec![texture("thing.png")]);
        assert_eq!(r, Ok(()));
        assert_eq!(w.ctx.models.len(), n + 1);
        assert_eq!(w.instances.len(), n + 1);
        assert_eq!(w.instance_buffer, Some(InstanceBuffer { instances: n + 1 }));
        for i in 0..=n {
            assert_eq!(w.instances[i].position, placements[i]);
            assert_eq!(w.instances[i].position, w.ctx.models[i].area);
        }
    }
}

#[test]
fn orientation_follows_placement() {
    let origin = Instance::at(area(0.0, 0.0, 0.0));
    assert_eq!(origin.rotation, Rotation { axis: Axis::UnitZ, degrees: 0.0f32.to_bits() });
    let negative_zero = Instance::at(area(-0.0, 0.0, -0.0));
    assert_eq!(negative_zero.rotation.axis, Axis::UnitZ);
    assert_eq!(f32::from_bits(negative_zero.rotation.degrees), 0.0);
    for p in [area(1.0, 0.0, 0.0), area(0.0, 1.0, 0.0), area(10.0, 0.0, 10.0), area(0.0, 0.0, -2.5)] {
        let instance = Instance::at(p);
        assert_eq!(instance.position, p);
        assert_eq!(instance.rotation.axis, Axis::Normalized(p));
        assert_eq!(f32::from_bits(instance.rotation.degrees), 45.0);
    }
}

#[test]
fn resize_to_an_empty_side_changes_nothing() {
    for (width, height) in [(0u32, 600u32), (1024, 0), (0, 0)] {
        let mut w = world(800, 600);
        assert!(!w.resize(PhysicalSize { width, height }));
        assert_eq!(w.size, PhysicalSize { width: 800, height: 600 });
        assert_eq!(w.ctx.config.width, 800);
        assert_eq!(w.ctx.config.height, 600);
        assert_eq!(
            w.depth_texture.texture.size,
            Extent3d { width: 800, height: 600, depth_or_array_layers: 1 }
        );
    }
}

#[test]
fn resize_takes_over_the_size_and_clamps_it() {
    let cases = [
        ((1024u32, 768u32), (1024u32, 768u32)),
        ((8192, 8192), (8192, 8192)),
        ((8193, 1), (8192, 1)),
        ((1, 100_000), (1, 8192)),
        ((u32::MAX, u32::MAX), (8192, 8192)),
    ];
    for ((width, height), (cw, ch)) in cases {
        let mut w = world(800, 600);
        assert!(w.resize(PhysicalSize { width, height }));
        assert_eq!(w.size, PhysicalSize { width, height });
        assert_eq!((w.ctx.config.width, w.ctx.config.height), (cw, ch));
        assert_eq!(
            w.depth_texture.texture.size,
            Extent3d { width: cw, height: ch, depth_or_array_layers: 1 }
        );
        assert_eq!(w.depth_texture.texture.label.as_deref(), Some("depth_texture"));
    }
}

#[test]
fn resize_zero_by_six_hundred_leaves_configuration_and_depth_buffer() {
    let mut w = world(800, 600);
    let before_config = w.ctx.config;
    let before_depth = w.depth_texture.texture.size;
    assert!(!w.resize(PhysicalSize { width: 0, height: 600 }));
    assert_eq!(w.ctx.config, before_config);
    assert_eq!(w.depth_texture.texture.size, before_depth);
}

#[test]
fn one_model_gives_one_instance_and_two_passes() {
    let mut w = world(800, 600);
    let p = area(10.0, 0.0, 10.0);
    let r = w.add_model("banana.obj", p, vec![triangle(Some(0)), quad(None)], vec![texture("b.png")]);
    assert_eq!(r, Ok(()));
    assert_eq!(w.instances.len(), 1);
    assert_eq!(w.instances[0].position, p);
    assert_eq!(
        w.instances[0].rotation,
        Rotation { axis: Axis::Normalized(p), degrees: 45.0f32.to_bits() }
    );
    let frame = w.render(Ok(())).unwrap();
    let mesh = |mesh: usize| VertexSource::Mesh { model: 0, mesh };
    let expected = vec![
        Command::BeginRenderPass,
        Command::SetVertexBuffer { slot: 1, source: VertexSource::Instances },
        Command::SetPipeline(PipelineId::Light),
        Command::SetVertexBuffer { slot: 0, source: mesh(0) },
        Command::SetIndexBuffer { model: 0, mesh: 0 },
        Command::SetBindGroup { index: 0, group: BindGroupRef::Camera },
        Command::SetBindGroup { index: 1, group: BindGroupRef::Light },
        Command::DrawIndexed { indices: 3, instances: 1 },
        Command::SetVertexBuffer { slot: 0, source: mesh(1) },
        Command::SetIndexBuffer { model: 0, mesh: 1 },
        Command::SetBindGroup { index: 0, group: BindGroupRef::Camera },
        Command::SetBindGroup { index: 1, group: BindGroupRef::Light },
        Command::DrawIndexed { indices: 6, instances: 1 },
        Command::SetPipeline(PipelineId::Main),
        Command::SetVertexBuffer { slot: 0, source: mesh(0) },
        Command::SetIndexBuffer { model: 0, mesh: 0 },
        Command::SetBindGroup { index: 0, group: BindGroupRef::Material { model: 0, material: 0 } },
        Command::SetBindGroup { index: 1, group: BindGroupRef::Camera },
        Command::SetBindGroup { index: 2, group: BindGroupRef::Light },
        Command::DrawIndexed { indices: 3, instances: 1 },
        Command::SetVertexBuffer { slot: 0, source: mesh(1) },
        Command::SetIndexBuffer { model: 0, mesh: 1 },
        Command::SetBindGroup { index: 0, group: BindGroupRef::Material { model: 0, material: 0 } },
        Command::SetBindGroup { index: 1, group: BindGroupRef::Camera },
        Command::SetBindGroup { index: 2, group: BindGroupRef::Light },
        Command::DrawIndexed { indices: 6, instances: 1 },
        Command::EndRenderPass,
        Command::Submit,
        Command::Present,
    ];
    assert_eq!(frame, expected);
}

#[test]
fn models_are_drawn_in_loading_order() {
    let mut w = world(320, 200);
    w.add_model("a.obj", area(1.0, 1.0, 1.0), vec![triangle(None)], vec![texture("a.png")]).unwrap();
    w.add_model("b.obj", area(2.0, 2.0, 2.0), vec![quad(Some(1))], vec![texture("b0.png"), texture("b1.png")])
        .unwrap();
    let frame = w.render(Ok(())).unwrap();
    let pipelines: Vec<usize> = frame
        .iter()
        .enumerate()
        .filter(|(_, c)| matches!(c, Command::SetPipeline(_)))
        .map(|(k, _)| k)
        .collect();
    assert_eq!(pipelines.len(), 2);
    assert_eq!(frame[pipelines[0]], Command::SetPipeline(PipelineId::Light));
    assert_eq!(frame[pipelines[1]], Command::SetPipeline(PipelineId::Main));
    let draws = |range: std::ops::Range<usize>| -> Vec<Command> {
        frame[range].iter().filter(|c| matches!(c, Command::DrawIndexed { .. })).copied().collect()
    };
    let both = vec![
        Command::DrawIndexed { indices: 3, instances: 1 },
        Command::DrawIndexed { indices: 6, instances: 1 },
    ];
    assert_eq!(draws(pipelines[0]..pipelines[1]), both);
    assert_eq!(draws(pipelines[1]..frame.len()), both);
    assert!(frame.contains(&Command::SetBindGroup {
        index: 0,
        group: BindGroupRef::Material { model: 1, material: 1 }
    }));
    assert_eq!(frame.iter().filter(|c| **c == Command::Submit).count(), 1);
    assert_eq!(frame.iter().filter(|c| **c == Command::Present).count(), 1);
}

#[test]
fn frame_without_models_clears_and_draws_nothing() {
    let w = world(800, 600);
    let frame = w.render(Ok(())).unwrap();
    assert_eq!(
        frame,
        vec![Command::BeginRenderPass, Command::EndRenderPass, Command::Submit, Command::Present]
    );
}

#[test]
fn failed_acquisition_records_nothing() {
    let w = world(800, 600);
    for e in [SurfaceError::Timeout, SurfaceError::Outdated, SurfaceError::Lost, SurfaceError::OutOfMemory] {
        assert_eq!(w.render(Err(e)), Err(e));
    }
}

#[test]
fn surface_errors_are_recovered_from() {
    assert_eq!(SurfaceError::Lost.recovery(), Recovery::Reconfigure);
    assert_eq!(SurfaceError::Outdated.recovery(), Recovery::Reconfigure);
    assert_eq!(SurfaceError::OutOfMemory.recovery(), Recovery::Exit);
    assert_eq!(SurfaceError::Timeout.recovery(), Recovery::Retry);

    let mut w = world(10_000, 600);
    assert_eq!(w.ctx.config.width, 10_000);
    assert_eq!(w.recover(SurfaceError::Timeout), Recovery::Retry);
    assert_eq!(w.ctx.config.width, 10_000);
    assert_eq!(w.recover(SurfaceError::OutOfMemory), Recovery::Exit);
    assert_eq!(w.ctx.config.width, 10_000);
    assert_eq!(w.recover(SurfaceError::Lost), Recovery::Reconfigure);
    assert_eq!(w.ctx.config.width, 8192);
    assert_eq!(w.ctx.config.height, 600);
    assert_eq!(w.size, PhysicalSize { width: 10_000, height: 600 });
    assert_eq!(w.depth_texture.texture.size.width, 8192);
}

#[test]
fn degenerate_surface_wants_no_frame() {
    assert!(!world(0, 600).wants_frame());
    assert!(!world(800, 0).wants_frame());
    assert!(world(1, 1).wants_frame());
}

#[test]
fn malformed_models_are_turned_down() {
    let mut w = world(800, 600);
    let mut incomplete = triangle(None);
    incomplete.texcoords.truncate(4);
    let r = w.add_model("bad.obj", area(1.0, 0.0, 0.0), vec![incomplete], vec![texture("t.png")]);
    assert_eq!(r, Err(ResourceError::Malformed));
    assert!(w.ctx.models.is_empty());
    assert_eq!(w.instance_buffer, Some(InstanceBuffer { instances: 0 }));

    let r = w.add_model("bad.obj", area(1.0, 0.0, 0.0), vec![triangle(Some(1))], vec![texture("t.png")]);
    assert_eq!(r, Err(ResourceError::Malformed));
    let r = w.add_model("bad.obj", area(1.0, 0.0, 0.0), vec![triangle(None)], vec![]);
    assert_eq!(r, Err(ResourceError::Malformed));
    assert!(w.ctx.models.is_empty());
}

#[test]
fn undecodable_texture_fails_the_load() {
    let mut w = world(800, 600);
    let broken = TextureSource { name: "broken.png".to_string(), bytes: vec![1, 2, 3] };
    let r = w.ctx.load_model("m.obj", area(0.0, 0.0, 0.0), vec![triangle(None)], vec![broken]);
    assert_eq!(r, Err(ResourceError::Undecodable));
    assert!(w.ctx.models.is_empty());
}

#[test]
fn loaded_model_keeps_meshes_materials_and_placement() {
    let mut w = world(800, 600);
    let p = area(4.0, 5.0, 6.0);
    w.ctx
        .load_model("pair.obj", p, vec![triangle(Some(1)), quad(None)], vec![texture("0.png"), texture("1.png")])
        .unwrap();
    let model = &w.ctx.models[0];
    assert_eq!(model.area, p);
    assert_eq!(model.meshes.len(), 2);
    assert_eq!(model.meshes[0].material, 1);
    assert_eq!(model.meshes[1].material, 0);
    assert_eq!(model.meshes[0].num_elements, 3);
    assert_eq!(model.meshes[1].num_elements, 6);
    assert_eq!(model.meshes[1].vertex_buffer.contents.len(), 4 * 32);
    assert_eq!(model.materials.len(), 2);
    assert_eq!(model.materials[0].name, "pair.obj");
    assert_eq!(model.materials[1].diffuse_texture.texture.label.as_deref(), Some("1.png"));
    assert_eq!(model.materials[0].bind_group.entries.len(), 2);
}

#[test]
fn update_writes_camera_then_light() {
    let mut w = world(800, 600);
    let mut matrix = [0u32; 16];
    for (k, m) in matrix.iter_mut().enumerate() {
        *m = (k as f32 + 0.5).to_bits();
    }
    let position = [3.0f32.to_bits(), 2.0f32.to_bits(), (-1.0f32).to_bits()];
    let writes = w.update(matrix, position);
    assert_eq!(w.camera.uniform.view_proj, matrix);
    assert_eq!(w.light.uniform.position, position);
    assert_eq!(w.light.uniform.color, [1.0f32.to_bits(); 3]);
    assert_eq!(writes.len(), 2);
    assert_eq!(writes[0].target, Uniform::Camera);
    assert_eq!(writes[0].offset, 0);
    let camera_bytes: Vec<u8> = matrix.iter().flat_map(|w| w.to_ne_bytes()).collect();
    assert_eq!(writes[0].data, camera_bytes);
    assert_eq!(writes[1].target, Uniform::Light);
    assert_eq!(writes[1].offset, 0);
    let light_words =
        [position[0], position[1], position[2], 0, 1.0f32.to_bits(), 1.0f32.to_bits(), 1.0f32.to_bits(), 0];
    let light_bytes: Vec<u8> = light_words.iter().flat_map(|w| w.to_ne_bytes()).collect();
    assert_eq!(writes[1].data, light_bytes);
    assert_eq!(writes[1].data.len(), 32);
}

#[test]
fn orbiting_light_keeps_its_distance_from_the_vertical_axis() {
    let mut w = world(800, 600);
    let radius = |p: [u32; 3]| {
        let x = f32::from_bits(p[0]);
        let z = f32::from_bits(p[2]);
        (x * x + z * z).sqrt()
    };
    let start = radius(w.light.uniform.position);
    let step = cgmath::Quaternion::from_axis_angle(cgmath::Vector3::unit_y(), cgmath::Deg(1.0f32));
    for _ in 0..360 {
        let p = w.light.uniform.position;
        let old = cgmath::Vector3::new(f32::from_bits(p[0]), f32::from_bits(p[1]), f32::from_bits(p[2]));
        let new = step * old;
        w.update(identity(), [new.x.to_bits(), new.y.to_bits(), new.z.to_bits()]);
        assert!((radius(w.light.uniform.position) - start).abs() < 1e-3);
        assert_eq!(w.light.uniform.position[1], p[1]);
    }
}
