use vstd::prelude::*;
use crate::binding::{BindGroupLayout, Uniform};
use crate::buffer::is_memory_image;
use crate::camera::{CameraController, InputSignal, SENSITIVITY};
use crate::color::Color;
use crate::command::{
    frame_commands, model_commands, scene_commands, Command, MeshDraw, PipelineId, RenderPass,
    VertexSource,
};
use crate::context::{Context, TextureSource};
use crate::decode::ResourceError;
use crate::frame::{frame_returns_to_idle, state_after, FrameState};
use crate::instance::{instance_of, Instance};
use crate::mesh::ParsedMesh;
use crate::model::{Area3D, Model};
use crate::pipeline::{
    is_light_pipeline, is_main_pipeline, light_pipeline, main_pipeline, RenderPipelineDescriptor,
};
use crate::surface::{PresentMode, Recovery, SurfaceConfiguration, SurfaceError};
use crate::texture::{Texture, TextureFormat, TextureUsages};

verus! {

/// Bit pattern of the single-precision number 1.
pub const LIGHT_CHANNEL: u32 = 0x3F80_0000;

/// Bit pattern of the single-precision number 2.
pub const LIGHT_COORDINATE: u32 = 0x4000_0000;

/// A size in physical pixels, as the window reports it.
#[derive(Clone, Copy, Debug, PartialEq, Eq, Structural)]
pub struct PhysicalSize {
    pub width: u32,
    pub height: u32,
}

/// The buffer of instance records on the device: one record for every
/// instance, in the order of the instances.
#[derive(Clone, Copy, Debug, PartialEq, Eq, Structural)]
pub struct InstanceBuffer {
    pub instances: usize,
}

/// New contents for the buffer of a uniform block, written from its start.
#[derive(Debug)]
pub struct BufferWrite {
    pub target: Uniform,
    pub offset: u64,
    pub data: Vec<u8>,
}

/// The instances of a run of models: one for each, at its placement.
pub open spec fn instances_of(models: Seq<Model>) -> Seq<Instance> {
    Seq::new(models.len(), |i: int| instance_of(models[i].area))
}

/// What the draw calls need to know of a run of models.
pub open spec fn scene_view(models: Seq<Model>) -> Seq<Seq<MeshDraw>> {
    Seq::new(models.len(), |i: int| models[i].draw_view())
}

/// The renderer: the resource loader with its models, the size of the
/// window, the depth buffer, camera and light, and the instances with their
/// buffer.
#[derive(Debug)]
pub struct World {
    pub ctx: Context,
    pub size: PhysicalSize,
    pub render_pipeline: RenderPipelineDescriptor,
    pub depth_texture: Texture,
    pub camera: crate::camera::Context,
    pub instances: Vec<Instance>,
    pub instance_buffer: Option<InstanceBuffer>,
    pub light: crate::light::Context,
}

impl World {
    /// Whether the depth buffer has the size of the surface.
    pub open spec fn depth_matches_surface(&self) -> bool {
        self.depth_texture.is_depth_texture(
            self.ctx.config.width,
            self.ctx.config.height,
            "depth_texture"@,
        )
    }

    /// Whether the instances follow the models: once a model is loaded there
    /// is an instance buffer, and an instance buffer holds one record for
    /// every model, placed where the model was placed.
    pub open spec fn instances_match_models(&self) -> bool {
        match self.instance_buffer {
            Some(buffer) => buffer.instances == self.ctx.models@.len() && self.instances@
                == instances_of(self.ctx.models@),
            None => self.ctx.models@.len() == 0,
        }
    }

    /// Whether all parts of the renderer fit together.
    pub open spec fn well_formed(&self) -> bool {
        &&& self.ctx.well_formed()
        &&& self.depth_matches_surface()
        &&& self.instances_match_models()
        &&& self.camera.well_formed()
        &&& self.light.well_formed()
        &&& is_main_pipeline(self.render_pipeline, self.ctx.config.format)
        &&& is_light_pipeline(self.light.render_pipeline, self.ctx.config.format)
    }

    /// Whether `other` differs from this renderer at most in the models,
    /// the instances and their buffer.
    pub open spec fn same_surroundings(&self, other: World) -> bool {
        &&& self.ctx.layout == other.ctx.layout
        &&& self.ctx.config == other.ctx.config
        &&& self.size == other.size
        &&& self.render_pipeline == other.render_pipeline
        &&& self.depth_texture == other.depth_texture
        &&& self.camera == other.camera
        &&& self.light == other.light
    }

    /// Whether this is a renderer fresh from `new` for a window of `size`
    /// and a camera with the matrix `view_proj`: the surface has the
    /// window's size and is presented in turn, nothing is loaded, the light
    /// is white and stands at (2, 2, 2), and both uniform buffers hold their
    /// blocks.
    pub open spec fn is_initial(&self, size: PhysicalSize, view_proj: Seq<u32>) -> bool {
        &&& self.size == size
        &&& self.ctx.config == SurfaceConfiguration {
            usage: TextureUsages {
                render_attachment: true,
                texture_binding: false,
                copy_dst: false,
            },
            format: TextureFormat::Surface,
            width: size.width,
            height: size.height,
            present_mode: PresentMode::Fifo,
        }
        &&& self.ctx.models@.len() == 0
        &&& self.instances@.len() == 0
        &&& self.instance_buffer is None
        &&& self.camera.controller == CameraController::at_rest(SENSITIVITY)
        &&& self.camera.uniform.words() == view_proj
        &&& is_memory_image(self.camera.buffer.contents@, view_proj)
        &&& self.light.is_initial(
            Area3D(LIGHT_COORDINATE, LIGHT_COORDINATE, LIGHT_COORDINATE),
            Color(LIGHT_CHANNEL, LIGHT_CHANNEL, LIGHT_CHANNEL),
        )
    }

    /// Sets the renderer up for a window of the given size and a camera
    /// with the given view-projection matrix.
    pub fn new(size: PhysicalSize, view_proj: [u32; 16]) -> (world: Self)
        ensures
            world.well_formed(),
            world.is_initial(size, view_proj@),
    {
        let config = SurfaceConfiguration {
            usage: TextureUsages { render_attachment: true, texture_binding: false, copy_dst: false },
            format: TextureFormat::Surface,
            width: size.width,
            height: size.height,
            present_mode: PresentMode::Fifo,
        };
        let ctx = Context::new(BindGroupLayout::texture(), config);

        let camera = crate::camera::Context::initial(view_proj);
        let light = crate::light::Context::initial(
            Area3D(LIGHT_COORDINATE, LIGHT_COORDINATE, LIGHT_COORDINATE),
            Color::new(LIGHT_CHANNEL, LIGHT_CHANNEL, LIGHT_CHANNEL),
            light_pipeline(ctx.config.format),
        );
        let depth_texture = Texture::create_depth_texture(&ctx, "depth_texture");
        let render_pipeline = main_pipeline(ctx.config.format);

        World {
            ctx,
            size,
            render_pipeline,
            depth_texture,
            camera,
            instances: Vec::new(),
            instance_buffer: None,
            light,
        }
    }

    /// Derives the instances anew, one for every model, and replaces the
    /// instance buffer by one that holds them all.
    pub fn update_instances(&mut self)
        ensures
            final(self).instances@ == instances_of(old(self).ctx.models@),
            final(self).instance_buffer == Some(
                InstanceBuffer { instances: old(self).ctx.models.len() },
            ),
            final(self).ctx == old(self).ctx,
            final(self).same_surroundings(*old(self)),
            old(self).well_formed() ==> final(self).well_formed(),
    {
        let mut instances: Vec<Instance> = Vec::new();
        let mut i: usize = 0;
        while i < self.ctx.models.len()
            invariant
                *self == *old(self),
                i <= self.ctx.models@.len(),
                instances@.len() == i,
                forall|j: int|
                    0 <= j < i ==> #[trigger] instances@[j] == instance_of(self.ctx.models@[j].area),
            decreases self.ctx.models@.len() - i,
        {
            instances.push(Instance::at(self.ctx.models[i].area));
            i += 1;
        }
        assert(instances@ =~= instances_of(self.ctx.models@));
        self.instance_buffer = Some(InstanceBuffer { instances: instances.len() });
        self.instances = instances;
    }

    /// Loads a model at a placement and derives the instances anew, whether
    /// or not the model could be loaded.
    pub fn add_model(
        &mut self,
        path: &str,
        area: Area3D,
        models: Vec<ParsedMesh>,
        textures: Vec<TextureSource>,
    ) -> (r: Result<(), ResourceError>)
        ensures
            old(self).well_formed() ==> final(self).well_formed(),
            final(self).same_surroundings(*old(self)),
            final(self).instance_buffer == Some(
                InstanceBuffer { instances: final(self).ctx.models.len() },
            ),
            final(self).instances@ == instances_of(final(self).ctx.models@),
            r == crate::context::load_outcome(models@, textures@),
            r is Err ==> final(self).ctx.models@ == old(self).ctx.models@,
            r is Ok ==> final(self).ctx.models@.len() == old(self).ctx.models@.len() + 1
                && final(self).ctx.models@.drop_last() == old(self).ctx.models@
                && final(self).ctx.models@.last().is_loaded(path@, area, models@, textures@),
    {
        let r = self.ctx.load_model(path, area, models, textures);
        self.update_instances();
        r
    }

    /// Whether this renderer is `before` after following the window to
    /// `new_size`. A size with an empty side changes nothing. Any other is
    /// taken over: the surface gets the size, each side cut down to the
    /// largest configured, the depth buffer is one for the new surface, and
    /// all else is as before.
    pub open spec fn is_resized(&self, before: World, new_size: PhysicalSize) -> bool {
        if SurfaceConfiguration::accepts(new_size.width, new_size.height) {
            &&& self.size == new_size
            &&& self.ctx.config == before.ctx.config.configured(new_size.width, new_size.height)
            &&& self.depth_matches_surface()
            &&& self.ctx.layout == before.ctx.layout
            &&& self.ctx.models == before.ctx.models
            &&& self.render_pipeline == before.render_pipeline
            &&& self.camera == before.camera
            &&& self.light == before.light
            &&& self.instances == before.instances
            &&& self.instance_buffer == before.instance_buffer
        } else {
            *self == before
        }
    }

    /// Follows the window to a new size, and says whether surface and depth
    /// buffer were replaced: they are unless the size has an empty side.
    pub fn resize(&mut self, new_size: PhysicalSize) -> (changed: bool)
        ensures
            changed == SurfaceConfiguration::accepts(new_size.width, new_size.height),
            final(self).is_resized(*old(self), new_size),
            old(self).well_formed() ==> final(self).well_formed(),
    {
        if new_size.width > 0 && new_size.height > 0 {
            self.size = new_size;
            self.ctx.config.configure(new_size.width, new_size.height);
            self.depth_texture = Texture::create_depth_texture(&self.ctx, "depth_texture");
            true
        } else {
            false
        }
    }

    /// Hands a signal of the window on to the camera's controller, and says
    /// whether it was one for the camera. Nothing else changes.
    pub fn input(&mut self, signal: InputSignal) -> (handled: bool)
        ensures
            handled == CameraController::handles(signal),
            final(self).camera.controller == old(self).camera.controller.after(signal),
            final(self).camera.uniform == old(self).camera.uniform,
            final(self).camera.buffer == old(self).camera.buffer,
            final(self).camera.bind_group == old(self).camera.bind_group,
            final(self).ctx == old(self).ctx,
            final(self).size == old(self).size,
            final(self).render_pipeline == old(self).render_pipeline,
            final(self).depth_texture == old(self).depth_texture,
            final(self).instances == old(self).instances,
            final(self).instance_buffer == old(self).instance_buffer,
            final(self).light == old(self).light,
            old(self).well_formed() ==> final(self).well_formed(),
    {
        self.camera.controller.process_events(signal)
    }

    /// Takes over the camera's view-projection matrix and the light's new
    /// position, and says what to write into the two uniform buffers: first
    /// the camera's block, then the light's.
    pub fn update(&mut self, view_proj: [u32; 16], light_position: [u32; 3]) -> (writes: Vec<
        BufferWrite,
    >)
        ensures
            final(self).camera.uniform.words() == view_proj@,
            final(self).light.uniform.position == light_position,
            final(self).light.uniform.color == old(self).light.uniform.color,
            final(self).light.uniform._padding == old(self).light.uniform._padding,
            final(self).light.uniform._padding2 == old(self).light.uniform._padding2,
            writes@.len() == 2,
            writes@[0].target == Uniform::Camera,
            writes@[0].offset == 0,
            is_memory_image(writes@[0].data@, final(self).camera.uniform.words()),
            writes@[1].target == Uniform::Light,
            writes@[1].offset == 0,
            is_memory_image(writes@[1].data@, final(self).light.uniform.words()),
            final(self).ctx == old(self).ctx,
            final(self).size == old(self).size,
            final(self).render_pipeline == old(self).render_pipeline,
            final(self).depth_texture == old(self).depth_texture,
            final(self).instances == old(self).instances,
            final(self).instance_buffer == old(self).instance_buffer,
            final(self).camera.controller == old(self).camera.controller,
            final(self).camera.buffer == old(self).camera.buffer,
            final(self).camera.bind_group == old(self).camera.bind_group,
            final(self).light.buffer == old(self).light.buffer,
            final(self).light.bind_group == old(self).light.bind_group,
            final(self).light.render_pipeline == old(self).light.render_pipeline,
            old(self).well_formed() ==> final(self).well_formed(),
    {
        self.camera.uniform.update_view_proj(view_proj);
        self.light.uniform.position = light_position;
        let mut writes: Vec<BufferWrite> = Vec::new();
        writes.push(
            BufferWrite { target: Uniform::Camera, offset: 0, data: self.camera.uniform.to_bytes() },
        );
        writes.push(
            BufferWrite { target: Uniform::Light, offset: 0, data: self.light.uniform.to_bytes() },
        );
        writes
    }

    /// Whether there is anything to draw on: a surface with an empty side
    /// is passed over without a frame being acquired.
    pub fn wants_frame(&self) -> (wanted: bool)
        ensures
            wanted == (self.ctx.config.width > 0 && self.ctx.config.height > 0),
    {
        self.ctx.config.width > 0 && self.ctx.config.height > 0
    }

    /// What a frame does, given how acquiring it went. A failure is handed
    /// back and nothing is recorded. Else the frame's one pass is opened; if
    /// there is an instance buffer it is bound at slot 1 and every model is
    /// drawn, first with the light pipeline and then with the main one; the
    /// pass is closed, submitted once and shown.
    pub fn render(&self, acquired: Result<(), SurfaceError>) -> (r: Result<
        Vec<Command>,
        SurfaceError,
    >)
        ensures
            match acquired {
                Ok(_) => r is Ok && r->Ok_0@ == frame_commands(
                    scene_view(self.ctx.models@),
                    self.instance_buffer is Some,
                ),
                Err(e) => r == Err::<Vec<Command>, SurfaceError>(e),
            },
            r matches Ok(commands) ==> state_after(
                FrameState::acquired_spec(acquired),
                commands@,
            ) == Some(FrameState::Idle),
    {
        match acquired {
            Err(e) => {
                return Err(e);
            },
            Ok(_) => {},
        }
        let mut render_pass = RenderPass::begin();
        let ghost scene = scene_view(self.ctx.models@);
        if self.instance_buffer.is_some() {
            render_pass.set_vertex_buffer(1, VertexSource::Instances);
            render_pass.set_pipeline(PipelineId::Light);
            let ghost opened = render_pass.commands@;
            let mut i: usize = 0;
            assert(scene.take(0) =~= Seq::<Seq<MeshDraw>>::empty());
            assert(render_pass.commands@ =~= opened + scene_commands(
                PipelineId::Light,
                scene.take(0),
            ));
            while i < self.ctx.models.len()
                invariant
                    i <= self.ctx.models@.len(),
                    scene == scene_view(self.ctx.models@),
                    render_pass.commands@ == opened + scene_commands(
                        PipelineId::Light,
                        scene.take(i as int),
                    ),
                decreases self.ctx.models@.len() - i,
            {
                self.ctx.models[i].light(i, &mut render_pass);
                proof {
                    scene_commands_step(PipelineId::Light, scene, i + 1);
                    assert(render_pass.commands@ =~= opened + scene_commands(
                        PipelineId::Light,
                        scene.take(i + 1),
                    ));
                }
                i += 1;
            }
            assert(scene.take(i as int) =~= scene);
            render_pass.set_pipeline(PipelineId::Main);
            let ghost lit = render_pass.commands@;
            i = 0;
            assert(render_pass.commands@ =~= lit + scene_commands(PipelineId::Main, scene.take(0)));
            while i < self.ctx.models.len()
                invariant
                    i <= self.ctx.models@.len(),
                    scene == scene_view(self.ctx.models@),
                    render_pass.commands@ == lit + scene_commands(
                        PipelineId::Main,
                        scene.take(i as int),
                    ),
                decreases self.ctx.models@.len() - i,
            {
                self.ctx.models[i].draw(i, &mut render_pass);
                proof {
                    scene_commands_step(PipelineId::Main, scene, i + 1);
                    assert(render_pass.commands@ =~= lit + scene_commands(
                        PipelineId::Main,
                        scene.take(i + 1),
                    ));
                }
                i += 1;
            }
            assert(scene.take(i as int) =~= scene);
        }
        let commands = render_pass.finish();
        assert(commands@ =~= frame_commands(scene, self.instance_buffer is Some));
        proof {
            frame_returns_to_idle(scene, self.instance_buffer is Some);
        }
        Ok(commands)
    }

    /// Deals with a frame that could not be acquired, and says what the
    /// frame loop does next. A surface that is lost or outdated is followed
    /// to the window's size once more; any other error changes nothing.
    pub fn recover(&mut self, error: SurfaceError) -> (recovery: Recovery)
        ensures
            recovery == error.recovery_spec(),
            recovery == Recovery::Reconfigure ==> final(self).is_resized(
                *old(self),
                old(self).size,
            ),
            recovery != Recovery::Reconfigure ==> *final(self) == *old(self),
            old(self).well_formed() ==> final(self).well_formed(),
    {
        let recovery = error.recovery();
        match recovery {
            Recovery::Reconfigure => {
                let size = self.size;
                self.resize(size);
            },
            _ => {},
        }
        recovery
    }
}

/// The first `n` models of a scene, drawn, are the first `n - 1` drawn and
/// then model `n - 1`.
pub proof fn scene_commands_step(pipeline: PipelineId, models: Seq<Seq<MeshDraw>>, n: int)
    requires
        0 < n <= models.len(),
    ensures
        scene_commands(pipeline, models.take(n)) == scene_commands(pipeline, models.take(n - 1))
            + model_commands(pipeline, (n - 1) as usize, models[n - 1]),
{
    assert(models.take(n).drop_last() =~= models.take(n - 1));
}

} // verus!
