use vstd::prelude::*;

verus! {

/// The two pipelines that a frame draws with.
#[derive(Clone, Copy, Debug, PartialEq, Eq, Structural)]
pub enum PipelineId {
    /// Draws geometry against camera and light alone.
    Light,
    /// Draws textured, lit geometry.
    Main,
}

/// A vertex buffer that a command names.
#[derive(Clone, Copy, Debug, PartialEq, Eq, Structural)]
pub enum VertexSource {
    /// The vertices of mesh `mesh` of model `model`, both counted in loading
    /// order.
    Mesh { model: usize, mesh: usize },
    /// The instance records of all models.
    Instances,
}

/// A binding set that a command names.
#[derive(Clone, Copy, Debug, PartialEq, Eq, Structural)]
pub enum BindGroupRef {
    /// The set of material `material` of model `model`.
    Material { model: usize, material: usize },
    /// The set of the camera's uniform block.
    Camera,
    /// The set of the light's uniform block.
    Light,
}

/// One step of a frame, in the order in which the device is told.
#[derive(Clone, Copy, Debug, PartialEq, Eq, Structural)]
pub enum Command {
    /// Opens the frame's one pass, clearing colour and depth.
    BeginRenderPass,
    /// Binds a vertex buffer, whole, at a slot.
    SetVertexBuffer { slot: u32, source: VertexSource },
    /// Binds the index buffer of a mesh, whole, as 32-bit indices.
    SetIndexBuffer { model: usize, mesh: usize },
    /// Makes a pipeline current.
    SetPipeline(PipelineId),
    /// Binds a binding set at a slot, without dynamic offsets.
    SetBindGroup { index: u32, group: BindGroupRef },
    /// Draws indices `0..indices` from base vertex 0 for instances
    /// `0..instances`.
    DrawIndexed { indices: u32, instances: u32 },
    /// Closes the pass.
    EndRenderPass,
    /// Hands what was recorded to the queue.
    Submit,
    /// Shows the frame.
    Present,
}

/// What a draw call needs to know of a mesh.
pub struct MeshDraw {
    pub num_elements: u32,
    pub material: usize,
}

/// The commands that draw mesh `mesh` of model `model` with the light
/// pipeline: its buffers, the camera at slot 0, the light at slot 1, one
/// indexed draw.
pub open spec fn light_mesh_commands(model: usize, mesh: usize, draw: MeshDraw) -> Seq<Command> {
    seq![
        Command::SetVertexBuffer { slot: 0, source: VertexSource::Mesh { model, mesh } },
        Command::SetIndexBuffer { model, mesh },
        Command::SetBindGroup { index: 0, group: BindGroupRef::Camera },
        Command::SetBindGroup { index: 1, group: BindGroupRef::Light },
        Command::DrawIndexed { indices: draw.num_elements, instances: 1 },
    ]
}

/// The commands that draw mesh `mesh` of model `model` with the main
/// pipeline: its buffers, its material at slot 0, the camera at slot 1, the
/// light at slot 2, one indexed draw.
pub open spec fn main_mesh_commands(model: usize, mesh: usize, draw: MeshDraw) -> Seq<Command> {
    seq![
        Command::SetVertexBuffer { slot: 0, source: VertexSource::Mesh { model, mesh } },
        Command::SetIndexBuffer { model, mesh },
        Command::SetBindGroup {
            index: 0,
            group: BindGroupRef::Material { model, material: draw.material },
        },
        Command::SetBindGroup { index: 1, group: BindGroupRef::Camera },
        Command::SetBindGroup { index: 2, group: BindGroupRef::Light },
        Command::DrawIndexed { indices: draw.num_elements, instances: 1 },
    ]
}

/// The commands that draw one mesh with the given pipeline.
pub open spec fn mesh_commands(
    pipeline: PipelineId,
    model: usize,
    mesh: usize,
    draw: MeshDraw,
) -> Seq<Command> {
    match pipeline {
        PipelineId::Light => light_mesh_commands(model, mesh, draw),
        PipelineId::Main => main_mesh_commands(model, mesh, draw),
    }
}

/// The commands that draw the meshes of model `model`, in their order.
pub open spec fn model_commands(
    pipeline: PipelineId,
    model: usize,
    meshes: Seq<MeshDraw>,
) -> Seq<Command>
    decreases meshes.len(),
{
    if meshes.len() == 0 {
        Seq::empty()
    } else {
        model_commands(pipeline, model, meshes.drop_last()) + mesh_commands(
            pipeline,
            model,
            (meshes.len() - 1) as usize,
            meshes.last(),
        )
    }
}

/// The commands that draw all models, in their order.
pub open spec fn scene_commands(pipeline: PipelineId, models: Seq<Seq<MeshDraw>>) -> Seq<Command>
    decreases models.len(),
{
    if models.len() == 0 {
        Seq::empty()
    } else {
        scene_commands(pipeline, models.drop_last()) + model_commands(
            pipeline,
            (models.len() - 1) as usize,
            models.last(),
        )
    }
}

/// What is recorded between the opening and the closing of the pass. With
/// instance records on the device: they are bound at slot 1, then every
/// model is drawn with the light pipeline, then every model with the main
/// pipeline. Without them: nothing.
pub open spec fn pass_commands(models: Seq<Seq<MeshDraw>>, has_instances: bool) -> Seq<Command> {
    if has_instances {
        seq![
            Command::SetVertexBuffer { slot: 1, source: VertexSource::Instances },
            Command::SetPipeline(PipelineId::Light),
        ] + scene_commands(PipelineId::Light, models) + seq![Command::SetPipeline(PipelineId::Main)]
            + scene_commands(PipelineId::Main, models)
    } else {
        Seq::empty()
    }
}

/// A whole frame: the pass is opened, filled and closed, then what was
/// recorded is submitted once and the frame is shown.
pub open spec fn frame_commands(models: Seq<Seq<MeshDraw>>, has_instances: bool) -> Seq<Command> {
    seq![Command::BeginRenderPass] + pass_commands(models, has_instances) + seq![
        Command::EndRenderPass,
        Command::Submit,
        Command::Present,
    ]
}

/// What the frame's pass starts from: the colour that the target is cleared
/// to, as bit patterns of the double-precision numbers for red, green, blue
/// and alpha, and the depth that the depth buffer is cleared to, as the bit
/// pattern of a single-precision number. Both are stored when the pass ends.
#[derive(Clone, Copy, Debug)]
pub struct ClearValues {
    pub color: [u64; 4],
    pub depth: u32,
}

/// Bit pattern of the double-precision number 0.1.
pub const CLEAR_RED: u64 = 0x3FB9_9999_9999_999A;

/// Bit pattern of the double-precision number 0.2.
pub const CLEAR_GREEN: u64 = 0x3FC9_9999_9999_999A;

/// Bit pattern of the double-precision number 0.3.
pub const CLEAR_BLUE: u64 = 0x3FD3_3333_3333_3333;

/// Bit pattern of the double-precision number 1.
pub const CLEAR_ALPHA: u64 = 0x3FF0_0000_0000_0000;

/// Bit pattern of the single-precision number 1: the farthest depth.
pub const CLEAR_DEPTH: u32 = 0x3F80_0000;

/// An open pass: it keeps the commands recorded so far.
#[derive(Debug)]
pub struct RenderPass {
    pub commands: Vec<Command>,
}

impl RenderPass {
    /// What every pass starts from: a dark blue target and the farthest
    /// depth.
    pub fn clear_values() -> (clear: ClearValues)
        ensures
            clear.color@ == seq![CLEAR_RED, CLEAR_GREEN, CLEAR_BLUE, CLEAR_ALPHA],
            clear.depth == CLEAR_DEPTH,
    {
        ClearValues { color: [CLEAR_RED, CLEAR_GREEN, CLEAR_BLUE, CLEAR_ALPHA], depth: CLEAR_DEPTH }
    }

    /// Opens the pass.
    pub fn begin() -> (pass: Self)
        ensures
            pass.commands@ == seq![Command::BeginRenderPass],
    {
        let mut commands: Vec<Command> = Vec::new();
        commands.push(Command::BeginRenderPass);
        RenderPass { commands }
    }

    pub fn set_vertex_buffer(&mut self, slot: u32, source: VertexSource)
        ensures
            final(self).commands@ == old(self).commands@.push(
                Command::SetVertexBuffer { slot, source },
            ),
    {
        self.commands.push(Command::SetVertexBuffer { slot, source });
    }

    pub fn set_index_buffer(&mut self, model: usize, mesh: usize)
        ensures
            final(self).commands@ == old(self).commands@.push(
                Command::SetIndexBuffer { model, mesh },
            ),
    {
        self.commands.push(Command::SetIndexBuffer { model, mesh });
    }

    pub fn set_pipeline(&mut self, pipeline: PipelineId)
        ensures
            final(self).commands@ == old(self).commands@.push(Command::SetPipeline(pipeline)),
    {
        self.commands.push(Command::SetPipeline(pipeline));
    }

    pub fn set_bind_group(&mut self, index: u32, group: BindGroupRef)
        ensures
            final(self).commands@ == old(self).commands@.push(
                Command::SetBindGroup { index, group },
            ),
    {
        self.commands.push(Command::SetBindGroup { index, group });
    }

    pub fn draw_indexed(&mut self, indices: u32, instances: u32)
        ensures
            final(self).commands@ == old(self).commands@.push(
                Command::DrawIndexed { indices, instances },
            ),
    {
        self.commands.push(Command::DrawIndexed { indices, instances });
    }

    /// Closes the pass and hands back all that the frame does: the pass,
    /// one submission, the presentation.
    pub fn finish(self) -> (commands: Vec<Command>)
        ensures
            commands@ == self.commands@ + seq![
                Command::EndRenderPass,
                Command::Submit,
                Command::Present,
            ],
    {
        let mut commands = self.commands;
        commands.push(Command::EndRenderPass);
        commands.push(Command::Submit);
        commands.push(Command::Present);
        assert(commands@ =~= self.commands@ + seq![
            Command::EndRenderPass,
            Command::Submit,
            Command::Present,
        ]);
        commands
    }
}

} // verus!
