use vstd::prelude::*;
use crate::command::{
    frame_commands, mesh_commands, model_commands, pass_commands, scene_commands, Command,
    MeshDraw, PipelineId, VertexSource,
};
use crate::surface::SurfaceError;

verus! {

/// Where the renderer stands within a frame.
#[derive(Clone, Copy, Debug, PartialEq, Eq, Structural)]
pub enum FrameState {
    /// No frame is acquired.
    Idle,
    /// A frame is acquired and commands are being recorded.
    FrameAcquired,
    /// What was recorded has been handed to the queue.
    Submitted,
}

impl FrameState {
    /// The state that acquiring a frame leads to from idle: a frame that is
    /// there is recorded into, a failure leaves the renderer idle.
    pub open spec fn acquired_spec(acquired: Result<(), SurfaceError>) -> FrameState {
        match acquired {
            Ok(_) => FrameState::FrameAcquired,
            Err(_) => FrameState::Idle,
        }
    }

    /// The state after a command, if the command may come in this state:
    /// with a frame acquired anything is recorded until the one submission,
    /// and after the submission nothing but the presentation follows, which
    /// leaves the renderer idle.
    pub open spec fn after_spec(self, command: Command) -> Option<FrameState> {
        match self {
            FrameState::Idle => None,
            FrameState::FrameAcquired => match command {
                Command::Submit => Some(FrameState::Submitted),
                Command::Present => None,
                _ => Some(FrameState::FrameAcquired),
            },
            FrameState::Submitted => match command {
                Command::Present => Some(FrameState::Idle),
                _ => None,
            },
        }
    }

    pub fn acquired(acquired: Result<(), SurfaceError>) -> (state: Self)
        ensures
            state == Self::acquired_spec(acquired),
    {
        match acquired {
            Ok(_) => FrameState::FrameAcquired,
            Err(_) => FrameState::Idle,
        }
    }

    pub fn after(self, command: Command) -> (next: Option<Self>)
        ensures
            next == self.after_spec(command),
    {
        match self {
            FrameState::Idle => None,
            FrameState::FrameAcquired => match command {
                Command::Submit => Some(FrameState::Submitted),
                Command::Present => None,
                _ => Some(FrameState::FrameAcquired),
            },
            FrameState::Submitted => match command {
                Command::Present => Some(FrameState::Idle),
                _ => None,
            },
        }
    }
}

/// The state after a run of commands, if every one of them may come where it
/// stands.
pub open spec fn state_after(start: FrameState, commands: Seq<Command>) -> Option<FrameState>
    decreases commands.len(),
{
    if commands.len() == 0 {
        Some(start)
    } else {
        match state_after(start, commands.drop_last()) {
            Some(state) => state.after_spec(commands.last()),
            None => None,
        }
    }
}

/// Running two runs of commands one after the other is running the second
/// from where the first ends.
pub proof fn state_after_add(start: FrameState, a: Seq<Command>, b: Seq<Command>)
    ensures
        state_after(start, a + b) == match state_after(start, a) {
            Some(state) => state_after(state, b),
            None => None,
        },
    decreases b.len(),
{
    if b.len() == 0 {
        assert(a + b =~= a);
    } else {
        assert((a + b).drop_last() =~= a + b.drop_last());
        assert((a + b).last() == b.last());
        state_after_add(start, a, b.drop_last());
    }
}

/// Drawing a mesh keeps the frame acquired.
proof fn mesh_keeps_frame(pipeline: PipelineId, model: usize, mesh: usize, draw: MeshDraw)
    ensures
        state_after(FrameState::FrameAcquired, mesh_commands(pipeline, model, mesh, draw)) == Some(
            FrameState::FrameAcquired,
        ),
{
    reveal_with_fuel(state_after, 8);
    let c = mesh_commands(pipeline, model, mesh, draw);
    match pipeline {
        PipelineId::Light => {
            assert(c.drop_last() =~= seq![c[0], c[1], c[2], c[3]]);
            assert(c.drop_last().drop_last() =~= seq![c[0], c[1], c[2]]);
            assert(c.drop_last().drop_last().drop_last() =~= seq![c[0], c[1]]);
            assert(c.drop_last().drop_last().drop_last().drop_last() =~= seq![c[0]]);
        },
        PipelineId::Main => {
            assert(c.drop_last() =~= seq![c[0], c[1], c[2], c[3], c[4]]);
            assert(c.drop_last().drop_last() =~= seq![c[0], c[1], c[2], c[3]]);
            assert(c.drop_last().drop_last().drop_last() =~= seq![c[0], c[1], c[2]]);
            assert(c.drop_last().drop_last().drop_last().drop_last() =~= seq![c[0], c[1]]);
            assert(c.drop_last().drop_last().drop_last().drop_last().drop_last() =~= seq![c[0]]);
        },
    }
}

/// Drawing a model keeps the frame acquired.
proof fn model_keeps_frame(pipeline: PipelineId, model: usize, meshes: Seq<MeshDraw>)
    ensures
        state_after(FrameState::FrameAcquired, model_commands(pipeline, model, meshes)) == Some(
            FrameState::FrameAcquired,
        ),
    decreases meshes.len(),
{
    if meshes.len() > 0 {
        model_keeps_frame(pipeline, model, meshes.drop_last());
        mesh_keeps_frame(pipeline, model, (meshes.len() - 1) as usize, meshes.last());
        state_after_add(
            FrameState::FrameAcquired,
            model_commands(pipeline, model, meshes.drop_last()),
            mesh_commands(pipeline, model, (meshes.len() - 1) as usize, meshes.last()),
        );
    }
}

/// A pipeline's pass over the scene keeps the frame acquired.
pub proof fn scene_keeps_frame(pipeline: PipelineId, models: Seq<Seq<MeshDraw>>)
    ensures
        state_after(FrameState::FrameAcquired, scene_commands(pipeline, models)) == Some(
            FrameState::FrameAcquired,
        ),
    decreases models.len(),
{
    if models.len() > 0 {
        scene_keeps_frame(pipeline, models.drop_last());
        model_keeps_frame(pipeline, (models.len() - 1) as usize, models.last());
        state_after_add(
            FrameState::FrameAcquired,
            scene_commands(pipeline, models.drop_last()),
            model_commands(pipeline, (models.len() - 1) as usize, models.last()),
        );
    }
}

/// A frame that was acquired is recorded, submitted once and presented, in
/// this order, and leaves the renderer idle: with or without instances on
/// the device, whatever the scene.
pub proof fn frame_returns_to_idle(models: Seq<Seq<MeshDraw>>, has_instances: bool)
    ensures
        state_after(FrameState::FrameAcquired, frame_commands(models, has_instances)) == Some(
            FrameState::Idle,
        ),
{
    let acquired = FrameState::FrameAcquired;
    let begin = seq![Command::BeginRenderPass];
    let pass = pass_commands(models, has_instances);
    let tail = seq![Command::EndRenderPass, Command::Submit, Command::Present];
    reveal_with_fuel(state_after, 4);
    assert(state_after(acquired, begin) == Some(acquired));
    assert(tail.drop_last() =~= seq![tail[0], tail[1]]);
    assert(tail.drop_last().drop_last() =~= seq![tail[0]]);
    assert(state_after(acquired, tail) == Some(FrameState::Idle));
    if has_instances {
        let head = seq![
            Command::SetVertexBuffer { slot: 1, source: VertexSource::Instances },
            Command::SetPipeline(PipelineId::Light),
        ];
        let middle = seq![Command::SetPipeline(PipelineId::Main)];
        let light = scene_commands(PipelineId::Light, models);
        let main = scene_commands(PipelineId::Main, models);
        assert(head.drop_last() =~= seq![head[0]]);
        assert(state_after(acquired, head) == Some(acquired));
        assert(state_after(acquired, middle) == Some(acquired));
        scene_keeps_frame(PipelineId::Light, models);
        scene_keeps_frame(PipelineId::Main, models);
        state_after_add(acquired, head, light);
        state_after_add(acquired, head + light, middle);
        state_after_add(acquired, head + light + middle, main);
    }
    assert(state_after(acquired, pass) == Some(acquired));
    state_after_add(acquired, begin, pass);
    state_after_add(acquired, begin + pass, tail);
}

/// Without a frame nothing may be recorded: every command is out of place
/// while the renderer is idle.
pub proof fn idle_records_nothing(command: Command)
    ensures
        FrameState::Idle.after_spec(command) is None,
{
}

} // verus!
