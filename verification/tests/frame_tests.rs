use scene_renderer::camera::{CameraController, Direction, InputSignal, SENSITIVITY};
use scene_renderer::command::{BindGroupRef, Command, PipelineId, RenderPass, VertexSource};
use scene_renderer::frame::FrameState;
use scene_renderer::surface::SurfaceError;
use scene_renderer::world::{PhysicalSize, World};

fn run(start: FrameState, commands: &[Command]) -> Option<FrameState> {
    let mut state = start;
    for c in commands {
        state = state.after(*c)?;
    }
    Some(state)
}

#[test]
fn acquiring_decides_where_the_frame_starts() {
    assert_eq!(FrameState::acquired(Ok(())), FrameState::FrameAcquired);
    assert_eq!(FrameState::acquired(Err(SurfaceError::Lost)), FrameState::Idle);
    assert_eq!(FrameState::acquired(Err(SurfaceError::Timeout)), FrameState::Idle);
}

#[test]
fn transitions_of_a_frame() {
    let draw = Command::DrawIndexed { indices: 3, instances: 1 };
    assert_eq!(FrameState::Idle.after(Command::BeginRenderPass), None);
    assert_eq!(FrameState::Idle.after(Command::Submit), None);
    assert_eq!(FrameState::Idle.after(Command::Present), None);
    assert_eq!(FrameState::FrameAcquired.after(Command::BeginRenderPass), Some(FrameState::FrameAcquired));
    assert_eq!(FrameState::FrameAcquired.after(draw), Some(FrameState::FrameAcquired));
    assert_eq!(FrameState::FrameAcquired.after(Command::Submit), Some(FrameState::Submitted));
    assert_eq!(FrameState::FrameAcquired.after(Command::Present), None);
    assert_eq!(FrameState::Submitted.after(Command::Present), Some(FrameState::Idle));
    assert_eq!(FrameState::Submitted.after(Command::Submit), None);
    assert_eq!(FrameState::Submitted.after(draw), None);
}

#[test]
fn rendered_frame_returns_to_idle() {
    let world = World::new(PhysicalSize { width: 64, height: 64 }, [0; 16]);
    let frame = world.render(Ok(())).unwrap();
    assert_eq!(run(FrameState::acquired(Ok(())), &frame), Some(FrameState::Idle));
    assert_eq!(run(FrameState::Idle, &frame), None);
}

#[test]
fn recorder_appends_in_call_order() {
    let mut pass = RenderPass::begin();
    pass.set_pipeline(PipelineId::Main);
    pass.set_vertex_buffer(0, VertexSource::Mesh { model: 2, mesh: 1 });
    pass.set_index_buffer(2, 1);
    pass.set_bind_group(1, BindGroupRef::Camera);
    pass.draw_indexed(12, 1);
    assert_eq!(
        pass.finish(),
        vec![
            Command::BeginRenderPass,
            Command::SetPipeline(PipelineId::Main),
            Command::SetVertexBuffer { slot: 0, source: VertexSource::Mesh { model: 2, mesh: 1 } },
            Command::SetIndexBuffer { model: 2, mesh: 1 },
            Command::SetBindGroup { index: 1, group: BindGroupRef::Camera },
            Command::DrawIndexed { indices: 12, instances: 1 },
            Command::EndRenderPass,
            Command::Submit,
            Command::Present,
        ]
    );
}

#[test]
fn controller_follows_keys_and_ignores_the_rest() {
    let mut c = CameraController::new(0.2f32.to_bits());
    assert_eq!(c.speed, SENSITIVITY);
    assert!(!c.is_forward_pressed && !c.is_backward_pressed && !c.is_left_pressed && !c.is_right_pressed);
    assert!(c.process_events(InputSignal::Pressed(Direction::Forward)));
    assert!(c.process_events(InputSignal::Pressed(Direction::Left)));
    assert!(c.is_forward_pressed && c.is_left_pressed && !c.is_backward_pressed && !c.is_right_pressed);
    assert!(c.process_events(InputSignal::Released(Direction::Forward)));
    assert!(!c.is_forward_pressed && c.is_left_pressed);
    let before = c;
    assert!(c.process_events(InputSignal::PointerMoved));
    assert_eq!(c, before);
    assert!(!c.process_events(InputSignal::Other));
    assert_eq!(c, before);
    assert!(c.process_events(InputSignal::Pressed(Direction::Backward)));
    assert!(c.process_events(InputSignal::Pressed(Direction::Right)));
    assert!(c.is_backward_pressed && c.is_right_pressed);
    assert_eq!(c.speed, SENSITIVITY);
}

#[test]
fn world_hands_signals_to_the_controller() {
    let mut world = World::new(PhysicalSize { width: 64, height: 64 }, [0; 16]);
    assert_eq!(world.camera.controller, CameraController::new(SENSITIVITY));
    assert_eq!(f32::from_bits(world.camera.controller.speed), 0.2);
    assert!(world.input(InputSignal::Pressed(Direction::Right)));
    assert!(world.camera.controller.is_right_pressed);
    assert!(!world.input(InputSignal::Other));
    assert!(world.camera.controller.is_right_pressed);
    assert!(world.input(InputSignal::Released(Direction::Right)));
    assert_eq!(world.camera.controller, CameraController::new(SENSITIVITY));
    assert_eq!(world.ctx.config.width, 64);
}
