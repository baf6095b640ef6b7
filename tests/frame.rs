use scene_renderer::controller::{ElementState, Key};
use scene_renderer::draw::{frame_pass, DrawCommand, Pipeline, RenderPass};
use scene_renderer::frame::{
    Control, DeviceInput, FrameAction, InputEffect, State, SurfaceStatus, WindowInput,
};
use scene_renderer::model::{Material, Mesh, Model};

fn model() -> Model {
    Model {
        meshes: vec![
            Mesh { name: "a".to_string(), num_elements: 36, material: 1 },
            Mesh { name: "b".to_string(), num_elements: 6, material: 0 },
        ],
        materials: vec![
            Material {
                name: "m0".to_string(),
                diffuse_texture: "d0.png".to_string(),
                normal_texture: "n0.png".to_string(),
            },
            Material {
                name: "m1".to_string(),
                diffuse_texture: "d1.png".to_string(),
                normal_texture: "n1.png".to_string(),
            },
        ],
    }
}

fn mesh_names(s: &State) -> Vec<String> {
    s.model.meshes.iter().map(|m| m.name.clone()).collect()
}

#[test]
fn new_state_holds_grid_and_size() {
    let s = State::new(model(), 800, 600, 10);
    assert_eq!(s.instances.len(), 100);
    assert_eq!((s.width, s.height), (800, 600));
    assert!(!s.mouse_pressed);
}

#[test]
fn zero_sized_resize_is_ignored() {
    let mut s = State::new(model(), 800, 600, 2);
    assert!(!s.resize(0, 600));
    assert!(!s.resize(800, 0));
    assert_eq!((s.width, s.height), (800, 600));
    assert_eq!(s.window_event(WindowInput::Resized(0, 0)), Control::Continue);
    assert_eq!((s.width, s.height), (800, 600));
}

#[test]
fn resize_to_nonzero_reconfigures() {
    let mut s = State::new(model(), 800, 600, 2);
    assert_eq!(
        s.window_event(WindowInput::Resized(1024, 768)),
        Control::Reconfigure { width: 1024, height: 768 }
    );
    assert_eq!((s.width, s.height), (1024, 768));
}

#[test]
fn close_and_escape_exit() {
    let mut s = State::new(model(), 800, 600, 2);
    assert_eq!(s.window_event(WindowInput::CloseRequested), Control::Exit);
    assert_eq!(
        s.window_event(WindowInput::Key(Key::Escape, ElementState::Released)),
        Control::Continue
    );
    assert_eq!(
        s.window_event(WindowInput::Key(Key::Escape, ElementState::Pressed)),
        Control::Exit
    );
    assert_eq!(s.window_event(WindowInput::Other), Control::Continue);
}

#[test]
fn pointer_motion_turns_only_while_latched() {
    let mut s = State::new(model(), 800, 600, 2);
    assert_eq!(s.input(DeviceInput::MouseMotion), InputEffect::Handled);
    assert_eq!(s.input(DeviceInput::Button(1, ElementState::Pressed)), InputEffect::Handled);
    assert!(s.mouse_pressed);
    assert_eq!(s.input(DeviceInput::MouseMotion), InputEffect::Look);
    assert_eq!(s.input(DeviceInput::Button(1, ElementState::Released)), InputEffect::Handled);
    assert_eq!(s.input(DeviceInput::MouseMotion), InputEffect::Handled);
    assert_eq!(s.input(DeviceInput::Button(3, ElementState::Pressed)), InputEffect::Unhandled);
    assert!(!s.mouse_pressed);
}

#[test]
fn keys_reach_the_controller() {
    let mut s = State::new(model(), 800, 600, 2);
    assert_eq!(s.input(DeviceInput::Key(Key::D, ElementState::Pressed)), InputEffect::Handled);
    assert!(s.controller.right);
    assert_eq!(s.input(DeviceInput::Key(Key::Other, ElementState::Pressed)), InputEffect::Unhandled);
    assert_eq!(s.input(DeviceInput::Other), InputEffect::Unhandled);
}

#[test]
fn surface_errors_map_to_actions() {
    let mut s = State::new(model(), 800, 600, 2);
    s.resize(640, 480);
    assert!(matches!(
        s.render(SurfaceStatus::Lost),
        FrameAction::Reconfigure { width: 640, height: 480 }
    ));
    assert!(matches!(
        s.render(SurfaceStatus::Outdated),
        FrameAction::Reconfigure { width: 640, height: 480 }
    ));
    assert!(matches!(s.render(SurfaceStatus::OutOfMemory), FrameAction::Exit));
    assert!(matches!(s.render(SurfaceStatus::Timeout), FrameAction::Skip));
}

#[test]
fn ready_frame_draws_light_then_instanced_model() {
    let s = State::new(model(), 800, 600, 3);
    let pass = match s.render(SurfaceStatus::Ready) {
        FrameAction::Draw(p) => p,
        other => panic!("expected a draw, got {:?}", other),
    };
    let expected = vec![
        DrawCommand::SetInstanceBuffer { slot: 1 },
        DrawCommand::SetPipeline(Pipeline::Light),
        DrawCommand::SetMeshBuffers { mesh: 0 },
        DrawCommand::SetCamera { slot: 0 },
        DrawCommand::SetLight { slot: 1 },
        DrawCommand::DrawIndexed { elements: 36, first_instance: 0, end_instance: 1 },
        DrawCommand::SetMeshBuffers { mesh: 1 },
        DrawCommand::SetCamera { slot: 0 },
        DrawCommand::SetLight { slot: 1 },
        DrawCommand::DrawIndexed { elements: 6, first_instance: 0, end_instance: 1 },
        DrawCommand::SetPipeline(Pipeline::Main),
        DrawCommand::SetMeshBuffers { mesh: 0 },
        DrawCommand::SetMaterial { slot: 0, material: 1 },
        DrawCommand::SetCamera { slot: 1 },
        DrawCommand::SetLight { slot: 2 },
        DrawCommand::DrawIndexed { elements: 36, first_instance: 0, end_instance: 9 },
        DrawCommand::SetMeshBuffers { mesh: 1 },
        DrawCommand::SetMaterial { slot: 0, material: 0 },
        DrawCommand::SetCamera { slot: 1 },
        DrawCommand::SetLight { slot: 2 },
        DrawCommand::DrawIndexed { elements: 6, first_instance: 0, end_instance: 9 },
    ];
    assert_eq!(pass.commands, expected);
    assert_eq!(frame_pass(&s.model, 9).commands, expected);
}

#[test]
fn frame_cycle_leaves_model_untouched() {
    let mut s = State::new(model(), 800, 600, 10);
    let names = mesh_names(&s);
    s.input(DeviceInput::Key(Key::W, ElementState::Pressed));
    s.window_event(WindowInput::Resized(0, 10));
    let _ = s.render(SurfaceStatus::Ready);
    let _ = s.render(SurfaceStatus::Lost);
    assert_eq!(mesh_names(&s), names);
    assert_eq!(s.model.meshes[0].num_elements, 36);
    assert_eq!(s.model.meshes[0].material, 1);
    assert_eq!(s.model.materials.len(), 2);
}

#[test]
fn single_mesh_draw_records_bindings() {
    let m = model();
    let mut pass = RenderPass::new();
    pass.draw_mesh(&m, 1, 1);
    pass.draw_light_mesh(&m, 0);
    assert_eq!(
        pass.commands,
        vec![
            DrawCommand::SetMeshBuffers { mesh: 1 },
            DrawCommand::SetMaterial { slot: 0, material: 1 },
            DrawCommand::SetCamera { slot: 1 },
            DrawCommand::SetLight { slot: 2 },
            DrawCommand::DrawIndexed { elements: 6, first_instance: 0, end_instance: 1 },
            DrawCommand::SetMeshBuffers { mesh: 0 },
            DrawCommand::SetCamera { slot: 0 },
            DrawCommand::SetLight { slot: 1 },
            DrawCommand::DrawIndexed { elements: 36, first_instance: 0, end_instance: 1 },
        ]
    );
    let mut whole = RenderPass::new();
    whole.draw_model(&m);
    whole.draw_light_model(&m);
    assert_eq!(whole.commands.len(), 18);
}

#[test]
fn empty_model_frame_binds_and_switches_pipelines_only() {
    let empty = Model { meshes: vec![], materials: vec![] };
    let s = State::new(empty, 10, 10, 1);
    match s.render(SurfaceStatus::Ready) {
        FrameAction::Draw(p) => assert_eq!(
            p.commands,
            vec![
                DrawCommand::SetInstanceBuffer { slot: 1 },
                DrawCommand::SetPipeline(Pipeline::Light),
                DrawCommand::SetPipeline(Pipeline::Main),
            ]
        ),
        other => panic!("expected a draw, got {:?}", other),
    }
}
