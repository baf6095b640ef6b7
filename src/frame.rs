//! The frame orchestrator's decisions: what each input event does to the
//! controller and the look latch, how window events and resizes are handled,
//! and what a frame does for each outcome of acquiring the next image.
use vstd::prelude::*;
use crate::controller::{binding, Controller, ElementState, Key};
use crate::draw::{frame_commands, frame_pass, RenderPass};
use crate::model::Model;
use crate::scene::{grid_cell, instance_grid, GridCell};

verus! {

/// The pointer button that holds the look latch.
pub const LOOK_BUTTON: u32 = 1;

/// A device event, as far as the renderer reads it. A motion event's delta
/// stays with the caller, which applies it when told to.
#[derive(Clone, Copy, Debug, PartialEq, Eq, Structural)]
pub enum DeviceInput {
    Key(Key, ElementState),
    Button(u32, ElementState),
    MouseMotion,
    Other,
}

/// What the caller does after a device event.
#[derive(Clone, Copy, Debug, PartialEq, Eq, Structural)]
pub enum InputEffect {
    /// Not consumed: hand the event on to other consumers.
    Unhandled,
    /// Consumed.
    Handled,
    /// Consumed: feed the motion delta into the controller's rotation.
    Look,
}

/// A window event, as far as the renderer reads it.
#[derive(Clone, Copy, Debug, PartialEq, Eq, Structural)]
pub enum WindowInput {
    CloseRequested,
    Key(Key, ElementState),
    Resized(u32, u32),
    Other,
}

/// What the event loop does after a window event.
#[derive(Clone, Copy, Debug, PartialEq, Eq, Structural)]
pub enum Control {
    Continue,
    /// Reconfigure the surface and depth buffer at this size and update the
    /// camera's aspect ratio.
    Reconfigure { width: u32, height: u32 },
    Exit,
}

/// The outcome of acquiring the next presentable image.
#[derive(Clone, Copy, Debug, PartialEq, Eq, Structural)]
pub enum SurfaceStatus {
    Ready,
    Timeout,
    Outdated,
    Lost,
    OutOfMemory,
}

/// An event of the input phase, from the device or the window.
#[derive(Clone, Copy, Debug, PartialEq, Eq, Structural)]
pub enum FrameEvent {
    Device(DeviceInput),
    Window(WindowInput),
}

/// What a frame does once the image acquisition has answered.
#[derive(Debug)]
pub enum FrameAction {
    /// Replay these commands into a pass over the image, submit, present.
    Draw(RenderPass),
    /// The surface is stale: reconfigure it at this size and skip the frame.
    Reconfigure { width: u32, height: u32 },
    /// Skip the frame.
    Skip,
    /// The device cannot recover: stop with a failure.
    Exit,
}

/// The CPU-side state the frame loop owns: the loaded model, the surface
/// size, the controller's keys, the instance grid and the look latch.
#[derive(Debug)]
pub struct State {
    pub model: Model,
    pub width: u32,
    pub height: u32,
    pub controller: Controller,
    pub instances: Vec<GridCell>,
    pub mouse_pressed: bool,
}

impl State {
    /// The model's meshes name existing materials, and the instance count
    /// fits the 32-bit instance range of a draw.
    pub open spec fn wf(&self) -> bool {
        &&& self.model.wf()
        &&& self.instances@.len() <= u32::MAX
    }

    /// The starting state: no key held, latch released, and a grid of
    /// `per_row` x `per_row` instances.
    pub fn new(model: Model, width: u32, height: u32, per_row: u32) -> (r: State)
        requires
            model.wf(),
            per_row <= 0xffff,
        ensures
            r.wf(),
            r.model == model,
            r.width == width,
            r.height == height,
            r.controller == Controller::new_spec(),
            !r.mouse_pressed,
            r.instances@.len() == per_row * per_row,
            forall|k: int|
                0 <= k < r.instances@.len() ==> #[trigger] r.instances@[k] == grid_cell(
                    per_row as int,
                    k % per_row as int,
                    k / per_row as int,
                ),
    {
        assert(per_row * per_row <= 0xffff * 0xffff) by (nonlinear_arith)
            requires
                per_row <= 0xffff,
        ;
        State {
            model,
            width,
            height,
            controller: Controller::new(),
            instances: instance_grid(per_row),
            mouse_pressed: false,
        }
    }

    /// The state after a resize: a size with a zero side changes nothing.
    pub open spec fn resized(self, width: u32, height: u32) -> State {
        if width > 0 && height > 0 {
            State { width, height, ..self }
        } else {
            self
        }
    }

    /// The state after a device event.
    pub open spec fn device_step(self, event: DeviceInput) -> State {
        match event {
            DeviceInput::Key(key, state) => State {
                controller: self.controller.after_key(key, state),
                ..self
            },
            DeviceInput::Button(button, state) => if button == LOOK_BUTTON {
                State { mouse_pressed: state == ElementState::Pressed, ..self }
            } else {
                self
            },
            _ => self,
        }
    }

    /// The state after a window event.
    pub open spec fn window_step(self, event: WindowInput) -> State {
        match event {
            WindowInput::Resized(width, height) => self.resized(width, height),
            _ => self,
        }
    }

    /// The state after an event of either kind.
    pub open spec fn step(self, event: FrameEvent) -> State {
        match event {
            FrameEvent::Device(e) => self.device_step(e),
            FrameEvent::Window(e) => self.window_step(e),
        }
    }

    /// Applies a resize. A size with a zero side is a transient minimize and
    /// changes nothing; any other size is taken. Returns whether it was taken.
    pub fn resize(&mut self, width: u32, height: u32) -> (applied: bool)
        ensures
            applied == (width > 0 && height > 0),
            *final(self) == old(self).resized(width, height),
    {
        if width > 0 && height > 0 {
            self.width = width;
            self.height = height;
            true
        } else {
            false
        }
    }

    /// Handles one device event: keys go to the controller, the look button
    /// sets or clears the latch, and pointer motion turns the view only while
    /// the latch is held.
    pub fn input(&mut self, event: DeviceInput) -> (r: InputEffect)
        ensures
            *final(self) == old(self).device_step(event),
            r == match event {
                DeviceInput::Key(key, _) => if binding(key).is_some() {
                    InputEffect::Handled
                } else {
                    InputEffect::Unhandled
                },
                DeviceInput::Button(button, _) => if button == LOOK_BUTTON {
                    InputEffect::Handled
                } else {
                    InputEffect::Unhandled
                },
                DeviceInput::MouseMotion => if old(self).mouse_pressed {
                    InputEffect::Look
                } else {
                    InputEffect::Handled
                },
                DeviceInput::Other => InputEffect::Unhandled,
            },
    {
        match event {
            DeviceInput::Key(key, state) => {
                if self.controller.process_keyboard(key, state) {
                    InputEffect::Handled
                } else {
                    InputEffect::Unhandled
                }
            },
            DeviceInput::Button(button, state) => {
                if button == LOOK_BUTTON {
                    self.mouse_pressed = state == ElementState::Pressed;
                    InputEffect::Handled
                } else {
                    InputEffect::Unhandled
                }
            },
            DeviceInput::MouseMotion => {
                if self.mouse_pressed {
                    InputEffect::Look
                } else {
                    InputEffect::Handled
                }
            },
            DeviceInput::Other => InputEffect::Unhandled,
        }
    }

    /// Handles one window event: a close request or a press of Escape ends
    /// the loop, and a resize is applied as `resize` does.
    pub fn window_event(&mut self, event: WindowInput) -> (r: Control)
        ensures
            *final(self) == old(self).window_step(event),
            r == match event {
                WindowInput::CloseRequested => Control::Exit,
                WindowInput::Key(key, state) => if key == Key::Escape && state
                    == ElementState::Pressed {
                    Control::Exit
                } else {
                    Control::Continue
                },
                WindowInput::Resized(width, height) => if width > 0 && height > 0 {
                    Control::Reconfigure { width, height }
                } else {
                    Control::Continue
                },
                WindowInput::Other => Control::Continue,
            },
    {
        match event {
            WindowInput::CloseRequested => Control::Exit,
            WindowInput::Key(key, state) => {
                if key == Key::Escape && state == ElementState::Pressed {
                    Control::Exit
                } else {
                    Control::Continue
                }
            },
            WindowInput::Resized(width, height) => {
                if self.resize(width, height) {
                    Control::Reconfigure { width, height }
                } else {
                    Control::Continue
                }
            },
            WindowInput::Other => Control::Continue,
        }
    }

    /// Decides the frame from the outcome of acquiring the next image: draw
    /// the light mesh and the instanced model on a ready image, reconfigure
    /// at the current size on a stale or lost surface, give up when memory
    /// is exhausted, and skip the frame on a timeout.
    pub fn render(&self, status: SurfaceStatus) -> (r: FrameAction)
        requires
            self.wf(),
        ensures
            match status {
                SurfaceStatus::Ready => r matches FrameAction::Draw(pass) && pass.commands@
                    == frame_commands(self.model.meshes@, self.instances@.len() as u32),
                SurfaceStatus::Outdated | SurfaceStatus::Lost => r matches FrameAction::Reconfigure {
                    width,
                    height,
                } && width == self.width && height == self.height,
                SurfaceStatus::OutOfMemory => r is Exit,
                SurfaceStatus::Timeout => r is Skip,
            },
    {
        match status {
            SurfaceStatus::Ready => FrameAction::Draw(
                frame_pass(&self.model, self.instances.len() as u32),
            ),
            SurfaceStatus::Outdated | SurfaceStatus::Lost => FrameAction::Reconfigure {
                width: self.width,
                height: self.height,
            },
            SurfaceStatus::OutOfMemory => FrameAction::Exit,
            SurfaceStatus::Timeout => FrameAction::Skip,
        }
    }
}

/// The state after the events `events`, in order.
pub open spec fn run_events(s: State, events: Seq<FrameEvent>) -> State
    decreases events.len(),
{
    if events.len() == 0 {
        s
    } else {
        run_events(s, events.drop_last()).step(events.last())
    }
}

/// A frame's input phase, whatever events it drains, leaves the loaded
/// model's meshes and materials as they were and keeps the state
/// well-formed; the render phase only reads the state.
pub proof fn lemma_frame_keeps_model(s: State, events: Seq<FrameEvent>)
    requires
        s.wf(),
    ensures
        run_events(s, events).model == s.model,
        run_events(s, events).instances == s.instances,
        run_events(s, events).wf(),
    decreases events.len(),
{
    if events.len() > 0 {
        lemma_frame_keeps_model(s, events.drop_last());
    }
}

/// A resize to a size with a zero side, by itself or as a window event,
/// leaves the whole state, surface size included, unchanged.
pub proof fn lemma_degenerate_resize_is_ignored(s: State, width: u32, height: u32)
    requires
        width == 0 || height == 0,
    ensures
        s.resized(width, height) == s,
        s.window_step(WindowInput::Resized(width, height)) == s,
{
}

} // verus!
