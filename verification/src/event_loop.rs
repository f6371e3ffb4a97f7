//! The event loop's decisions: what the demo does with each event it is
//! handed and with the outcome of each frame it renders.
use vstd::prelude::*;
use crate::controller::{
    ElementState, KeyboardInput, PhysicalSize, VirtualKeyCode, WindowEvent, event_direction,
};
use crate::state::{State, StateView, is_drawable};

verus! {

/// An event of the window system's event loop.
#[derive(Clone, Copy, Debug, PartialEq, Eq, Structural)]
pub enum Event {
    /// A window event, and whether it concerns the demo's own window.
    WindowEvent { for_this_window: bool, event: WindowEvent },
    /// A window asks to be redrawn, and whether it is the demo's own window.
    RedrawRequested { for_this_window: bool },
    /// All redraw requests of this round have been handled.
    RedrawEventsCleared,
    /// Any other event.
    Other,
}

/// Why the surface could not hand out a texture for a frame.
#[derive(Clone, Copy, Debug, PartialEq, Eq, Structural)]
pub enum SurfaceError {
    Timeout,
    Outdated,
    Lost,
    OutOfMemory,
}

/// What the caller of the event loop is to do next.
#[derive(Clone, Copy, Debug, PartialEq, Eq, Structural)]
pub enum Command {
    /// Nothing.
    Nothing,
    /// Leave the event loop.
    Exit,
    /// Configure the surface anew with the state's surface configuration.
    ConfigureSurface,
    /// Move the camera, render a frame, and hand the outcome to
    /// [`State::handle_render_result`].
    UpdateAndRender,
    /// Ask the window for another redraw.
    RequestRedraw,
    /// Warn that the surface timed out.
    WarnSurfaceTimeout,
}

/// Whether a window event asks to close the demo: a close request, or the
/// escape key going down.
pub open spec fn is_exit_request(event: WindowEvent) -> bool {
    match event {
        WindowEvent::CloseRequested => true,
        WindowEvent::KeyboardInput(input) => input.state == ElementState::Pressed
            && input.virtual_keycode == Some(VirtualKeyCode::Escape),
        _ => false,
    }
}

/// The command for a resize to `size`.
pub open spec fn resize_command(size: PhysicalSize) -> Command {
    if is_drawable(size) {
        Command::ConfigureSurface
    } else {
        Command::Nothing
    }
}

/// The state and command after a window event of the demo's own window:
/// the camera controller takes its steering keys; of the rest, close
/// requests and the escape key exit, and resizes and scale changes resize.
pub open spec fn window_step(s: StateView, event: WindowEvent) -> (StateView, Command) {
    if event_direction(event).is_some() {
        (s.after_input(event), Command::Nothing)
    } else if is_exit_request(event) {
        (s, Command::Exit)
    } else {
        match event {
            WindowEvent::Resized(size) => (s.resized(size), resize_command(size)),
            WindowEvent::ScaleFactorChanged(size) => (s.resized(size), resize_command(size)),
            _ => (s, Command::Nothing),
        }
    }
}

/// The state and command after an event of the event loop. Events of other
/// windows change nothing.
pub open spec fn step(s: StateView, event: Event) -> (StateView, Command) {
    match event {
        Event::WindowEvent { for_this_window, event } => if for_this_window {
            window_step(s, event)
        } else {
            (s, Command::Nothing)
        },
        Event::RedrawRequested { for_this_window } => if for_this_window {
            (s, Command::UpdateAndRender)
        } else {
            (s, Command::Nothing)
        },
        Event::RedrawEventsCleared => (s, Command::RequestRedraw),
        Event::Other => (s, Command::Nothing),
    }
}

/// The command after a rendered frame: nothing on success; a lost or
/// outdated surface is configured anew at the current size, if that size is
/// drawable; out of memory exits; a timeout is warned of.
pub open spec fn render_result_command(s: StateView, result: Result<(), SurfaceError>) -> Command {
    match result {
        Ok(()) => Command::Nothing,
        Err(SurfaceError::Lost) | Err(SurfaceError::Outdated) => resize_command(s.size),
        Err(SurfaceError::OutOfMemory) => Command::Exit,
        Err(SurfaceError::Timeout) => Command::WarnSurfaceTimeout,
    }
}

/// Resizing and steering keep a well-formed state well formed: its size
/// stays drawable and its configuration holds it.
pub proof fn lemma_resize_and_input_keep_wf(s: StateView, size: PhysicalSize, event: WindowEvent)
    requires
        s.wf(),
    ensures
        s.resized(size).wf(),
        s.after_input(event).wf(),
{
}

/// Every step of the event loop keeps the state well formed, so every state
/// that the demo reaches from [`State::new`] has a drawable size that its
/// surface configuration holds, the space key up and the pentagon's nine
/// indices: every frame it renders binds the default texture and draws nine
/// indices.
pub proof fn lemma_step_keeps_wf(s: StateView, event: Event)
    requires
        s.wf(),
    ensures
        step(s, event).0.wf(),
        is_drawable(step(s, event).0.size),
        step(s, event).0.config_matches_size(),
        !step(s, event).0.is_space_pressed,
        step(s, event).0.num_indices == 9,
{
}

/// In a well-formed state a lost or outdated surface is always configured
/// anew, as its size is drawable.
pub proof fn lemma_lost_surface_reconfigured(s: StateView)
    requires
        s.wf(),
    ensures
        render_result_command(s, Err(SurfaceError::Lost)) == Command::ConfigureSurface,
        render_result_command(s, Err(SurfaceError::Outdated)) == Command::ConfigureSurface,
{
}

/// In the demo's window only a close request or the escape key going down
/// exits.
pub proof fn lemma_only_close_and_escape_exit(s: StateView, event: WindowEvent)
    ensures
        step(s, Event::WindowEvent { for_this_window: true, event }).1 == Command::Exit ==> (event
            == WindowEvent::CloseRequested || event == WindowEvent::KeyboardInput(
            KeyboardInput {
                state: ElementState::Pressed,
                virtual_keycode: Some(VirtualKeyCode::Escape),
            },
        )),
{
}

/// In the demo's window a keyboard event of a key that steers nothing (no
/// known key, any key other than W/A/S/D, the arrows and Escape, or Escape
/// going up), and any window event the demo does not tell apart, change
/// nothing and ask for nothing.
pub proof fn lemma_other_keys_ignored(s: StateView, state: ElementState, key: Option<VirtualKeyCode>)
    requires
        key == None::<VirtualKeyCode> || key == Some(VirtualKeyCode::Other) || (key == Some(
            VirtualKeyCode::Escape,
        ) && state == ElementState::Released),
    ensures
        step(
            s,
            Event::WindowEvent {
                for_this_window: true,
                event: WindowEvent::KeyboardInput(KeyboardInput { state, virtual_keycode: key }),
            },
        ) == (s, Command::Nothing),
        step(s, Event::WindowEvent { for_this_window: true, event: WindowEvent::Other }) == (
            s,
            Command::Nothing,
        ),
{
}

/// What each outcome of a frame asks for, whatever the state: success
/// nothing, a timeout a warning, out of memory an exit; and in any state
/// the demo reaches, a lost or outdated surface is configured anew.
pub proof fn lemma_render_outcomes(s: StateView)
    ensures
        render_result_command(s, Ok(())) == Command::Nothing,
        render_result_command(s, Err(SurfaceError::Timeout)) == Command::WarnSurfaceTimeout,
        render_result_command(s, Err(SurfaceError::OutOfMemory)) == Command::Exit,
        s.wf() ==> render_result_command(s, Err(SurfaceError::Lost)) == Command::ConfigureSurface,
        s.wf() ==> render_result_command(s, Err(SurfaceError::Outdated))
            == Command::ConfigureSurface,
{
}

/// A close request or the escape key going down, in the demo's window, exits
/// and changes nothing.
pub proof fn lemma_exit_requests_exit(s: StateView, event: WindowEvent)
    requires
        is_exit_request(event),
    ensures
        step(s, Event::WindowEvent { for_this_window: true, event }) == (s, Command::Exit),
{
}

/// A steering key's event, in the demo's window, only moves the camera
/// controller: it never exits, resizes or redraws.
pub proof fn lemma_steering_keys_only_steer(s: StateView, event: WindowEvent)
    requires
        event_direction(event).is_some(),
    ensures
        step(s, Event::WindowEvent { for_this_window: true, event }) == (
            s.after_input(event),
            Command::Nothing,
        ),
{
}

/// Events of other windows change nothing and ask for nothing.
pub proof fn lemma_other_windows_ignored(s: StateView, event: WindowEvent)
    ensures
        step(s, Event::WindowEvent { for_this_window: false, event }) == (s, Command::Nothing),
        step(s, Event::RedrawRequested { for_this_window: false }) == (s, Command::Nothing),
{
}

/// A resize to a size with a zero side changes nothing and asks for
/// nothing; a resize to the size the surface already has changes nothing.
pub proof fn lemma_resize_no_ops(s: StateView, size: PhysicalSize)
    requires
        s.config_matches_size(),
    ensures
        !is_drawable(size) ==> step(s, Event::WindowEvent { for_this_window: true, event: WindowEvent::Resized(size) }) == (s, Command::Nothing),
        size == s.size ==> s.resized(size) == s,
        s.resized(size).resized(size) == s.resized(size),
{
}

/// Whether a window event is the escape key going down.
fn is_escape_press(input: &KeyboardInput) -> (escape: bool)
    ensures
        escape == (input.state == ElementState::Pressed && input.virtual_keycode == Some(
            VirtualKeyCode::Escape,
        )),
{
    match (input.state, input.virtual_keycode) {
        (ElementState::Pressed, Some(VirtualKeyCode::Escape)) => true,
        _ => false,
    }
}

impl State {
    /// Handles one event of the event loop and says what the caller is to
    /// do next.
    pub fn handle_event(&mut self, event: &Event) -> (command: Command)
        ensures
            (final(self)@, command) == step(old(self)@, *event),
    {
        match event {
            Event::WindowEvent { for_this_window, event } => {
                if !*for_this_window {
                    return Command::Nothing;
                }
                if self.input(event) {
                    return Command::Nothing;
                }
                match event {
                    WindowEvent::CloseRequested => Command::Exit,
                    WindowEvent::KeyboardInput(input) => {
                        if is_escape_press(input) {
                            Command::Exit
                        } else {
                            Command::Nothing
                        }
                    },
                    WindowEvent::Resized(size) => {
                        if self.resize(*size) {
                            Command::ConfigureSurface
                        } else {
                            Command::Nothing
                        }
                    },
                    WindowEvent::ScaleFactorChanged(size) => {
                        if self.resize(*size) {
                            Command::ConfigureSurface
                        } else {
                            Command::Nothing
                        }
                    },
                    WindowEvent::Other => Command::Nothing,
                }
            },
            Event::RedrawRequested { for_this_window } => {
                if *for_this_window {
                    Command::UpdateAndRender
                } else {
                    Command::Nothing
                }
            },
            Event::RedrawEventsCleared => Command::RequestRedraw,
            Event::Other => Command::Nothing,
        }
    }

    /// Handles the outcome of rendering a frame and says what the caller is
    /// to do next. A lost or outdated surface is resized to the current
    /// size, which leaves the state as it is.
    pub fn handle_render_result(&mut self, result: Result<(), SurfaceError>) -> (command: Command)
        ensures
            final(self)@ == old(self)@,
            final(self)@.wf(),
            command == render_result_command(old(self)@, result),
    {
        let size = self.size();
        match result {
            Ok(()) => Command::Nothing,
            Err(SurfaceError::Lost) | Err(SurfaceError::Outdated) => {
                if self.resize(size) {
                    Command::ConfigureSurface
                } else {
                    Command::Nothing
                }
            },
            Err(SurfaceError::OutOfMemory) => Command::Exit,
            Err(SurfaceError::Timeout) => Command::WarnSurfaceTimeout,
        }
    }
}

} // verus!
