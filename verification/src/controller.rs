//! Keyboard input and the camera controller's pressed-key state.
use vstd::prelude::*;

verus! {

/// Whether a key went down or came up.
#[derive(Clone, Copy, Debug, PartialEq, Eq, Structural)]
pub enum ElementState {
    Pressed,
    Released,
}

/// The keys that the demo reacts to; every other key is `Other`.
#[derive(Clone, Copy, Debug, PartialEq, Eq, Structural)]
pub enum VirtualKeyCode {
    W,
    A,
    S,
    D,
    Up,
    Down,
    Left,
    Right,
    Escape,
    Other,
}

/// One keyboard event: the key's new state and, when the platform knows it,
/// the virtual key that changed.
#[derive(Clone, Copy, Debug, PartialEq, Eq, Structural)]
pub struct KeyboardInput {
    pub state: ElementState,
    pub virtual_keycode: Option<VirtualKeyCode>,
}

/// A size in physical pixels.
#[derive(Clone, Copy, Debug, PartialEq, Eq, Structural)]
pub struct PhysicalSize {
    pub width: u32,
    pub height: u32,
}

/// The window events that the demo tells apart; every other one is `Other`.
#[derive(Clone, Copy, Debug, PartialEq, Eq, Structural)]
pub enum WindowEvent {
    KeyboardInput(KeyboardInput),
    CloseRequested,
    Resized(PhysicalSize),
    ScaleFactorChanged(PhysicalSize),
    Other,
}

/// The four directions in which the controller can move the camera.
#[derive(Clone, Copy, Debug, PartialEq, Eq, Structural)]
pub enum Direction {
    Forward,
    Backward,
    Left,
    Right,
}

/// The direction that a key steers, if any: W and Up forward, S and Down
/// backward, A and Left to the left, D and Right to the right.
pub open spec fn key_direction(key: VirtualKeyCode) -> Option<Direction> {
    match key {
        VirtualKeyCode::W | VirtualKeyCode::Up => Some(Direction::Forward),
        VirtualKeyCode::S | VirtualKeyCode::Down => Some(Direction::Backward),
        VirtualKeyCode::A | VirtualKeyCode::Left => Some(Direction::Left),
        VirtualKeyCode::D | VirtualKeyCode::Right => Some(Direction::Right),
        _ => None,
    }
}

/// The direction that an event steers, if it is a keyboard event with a
/// known key that steers one.
pub open spec fn event_direction(event: WindowEvent) -> Option<Direction> {
    match event {
        WindowEvent::KeyboardInput(input) => match input.virtual_keycode {
            Some(key) => key_direction(key),
            None => None,
        },
        _ => None,
    }
}

/// Whether an event is a key press or release (meaningful for keyboard
/// events only).
pub open spec fn event_pressed(event: WindowEvent) -> bool {
    match event {
        WindowEvent::KeyboardInput(input) => input.state == ElementState::Pressed,
        _ => false,
    }
}

/// Which of the four steering keys are held down.
#[derive(Clone, Copy, Debug, PartialEq, Eq, Structural)]
pub struct CameraController {
    pub is_forward_pressed: bool,
    pub is_backward_pressed: bool,
    pub is_left_pressed: bool,
    pub is_right_pressed: bool,
}

impl CameraController {
    /// Whether the key of `direction` is held down.
    pub open spec fn pressed(self, direction: Direction) -> bool {
        match direction {
            Direction::Forward => self.is_forward_pressed,
            Direction::Backward => self.is_backward_pressed,
            Direction::Left => self.is_left_pressed,
            Direction::Right => self.is_right_pressed,
        }
    }

    /// This controller with the key of `direction` held down or not.
    pub open spec fn with_pressed(self, direction: Direction, down: bool) -> CameraController {
        match direction {
            Direction::Forward => CameraController { is_forward_pressed: down, ..self },
            Direction::Backward => CameraController { is_backward_pressed: down, ..self },
            Direction::Left => CameraController { is_left_pressed: down, ..self },
            Direction::Right => CameraController { is_right_pressed: down, ..self },
        }
    }

    /// What handling `event` makes of this controller.
    pub open spec fn after_event(self, event: WindowEvent) -> CameraController {
        match event_direction(event) {
            Some(direction) => self.with_pressed(direction, event_pressed(event)),
            None => self,
        }
    }

    /// A controller with no key held down.
    pub open spec fn new_spec() -> CameraController {
        CameraController {
            is_forward_pressed: false,
            is_backward_pressed: false,
            is_left_pressed: false,
            is_right_pressed: false,
        }
    }

    /// A controller with no key held down.
    pub fn new() -> (controller: CameraController)
        ensures
            controller == CameraController::new_spec(),
            forall|d: Direction| !#[trigger] controller.pressed(d),
    {
        CameraController {
            is_forward_pressed: false,
            is_backward_pressed: false,
            is_left_pressed: false,
            is_right_pressed: false,
        }
    }

    /// Records a steering key going down or up. Returns whether the event was
    /// a keyboard event with a steering key; any other event leaves the
    /// controller as it was.
    pub fn process_events(&mut self, event: &WindowEvent) -> (consumed: bool)
        ensures
            consumed == event_direction(*event).is_some(),
            *final(self) == old(self).after_event(*event),
    {
        match event {
            WindowEvent::KeyboardInput(KeyboardInput { state, virtual_keycode: Some(keycode) }) => {
                let is_pressed = match state {
                    ElementState::Pressed => true,
                    ElementState::Released => false,
                };
                match keycode {
                    VirtualKeyCode::W | VirtualKeyCode::Up => {
                        self.is_forward_pressed = is_pressed;
                        true
                    },
                    VirtualKeyCode::A | VirtualKeyCode::Left => {
                        self.is_left_pressed = is_pressed;
                        true
                    },
                    VirtualKeyCode::S | VirtualKeyCode::Down => {
                        self.is_backward_pressed = is_pressed;
                        true
                    },
                    VirtualKeyCode::D | VirtualKeyCode::Right => {
                        self.is_right_pressed = is_pressed;
                        true
                    },
                    _ => false,
                }
            },
            _ => false,
        }
    }
}

/// Which of its moves the camera makes in a frame.
#[derive(Clone, Copy, Debug, PartialEq, Eq, Structural)]
pub struct CameraMoves {
    /// Step toward the target.
    pub forward: bool,
    /// Step away from the target.
    pub backward: bool,
    /// Circle the target to the right (never together with `left`).
    pub right: bool,
    /// Circle the target to the left.
    pub left: bool,
}

impl CameraController {
    /// The moves of a frame. The camera steps toward its target only while
    /// the forward key is down and the camera is farther from the target
    /// than one step, so that it never reaches the target. Backward and left
    /// moves are made while their keys are down; the right move is made
    /// while the right key is down and the left key is up, as circling left
    /// takes over when both are held.
    pub fn camera_moves(&self, farther_than_step: bool) -> (moves: CameraMoves)
        ensures
            moves.forward == (self.is_forward_pressed && farther_than_step),
            moves.backward == self.is_backward_pressed,
            moves.right == (self.is_right_pressed && !self.is_left_pressed),
            moves.left == self.is_left_pressed,
    {
        CameraMoves {
            forward: self.is_forward_pressed && farther_than_step,
            backward: self.is_backward_pressed,
            right: self.is_right_pressed && !self.is_left_pressed,
            left: self.is_left_pressed,
        }
    }
}

/// The keyboard event of `key` changing to `state`.
pub open spec fn key_event(key: VirtualKeyCode, state: ElementState) -> WindowEvent {
    WindowEvent::KeyboardInput(KeyboardInput { state, virtual_keycode: Some(key) })
}

/// A steering key's event sets that key's direction to whether the key is
/// down, and leaves every other direction as it was.
pub proof fn lemma_key_event_sets_only_its_direction(
    controller: CameraController,
    key: VirtualKeyCode,
    state: ElementState,
)
    requires
        key_direction(key).is_some(),
    ensures
        controller.after_event(key_event(key, state)).pressed(key_direction(key).unwrap()) == (state
            == ElementState::Pressed),
        forall|d: Direction|
            d != key_direction(key).unwrap() ==> #[trigger] controller.after_event(
                key_event(key, state),
            ).pressed(d) == controller.pressed(d),
{
}

/// Releasing a steering key after pressing it gives back the controller of
/// before the press, when that key was up before.
pub proof fn lemma_release_undoes_press(controller: CameraController, key: VirtualKeyCode)
    requires
        key_direction(key).is_some(),
        !controller.pressed(key_direction(key).unwrap()),
    ensures
        controller.after_event(key_event(key, ElementState::Pressed)).after_event(
            key_event(key, ElementState::Released),
        ) == controller,
{
}

/// Whether a keyboard event's key is one that steers nothing: no known key,
/// Escape, or any key other than W/A/S/D and the arrows.
pub open spec fn is_non_steering_key(key: Option<VirtualKeyCode>) -> bool {
    key == None::<VirtualKeyCode> || key == Some(VirtualKeyCode::Escape) || key == Some(
        VirtualKeyCode::Other,
    )
}

/// An event that is not a W/A/S/D or arrow key event (a close request, a
/// resize, a scale change, any other window event, or a keyboard event of
/// any other key, pressed or released) leaves every key flag as it was.
pub proof fn lemma_non_steering_events_keep_controller(
    controller: CameraController,
    event: WindowEvent,
)
    requires
        match event {
            WindowEvent::KeyboardInput(input) => is_non_steering_key(input.virtual_keycode),
            _ => true,
        },
    ensures
        controller.after_event(event) == controller,
        controller.after_event(event).is_forward_pressed == controller.is_forward_pressed,
        controller.after_event(event).is_backward_pressed == controller.is_backward_pressed,
        controller.after_event(event).is_left_pressed == controller.is_left_pressed,
        controller.after_event(event).is_right_pressed == controller.is_right_pressed,
{
}

/// Handling the same event twice does what handling it once does.
pub proof fn lemma_event_idempotent(controller: CameraController, event: WindowEvent)
    ensures
        controller.after_event(event).after_event(event) == controller.after_event(event),
{
}

/// The two keys of a direction (W and Up, S and Down, A and Left, D and
/// Right) act alike.
pub proof fn lemma_paired_keys_act_alike(
    controller: CameraController,
    first: VirtualKeyCode,
    second: VirtualKeyCode,
    state: ElementState,
)
    requires
        key_direction(first) == key_direction(second),
    ensures
        controller.after_event(key_event(first, state)) == controller.after_event(
            key_event(second, state),
        ),
{
}

} // verus!
