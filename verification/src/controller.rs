//! The keys that steer a camera: which of the four directions are held down,
//! as told by the key events of a window.

use vstd::prelude::*;

verus! {

/// Whether a key went down or came up.
#[derive(Clone, Copy, Debug, PartialEq, Eq, Structural)]
pub enum ElementState {
    Pressed,
    Released,
}

/// The keys that the controller tells apart. Every key that steers nothing is
/// `Other`.
#[derive(Clone, Copy, Debug, PartialEq, Eq, Structural)]
pub enum KeyCode {
    W,
    A,
    S,
    D,
    Up,
    Left,
    Down,
    Right,
    Other,
}

/// What a window reports, as far as the controller reads it: a key event
/// with the key's state and, where the platform names the key, its code; or
/// anything else.
#[derive(Clone, Copy, Debug, PartialEq, Eq, Structural)]
pub enum InputEvent {
    Keyboard { state: ElementState, key: Option<KeyCode> },
    Other,
}

/// The four directions and whether the key of each is held down.
pub struct Directions {
    pub forward: bool,
    pub backward: bool,
    pub left: bool,
    pub right: bool,
}

impl InputEvent {
    /// Whether the event is one that the controller takes: a key event for W,
    /// A, S, D or an arrow key.
    pub open spec fn steers(self) -> bool {
        match self {
            InputEvent::Keyboard { state, key: Some(key) } => key != KeyCode::Other,
            _ => false,
        }
    }
}

impl Directions {
    /// The directions held down once `event` has been taken: W and the up
    /// arrow set forward, A and the left arrow left, S and the down arrow
    /// backward, D and the right arrow right, each to whether the key went
    /// down. Every other event leaves the directions as they are.
    pub open spec fn after(self, event: InputEvent) -> Directions {
        match event {
            InputEvent::Keyboard { state, key: Some(key) } => {
                let pressed = state == ElementState::Pressed;
                match key {
                    KeyCode::W | KeyCode::Up => Directions { forward: pressed, ..self },
                    KeyCode::A | KeyCode::Left => Directions { left: pressed, ..self },
                    KeyCode::S | KeyCode::Down => Directions { backward: pressed, ..self },
                    KeyCode::D | KeyCode::Right => Directions { right: pressed, ..self },
                    KeyCode::Other => self,
                }
            },
            _ => self,
        }
    }
}

/// Keeps track of the direction keys that are held down.
pub struct CameraController {
    is_forward_pressed: bool,
    is_backward_pressed: bool,
    is_left_pressed: bool,
    is_right_pressed: bool,
}

impl View for CameraController {
    type V = Directions;

    closed spec fn view(&self) -> Directions {
        Directions {
            forward: self.is_forward_pressed,
            backward: self.is_backward_pressed,
            left: self.is_left_pressed,
            right: self.is_right_pressed,
        }
    }
}

impl CameraController {
    /// A controller with no key held down.
    pub fn new() -> (controller: CameraController)
        ensures
            controller@ == (Directions {
                forward: false,
                backward: false,
                left: false,
                right: false,
            }),
    {
        CameraController {
            is_forward_pressed: false,
            is_backward_pressed: false,
            is_left_pressed: false,
            is_right_pressed: false,
        }
    }

    /// Takes an event of the window. A key event for a direction key sets
    /// that direction to whether the key went down, and the event counts as
    /// handled; any other event changes nothing and is not handled.
    pub fn process_events(&mut self, event: &InputEvent) -> (handled: bool)
        ensures
            final(self)@ == old(self)@.after(*event),
            handled == event.steers(),
    {
        match event {
            InputEvent::Keyboard { state, key: Some(keycode) } => {
                let is_pressed = match state {
                    ElementState::Pressed => true,
                    ElementState::Released => false,
                };
                match keycode {
                    KeyCode::W | KeyCode::Up => {
                        self.is_forward_pressed = is_pressed;
                        true
                    },
                    KeyCode::A | KeyCode::Left => {
                        self.is_left_pressed = is_pressed;
                        true
                    },
                    KeyCode::S | KeyCode::Down => {
                        self.is_backward_pressed = is_pressed;
                        true
                    },
                    KeyCode::D | KeyCode::Right => {
                        self.is_right_pressed = is_pressed;
                        true
                    },
                    KeyCode::Other => false,
                }
            },
            _ => false,
        }
    }

    /// Whether a key for moving forward is held down.
    pub fn is_forward_pressed(&self) -> (pressed: bool)
        ensures
            pressed == self@.forward,
    {
        self.is_forward_pressed
    }

    /// Whether a key for moving backward is held down.
    pub fn is_backward_pressed(&self) -> (pressed: bool)
        ensures
            pressed == self@.backward,
    {
        self.is_backward_pressed
    }

    /// Whether a key for moving left is held down.
    pub fn is_left_pressed(&self) -> (pressed: bool)
        ensures
            pressed == self@.left,
    {
        self.is_left_pressed
    }

    /// Whether a key for moving right is held down.
    pub fn is_right_pressed(&self) -> (pressed: bool)
        ensures
            pressed == self@.right,
    {
        self.is_right_pressed
    }
}

/// An event that the controller does not take leaves every direction as it
/// was, and one that it takes changes no direction but that of its key.
pub proof fn law_events_change_one_direction(held: Directions, event: InputEvent)
    ensures
        !event.steers() ==> held.after(event) == held,
        event.steers() ==> {
            let next = held.after(event);
            ||| (next.backward == held.backward && next.left == held.left && next.right
                == held.right)
            ||| (next.forward == held.forward && next.left == held.left && next.right
                == held.right)
            ||| (next.forward == held.forward && next.backward == held.backward && next.right
                == held.right)
            ||| (next.forward == held.forward && next.backward == held.backward && next.left
                == held.left)
        },
{
}

} // verus!
