//! Keyboard state of the first-person camera controller.
use vstd::prelude::*;

verus! {

/// The keys the renderer distinguishes; every other key is `Other`.
#[derive(Clone, Copy, Debug, PartialEq, Eq, Structural)]
pub enum Key {
    W,
    Up,
    S,
    Down,
    A,
    Left,
    D,
    Right,
    Space,
    LControl,
    LShift,
    Escape,
    Other,
}

/// Whether a key or button went down or up.
#[derive(Clone, Copy, Debug, PartialEq, Eq, Structural)]
pub enum ElementState {
    Pressed,
    Released,
}

/// The logical action a key is bound to.
#[derive(Clone, Copy, Debug, PartialEq, Eq, Structural)]
pub enum Movement {
    Forward,
    Backward,
    Left,
    Right,
    Up,
    Down,
    Fast,
}

/// The movement a key drives, if any.
pub open spec fn binding(key: Key) -> Option<Movement> {
    match key {
        Key::W | Key::Up => Some(Movement::Forward),
        Key::S | Key::Down => Some(Movement::Backward),
        Key::A | Key::Left => Some(Movement::Left),
        Key::D | Key::Right => Some(Movement::Right),
        Key::Space => Some(Movement::Up),
        Key::LControl => Some(Movement::Down),
        Key::LShift => Some(Movement::Fast),
        _ => None,
    }
}

/// The binary movement flags and the fast modifier, as keys left them.
#[derive(Clone, Copy, Debug, PartialEq, Eq, Structural)]
pub struct Controller {
    pub forward: bool,
    pub backward: bool,
    pub left: bool,
    pub right: bool,
    pub up: bool,
    pub down: bool,
    pub fast: bool,
}

/// `c` with the flag of movement `m` set to `on` and every other flag kept.
pub open spec fn with_flag(c: Controller, m: Movement, on: bool) -> Controller {
    match m {
        Movement::Forward => Controller { forward: on, ..c },
        Movement::Backward => Controller { backward: on, ..c },
        Movement::Left => Controller { left: on, ..c },
        Movement::Right => Controller { right: on, ..c },
        Movement::Up => Controller { up: on, ..c },
        Movement::Down => Controller { down: on, ..c },
        Movement::Fast => Controller { fast: on, ..c },
    }
}

/// `a - b` for two flags, as -1, 0 or 1.
pub open spec fn axis(a: bool, b: bool) -> int {
    (if a { 1int } else { 0int }) - (if b { 1int } else { 0int })
}

fn flag_difference(a: bool, b: bool) -> (r: i8)
    ensures
        r == axis(a, b),
{
    let pa: i8 = if a { 1 } else { 0 };
    let pb: i8 = if b { 1 } else { 0 };
    pa - pb
}

impl Controller {
    /// The controller with no key held.
    pub open spec fn new_spec() -> Controller {
        Controller {
            forward: false,
            backward: false,
            left: false,
            right: false,
            up: false,
            down: false,
            fast: false,
        }
    }

    /// The controller after `key` is pressed or released: the bound flag
    /// follows the key, and an unbound key changes nothing.
    pub open spec fn after_key(self, key: Key, state: ElementState) -> Controller {
        match binding(key) {
            Some(m) => with_flag(self, m, state == ElementState::Pressed),
            None => self,
        }
    }

    /// A controller with no key held.
    pub fn new() -> (r: Controller)
        ensures
            r == Controller::new_spec(),
    {
        Controller {
            forward: false,
            backward: false,
            left: false,
            right: false,
            up: false,
            down: false,
            fast: false,
        }
    }

    /// Records a key press or release. Returns whether the key is bound to a
    /// movement; an unbound key leaves the controller as it was.
    pub fn process_keyboard(&mut self, key: Key, state: ElementState) -> (handled: bool)
        ensures
            handled == binding(key).is_some(),
            *final(self) == old(self).after_key(key, state),
    {
        let on = match state {
            ElementState::Pressed => true,
            ElementState::Released => false,
        };
        match key {
            Key::W | Key::Up => {
                self.forward = on;
                true
            },
            Key::S | Key::Down => {
                self.backward = on;
                true
            },
            Key::A | Key::Left => {
                self.left = on;
                true
            },
            Key::D | Key::Right => {
                self.right = on;
                true
            },
            Key::Space => {
                self.up = on;
                true
            },
            Key::LControl => {
                self.down = on;
                true
            },
            Key::LShift => {
                self.fast = on;
                true
            },
            _ => false,
        }
    }

    /// Forward minus backward: the sign of motion along the view direction.
    pub fn forward_axis(&self) -> (r: i8)
        ensures
            r == axis(self.forward, self.backward),
    {
        flag_difference(self.forward, self.backward)
    }

    /// Right minus left: the sign of motion along the camera's right vector.
    pub fn right_axis(&self) -> (r: i8)
        ensures
            r == axis(self.right, self.left),
    {
        flag_difference(self.right, self.left)
    }

    /// Up minus down: the sign of vertical motion.
    pub fn up_axis(&self) -> (r: i8)
        ensures
            r == axis(self.up, self.down),
    {
        flag_difference(self.up, self.down)
    }

    /// The factor applied to the base speed: 2 while the fast modifier is
    /// held, else 1.
    pub fn speed_factor(&self) -> (r: u32)
        ensures
            r == (if self.fast { 2u32 } else { 1u32 }),
    {
        if self.fast {
            2
        } else {
            1
        }
    }
}

} // verus!
