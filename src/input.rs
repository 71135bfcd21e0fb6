use vstd::prelude::*;

verus! {

/// The physical keys that the scene reacts to; every other key is `Other`.
#[derive(Debug, Clone, Copy, PartialEq, Eq, Structural)]
pub enum Key {
    KeyW,
    KeyS,
    KeyA,
    KeyD,
    ArrowUp,
    ArrowDown,
    ArrowLeft,
    ArrowRight,
    Space,
    ShiftLeft,
    Escape,
    Other,
}

/// A direction of camera movement, relative to where the camera looks.
#[derive(Debug, Clone, Copy, PartialEq, Eq, Structural)]
pub enum Motion {
    Forward,
    Backward,
    Left,
    Right,
    Up,
    Down,
}

/// The movement that holding a key asks for: W and the up arrow move
/// forward, S and the down arrow back, A and the left arrow left, D and the
/// right arrow right, space up and left shift down.
pub open spec fn key_motion(key: Key) -> Option<Motion> {
    match key {
        Key::KeyW | Key::ArrowUp => Some(Motion::Forward),
        Key::KeyS | Key::ArrowDown => Some(Motion::Backward),
        Key::KeyA | Key::ArrowLeft => Some(Motion::Left),
        Key::KeyD | Key::ArrowRight => Some(Motion::Right),
        Key::Space => Some(Motion::Up),
        Key::ShiftLeft => Some(Motion::Down),
        _ => None,
    }
}

/// Which movement keys are held. A held key moves the camera at full
/// intensity along its direction, a released one not at all.
#[derive(Debug, Clone, Copy, PartialEq, Eq, Structural)]
pub struct MovementKeys {
    pub forward: bool,
    pub backward: bool,
    pub left: bool,
    pub right: bool,
    pub up: bool,
    pub down: bool,
}

/// The intensity of a held flag: one when held, zero otherwise.
pub open spec fn intensity(held: bool) -> int {
    if held {
        1
    } else {
        0
    }
}

impl MovementKeys {
    /// Whether the key for `m` is held.
    pub open spec fn held(self, m: Motion) -> bool {
        match m {
            Motion::Forward => self.forward,
            Motion::Backward => self.backward,
            Motion::Left => self.left,
            Motion::Right => self.right,
            Motion::Up => self.up,
            Motion::Down => self.down,
        }
    }

    /// No key held.
    pub fn new() -> (r: MovementKeys)
        ensures
            forall|m: Motion| !r.held(m),
    {
        MovementKeys {
            forward: false,
            backward: false,
            left: false,
            right: false,
            up: false,
            down: false,
        }
    }

    /// Records that `key` was pressed or released. Returns whether the key
    /// is a movement key; any other key leaves the state as it was, so that
    /// the caller may route it elsewhere.
    pub fn process_key(&mut self, key: Key, pressed: bool) -> (handled: bool)
        ensures
            handled == key_motion(key) is Some,
            match key_motion(key) {
                Some(m) => {
                    &&& final(self).held(m) == pressed
                    &&& forall|other: Motion| other != m ==> final(self).held(other) == old(
                        self,
                    ).held(other)
                },
                None => *final(self) == *old(self),
            },
    {
        match key {
            Key::KeyW | Key::ArrowUp => {
                self.forward = pressed;
                true
            },
            Key::KeyS | Key::ArrowDown => {
                self.backward = pressed;
                true
            },
            Key::KeyA | Key::ArrowLeft => {
                self.left = pressed;
                true
            },
            Key::KeyD | Key::ArrowRight => {
                self.right = pressed;
                true
            },
            Key::Space => {
                self.up = pressed;
                true
            },
            Key::ShiftLeft => {
                self.down = pressed;
                true
            },
            _ => false,
        }
    }

    /// The movement weights along the camera's forward, right and up axes:
    /// each is the intensity of its positive key less that of its opposite.
    pub fn axes(&self) -> (r: (i8, i8, i8))
        ensures
            r.0 == intensity(self.forward) - intensity(self.backward),
            r.1 == intensity(self.right) - intensity(self.left),
            r.2 == intensity(self.up) - intensity(self.down),
    {
        (
            Self::weight(self.forward, self.backward),
            Self::weight(self.right, self.left),
            Self::weight(self.up, self.down),
        )
    }

    fn weight(positive: bool, negative: bool) -> (r: i8)
        ensures
            r == intensity(positive) - intensity(negative),
    {
        match (positive, negative) {
            (true, false) => 1,
            (false, true) => -1,
            _ => 0,
        }
    }
}

} // verus!
