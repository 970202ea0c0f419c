//! Keyboard and mouse state that the renderer reacts to.
use vstd::prelude::*;

verus! {

/// The keys the renderer distinguishes.
#[derive(Clone, Copy, Debug, PartialEq, Eq)]
pub enum Key {
    Up,
    Down,
    Left,
    Right,
    Escape,
    Other,
}

/// A window input event, reduced to what the renderer reads.
#[derive(Clone, Copy, Debug, PartialEq, Eq)]
pub enum InputEvent {
    Keyboard { key: Key, pressed: bool },
    MouseWheel,
    MouseButton { left: bool, pressed: bool },
    Other,
}

/// Which rotation keys are held, and the rotation speed in degrees per second.
#[derive(Clone, Copy, Debug, PartialEq, Eq)]
pub struct RotationController {
    pub speed: u32,
    pub is_forward_pressed: bool,
    pub is_backward_pressed: bool,
    pub is_left_pressed: bool,
    pub is_right_pressed: bool,
}

/// 1 for a held key, 0 otherwise.
pub open spec fn held(b: bool) -> int {
    if b {
        1
    } else {
        0
    }
}

impl RotationController {
    /// No key held.
    pub fn new(speed: u32) -> (r: Self)
        ensures
            r.speed == speed,
            !r.is_forward_pressed,
            !r.is_backward_pressed,
            !r.is_left_pressed,
            !r.is_right_pressed,
    {
        RotationController {
            speed,
            is_forward_pressed: false,
            is_backward_pressed: false,
            is_left_pressed: false,
            is_right_pressed: false,
        }
    }

    /// Whether `event` presses or releases an arrow key.
    pub open spec fn is_rotation_key(event: InputEvent) -> bool {
        event matches InputEvent::Keyboard { key, .. } && (key is Up || key is Down || key is Left
            || key is Right)
    }

    /// The held state of `k` after `event`, which was `prev` before it.
    pub open spec fn key_after(event: InputEvent, k: Key, prev: bool) -> bool {
        match event {
            InputEvent::Keyboard { key, pressed } => if key == k {
                pressed
            } else {
                prev
            },
            _ => prev,
        }
    }

    /// The controller once `event` has been recorded.
    pub open spec fn after(self, event: InputEvent) -> RotationController {
        RotationController {
            speed: self.speed,
            is_forward_pressed: Self::key_after(event, Key::Up, self.is_forward_pressed),
            is_backward_pressed: Self::key_after(event, Key::Down, self.is_backward_pressed),
            is_left_pressed: Self::key_after(event, Key::Left, self.is_left_pressed),
            is_right_pressed: Self::key_after(event, Key::Right, self.is_right_pressed),
        }
    }

    /// Records a press or release of an arrow key (up and down turn the pitch,
    /// left and right the yaw); the result tells whether the event was one of them.
    pub fn process_events(&mut self, event: InputEvent) -> (r: bool)
        ensures
            r == Self::is_rotation_key(event),
            *final(self) == old(self).after(event),
    {
        match event {
            InputEvent::Keyboard { key, pressed } => match key {
                Key::Up => {
                    self.is_forward_pressed = pressed;
                    true
                },
                Key::Left => {
                    self.is_left_pressed = pressed;
                    true
                },
                Key::Down => {
                    self.is_backward_pressed = pressed;
                    true
                },
                Key::Right => {
                    self.is_right_pressed = pressed;
                    true
                },
                _ => false,
            },
            _ => false,
        }
    }

    /// Direction in which held keys turn the pitch: forward adds, backward takes away.
    pub fn pitch_direction(&self) -> (r: i8)
        ensures
            r == held(self.is_forward_pressed) - held(self.is_backward_pressed),
    {
        (if self.is_forward_pressed { 1i8 } else { 0i8 }) - (if self.is_backward_pressed { 1i8 } else { 0i8 })
    }

    /// Direction in which held keys turn the yaw: left adds, right takes away.
    pub fn yaw_direction(&self) -> (r: i8)
        ensures
            r == held(self.is_left_pressed) - held(self.is_right_pressed),
    {
        (if self.is_left_pressed { 1i8 } else { 0i8 }) - (if self.is_right_pressed { 1i8 } else { 0i8 })
    }
}

/// Input state that the renderer owns besides the camera.
#[derive(Clone, Copy, Debug, PartialEq, Eq)]
pub struct InputState {
    /// Whether the left mouse button is held, which enables looking around.
    pub mouse_pressed: bool,
    pub rotation_controller: RotationController,
}

impl InputState {
    /// Whether pointer motion goes to the camera's look control: only while the
    /// left mouse button is held.
    pub fn routes_mouse_motion(&self) -> (r: bool)
        ensures
            r == self.mouse_pressed,
    {
        self.mouse_pressed
    }

    /// Routes a window event. A key goes to the camera first (`camera_took_key`
    /// is its answer) and only otherwise to the rotation keys; the wheel and the
    /// left button are always consumed. The result tells whether the event was consumed.
    pub fn input(&mut self, event: InputEvent, camera_took_key: bool) -> (r: bool)
        ensures
            match event {
                InputEvent::Keyboard { key, .. } => {
                    &&& final(self).mouse_pressed == old(self).mouse_pressed
                    &&& camera_took_key ==> r && final(self).rotation_controller == old(self).rotation_controller
                    &&& !camera_took_key ==> r == RotationController::is_rotation_key(event)
                        && final(self).rotation_controller == old(self).rotation_controller.after(event)
                },
                InputEvent::MouseWheel => r && *final(self) == *old(self),
                InputEvent::MouseButton { left: true, pressed } => {
                    &&& r
                    &&& final(self).mouse_pressed == pressed
                    &&& final(self).rotation_controller == old(self).rotation_controller
                },
                _ => !r && *final(self) == *old(self),
            },
    {
        match event {
            InputEvent::Keyboard { .. } => {
                if camera_took_key {
                    true
                } else {
                    self.rotation_controller.process_events(event)
                }
            },
            InputEvent::MouseWheel => true,
            InputEvent::MouseButton { left: true, pressed } => {
                self.mouse_pressed = pressed;
                true
            },
            _ => self.rotation_controller.process_events(event),
        }
    }
}

} // verus!
