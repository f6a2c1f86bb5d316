//! What the application keeps between events: the camera, and whether the
//! pointer is locked to the window and so turns the camera.
use crate::camera::{Camera, Key, KeyState};
use crate::rotor::HalfAngle;
use crate::scalar::{Scalar, ONE};
use vstd::prelude::*;

verus! {

/// What the window is to do with the pointer after an event.
#[derive(Clone, Copy, Debug, PartialEq, Eq, Structural)]
pub enum CursorAction {
    /// Leave the pointer as it is.
    Keep,
    /// Free the pointer and show it.
    Release,
    /// Confine the pointer to the window and hide it.
    Confine,
}

/// The camera and the lock of the pointer.
#[derive(Clone, Copy, Debug, PartialEq, Eq, Structural)]
pub struct State {
    pub mouse_locked: bool,
    pub camera: Camera,
}

impl State {
    /// The state at the start: a new camera, the pointer free.
    pub fn new() -> (r: State)
        ensures
            r == (State { mouse_locked: false, camera: Camera::spec_new() }),
    {
        State { mouse_locked: false, camera: Camera::new() }
    }

    /// Advances the camera by `ts` seconds; the lock stays.
    pub fn update(&mut self, ts: Scalar, volume: HalfAngle, look: HalfAngle)
        ensures
            final(self).mouse_locked == old(self).mouse_locked,
            old(self).camera.spec_updated(final(self).camera, ts, volume, look),
            final(self).camera.volume_mode_percentage == ONE ==> final(self).camera.xy_rotation
                == 0,
    {
        self.camera.update(ts, volume, look);
    }

    /// A key went down or up. Pressing Escape toggles the lock of the pointer,
    /// and the result says what the window is to do; every key is then handed
    /// to the camera.
    pub fn key(&mut self, key: Key, state: KeyState) -> (r: CursorAction)
        ensures
            final(self).camera == old(self).camera.spec_key(key, state),
            final(self).mouse_locked == if key == Key::Escape && state == KeyState::Pressed {
                !old(self).mouse_locked
            } else {
                old(self).mouse_locked
            },
            r == if key == Key::Escape && state == KeyState::Pressed {
                if old(self).mouse_locked {
                    CursorAction::Release
                } else {
                    CursorAction::Confine
                }
            } else {
                CursorAction::Keep
            },
    {
        let toggles = match (key, state) {
            (Key::Escape, KeyState::Pressed) => true,
            _ => false,
        };
        let action = if toggles {
            if self.mouse_locked {
                self.mouse_locked = false;
                CursorAction::Release
            } else {
                self.mouse_locked = true;
                CursorAction::Confine
            }
        } else {
            CursorAction::Keep
        };
        self.camera.key(key, state);
        action
    }

    /// The window gained or lost the focus. On losing it the pointer is freed
    /// and the camera stops moving.
    pub fn focused(&mut self, focused: bool) -> (r: CursorAction)
        ensures
            focused ==> *final(self) == *old(self) && r == CursorAction::Keep,
            !focused ==> r == CursorAction::Release && !final(self).mouse_locked,
            !focused ==> final(self).camera == (Camera {
                forward_movement: 0,
                up_movement: 0,
                right_movement: 0,
                ana_movement: 0,
                ..old(self).camera
            }),
    {
        if !focused {
            self.mouse_locked = false;
            self.camera.reset_keys();
            CursorAction::Release
        } else {
            CursorAction::Keep
        }
    }

    /// The pointer moved. It turns the camera only while it is locked.
    pub fn mouse_moved(&mut self, delta_y: Scalar, turn_x: HalfAngle, turn_y: HalfAngle)
        ensures
            final(self).mouse_locked == old(self).mouse_locked,
            !old(self).mouse_locked ==> final(self).camera == old(self).camera,
            old(self).mouse_locked ==> old(self).camera.spec_turned(
                final(self).camera,
                delta_y,
                turn_x,
                turn_y,
            ),
    {
        if self.mouse_locked {
            self.camera.mouse_moved(delta_y, turn_x, turn_y);
        }
    }
}

} // verus!
