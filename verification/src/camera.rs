//! The camera: a position, a free orientation, and two constrained angles that
//! are turned into rotors each time the orientation is asked for.
//!
//! Cosines and sines are not computed here. The camera says which angles it
//! needs (`volume_angle`, `look_angle`, `drag_angle`); the caller hands back
//! the cosine and sine of half of each as a `HalfAngle`.
use crate::algebra::{Plane, RotorModel, VectorModel};
use crate::rotor::{
    composed, identity_rotor, normalized_rotor, plane_rotor, rotated, within_one, HalfAngle,
    Rotor,
};
use crate::rotor_laws::law_normalized_within_one;
use crate::scalar::{
    bounded_mul, divide, lemma_quotient_bounded, quotient, scalar_mul, store, stored, Scalar,
    FRAC_PI_2, ONE,
};
use crate::vector::{advanced, Vector4};
use vstd::prelude::*;

verus! {

/// The speed of the camera along each of its axes while a movement key is held,
/// in units per second.
pub const MOVEMENT_SPEED: Scalar = 131072;

/// The angle, in radians, by which one unit of pointer movement turns the
/// camera: a hundredth, rounded to the nearest scalar.
pub const SENSITIVITY: Scalar = 655;

/// The time, in seconds, that the transition into or out of the volume view
/// takes.
pub const VOLUME_TRANSITION: Scalar = 32768;

/// A key that the camera knows, or any other.
#[derive(Clone, Copy, Debug, PartialEq, Eq, Structural)]
pub enum Key {
    W,
    S,
    Q,
    E,
    A,
    D,
    R,
    F,
    Escape,
    Other,
}

/// One of the four arrow keys.
#[derive(Clone, Copy, Debug, PartialEq, Eq, Structural)]
pub enum Arrow {
    Up,
    Down,
    Left,
    Right,
}

/// What an arrow key that is held does to the camera in each frame.
#[derive(Clone, Copy, Debug, PartialEq, Eq, Structural)]
pub enum Turn {
    /// Turns the free orientation in the plane, forward if `positive`.
    Rotate { plane: Plane, positive: bool },
    /// Raises the vertical look angle if `positive`, lowers it otherwise.
    Look { positive: bool },
    /// Nothing.
    Nothing,
}

/// Whether a key went down or up.
#[derive(Clone, Copy, Debug, PartialEq, Eq, Structural)]
pub enum KeyState {
    Pressed,
    Released,
}

/// The state of the camera between frames.
#[derive(Clone, Copy, Debug, PartialEq, Eq, Structural)]
pub struct Camera {
    pub position: Vector4,
    /// The speed along each axis of the camera that the keys held ask for.
    pub forward_movement: Scalar,
    pub up_movement: Scalar,
    pub right_movement: Scalar,
    pub ana_movement: Scalar,
    /// The free orientation, changed by dragging.
    pub base_rotation: Rotor,
    /// Whether the volume view is switched on.
    pub volume_mode: bool,
    /// How far the transition into the volume view has come, from zero to one.
    pub volume_mode_percentage: Scalar,
    /// The vertical look angle in radians, within a quarter turn up or down.
    pub xy_rotation: Scalar,
}

/// `x` brought into the range from `low` to `high`.
pub open spec fn clamped(x: int, low: int, high: int) -> int {
    if x < low {
        low
    } else if x > high {
        high
    } else {
        x
    }
}

/// `x` brought into the range from `low` to `high`.
fn clamp(x: i128, low: Scalar, high: Scalar) -> (r: Scalar)
    requires
        low <= high,
    ensures
        r as int == clamped(x as int, low as int, high as int),
{
    if x < low as i128 {
        low
    } else if x > high as i128 {
        high
    } else {
        x as Scalar
    }
}

/// What an arrow key does. Outside the volume view the arrows look up and down
/// and turn in the xy-plane, and with shift they turn into the fourth
/// dimension, in the xw- and the yw-plane. In the volume view they turn in the
/// xw- and the xy-plane, and with shift left and right turn in the yw-plane.
pub open spec fn spec_arrow_turn(volume_mode: bool, shift: bool, arrow: Arrow) -> Turn {
    if !volume_mode {
        if shift {
            match arrow {
                Arrow::Up => Turn::Rotate { plane: Plane::XW, positive: true },
                Arrow::Down => Turn::Rotate { plane: Plane::XW, positive: false },
                Arrow::Left => Turn::Rotate { plane: Plane::YW, positive: false },
                Arrow::Right => Turn::Rotate { plane: Plane::YW, positive: true },
            }
        } else {
            match arrow {
                Arrow::Up => Turn::Look { positive: true },
                Arrow::Down => Turn::Look { positive: false },
                Arrow::Left => Turn::Rotate { plane: Plane::XY, positive: false },
                Arrow::Right => Turn::Rotate { plane: Plane::XY, positive: true },
            }
        }
    } else {
        if shift {
            match arrow {
                Arrow::Up => Turn::Nothing,
                Arrow::Down => Turn::Nothing,
                Arrow::Left => Turn::Rotate { plane: Plane::YW, positive: true },
                Arrow::Right => Turn::Rotate { plane: Plane::YW, positive: false },
            }
        } else {
            match arrow {
                Arrow::Up => Turn::Rotate { plane: Plane::XW, positive: true },
                Arrow::Down => Turn::Rotate { plane: Plane::XW, positive: false },
                Arrow::Left => Turn::Rotate { plane: Plane::XY, positive: false },
                Arrow::Right => Turn::Rotate { plane: Plane::XY, positive: true },
            }
        }
    }
}

/// What an arrow key does, in or out of the volume view, with or without
/// shift.
pub fn arrow_turn(volume_mode: bool, shift: bool, arrow: Arrow) -> (r: Turn)
    ensures
        r == spec_arrow_turn(volume_mode, shift, arrow),
{
    match (volume_mode, shift, arrow) {
        (false, true, Arrow::Up) => Turn::Rotate { plane: Plane::XW, positive: true },
        (false, true, Arrow::Down) => Turn::Rotate { plane: Plane::XW, positive: false },
        (false, true, Arrow::Left) => Turn::Rotate { plane: Plane::YW, positive: false },
        (false, true, Arrow::Right) => Turn::Rotate { plane: Plane::YW, positive: true },
        (false, false, Arrow::Up) => Turn::Look { positive: true },
        (false, false, Arrow::Down) => Turn::Look { positive: false },
        (true, true, Arrow::Up) => Turn::Nothing,
        (true, true, Arrow::Down) => Turn::Nothing,
        (true, true, Arrow::Left) => Turn::Rotate { plane: Plane::YW, positive: true },
        (true, true, Arrow::Right) => Turn::Rotate { plane: Plane::YW, positive: false },
        (true, false, Arrow::Up) => Turn::Rotate { plane: Plane::XW, positive: true },
        (true, false, Arrow::Down) => Turn::Rotate { plane: Plane::XW, positive: false },
        (_, false, Arrow::Left) => Turn::Rotate { plane: Plane::XY, positive: false },
        (_, false, Arrow::Right) => Turn::Rotate { plane: Plane::XY, positive: true },
    }
}

/// The amount by which the volume view advances in `ts` seconds.
pub open spec fn blend_step(ts: Scalar) -> int {
    quotient(ts * ONE, VOLUME_TRANSITION as int)
}

/// The orientation of a camera with the given free orientation and the given
/// half angles of its volume rotation and of its vertical look.
pub open spec fn effective_rotation(base: Rotor, volume: HalfAngle, look: HalfAngle)
    -> RotorModel {
    composed(
        composed(base@, plane_rotor(Plane::YW, volume)@),
        plane_rotor(Plane::XY, look)@,
    )
}

/// The position after moving for `ts` seconds with the given speed along the
/// given axis of a camera with orientation `rotation`.
pub open spec fn moved(
    position: VectorModel,
    rotation: RotorModel,
    axis: Vector4,
    speed: Scalar,
    ts: Scalar,
) -> VectorModel {
    advanced(position, rotated(rotation, axis@), stored(speed * ts))
}

impl Camera {
    /// The fixed axis that the camera looks along before it is turned.
    pub open spec fn spec_forward() -> Vector4 {
        Vector4 { x: ONE, y: 0, z: 0, w: 0 }
    }

    /// The fixed axis that points up before the camera is turned.
    pub open spec fn spec_up() -> Vector4 {
        Vector4 { x: 0, y: ONE, z: 0, w: 0 }
    }

    /// The fixed axis that points right before the camera is turned.
    pub open spec fn spec_right() -> Vector4 {
        Vector4 { x: 0, y: 0, z: ONE, w: 0 }
    }

    /// The fixed axis of the fourth dimension before the camera is turned.
    pub open spec fn spec_ana() -> Vector4 {
        Vector4 { x: 0, y: 0, z: 0, w: ONE }
    }

    /// The camera at the origin, unturned and at rest.
    pub open spec fn spec_new() -> Camera {
        Camera {
            position: Vector4 { x: 0, y: 0, z: 0, w: 0 },
            forward_movement: 0,
            up_movement: 0,
            right_movement: 0,
            ana_movement: 0,
            base_rotation: identity_rotor(),
            volume_mode: false,
            volume_mode_percentage: 0,
            xy_rotation: 0,
        }
    }

    /// The volume view is between zero and one, and the vertical look within a
    /// quarter turn up or down.
    pub open spec fn is_valid(self) -> bool {
        &&& 0 <= self.volume_mode_percentage <= ONE
        &&& -FRAC_PI_2 <= self.xy_rotation <= FRAC_PI_2
    }

    /// The angle of the volume rotation: a quarter turn times the progress of
    /// the volume view.
    pub open spec fn spec_volume_angle(self) -> int {
        stored(FRAC_PI_2 * self.volume_mode_percentage)
    }

    /// The angle of the vertical look that takes effect: the look angle times
    /// what is left of the volume view.
    pub open spec fn spec_look_angle(self) -> int {
        stored(self.xy_rotation * (ONE - self.volume_mode_percentage))
    }

    /// The progress of the volume view after `ts` more seconds: toward one
    /// while the volume view is on, toward zero while it is off.
    pub open spec fn spec_blend_after(self, ts: Scalar) -> int {
        if self.volume_mode {
            clamped(self.volume_mode_percentage + blend_step(ts), 0, ONE as int)
        } else {
            clamped(self.volume_mode_percentage - blend_step(ts), 0, ONE as int)
        }
    }

    /// The position after `ts` seconds of movement along the four axes of a
    /// camera with orientation `rotation`: forward, up, right and ana, in that
    /// order.
    pub open spec fn spec_position_after(self, rotation: RotorModel, ts: Scalar) -> VectorModel {
        let ahead = moved(
            self.position@,
            rotation,
            Camera::spec_forward(),
            self.forward_movement,
            ts,
        );
        let above = moved(ahead, rotation, Camera::spec_up(), self.up_movement, ts);
        let beside = moved(above, rotation, Camera::spec_right(), self.right_movement, ts);
        moved(beside, rotation, Camera::spec_ana(), self.ana_movement, ts)
    }

    /// The camera after an arrow key was held for one frame, in which it turns
    /// by the angle whose half is `half`, a positive one.
    pub open spec fn spec_turned_by(self, after: Camera, turn: Turn, angle: Scalar, half: HalfAngle)
        -> bool {
        &&& after.base_rotation@ == match turn {
            Turn::Rotate { plane, positive } => composed(
                self.base_rotation@,
                plane_rotor(
                    plane,
                    if positive {
                        half
                    } else {
                        half.spec_opposite()
                    },
                )@,
            ),
            _ => self.base_rotation@,
        }
        &&& after.xy_rotation as int == match turn {
            Turn::Look { positive } => clamped(
                if positive {
                    self.xy_rotation + angle
                } else {
                    self.xy_rotation - angle
                },
                -FRAC_PI_2 as int,
                FRAC_PI_2 as int,
            ),
            _ => self.xy_rotation as int,
        }
        &&& after.position == self.position
        &&& after.forward_movement == self.forward_movement
        &&& after.up_movement == self.up_movement
        &&& after.right_movement == self.right_movement
        &&& after.ana_movement == self.ana_movement
        &&& after.volume_mode == self.volume_mode
        &&& after.volume_mode_percentage == self.volume_mode_percentage
    }

    /// The vertical look angle after the pointer moved by `delta_y`.
    pub open spec fn spec_look_after(self, delta_y: Scalar) -> int {
        clamped(
            self.xy_rotation - stored(delta_y * SENSITIVITY),
            -FRAC_PI_2 as int,
            FRAC_PI_2 as int,
        )
    }

    /// `after` is this camera advanced by `ts` seconds: the position moved
    /// along the axes of the effective orientation, the volume view advanced,
    /// the vertical look angle set to zero where the volume view is complete,
    /// the free orientation normalized, and the rest as it was.
    pub open spec fn spec_updated(
        self,
        after: Camera,
        ts: Scalar,
        volume: HalfAngle,
        look: HalfAngle,
    ) -> bool {
        &&& after.position@ == self.spec_position_after(
            effective_rotation(self.base_rotation, volume, look),
            ts,
        )
        &&& after.volume_mode_percentage as int == self.spec_blend_after(ts)
        &&& after.xy_rotation == if after.volume_mode_percentage == ONE {
            0
        } else {
            self.xy_rotation
        }
        &&& after.base_rotation@ == normalized_rotor(self.base_rotation@)
        &&& after.forward_movement == self.forward_movement
        &&& after.up_movement == self.up_movement
        &&& after.right_movement == self.right_movement
        &&& after.ana_movement == self.ana_movement
        &&& after.volume_mode == self.volume_mode
    }

    /// `after` is this camera turned by a movement of the pointer.
    pub open spec fn spec_turned(
        self,
        after: Camera,
        delta_y: Scalar,
        turn_x: HalfAngle,
        turn_y: HalfAngle,
    ) -> bool {
        &&& after.base_rotation@ == if self.volume_mode {
            composed(
                composed(self.base_rotation@, plane_rotor(Plane::XZ, turn_x)@),
                plane_rotor(Plane::XW, turn_y)@,
            )
        } else {
            composed(self.base_rotation@, plane_rotor(Plane::XZ, turn_x)@)
        }
        &&& after.xy_rotation as int == if self.volume_mode {
            self.xy_rotation as int
        } else {
            self.spec_look_after(delta_y)
        }
        &&& after.position == self.position
        &&& after.forward_movement == self.forward_movement
        &&& after.up_movement == self.up_movement
        &&& after.right_movement == self.right_movement
        &&& after.ana_movement == self.ana_movement
        &&& after.volume_mode == self.volume_mode
        &&& after.volume_mode_percentage == self.volume_mode_percentage
    }

    /// The axis that the camera looks along before it is turned.
    pub fn forward() -> (r: Vector4)
        ensures
            r == Camera::spec_forward(),
    {
        Vector4 { x: ONE, y: 0, z: 0, w: 0 }
    }

    /// The axis that points up before the camera is turned.
    pub fn up() -> (r: Vector4)
        ensures
            r == Camera::spec_up(),
    {
        Vector4 { x: 0, y: ONE, z: 0, w: 0 }
    }

    /// The axis that points right before the camera is turned.
    pub fn right() -> (r: Vector4)
        ensures
            r == Camera::spec_right(),
    {
        Vector4 { x: 0, y: 0, z: ONE, w: 0 }
    }

    /// The axis of the fourth dimension before the camera is turned.
    pub fn ana() -> (r: Vector4)
        ensures
            r == Camera::spec_ana(),
    {
        Vector4 { x: 0, y: 0, z: 0, w: ONE }
    }

    /// The camera at the origin, unturned and at rest.
    pub fn new() -> (r: Camera)
        ensures
            r == Camera::spec_new(),
            r.is_valid(),
    {
        Camera {
            position: Vector4::zero(),
            forward_movement: 0,
            up_movement: 0,
            right_movement: 0,
            ana_movement: 0,
            base_rotation: Rotor::identity(),
            volume_mode: false,
            volume_mode_percentage: 0,
            xy_rotation: 0,
        }
    }

    /// The angle of the volume rotation, in radians.
    pub fn volume_angle(&self) -> (r: Scalar)
        ensures
            r as int == self.spec_volume_angle(),
    {
        store(scalar_mul(FRAC_PI_2, self.volume_mode_percentage))
    }

    /// The angle of the vertical look that takes effect, in radians.
    pub fn look_angle(&self) -> (r: Scalar)
        ensures
            r as int == self.spec_look_angle(),
    {
        store(
            bounded_mul(
                self.xy_rotation as i128,
                65536 - self.volume_mode_percentage as i128,
                Ghost(0x8000_0000),
                Ghost(0x1_0000_0000),
            ),
        )
    }

    /// The angle, in radians, by which a pointer movement of `delta` turns the
    /// camera.
    pub fn drag_angle(delta: Scalar) -> (r: Scalar)
        ensures
            r as int == stored(delta * SENSITIVITY),
    {
        store(scalar_mul(delta, SENSITIVITY))
    }

    /// The angle, in radians, by which an arrow key that is held turns the
    /// camera in `ts` seconds: a quarter turn in each second.
    pub fn turn_angle(ts: Scalar) -> (r: Scalar)
        ensures
            r as int == stored(FRAC_PI_2 * ts),
    {
        store(scalar_mul(FRAC_PI_2, ts))
    }

    /// The progress of the volume view after `ts` more seconds.
    pub fn blend_after(&self, ts: Scalar) -> (r: Scalar)
        ensures
            r as int == self.spec_blend_after(ts),
            0 <= r <= ONE,
    {
        let step = divide(ts as i128 * 65536, VOLUME_TRANSITION as i128);
        proof {
            lemma_quotient_bounded(ts as int * 65536, VOLUME_TRANSITION as int, 0x8000_0000_0000);
        }
        if self.volume_mode {
            clamp(self.volume_mode_percentage as i128 + step, 0, ONE)
        } else {
            clamp(self.volume_mode_percentage as i128 - step, 0, ONE)
        }
    }

    /// The orientation without the vertical look: the free orientation, then
    /// the volume rotation in the yw-plane.
    pub fn get_rotation_without_xy(&self, volume: HalfAngle) -> (r: Rotor)
        ensures
            r@ == composed(self.base_rotation@, plane_rotor(Plane::YW, volume)@),
    {
        self.base_rotation.compose(Rotor::rotation_yw(volume))
    }

    /// The effective orientation: the free orientation, then the volume
    /// rotation in the yw-plane, then the vertical look in the xy-plane.
    ///
    /// `volume` is the half angle of `volume_angle()`, and `look` that of
    /// `look_angle()`.
    pub fn get_rotation(&self, volume: HalfAngle, look: HalfAngle) -> (r: Rotor)
        ensures
            r@ == effective_rotation(self.base_rotation, volume, look),
    {
        self.get_rotation_without_xy(volume).compose(Rotor::rotation_xy(look))
    }

    /// Advances the camera by `ts` seconds.
    ///
    /// The position moves along the four axes of the effective orientation, by
    /// the speed that the keys ask for on each. The volume view advances toward
    /// one while it is switched on and toward zero while it is off; once it is
    /// complete, the vertical look angle is zero. The free orientation is
    /// normalized.
    pub fn update(&mut self, ts: Scalar, volume: HalfAngle, look: HalfAngle)
        ensures
            old(self).spec_updated(*final(self), ts, volume, look),
            0 <= final(self).volume_mode_percentage <= ONE,
            final(self).volume_mode_percentage == ONE ==> final(self).xy_rotation == 0,
            within_one(final(self).base_rotation@),
            old(self).is_valid() ==> final(self).is_valid(),
    {
        let rotation = self.get_rotation(volume, look);
        let forward = rotation.rotate(Camera::forward());
        let up = rotation.rotate(Camera::up());
        let right = rotation.rotate(Camera::right());
        let ana = rotation.rotate(Camera::ana());
        self.position = self.position.advance(
            forward,
            store(scalar_mul(self.forward_movement, ts)),
        );
        self.position = self.position.advance(up, store(scalar_mul(self.up_movement, ts)));
        self.position = self.position.advance(right, store(scalar_mul(self.right_movement, ts)));
        self.position = self.position.advance(ana, store(scalar_mul(self.ana_movement, ts)));

        self.volume_mode_percentage = self.blend_after(ts);
        if self.volume_mode_percentage == ONE {
            self.xy_rotation = 0;
        }
        proof {
            law_normalized_within_one(self.base_rotation);
        }
        self.base_rotation = self.base_rotation.normalized();
    }

    /// A movement key went down or up: while it is held, the camera moves along
    /// its axis at `MOVEMENT_SPEED`, forward with W and back with S, up with E
    /// and down with Q, right with D and left with A, ana with R and kata with
    /// F. Other keys change nothing.
    pub fn key(&mut self, key: Key, state: KeyState)
        ensures
            *final(self) == old(self).spec_key(key, state),
    {
        let speed = match state {
            KeyState::Pressed => MOVEMENT_SPEED,
            KeyState::Released => 0,
        };
        match key {
            Key::W => self.forward_movement = speed,
            Key::S => self.forward_movement = -speed,
            Key::Q => self.up_movement = -speed,
            Key::E => self.up_movement = speed,
            Key::A => self.right_movement = -speed,
            Key::D => self.right_movement = speed,
            Key::R => self.ana_movement = speed,
            Key::F => self.ana_movement = -speed,
            Key::Escape => {},
            Key::Other => {},
        }
    }

    /// The camera after a key went down or up.
    pub open spec fn spec_key(self, key: Key, state: KeyState) -> Camera {
        let speed: Scalar = match state {
            KeyState::Pressed => MOVEMENT_SPEED,
            KeyState::Released => 0,
        };
        match key {
            Key::W => Camera { forward_movement: speed, ..self },
            Key::S => Camera { forward_movement: (-speed) as Scalar, ..self },
            Key::Q => Camera { up_movement: (-speed) as Scalar, ..self },
            Key::E => Camera { up_movement: speed, ..self },
            Key::A => Camera { right_movement: (-speed) as Scalar, ..self },
            Key::D => Camera { right_movement: speed, ..self },
            Key::R => Camera { ana_movement: speed, ..self },
            Key::F => Camera { ana_movement: (-speed) as Scalar, ..self },
            Key::Escape => self,
            Key::Other => self,
        }
    }

    /// Stops the movement along all four axes.
    pub fn reset_keys(&mut self)
        ensures
            *final(self) == (Camera {
                forward_movement: 0,
                up_movement: 0,
                right_movement: 0,
                ana_movement: 0,
                ..*old(self)
            }),
    {
        self.forward_movement = 0;
        self.up_movement = 0;
        self.right_movement = 0;
        self.ana_movement = 0;
    }

    /// An arrow key was held for one frame: the camera turns as `turn` says, by
    /// `angle`, whose half is `half`. The vertical look angle stays within a
    /// quarter turn up or down; a rotation is applied first, in the frame of
    /// the camera.
    pub fn turn(&mut self, turn: Turn, angle: Scalar, half: HalfAngle)
        ensures
            old(self).spec_turned_by(*final(self), turn, angle, half),
            old(self).is_valid() ==> final(self).is_valid(),
    {
        match turn {
            Turn::Rotate { plane, positive } => {
                let signed = if positive {
                    half
                } else {
                    half.opposite()
                };
                self.base_rotation = self.base_rotation.compose(Rotor::in_plane(plane, signed));
            },
            Turn::Look { positive } => {
                let target = if positive {
                    self.xy_rotation as i128 + angle as i128
                } else {
                    self.xy_rotation as i128 - angle as i128
                };
                self.xy_rotation = clamp(target, -FRAC_PI_2, FRAC_PI_2);
            },
            Turn::Nothing => {},
        }
    }

    /// The pointer moved by `delta_y` vertically; `turn_x` and `turn_y` are the
    /// half angles of the drag angles of its horizontal and vertical movement.
    ///
    /// In the volume view the free orientation turns in the xz-plane by the
    /// horizontal movement and then in the xw-plane by the vertical one.
    /// Otherwise the vertical movement changes the vertical look angle, kept
    /// within a quarter turn up or down, and the free orientation turns in the
    /// xz-plane by the horizontal movement. The new rotation is applied first,
    /// in the frame of the camera.
    pub fn mouse_moved(&mut self, delta_y: Scalar, turn_x: HalfAngle, turn_y: HalfAngle)
        ensures
            old(self).spec_turned(*final(self), delta_y, turn_x, turn_y),
            old(self).is_valid() ==> final(self).is_valid(),
    {
        if self.volume_mode {
            self.base_rotation = self.base_rotation.compose(Rotor::rotation_xz(turn_x));
            self.base_rotation = self.base_rotation.compose(Rotor::rotation_xw(turn_y));
        } else {
            let change = Camera::drag_angle(delta_y);
            self.xy_rotation = clamp(
                self.xy_rotation as i128 - change as i128,
                -FRAC_PI_2,
                FRAC_PI_2,
            );
            self.base_rotation = self.base_rotation.compose(Rotor::rotation_xz(turn_x));
        }
    }
}

impl Default for Camera {
    fn default() -> (r: Camera)
        ensures
            r == Camera::spec_new(),
    {
        Camera::new()
    }
}

} // verus!
