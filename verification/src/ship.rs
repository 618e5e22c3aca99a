//! The ship's state and the three per-tick update rules.
//!
//! All quantities are plain integers. Angles, positions and velocities may
//! carry a fixed-point scale chosen by the caller; the rules below are exact
//! integer arithmetic whatever that scale is. Fuel is a plain scalar held in
//! `[0, FUEL_MAX]`.

use vstd::prelude::*;

verus! {

/// Fuel can never leave `[0, FUEL_MAX]`.
pub const FUEL_MAX: i64 = 1000;

/// Fuel a ship starts with.
pub const INITIAL_FUEL: i64 = 100;

/// Thrust power a ship is created with.
pub const INITIAL_THRUST_POWER: i64 = 100;

/// The heading after one orientation step: turned left by
/// `rotation_speed * dt`, turned right by the same amount, or unchanged
/// when both or neither turn signal is active.
pub open spec fn heading_after(
    heading: int,
    rotation_speed: int,
    dt: int,
    turn_left: bool,
    turn_right: bool,
) -> int {
    if turn_left && !turn_right {
        heading + rotation_speed * dt
    } else if turn_right && !turn_left {
        heading - rotation_speed * dt
    } else {
        heading
    }
}

/// One-step toroidal wraparound of a coordinate against the screen's
/// half-extent: a coordinate past `+half` comes back by the full dimension
/// `2 * half`, one short of `-half` comes forward by it; anything on
/// screen stays put.
pub open spec fn wrapped(x: int, half: int) -> int {
    if x < -half {
        x + 2 * half
    } else if x > half {
        x - 2 * half
    } else {
        x
    }
}

/// The coordinate after one position step: advanced by `v * dt`, then
/// wrapped once against the half-extent `half`.
pub open spec fn coord_after(x: int, v: int, dt: int, half: int) -> int {
    wrapped(x + v * dt, half)
}

/// Whether the engine fires this tick: the thrust signal is active and
/// there is fuel left.
pub open spec fn thrusting(fuel: int, thrust_active: bool) -> bool {
    thrust_active && fuel > 0
}

/// Fuel clamped into `[0, FUEL_MAX]`.
pub open spec fn clamped_fuel(f: int) -> int {
    if f < 0 {
        0
    } else if f > FUEL_MAX {
        FUEL_MAX as int
    } else {
        f
    }
}

/// One velocity component after one propulsion step: accelerated by
/// `thrust_power * dt` along the forward-direction component `dir` while
/// the engine fires, untouched otherwise.
pub open spec fn vel_after(
    v: int,
    thrust_power: int,
    dt: int,
    dir: int,
    fuel: int,
    thrust_active: bool,
) -> int {
    if thrusting(fuel, thrust_active) {
        v + thrust_power * dt * dir
    } else {
        v
    }
}

/// The fuel after one propulsion step: burned by `thrust_power * dt` and
/// clamped into `[0, FUEL_MAX]` while the engine fires, untouched
/// otherwise.
pub open spec fn fuel_after(fuel: int, thrust_power: int, dt: int, thrust_active: bool) -> int {
    if thrusting(fuel, thrust_active) {
        clamped_fuel(fuel - thrust_power * dt)
    } else {
        fuel
    }
}

/// One-step wraparound of a coordinate against the half-extent `half`,
/// exactly as [`wrapped`] states it.
pub fn wrap_coord(x: i64, half: i64) -> (r: i64)
    requires
        half > 0,
        2 * half <= i64::MAX,
    ensures
        r == wrapped(x as int, half as int),
{
    let full: i64 = 2 * half;
    if x < -half {
        x + full
    } else if x > half {
        x - full
    } else {
        x
    }
}

/// The single simulated entity: its pose, motion, fuel, and the two
/// configuration scalars fixed at creation.
pub struct Ship {
    /// Facing angle, in the caller's angle units; unbounded, so a turn by
    /// `d` changes it by exactly `d`.
    pub heading: i64,
    /// Horizontal coordinate, kept on screen by the position rule.
    pub pos_x: i64,
    /// Vertical coordinate, kept on screen by the position rule.
    pub pos_y: i64,
    /// Horizontal velocity; unconstrained magnitude.
    pub vel_x: i64,
    /// Vertical velocity; unconstrained magnitude.
    pub vel_y: i64,
    /// Remaining fuel, always in `[0, FUEL_MAX]`.
    pub fuel: i64,
    /// How fast the ship turns, per unit of elapsed time; set at creation.
    pub rotation_speed: i64,
    /// How hard the engine pushes, per unit of elapsed time; set at creation.
    pub thrust_power: i64,
}

impl Ship {
    /// The ship's invariant: fuel in range, non-negative configuration.
    pub open spec fn wf(self) -> bool {
        &&& 0 <= self.fuel <= FUEL_MAX
        &&& self.rotation_speed >= 0
        &&& self.thrust_power >= 0
    }

    /// A ship at the origin, at rest, facing angle zero, with the fixed
    /// initial fuel and thrust power.
    pub fn new(rotation_speed: i64) -> (ship: Ship)
        requires
            rotation_speed >= 0,
        ensures
            ship.wf(),
            ship.heading == 0,
            ship.pos_x == 0,
            ship.pos_y == 0,
            ship.vel_x == 0,
            ship.vel_y == 0,
            ship.fuel == INITIAL_FUEL,
            ship.rotation_speed == rotation_speed,
            ship.thrust_power == INITIAL_THRUST_POWER,
    {
        Ship {
            heading: 0,
            pos_x: 0,
            pos_y: 0,
            vel_x: 0,
            vel_y: 0,
            fuel: INITIAL_FUEL,
            rotation_speed,
            thrust_power: INITIAL_THRUST_POWER,
        }
    }

    /// One orientation step: reading the two turn signals, rotate the
    /// heading by `rotation_speed * dt` (left positive, right negative);
    /// both or neither signal leaves the heading alone. Nothing else moves.
    ///
    /// The bounds on `heading ± rotation_speed * dt` only keep the exact
    /// result representable in an `i64`.
    pub fn orientation_update(&mut self, dt: i64, turn_left: bool, turn_right: bool)
        requires
            old(self).wf(),
            dt >= 0,
            old(self).rotation_speed * dt <= i64::MAX,
            old(self).heading + old(self).rotation_speed * dt <= i64::MAX,
            i64::MIN <= old(self).heading - old(self).rotation_speed * dt,
        ensures
            final(self).wf(),
            final(self).heading == heading_after(
                old(self).heading as int,
                old(self).rotation_speed as int,
                dt as int,
                turn_left,
                turn_right,
            ),
            final(self).pos_x == old(self).pos_x,
            final(self).pos_y == old(self).pos_y,
            final(self).vel_x == old(self).vel_x,
            final(self).vel_y == old(self).vel_y,
            final(self).fuel == old(self).fuel,
            final(self).rotation_speed == old(self).rotation_speed,
            final(self).thrust_power == old(self).thrust_power,
    {
        proof {
            assert(self.rotation_speed * dt >= 0) by (nonlinear_arith)
                requires
                    self.rotation_speed >= 0,
                    dt >= 0,
            ;
        }
        if turn_left && !turn_right {
            let turn: i64 = self.rotation_speed * dt;
            self.heading = self.heading + turn;
        } else if turn_right && !turn_left {
            let turn: i64 = self.rotation_speed * dt;
            self.heading = self.heading - turn;
        }
    }

    /// One position step: advance each coordinate by `velocity * dt`, then
    /// wrap it once against the screen's half-extents `half_w` and
    /// `half_h`. The screen is the windowing collaborator's: a non-positive
    /// extent is a malformed screen, and the position is then left
    /// unmodified. Nothing but the position moves.
    ///
    /// The conditional bounds only keep `position + velocity * dt` and the
    /// full dimensions representable in an `i64`.
    pub fn position_update(&mut self, dt: i64, half_w: i64, half_h: i64)
        requires
            old(self).wf(),
            dt >= 0,
            half_w > 0 && half_h > 0 ==> {
                &&& i64::MIN <= old(self).vel_x * dt <= i64::MAX
                &&& i64::MIN <= old(self).pos_x + old(self).vel_x * dt <= i64::MAX
                &&& 2 * half_w <= i64::MAX
                &&& i64::MIN <= old(self).vel_y * dt <= i64::MAX
                &&& i64::MIN <= old(self).pos_y + old(self).vel_y * dt <= i64::MAX
                &&& 2 * half_h <= i64::MAX
            },
        ensures
            final(self).wf(),
            half_w > 0 && half_h > 0 ==> {
                &&& final(self).pos_x == coord_after(
                    old(self).pos_x as int,
                    old(self).vel_x as int,
                    dt as int,
                    half_w as int,
                )
                &&& final(self).pos_y == coord_after(
                    old(self).pos_y as int,
                    old(self).vel_y as int,
                    dt as int,
                    half_h as int,
                )
            },
            !(half_w > 0 && half_h > 0) ==> {
                &&& final(self).pos_x == old(self).pos_x
                &&& final(self).pos_y == old(self).pos_y
            },
            final(self).heading == old(self).heading,
            final(self).vel_x == old(self).vel_x,
            final(self).vel_y == old(self).vel_y,
            final(self).fuel == old(self).fuel,
            final(self).rotation_speed == old(self).rotation_speed,
            final(self).thrust_power == old(self).thrust_power,
    {
        if half_w > 0 && half_h > 0 {
            let dx: i64 = self.vel_x * dt;
            self.pos_x = wrap_coord(self.pos_x + dx, half_w);
            let dy: i64 = self.vel_y * dt;
            self.pos_y = wrap_coord(self.pos_y + dy, half_h);
        }
    }

    /// One propulsion step: while the thrust signal is active and fuel
    /// remains, accelerate by `thrust_power * dt` along the forward
    /// direction and burn `thrust_power * dt` fuel, clamped into
    /// `[0, FUEL_MAX]`. With the signal off, or the tank empty, velocity
    /// and fuel are untouched — the ship coasts. Nothing else moves.
    ///
    /// `dir_x` and `dir_y` are the components of the forward direction the
    /// heading points in, `(-sin(heading), cos(heading))` in the caller's
    /// fixed-point scale ("up" is angle zero); the trigonometry that
    /// produces them is the caller's, since it is not exact in integers.
    ///
    /// The conditional bounds only keep `velocity + thrust_power * dt * dir`
    /// representable in an `i64`.
    pub fn propulsion_update(&mut self, dt: i64, thrust_active: bool, dir_x: i64, dir_y: i64)
        requires
            old(self).wf(),
            dt >= 0,
            thrusting(old(self).fuel as int, thrust_active) ==> {
                &&& old(self).thrust_power * dt <= i64::MAX
                &&& i64::MIN <= old(self).thrust_power * dt * dir_x <= i64::MAX
                &&& i64::MIN <= old(self).vel_x + old(self).thrust_power * dt * dir_x <= i64::MAX
                &&& i64::MIN <= old(self).thrust_power * dt * dir_y <= i64::MAX
                &&& i64::MIN <= old(self).vel_y + old(self).thrust_power * dt * dir_y <= i64::MAX
            },
        ensures
            final(self).wf(),
            final(self).vel_x == vel_after(
                old(self).vel_x as int,
                old(self).thrust_power as int,
                dt as int,
                dir_x as int,
                old(self).fuel as int,
                thrust_active,
            ),
            final(self).vel_y == vel_after(
                old(self).vel_y as int,
                old(self).thrust_power as int,
                dt as int,
                dir_y as int,
                old(self).fuel as int,
                thrust_active,
            ),
            final(self).fuel == fuel_after(
                old(self).fuel as int,
                old(self).thrust_power as int,
                dt as int,
                thrust_active,
            ),
            final(self).fuel <= old(self).fuel,
            old(self).fuel == 0 ==> final(self).vel_x == old(self).vel_x
                && final(self).vel_y == old(self).vel_y
                && final(self).fuel == old(self).fuel,
            final(self).heading == old(self).heading,
            final(self).pos_x == old(self).pos_x,
            final(self).pos_y == old(self).pos_y,
            final(self).rotation_speed == old(self).rotation_speed,
            final(self).thrust_power == old(self).thrust_power,
    {
        if thrust_active && self.fuel > 0 {
            proof {
                assert(self.thrust_power * dt >= 0) by (nonlinear_arith)
                    requires
                        self.thrust_power >= 0,
                        dt >= 0,
                ;
            }
            let burn: i64 = self.thrust_power * dt;
            self.vel_x = self.vel_x + burn * dir_x;
            self.vel_y = self.vel_y + burn * dir_y;
            let f: i64 = self.fuel - burn;
            self.fuel = if f < 0 {
                0
            } else if f > FUEL_MAX {
                FUEL_MAX
            } else {
                f
            };
        }
    }

}

} // verus!
