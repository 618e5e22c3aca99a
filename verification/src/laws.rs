//! Laws the update rules obey, stated and proved over the spec-level model
//! that the rules' own contracts use.

use vstd::prelude::*;
use crate::ship::clamped_fuel;
use crate::ship::coord_after;
use crate::ship::fuel_after;
use crate::ship::heading_after;
use crate::ship::thrusting;
use crate::ship::FUEL_MAX;

verus! {

/// An orientation step with only the left signal active turns the heading
/// by exactly `rotation_speed * dt`; with only the right signal, by exactly
/// the same amount the other way; with both or neither, the heading is
/// unchanged.
pub proof fn lemma_turn_signals(heading: int, rotation_speed: int, dt: int)
    ensures
        heading_after(heading, rotation_speed, dt, true, false) == heading + rotation_speed * dt,
        heading_after(heading, rotation_speed, dt, false, true) == heading - rotation_speed * dt,
        heading_after(heading, rotation_speed, dt, true, true) == heading,
        heading_after(heading, rotation_speed, dt, false, false) == heading,
{
}

/// A position step keeps a coordinate on screen: starting from a coordinate
/// within `[-half, half]`, whenever the displacement `v * dt` is at most
/// one full screen dimension in magnitude, the wrapped result lies within
/// `[-half, half]` again.
pub proof fn lemma_position_stays_on_screen(x: int, v: int, dt: int, half: int)
    requires
        half > 0,
        -half <= x <= half,
        -2 * half <= v * dt <= 2 * half,
    ensures
        -half <= coord_after(x, v, dt, half) <= half,
{
}

/// A position step with zero velocity is an identity transform on an
/// on-screen coordinate.
pub proof fn lemma_zero_velocity_identity(x: int, dt: int, half: int)
    requires
        half > 0,
        -half <= x <= half,
    ensures
        coord_after(x, 0, dt, half) == x,
{
}

/// The fuel left after a whole sequence of propulsion steps, each given as
/// its elapsed time and thrust signal. Orientation and position steps leave
/// fuel untouched, so this is the fuel across any sequence of ticks.
pub open spec fn fuel_after_ticks(fuel: int, thrust_power: int, ticks: Seq<(int, bool)>) -> int
    decreases ticks.len(),
{
    if ticks.len() == 0 {
        fuel
    } else {
        fuel_after_ticks(
            fuel_after(fuel, thrust_power, ticks[0].0, ticks[0].1),
            thrust_power,
            ticks.subrange(1, ticks.len() as int),
        )
    }
}

/// One propulsion step never raises the fuel and keeps it in
/// `[0, FUEL_MAX]`.
pub proof fn lemma_fuel_step_monotone(fuel: int, thrust_power: int, dt: int, thrust_active: bool)
    requires
        0 <= fuel <= FUEL_MAX,
        thrust_power >= 0,
        dt >= 0,
    ensures
        fuel_after(fuel, thrust_power, dt, thrust_active) <= fuel,
        0 <= fuel_after(fuel, thrust_power, dt, thrust_active) <= FUEL_MAX,
{
    if thrusting(fuel, thrust_active) {
        assert(thrust_power * dt >= 0) by (nonlinear_arith)
            requires
                thrust_power >= 0,
                dt >= 0,
        ;
        assert(clamped_fuel(fuel - thrust_power * dt) <= fuel);
    }
}

/// Fuel is non-increasing across any sequence of ticks, and never leaves
/// `[0, FUEL_MAX]`, whatever the thrust signals and the (non-negative)
/// elapsed times.
pub proof fn lemma_fuel_monotone(fuel: int, thrust_power: int, ticks: Seq<(int, bool)>)
    requires
        0 <= fuel <= FUEL_MAX,
        thrust_power >= 0,
        forall|i: int| 0 <= i < ticks.len() ==> #[trigger] ticks[i].0 >= 0,
    ensures
        fuel_after_ticks(fuel, thrust_power, ticks) <= fuel,
        0 <= fuel_after_ticks(fuel, thrust_power, ticks) <= FUEL_MAX,
    decreases ticks.len(),
{
    if ticks.len() > 0 {
        assert(ticks[0].0 >= 0);
        lemma_fuel_step_monotone(fuel, thrust_power, ticks[0].0, ticks[0].1);
        let rest = ticks.subrange(1, ticks.len() as int);
        assert forall|i: int| 0 <= i < rest.len() implies #[trigger] rest[i].0 >= 0 by {
            assert(ticks[i + 1].0 >= 0);
        }
        lemma_fuel_monotone(
            fuel_after(fuel, thrust_power, ticks[0].0, ticks[0].1),
            thrust_power,
            rest,
        );
    }
}

} // verus!
