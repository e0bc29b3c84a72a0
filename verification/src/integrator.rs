//! Explicit (non-symplectic) Euler time integration.
//!
//! One step writes, for every body, the next velocity from the freshly
//! computed acceleration held in the destination state, and the next
//! position from the source state's pre-update velocity.  The component is
//! stateless and parameterized only by the numeric type.

use core::marker::PhantomData;
use vstd::prelude::*;

use crate::state::State;
use crate::state::StateModel;
use crate::types::Numeric;
use crate::vec3::Vec3;

verus! {

/// The velocity a body has after one step: `v + a * dt`, where `a` is the
/// acceleration computed for this step.
pub open spec fn velocity_after<T: Numeric>(vel: Vec3<T>, acc: Vec3<T>, dt: T) -> Vec3<T> {
    Vec3::add_spec(vel, acc.scale_spec(dt))
}

/// The position a body has after one step: `p + v * dt`, with the source
/// state's pre-update velocity `v`, not the newly computed one.
pub open spec fn position_after<T: Numeric>(pos: Vec3<T>, vel: Vec3<T>, dt: T) -> Vec3<T> {
    Vec3::add_spec(pos, vel.scale_spec(dt))
}

/// Stateless explicit-Euler integrator.
pub struct Integrator<T> {
    _type_marker: PhantomData<T>,
}

impl<T: Numeric> Integrator<T> {
    /// Creates the integrator.
    pub fn new() -> Self {
        Self { _type_marker: PhantomData }
    }

    /// Advances `result`'s velocities and positions one step from `state`.
    /// `result`'s accelerations must already hold the freshly computed
    /// accelerations for this step, written there by the force routine;
    /// they are read for the velocity update and left untouched.
    pub fn integrate(&self, dt: T, state: &State<T>, result: &mut State<T>)
        requires
            state@.wf(),
            old(result)@.wf(),
            old(result)@.n() == state@.n(),
        ensures
            final(result)@.wf(),
            final(result)@.ids == old(result)@.ids,
            final(result)@.masses == old(result)@.masses,
            final(result)@.accelerations == old(result)@.accelerations,
            final(result)@.velocities == Seq::new(
                state@.n(),
                |i: int| velocity_after(state@.velocities[i], old(result)@.accelerations[i], dt),
            ),
            final(result)@.positions == Seq::new(
                state@.n(),
                |i: int| position_after(state@.positions[i], state@.velocities[i], dt),
            ),
    {
        self.integrate_acceleration(dt, state, result);
        self.integrate_velocity(dt, state, result);
    }

    /// Folds the freshly computed accelerations into the velocities:
    /// `result.velocity[i] = state.velocity[i] + result.acceleration[i] * dt`.
    fn integrate_acceleration(&self, dt: T, state: &State<T>, result: &mut State<T>)
        requires
            state@.wf(),
            old(result)@.wf(),
            old(result)@.n() == state@.n(),
        ensures
            final(result)@ =~= (StateModel {
                velocities: Seq::new(
                    state@.n(),
                    |i: int| velocity_after(
                        state@.velocities[i],
                        old(result)@.accelerations[i],
                        dt,
                    ),
                ),
                ..old(result)@
            }),
    {
        let ghost orig = result@;
        let n = state.masses().len();
        let mut i: usize = 0;
        while i < n
            invariant
                i <= n,
                n == state@.n(),
                state@.wf(),
                orig.wf(),
                result@.wf(),
                result@.n() == n,
                result@.ids == orig.ids,
                result@.masses == orig.masses,
                result@.positions == orig.positions,
                result@.accelerations == orig.accelerations,
                forall|k: int|
                    0 <= k < i ==> result@.velocities[k] == velocity_after(
                        state@.velocities[k],
                        orig.accelerations[k],
                        dt,
                    ),
            decreases n - i,
        {
            let new_vel = Vec3::add_vec(state.velocity(i), &result.acceleration(i).scale(dt));
            result.set_velocity(i, new_vel);
            i = i + 1;
        }
        proof {
            assert(result@.velocities =~= Seq::new(
                state@.n(),
                |k: int| velocity_after(state@.velocities[k], orig.accelerations[k], dt),
            ));
        }
    }

    /// Advances the positions with the source state's pre-update
    /// velocities: `result.position[i] = state.position[i] + state.velocity[i] * dt`.
    fn integrate_velocity(&self, dt: T, state: &State<T>, result: &mut State<T>)
        requires
            state@.wf(),
            old(result)@.wf(),
            old(result)@.n() == state@.n(),
        ensures
            final(result)@ =~= (StateModel {
                positions: Seq::new(
                    state@.n(),
                    |i: int| position_after(state@.positions[i], state@.velocities[i], dt),
                ),
                ..old(result)@
            }),
    {
        let ghost orig = result@;
        let n = state.masses().len();
        let mut i: usize = 0;
        while i < n
            invariant
                i <= n,
                n == state@.n(),
                state@.wf(),
                orig.wf(),
                result@.wf(),
                result@.n() == n,
                result@.ids == orig.ids,
                result@.masses == orig.masses,
                result@.velocities == orig.velocities,
                result@.accelerations == orig.accelerations,
                forall|k: int|
                    0 <= k < i ==> result@.positions[k] == position_after(
                        state@.positions[k],
                        state@.velocities[k],
                        dt,
                    ),
            decreases n - i,
        {
            let new_pos = Vec3::add_vec(state.position(i), &state.velocity(i).scale(dt));
            result.set_position(i, new_pos);
            i = i + 1;
        }
        proof {
            assert(result@.positions =~= Seq::new(
                state@.n(),
                |k: int| position_after(state@.positions[k], state@.velocities[k], dt),
            ));
        }
    }
}

} // verus!
