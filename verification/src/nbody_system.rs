//! The N-body system: physical constants, pairwise gravitational
//! accelerations, and a fixed-capacity cyclic history of states.
//!
//! The system owns the gravitational constant G and the softening length ε,
//! a ring of `state_cycles` state buffers, the write cursor and a step
//! counter.  Each `step` reads the current slot, computes softened pairwise
//! accelerations into the next slot, integrates velocity and position into
//! that same slot, advances the cursor and increments the counter.  A ghost
//! trajectory records every state the simulation has passed through, so the
//! contracts of the history queries say precisely which past step each
//! returned entry belongs to.

use vstd::prelude::*;

use crate::integrator::Integrator;
use crate::integrator::position_after;
use crate::integrator::velocity_after;
use crate::state::State;
use crate::state::StateModel;
use crate::types::Numeric;
use crate::vec3::Vec3;

verus! {

/// The pull of body `j` on body `i` under the softened force law:
/// `G * mass[j] * (pos[j] - pos[i]) / (d_sq * sqrt(d_sq + eps))`, where
/// `d_sq` is the squared distance.  The softening constant keeps the
/// denominator away from zero as the two bodies approach coincidence.
pub open spec fn accel_contribution<T: Numeric>(
    g: T,
    eps: T,
    mass_j: T,
    pos_i: Vec3<T>,
    pos_j: Vec3<T>,
) -> Vec3<T> {
    let d_pos = Vec3::sub_spec(pos_j, pos_i);
    let d_sq = d_pos.length_sq_spec();
    let force = g.times_spec(mass_j).divide_spec(
        d_sq.times_spec(d_sq.plus_spec(eps).sqrt_spec()),
    );
    d_pos.scale_spec(force)
}

/// Left fold of the contributions of bodies `0 .. j` on body `i`, skipping
/// the self term `j == i`.
pub open spec fn accel_sum<T: Numeric>(g: T, eps: T, s: StateModel<T>, i: int, j: int) -> Vec3<
    T,
>
    decreases j,
{
    if j <= 0 {
        Vec3::zero_spec()
    } else if j - 1 == i {
        accel_sum(g, eps, s, i, j - 1)
    } else {
        Vec3::add_spec(
            accel_sum(g, eps, s, i, j - 1),
            accel_contribution(g, eps, s.masses[j - 1], s.positions[i], s.positions[j - 1]),
        )
    }
}

/// The accumulated gravitational acceleration of body `i`: the sum of the
/// contributions of every other body, taken from `s`'s masses and
/// positions.  The body's own mass never enters.
pub open spec fn acceleration_of<T: Numeric>(g: T, eps: T, s: StateModel<T>, i: int) -> Vec3<T> {
    accel_sum(g, eps, s, i, s.n() as int)
}

/// One whole step of the simulation: fresh accelerations from the source
/// state's masses and positions; velocities advanced by those fresh
/// accelerations; positions advanced by the source state's pre-update
/// velocities.  Identifiers and masses carry over unchanged.
pub open spec fn step_model<T: Numeric>(g: T, eps: T, dt: T, s: StateModel<T>) -> StateModel<T> {
    StateModel {
        ids: s.ids,
        masses: s.masses,
        positions: Seq::new(s.n(), |i: int| position_after(s.positions[i], s.velocities[i], dt)),
        velocities: Seq::new(
            s.n(),
            |i: int| velocity_after(s.velocities[i], acceleration_of(g, eps, s, i), dt),
        ),
        accelerations: Seq::new(s.n(), |i: int| acceleration_of(g, eps, s, i)),
    }
}

/// The ring slot immediately before `i`, modulo `cap`.
pub open spec fn pred_index(i: int, cap: int) -> int {
    if i == 0 {
        cap - 1
    } else {
        i - 1
    }
}

/// The ring slot immediately after `i`, modulo `cap`.
pub open spec fn succ_index(i: int, cap: int) -> int {
    if i + 1 >= cap {
        0
    } else {
        i + 1
    }
}

/// The ring slot `t` positions behind `cursor`, modulo `cap`, for
/// `0 <= t <= cap` and `0 <= cursor < cap`.
pub open spec fn back_index(cursor: int, t: int, cap: int) -> int {
    if t <= cursor {
        cursor - t
    } else {
        cursor + cap - t
    }
}

/// Where in the trajectory the entry `t` steps behind step `steps` lies;
/// before the ring has been around once, older slots still hold the initial
/// state, entry 0 of the trajectory.
pub open spec fn hist_index(steps: int, t: int) -> int {
    if steps - t >= 0 {
        steps - t
    } else {
        0
    }
}

/// The N-body simulation: constants, the state ring, cursor and counter.
pub struct NBodySystem<T: Numeric> {
    gravitational_constant: T,
    softening_constant: T,
    state_cycles: usize,
    current_state: usize,
    states: Vec<State<T>>,
    step_count: usize,
    integrator: Integrator<T>,
    history: Ghost<Seq<StateModel<T>>>,
}

impl<T: Numeric> NBodySystem<T> {
    /// The fixed ring capacity, `state_cycles`.
    pub closed spec fn capacity(&self) -> nat {
        self.state_cycles as nat
    }

    /// The ring slot holding the most recently completed state.
    pub closed spec fn cursor(&self) -> nat {
        self.current_state as nat
    }

    /// The number of completed steps.
    pub closed spec fn steps(&self) -> nat {
        self.step_count as nat
    }

    /// The gravitational constant G.
    pub closed spec fn gravitational(&self) -> T {
        self.gravitational_constant
    }

    /// The softening constant ε.
    pub closed spec fn softening(&self) -> T {
        self.softening_constant
    }

    /// Every state the simulation has passed through, oldest first: entry
    /// `k` is the state after `k` completed steps.
    pub closed spec fn trail(&self) -> Seq<StateModel<T>> {
        self.history@
    }

    /// Well-formedness: the capacity is positive and fixed, the cursor is a
    /// valid slot, ε is positive, the trajectory has one entry per
    /// completed step plus the initial state, every trajectory entry is an
    /// aligned state with the same identifiers and masses, and the ring
    /// slot `t` positions behind the cursor holds the state from `t` steps
    /// ago (or the initial state, where the simulation is younger than the
    /// ring).
    pub closed spec fn wf(&self) -> bool {
        &&& self.state_cycles >= 1
        &&& self.states@.len() == self.state_cycles
        &&& self.current_state < self.state_cycles
        &&& self.softening_constant.positive_spec()
        &&& self.history@.len() == self.step_count as int + 1
        &&& forall|k: int|
            0 <= k < self.history@.len() ==> (#[trigger] self.history@[k]).wf()
        &&& forall|k: int|
            0 <= k < self.history@.len() ==> (#[trigger] self.history@[k]).ids
                == self.history@[0].ids
        &&& forall|k: int|
            0 <= k < self.history@.len() ==> (#[trigger] self.history@[k]).masses
                == self.history@[0].masses
        &&& forall|t: int|
            0 <= t < self.state_cycles ==> (#[trigger] self.states@[
                back_index(self.current_state as int, t, self.state_cycles as int)
            ])@ == self.history@[hist_index(self.step_count as int, t)]
    }

    /// Builds a system from explicit parameters: the constants, the initial
    /// state and the desired history capacity.  The initial state is
    /// replicated into every slot of the ring; the cursor starts at slot 0
    /// and the step counter at 0.
    pub fn new_from_params(
        gravitational_constant: T,
        softening_constant: T,
        initial_state: State<T>,
        state_cycles: usize,
    ) -> (r: Self)
        requires
            state_cycles >= 1,
            initial_state@.wf(),
            softening_constant.positive_spec(),
        ensures
            r.wf(),
            r.capacity() == state_cycles,
            r.cursor() == 0,
            r.steps() == 0,
            r.trail() == seq![initial_state@],
            r.gravitational() == gravitational_constant,
            r.softening() == softening_constant,
    {
        let states = Self::initialise_states(&initial_state, state_cycles);
        let ghost initial_trail = seq![initial_state@];
        let r = Self {
            gravitational_constant,
            softening_constant,
            state_cycles,
            current_state: 0,
            states,
            step_count: 0,
            integrator: Integrator::new(),
            history: Ghost(initial_trail),
        };
        proof {
            assert forall|t: int| 0 <= t < state_cycles implies (#[trigger] r.states@[
                back_index(0, t, state_cycles as int)
            ])@ == r.history@[hist_index(0, t)] by {
                assert(0 <= back_index(0, t, state_cycles as int) < state_cycles);
            }
        }
        r
    }

    /// One cloned copy of the initial state per ring slot.
    fn initialise_states(initial_state: &State<T>, state_cycles: usize) -> (r: Vec<State<T>>)
        ensures
            r@.len() == state_cycles,
            forall|k: int| 0 <= k < state_cycles ==> (#[trigger] r@[k])@ == initial_state@,
    {
        let mut r: Vec<State<T>> = Vec::new();
        let mut k: usize = 0;
        while k < state_cycles
            invariant
                k <= state_cycles,
                r@.len() == k,
                forall|j: int| 0 <= j < k ==> (#[trigger] r@[j])@ == initial_state@,
            decreases state_cycles - k,
        {
            r.push(initial_state.clone());
            k = k + 1;
        }
        r
    }

    /// Advances the simulation by one step of size `dt`.
    pub fn step(&mut self, dt: T)
        requires
            old(self).wf(),
            old(self).steps() < usize::MAX,
        ensures
            final(self).wf(),
            final(self).capacity() == old(self).capacity(),
            final(self).gravitational() == old(self).gravitational(),
            final(self).softening() == old(self).softening(),
            final(self).steps() == old(self).steps() + 1,
            final(self).cursor() as int == succ_index(
                old(self).cursor() as int,
                old(self).capacity() as int,
            ),
            final(self).trail() == old(self).trail().push(
                step_model(
                    old(self).gravitational(),
                    old(self).softening(),
                    dt,
                    old(self).trail().last(),
                ),
            ),
    {
        let ghost pre = *self;
        let cur_ix = self.current_state_index();
        let next_ix = self.next_state_index();
        proof {
            assert(pre.states@[back_index(cur_ix as int, 0, pre.state_cycles as int)]@
                == pre.history@[hist_index(pre.step_count as int, 0)]);
            assert(back_index(cur_ix as int, 0, pre.state_cycles as int) == cur_ix);
        }
        let ghost cur_model = self.states@[cur_ix as int]@;
        let mut next = self.states[cur_ix].clone();
        self.step_for_states(dt, &mut next, cur_ix);
        let ghost stepped = step_model(
            pre.gravitational_constant,
            pre.softening_constant,
            dt,
            cur_model,
        );
        proof {
            assert(next@ == stepped);
        }
        self.states.set(next_ix, next);
        self.advance_states();
        self.complete_step();
        proof {
            self.history@ = pre.history@.push(stepped);
            self.lemma_step_wf(pre, dt, stepped);
        }
    }

    /// Re-establishes well-formedness after the ring and counters have
    /// advanced by one step.
    proof fn lemma_step_wf(&self, pre: Self, dt: T, stepped: StateModel<T>)
        requires
            pre.wf(),
            pre.step_count < usize::MAX,
            stepped == step_model(
                pre.gravitational_constant,
                pre.softening_constant,
                dt,
                pre.history@.last(),
            ),
            self.gravitational_constant == pre.gravitational_constant,
            self.softening_constant == pre.softening_constant,
            self.state_cycles == pre.state_cycles,
            self.current_state as int == succ_index(pre.current_state as int, pre.state_cycles as int),
            self.step_count == pre.step_count + 1,
            self.states@.len() == pre.states@.len(),
            forall|k: int|
                0 <= k < self.states@.len() && k != succ_index(
                    pre.current_state as int,
                    pre.state_cycles as int,
                ) ==> (#[trigger] self.states@[k])@ == pre.states@[k]@,
            self.states@[succ_index(pre.current_state as int, pre.state_cycles as int)]@
                == stepped,
            self.history@ == pre.history@.push(stepped),
        ensures
            self.wf(),
    {
        let cap = pre.state_cycles as int;
        let c = pre.current_state as int;
        let c2 = succ_index(c, cap);
        let steps = pre.step_count as int;
        let cur_model = pre.history@.last();
        assert(pre.states@[back_index(c, 0, cap)]@ == pre.history@[hist_index(steps, 0)]);
        assert(cur_model.wf());
        assert(stepped.wf());
        assert(stepped.ids == pre.history@[0].ids);
        assert(stepped.masses == pre.history@[0].masses);
        assert forall|k: int|
            0 <= k < self.history@.len() implies (#[trigger] self.history@[k]).wf()
            && (#[trigger] self.history@[k]).ids == self.history@[0].ids
            && (#[trigger] self.history@[k]).masses == self.history@[0].masses by {
            if k < pre.history@.len() {
                assert(pre.history@[k].wf());
            }
        }
        assert forall|t: int|
            0 <= t < cap implies (#[trigger] self.states@[back_index(c2, t, cap)])@
                == self.history@[hist_index(steps + 1, t)] by {
            if t == 0 {
                assert(back_index(c2, 0, cap) == c2);
                assert(hist_index(steps + 1, 0) == steps + 1);
            } else {
                assert(back_index(c2, t, cap) == back_index(c, t - 1, cap));
                assert(back_index(c, t - 1, cap) != c2);
                assert(pre.states@[back_index(c, t - 1, cap)]@ == pre.history@[
                    hist_index(steps, t - 1)
                ]);
                assert(hist_index(steps + 1, t) == hist_index(steps, t - 1));
            }
        }
    }

    /// Computes the fresh accelerations and integrates one step from the
    /// state in slot `cur_ix` into `result`.
    fn step_for_states(&self, dt: T, result: &mut State<T>, cur_ix: usize)
        requires
            self.wf(),
            cur_ix < self.states@.len(),
            self.states@[cur_ix as int]@.wf(),
            old(result)@ == self.states@[cur_ix as int]@,
        ensures
            final(result)@ == step_model(
                self.gravitational(),
                self.softening(),
                dt,
                self.states@[cur_ix as int]@,
            ),
    {
        let ghost s = self.states@[cur_ix as int]@;
        let state = &self.states[cur_ix];
        self.calculate_acceleration_systems(state, result);
        self.integrator.integrate(dt, state, result);
        proof {
            let g = self.gravitational_constant;
            let eps = self.softening_constant;
            assert(result@.velocities =~= Seq::new(
                s.n(),
                |i: int| velocity_after(s.velocities[i], acceleration_of(g, eps, s, i), dt),
            ));
            assert(result@ =~= step_model(g, eps, dt, s));
        }
    }

    /// Writes, for every body `i`, the accumulated gravitational
    /// acceleration from all other bodies into `result`, using `state`'s
    /// masses and positions.
    fn calculate_acceleration_systems(&self, state: &State<T>, result: &mut State<T>)
        requires
            state@.wf(),
            old(result)@.wf(),
            old(result)@.n() == state@.n(),
        ensures
            final(result)@ =~= (StateModel {
                accelerations: Seq::new(
                    state@.n(),
                    |i: int| acceleration_of(self.gravitational(), self.softening(), state@, i),
                ),
                ..old(result)@
            }),
    {
        let ghost orig = result@;
        let ghost g_s = self.gravitational_constant;
        let ghost eps_s = self.softening_constant;
        let n = state.masses().len();
        let mut i: usize = 0;
        while i < n
            invariant
                i <= n,
                n == state@.n(),
                state@.wf(),
                orig.wf(),
                result@.wf(),
                result@.n() == n,
                g_s == self.gravitational_constant,
                eps_s == self.softening_constant,
                result@.ids == orig.ids,
                result@.masses == orig.masses,
                result@.positions == orig.positions,
                result@.velocities == orig.velocities,
                forall|k: int|
                    0 <= k < i ==> result@.accelerations[k] == acceleration_of(
                        g_s,
                        eps_s,
                        state@,
                        k,
                    ),
            decreases n - i,
        {
            let pos_i = *state.position(i);
            let mut acc = Vec3::<T>::zero();
            let mut j: usize = 0;
            while j < n
                invariant
                    j <= n,
                    i < n,
                    n == state@.n(),
                    state@.wf(),
                    g_s == self.gravitational_constant,
                    eps_s == self.softening_constant,
                    pos_i == state@.positions[i as int],
                    acc == accel_sum(g_s, eps_s, state@, i as int, j as int),
                decreases n - j,
            {
                if j != i {
                    let d_pos = Vec3::sub_vec(state.position(j), &pos_i);
                    let d_sq = d_pos.length_sq();
                    let force = self.gravitational_constant.times(state.mass(j)).divide(
                        d_sq.times(d_sq.plus(self.softening_constant).sq_root()),
                    );
                    acc = Vec3::add_vec(&acc, &d_pos.scale(force));
                }
                j = j + 1;
            }
            result.set_acceleration(i, acc);
            i = i + 1;
        }
        proof {
            assert(result@.accelerations =~= Seq::new(
                state@.n(),
                |k: int| acceleration_of(g_s, eps_s, state@, k),
            ));
        }
    }

    /// The ring slot holding the most recently completed state.
    pub fn current_state_index(&self) -> (r: usize)
        requires
            self.wf(),
        ensures
            r == self.cursor(),
            r < self.capacity(),
    {
        self.current_state
    }

    /// The ring slot that the next step will write.
    fn next_state_index(&self) -> (r: usize)
        requires
            self.wf(),
        ensures
            r as int == succ_index(self.cursor() as int, self.capacity() as int),
            r < self.capacity(),
    {
        self.determine_successor_state(self.current_state_index())
    }

    /// The ring slot before `current_state`, wrapping at slot 0.
    fn determine_predecessor_state(&self, current_state: usize) -> (r: usize)
        requires
            current_state < self.capacity(),
        ensures
            r as int == pred_index(current_state as int, self.capacity() as int),
            r < self.capacity(),
    {
        if current_state == 0 {
            self.state_cycles - 1
        } else {
            current_state - 1
        }
    }

    /// The ring slot after `current_state`, wrapping back to slot 0.
    fn determine_successor_state(&self, current_state: usize) -> (r: usize)
        requires
            current_state < self.capacity(),
        ensures
            r as int == succ_index(current_state as int, self.capacity() as int),
            r < self.capacity(),
    {
        let next = current_state + 1;
        if next >= self.state_cycles {
            0
        } else {
            next
        }
    }

    /// Moves the cursor to the slot the step has just written.
    fn advance_states(&mut self)
        requires
            old(self).current_state < old(self).state_cycles,
        ensures
            final(self).current_state as int == succ_index(
                old(self).current_state as int,
                old(self).state_cycles as int,
            ),
            final(self).gravitational_constant == old(self).gravitational_constant,
            final(self).softening_constant == old(self).softening_constant,
            final(self).state_cycles == old(self).state_cycles,
            final(self).states == old(self).states,
            final(self).step_count == old(self).step_count,
            final(self).history == old(self).history,
    {
        self.current_state = self.determine_successor_state(self.current_state);
    }

    /// Counts the step just completed.
    fn complete_step(&mut self)
        requires
            old(self).step_count < usize::MAX,
        ensures
            final(self).step_count == old(self).step_count + 1,
            final(self).gravitational_constant == old(self).gravitational_constant,
            final(self).softening_constant == old(self).softening_constant,
            final(self).state_cycles == old(self).state_cycles,
            final(self).states == old(self).states,
            final(self).current_state == old(self).current_state,
            final(self).history == old(self).history,
    {
        self.step_count = self.step_count + 1;
    }

    /// The number of completed steps.
    pub fn get_step_count(&self) -> (r: usize)
        ensures
            r == self.steps(),
    {
        self.step_count
    }

    /// A read-only view of the most recently completed state.
    pub fn get_current_state(&self) -> (r: &State<T>)
        requires
            self.wf(),
        ensures
            r@ == self.trail().last(),
    {
        proof {
            assert(self.states@[back_index(self.current_state as int, 0, self.state_cycles as int)]@
                == self.history@[hist_index(self.step_count as int, 0)]);
        }
        &self.states[self.current_state]
    }

    /// Returns up to `min(state_count, capacity)` of the most recent
    /// states, newest first: entry `t` is the state from `t` steps ago,
    /// or the initial state where the simulation is younger than that.
    /// Never returns more entries than the ring's capacity.
    pub fn get_state_history(&self, state_count: usize) -> (r: Vec<State<T>>)
        requires
            self.wf(),
        ensures
            r@.len() == if state_count < self.capacity() {
                state_count as int
            } else {
                self.capacity() as int
            },
            forall|t: int|
                0 <= t < r@.len() ==> (#[trigger] r@[t])@ == self.trail()[
                    hist_index(self.steps() as int, t)
                ],
    {
        let limit = if state_count < self.state_cycles {
            state_count
        } else {
            self.state_cycles
        };
        let mut r: Vec<State<T>> = Vec::new();
        let mut ix = self.current_state_index();
        let mut t: usize = 0;
        while t < limit
            invariant
                t <= limit,
                limit <= self.state_cycles,
                self.wf(),
                ix as int == back_index(self.current_state as int, t as int, self.state_cycles as int),
                ix < self.state_cycles,
                r@.len() == t,
                forall|u: int|
                    0 <= u < t ==> (#[trigger] r@[u])@ == self.history@[
                        hist_index(self.step_count as int, u)
                    ],
            decreases limit - t,
        {
            r.push(self.states[ix].clone());
            ix = self.determine_predecessor_state(ix);
            t = t + 1;
        }
        r
    }
}

/// Bodies are stable labels, not positions: every state the simulation has
/// passed through is aligned, has the same body count, and carries the
/// same identifiers and masses as the initial state, so index `i` refers
/// to the same logical body across sequences and across time.
pub proof fn lemma_trail_keeps_identities<T: Numeric>(system: &NBodySystem<T>, k: int)
    requires
        system.wf(),
        0 <= k < system.trail().len(),
    ensures
        system.trail().len() == system.steps() + 1,
        system.trail()[k].wf(),
        system.trail()[k].ids == system.trail()[0].ids,
        system.trail()[k].masses == system.trail()[0].masses,
        system.trail()[k].n() == system.trail()[0].n(),
{
    assert(system.trail()[0].wf());
}

/// With no other body to attract it, the single body of a one-body system
/// undergoes no acceleration: the accumulated sum is empty and the result
/// is the zero vector, every step.
pub proof fn lemma_single_body_acceleration_zero<T: Numeric>(g: T, eps: T, s: StateModel<T>)
    requires
        s.wf(),
        s.n() == 1,
    ensures
        acceleration_of(g, eps, s, 0) == Vec3::<T>::zero_spec(),
{
    assert(accel_sum(g, eps, s, 0, 1) == accel_sum(g, eps, s, 0, 0));
}

/// The acceleration of a body never includes the body's own contribution:
/// its own mass is irrelevant.  Two states that agree on positions and on
/// every mass but body `i`'s give body `i` the same acceleration.
pub proof fn lemma_self_mass_excluded<T: Numeric>(
    g: T,
    eps: T,
    s1: StateModel<T>,
    s2: StateModel<T>,
    i: int,
)
    requires
        s1.wf(),
        s2.wf(),
        s1.n() == s2.n(),
        s1.positions == s2.positions,
        forall|j: int| 0 <= j < s1.n() && j != i ==> s1.masses[j] == s2.masses[j],
    ensures
        acceleration_of(g, eps, s1, i) == acceleration_of(g, eps, s2, i),
{
    lemma_accel_sum_self_mass_excluded(g, eps, s1, s2, i, s1.n() as int);
}

proof fn lemma_accel_sum_self_mass_excluded<T: Numeric>(
    g: T,
    eps: T,
    s1: StateModel<T>,
    s2: StateModel<T>,
    i: int,
    j: int,
)
    requires
        s1.wf(),
        s2.wf(),
        s1.n() == s2.n(),
        j <= s1.n(),
        s1.positions == s2.positions,
        forall|k: int| 0 <= k < s1.n() && k != i ==> s1.masses[k] == s2.masses[k],
    ensures
        accel_sum(g, eps, s1, i, j) == accel_sum(g, eps, s2, i, j),
    decreases j,
{
    if j > 0 {
        lemma_accel_sum_self_mass_excluded(g, eps, s1, s2, i, j - 1);
    }
}

/// At the limit of two coincident bodies the computed contribution stays
/// bounded for every softening constant: the displacement is the zero
/// vector, so whatever force factor the softened law yields, the scaled
/// contribution is exactly the zero vector.  Every scalar operation is
/// total besides, so no separation can make the force law fail.
pub proof fn lemma_coincident_contribution_zero<T: Numeric>(
    g: T,
    eps: T,
    mass_j: T,
    pos: Vec3<T>,
)
    ensures
        accel_contribution(g, eps, mass_j, pos, pos) == Vec3::<T>::zero_spec(),
{
    pos.x.self_difference_vanishes();
    pos.y.self_difference_vanishes();
    pos.z.self_difference_vanishes();
    let d_pos = Vec3::sub_spec(pos, pos);
    assert(d_pos == Vec3::<T>::zero_spec());
    let d_sq = d_pos.length_sq_spec();
    let force = g.times_spec(mass_j).divide_spec(
        d_sq.times_spec(d_sq.plus_spec(eps).sqrt_spec()),
    );
    force.zero_annihilates();
    assert(d_pos.scale_spec(force) == Vec3::<T>::zero_spec());
}

} // verus!
