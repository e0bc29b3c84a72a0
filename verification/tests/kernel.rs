//! End-to-end checks of the simulation kernel over the fixed-point scalar.

use nbody::defaults::Defaults;
use nbody::integrator::Integrator;
use nbody::nbody_system::NBodySystem;
use nbody::state::State;
use nbody::types::Fix48;
use nbody::types::Numeric;
use nbody::types::FIX48_SCALE;
use nbody::vec3::Vec3;

fn fx(v: f64) -> Fix48 {
    Fix48 { bits: (v * FIX48_SCALE as f64).round() as i64 }
}

fn to_f64(v: Fix48) -> f64 {
    v.bits as f64 / FIX48_SCALE as f64
}

fn vec(x: f64, y: f64, z: f64) -> Vec3<Fix48> {
    Vec3::new_from_components(fx(x), fx(y), fx(z))
}

fn two_body_system(state_cycles: usize) -> NBodySystem<Fix48> {
    let mut state: State<Fix48> = State::new();
    state.add_entity("a".to_string(), fx(1.0), vec(-1.0, 0.0, 0.0), vec(0.0, 0.0, 0.0), vec(0.0, 0.0, 0.0));
    state.add_entity("b".to_string(), fx(1.0), vec(1.0, 0.0, 0.0), vec(0.0, 0.0, 0.0), vec(0.0, 0.0, 0.0));
    NBodySystem::new_from_params(fx(1.0), fx(0.1), state, state_cycles)
}

#[test]
fn add_entity_extends_all_five_sequences() {
    let mut state: State<Fix48> = State::new();
    assert_eq!(state.ids().len(), 0);
    assert_eq!(state.masses().len(), 0);
    assert_eq!(state.positions().len(), 0);
    assert_eq!(state.velocities().len(), 0);
    assert_eq!(state.accelerations().len(), 0);
    state.add_entity("sun".to_string(), fx(2.0), vec(0.0, 0.0, 0.0), vec(0.0, 0.0, 0.0), vec(0.0, 0.0, 0.0));
    assert_eq!(state.ids().len(), 1);
    assert_eq!(state.masses().len(), 1);
    assert_eq!(state.positions().len(), 1);
    assert_eq!(state.velocities().len(), 1);
    assert_eq!(state.accelerations().len(), 1);
    state.add_entity("earth".to_string(), fx(1.0), vec(1.0, 0.0, 0.0), vec(0.0, 1.0, 0.0), vec(0.0, 0.0, 0.0));
    assert_eq!(state.ids().len(), 2);
    assert_eq!(state.masses().len(), 2);
    assert_eq!(state.positions().len(), 2);
    assert_eq!(state.velocities().len(), 2);
    assert_eq!(state.accelerations().len(), 2);
    assert_eq!(state.id(0), "sun");
    assert_eq!(state.id(1), "earth");
    assert_eq!(state.mass(0), fx(2.0));
    assert_eq!(*state.position(1), vec(1.0, 0.0, 0.0));
    assert_eq!(*state.velocity(1), vec(0.0, 1.0, 0.0));
}

#[test]
fn state_field_updates_are_in_place() {
    let mut state: State<Fix48> = State::new();
    state.add_entity("a".to_string(), fx(1.0), vec(0.0, 0.0, 0.0), vec(0.0, 0.0, 0.0), vec(0.0, 0.0, 0.0));
    state.set_id(0, "b".to_string());
    state.set_mass(0, fx(3.0));
    state.set_position(0, vec(1.0, 2.0, 3.0));
    state.set_velocity(0, vec(4.0, 5.0, 6.0));
    state.set_acceleration(0, vec(7.0, 8.0, 9.0));
    assert_eq!(state.id(0), "b");
    assert_eq!(state.mass(0), fx(3.0));
    assert_eq!(*state.position(0), vec(1.0, 2.0, 3.0));
    assert_eq!(*state.velocity(0), vec(4.0, 5.0, 6.0));
    assert_eq!(*state.acceleration(0), vec(7.0, 8.0, 9.0));
    assert_eq!(state.ids().len(), 1);
}

#[test]
fn defaults_are_identity_mass_and_zero_vectors() {
    assert_eq!(Defaults::<Fix48>::default_mass(), fx(1.0));
    assert_eq!(Defaults::<Fix48>::zero_vec(), vec(0.0, 0.0, 0.0));
    assert_eq!(Defaults::<Fix48>::default_position(), vec(0.0, 0.0, 0.0));
    assert_eq!(Defaults::<Fix48>::default_velocity(), vec(0.0, 0.0, 0.0));
    assert_eq!(Defaults::<Fix48>::default_acceleration(), vec(0.0, 0.0, 0.0));
}

#[test]
fn integrator_follows_explicit_euler() {
    // v' = v + a * dt with the freshly computed acceleration in the
    // destination; p' = p + v * dt with the source's pre-update velocity.
    let mut source: State<Fix48> = State::new();
    source.add_entity("a".to_string(), fx(1.0), vec(1.0, 0.0, 0.0), vec(0.5, -2.0, 0.0), vec(0.0, 0.0, 0.0));
    let mut dest = State::new();
    dest.add_entity("a".to_string(), fx(1.0), vec(1.0, 0.0, 0.0), vec(0.5, -2.0, 0.0), vec(2.0, 4.0, 0.0));
    let integrator: Integrator<Fix48> = Integrator::new();
    integrator.integrate(fx(0.25), &source, &mut dest);
    assert_eq!(*dest.velocity(0), vec(0.5 + 2.0 * 0.25, -2.0 + 4.0 * 0.25, 0.0));
    assert_eq!(*dest.position(0), vec(1.0 + 0.5 * 0.25, -2.0 * 0.25, 0.0));
    // The freshly computed acceleration itself is left in place.
    assert_eq!(*dest.acceleration(0), vec(2.0, 4.0, 0.0));
}

#[test]
fn two_bodies_attract_along_the_axis() {
    // d_sq = 4; denominator = 4 * sqrt(4.1) ~ 8.0997; acceleration on body
    // 0 ~ (0.2469, 0, 0); after one step the velocity picked it up and the
    // position is unchanged, because the old velocity was zero.
    let mut system = two_body_system(4);
    system.step(fx(1.0));
    assert_eq!(system.get_step_count(), 1);
    let state = system.get_current_state();
    let a0 = *state.acceleration(0);
    let a1 = *state.acceleration(1);
    assert!((to_f64(a0.x) - 0.2469).abs() < 1e-3, "a0.x = {}", to_f64(a0.x));
    assert_eq!(a0.y, fx(0.0));
    assert_eq!(a0.z, fx(0.0));
    assert!((to_f64(a1.x) + 0.2469).abs() < 1e-3, "a1.x = {}", to_f64(a1.x));
    // The pull is symmetric: equal masses give exactly opposite pulls.
    assert_eq!(a1.x.bits, -a0.x.bits);
    let v0 = *state.velocity(0);
    assert_eq!(v0.x.bits, a0.x.bits);
    assert_eq!(v0.y, fx(0.0));
    assert_eq!(*state.position(0), vec(-1.0, 0.0, 0.0));
    assert_eq!(*state.position(1), vec(1.0, 0.0, 0.0));
}

#[test]
fn single_body_undergoes_no_acceleration() {
    let mut state: State<Fix48> = State::new();
    state.add_entity("only".to_string(), fx(5.0), vec(3.0, 1.0, -2.0), vec(0.25, 0.0, 0.0), vec(0.0, 0.0, 0.0));
    let mut system = NBodySystem::new_from_params(fx(1.0), fx(0.1), state, 3);
    for _ in 0..5 {
        system.step(fx(1.0));
        let state = system.get_current_state();
        assert_eq!(*state.acceleration(0), vec(0.0, 0.0, 0.0));
        assert_eq!(*state.velocity(0), vec(0.25, 0.0, 0.0));
    }
    // Five steps of drift at constant velocity.
    assert_eq!(*system.get_current_state().position(0), vec(3.0 + 5.0 * 0.25, 1.0, -2.0));
}

#[test]
fn coincident_bodies_stay_finite() {
    // Two bodies in the same spot: the displacement is the zero vector, so
    // the contribution is exactly zero and the step completes without any
    // division-by-zero failure.
    let mut state: State<Fix48> = State::new();
    state.add_entity("a".to_string(), fx(1.0), vec(2.0, 2.0, 2.0), vec(0.0, 0.0, 0.0), vec(0.0, 0.0, 0.0));
    state.add_entity("b".to_string(), fx(1.0), vec(2.0, 2.0, 2.0), vec(0.0, 0.0, 0.0), vec(0.0, 0.0, 0.0));
    let mut system = NBodySystem::new_from_params(fx(1.0), fx(0.1), state, 2);
    system.step(fx(1.0));
    let state = system.get_current_state();
    assert_eq!(*state.acceleration(0), vec(0.0, 0.0, 0.0));
    assert_eq!(*state.acceleration(1), vec(0.0, 0.0, 0.0));
    assert_eq!(*state.position(0), vec(2.0, 2.0, 2.0));
}

#[test]
fn step_count_increases_by_one_per_step() {
    let mut system = two_body_system(2);
    assert_eq!(system.get_step_count(), 0);
    for expected in 1..=6 {
        system.step(fx(0.5));
        assert_eq!(system.get_step_count(), expected);
    }
}

#[test]
fn cursor_walks_the_ring_and_wraps() {
    let mut system = two_body_system(2);
    assert_eq!(system.current_state_index(), 0);
    system.step(fx(1.0));
    assert_eq!(system.current_state_index(), 1);
    system.step(fx(1.0));
    assert_eq!(system.current_state_index(), 0);
    system.step(fx(1.0));
    assert_eq!(system.current_state_index(), 1);
}

#[test]
fn history_starts_as_replicas_of_the_initial_state() {
    let system = two_body_system(3);
    let history = system.get_state_history(3);
    assert_eq!(history.len(), 3);
    for state in &history {
        assert_eq!(*state.position(0), vec(-1.0, 0.0, 0.0));
        assert_eq!(*state.position(1), vec(1.0, 0.0, 0.0));
        assert_eq!(*state.velocity(0), vec(0.0, 0.0, 0.0));
    }
}

#[test]
fn history_returns_newest_first() {
    // With capacity 3, after 5 steps, the three entries are the states
    // from steps 5, 4 and 3, in that order.
    let mut system = two_body_system(3);
    let mut snapshots: Vec<Vec3<Fix48>> = Vec::new();
    for _ in 0..5 {
        system.step(fx(0.125));
        snapshots.push(*system.get_current_state().position(0));
    }
    let history = system.get_state_history(3);
    assert_eq!(history.len(), 3);
    assert_eq!(*history[0].position(0), snapshots[4]);
    assert_eq!(*history[1].position(0), snapshots[3]);
    assert_eq!(*history[2].position(0), snapshots[2]);
    // The bodies moved between those steps, so the entries differ.
    assert_ne!(history[0].position(0).x.bits, history[2].position(0).x.bits);
}

#[test]
fn history_never_exceeds_capacity() {
    let mut system = two_body_system(3);
    for _ in 0..7 {
        system.step(fx(0.25));
    }
    assert_eq!(system.get_state_history(0).len(), 0);
    assert_eq!(system.get_state_history(2).len(), 2);
    assert_eq!(system.get_state_history(3).len(), 3);
    assert_eq!(system.get_state_history(100).len(), 3);
}

#[test]
fn history_entries_are_independent_snapshots() {
    let mut system = two_body_system(3);
    system.step(fx(1.0));
    let before = system.get_state_history(1);
    let before_pos = *before[0].position(0);
    drop(before);
    system.step(fx(1.0));
    system.step(fx(1.0));
    system.step(fx(1.0));
    // A fresh query reflects the new current state, not the old snapshot.
    let after = system.get_state_history(1);
    assert_ne!(after[0].velocity(0).x.bits, 0);
    assert_eq!(before_pos, vec(-1.0, 0.0, 0.0));
}

#[test]
fn a_ring_of_one_slot_still_steps() {
    // With capacity 1 the next slot is the current slot: each step
    // overwrites the only buffer in place.
    let mut system = two_body_system(1);
    assert_eq!(system.current_state_index(), 0);
    system.step(fx(1.0));
    system.step(fx(1.0));
    assert_eq!(system.get_step_count(), 2);
    assert_eq!(system.current_state_index(), 0);
    let history = system.get_state_history(5);
    assert_eq!(history.len(), 1);
    assert_eq!(*history[0].velocity(0), *system.get_current_state().velocity(0));
}

#[test]
fn a_system_without_bodies_steps_quietly() {
    let state: State<Fix48> = State::new();
    let mut system = NBodySystem::new_from_params(fx(1.0), fx(0.1), state, 3);
    system.step(fx(1.0));
    system.step(fx(1.0));
    assert_eq!(system.get_step_count(), 2);
    assert_eq!(system.get_current_state().ids().len(), 0);
    assert_eq!(system.get_state_history(2).len(), 2);
}
