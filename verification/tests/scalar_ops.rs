//! Exact-value checks of the fixed-point scalar arithmetic and the vector
//! algebra built on it.

use nbody::functional::TransformingAndThen;
use nbody::nbody_system::NBodySystem;
use nbody::state::State;
use nbody::types::Fix32;
use nbody::types::Fix48;
use nbody::types::Numeric;
use nbody::types::FIX32_SCALE;
use nbody::types::FIX48_SCALE;
use nbody::vec3::Vec3;

fn fx(v: f64) -> Fix48 {
    Fix48 { bits: (v * FIX48_SCALE as f64).round() as i64 }
}

fn fx32(v: f64) -> Fix32 {
    Fix32 { bits: (v * FIX32_SCALE as f64).round() as i64 }
}

#[test]
fn identities_have_their_exact_bit_patterns() {
    assert_eq!(Fix48::zero().bits, 0);
    assert_eq!(Fix48::identity().bits, FIX48_SCALE);
}

#[test]
fn addition_and_subtraction_are_exact() {
    assert_eq!(fx(1.5).plus(fx(2.25)), fx(3.75));
    assert_eq!(fx(1.5).minus(fx(2.25)), fx(-0.75));
    assert_eq!(fx(-1.0).plus(fx(-2.0)), fx(-3.0));
}

#[test]
fn addition_saturates_at_the_range_bounds() {
    let top = Fix48 { bits: i64::MAX };
    let bottom = Fix48 { bits: i64::MIN };
    assert_eq!(top.plus(Fix48 { bits: 1 }).bits, i64::MAX);
    assert_eq!(bottom.minus(Fix48 { bits: 1 }).bits, i64::MIN);
    assert_eq!(top.times(top).bits, i64::MAX);
    assert_eq!(top.times(bottom).bits, i64::MIN);
}

#[test]
fn multiplication_is_exact_on_representable_products() {
    assert_eq!(fx(1.5).times(fx(2.5)), fx(3.75));
    assert_eq!(fx(-1.5).times(fx(2.5)), fx(-3.75));
    assert_eq!(fx(0.0).times(fx(12345.678)), fx(0.0));
    assert_eq!(fx(2.0).times(fx(2.0)), fx(4.0));
}

#[test]
fn division_is_exact_on_representable_quotients() {
    assert_eq!(fx(6.0).divide(fx(3.0)), fx(2.0));
    assert_eq!(fx(7.0).divide(fx(2.0)), fx(3.5));
    assert_eq!(fx(-7.0).divide(fx(2.0)), fx(-3.5));
    assert_eq!(fx(7.0).divide(fx(-2.0)), fx(-3.5));
}

#[test]
fn division_by_zero_yields_zero() {
    assert_eq!(fx(123.0).divide(fx(0.0)), fx(0.0));
    assert_eq!(fx(-123.0).divide(fx(0.0)), fx(0.0));
    assert_eq!(fx(0.0).divide(fx(0.0)), fx(0.0));
}

#[test]
fn square_root_is_exact_on_perfect_squares() {
    assert_eq!(fx(4.0).sq_root(), fx(2.0));
    assert_eq!(fx(9.0).sq_root(), fx(3.0));
    assert_eq!(fx(2.25).sq_root(), fx(1.5));
    assert_eq!(fx(0.0).sq_root(), fx(0.0));
}

#[test]
fn square_root_of_a_negative_value_is_zero() {
    assert_eq!(fx(-4.0).sq_root(), fx(0.0));
}

#[test]
fn square_root_truncates_downward() {
    // sqrt(2) = 1.41421356..., truncated at the 48th fractional bit.
    let r = fx(2.0).sq_root();
    let approx = r.bits as f64 / FIX48_SCALE as f64;
    assert!((approx - 1.41421356).abs() < 1e-8, "sqrt(2) = {approx}");
    assert!(r.times(r).bits <= fx(2.0).bits);
}

#[test]
fn vector_construction_orders_components() {
    let v = Vec3::new([fx(1.0), fx(2.0), fx(3.0)]);
    assert_eq!(v.x, fx(1.0));
    assert_eq!(v.y, fx(2.0));
    assert_eq!(v.z, fx(3.0));
    let w = Vec3::new_from_components(fx(1.0), fx(2.0), fx(3.0));
    assert_eq!(v, w);
}

#[test]
fn vector_algebra_acts_component_wise() {
    let a = Vec3::new_from_components(fx(1.0), fx(2.0), fx(3.0));
    let b = Vec3::new_from_components(fx(0.5), fx(-1.0), fx(2.0));
    let sum = Vec3::add_vec(&a, &b);
    assert_eq!(sum, Vec3::new_from_components(fx(1.5), fx(1.0), fx(5.0)));
    let diff = Vec3::sub_vec(&a, &b);
    assert_eq!(diff, Vec3::new_from_components(fx(0.5), fx(3.0), fx(1.0)));
    let scaled = a.scale(fx(2.0));
    assert_eq!(scaled, Vec3::new_from_components(fx(2.0), fx(4.0), fx(6.0)));
    assert_eq!(Vec3::<Fix48>::zero(), Vec3::new_from_components(fx(0.0), fx(0.0), fx(0.0)));
}

#[test]
fn length_of_a_pythagorean_triple_is_exact() {
    let v = Vec3::new_from_components(fx(3.0), fx(4.0), fx(0.0));
    assert_eq!(v.length_sq(), fx(25.0));
    assert_eq!(v.length(), fx(5.0));
    let w = Vec3::new_from_components(fx(1.0), fx(2.0), fx(2.0));
    assert_eq!(w.length_sq(), fx(9.0));
    assert_eq!(w.length(), fx(3.0));
}

#[test]
fn and_then_fwd_applies_and_converts_errors() {
    let ok: Result<i32, String> = Ok(4);
    let doubled = ok.and_then_fwd(|v: i32| -> Result<i32, &str> { Ok(v * 2) });
    assert_eq!(doubled, Ok(8));

    let failing: Result<i32, String> = Ok(-1);
    let converted = failing.and_then_fwd(|_v: i32| -> Result<i32, &str> { Err("rejected") });
    assert_eq!(converted, Err("rejected".to_string()));

    let already_failed: Result<i32, String> = Err("earlier".to_string());
    let passed_through = already_failed.and_then_fwd(|v: i32| -> Result<i32, &str> { Ok(v) });
    assert_eq!(passed_through, Err("earlier".to_string()));
}

#[test]
fn the_kernel_is_generic_over_the_scalar_width() {
    let vec32 = |x: f64, y: f64, z: f64| Vec3::new_from_components(fx32(x), fx32(y), fx32(z));

    let mut state: State<Fix32> = State::new();
    state.add_entity("a".to_string(), fx32(1.0), vec32(-1.0, 0.0, 0.0), vec32(0.0, 0.0, 0.0), vec32(0.0, 0.0, 0.0));
    state.add_entity("b".to_string(), fx32(1.0), vec32(1.0, 0.0, 0.0), vec32(0.0, 0.0, 0.0), vec32(0.0, 0.0, 0.0));
    let mut system = NBodySystem::new_from_params(fx32(1.0), fx32(0.1), state, 4);
    system.step(fx32(1.0));
    let state = system.get_current_state();
    let ax = state.acceleration(0).x.bits as f64 / FIX32_SCALE as f64;
    assert!((ax - 0.2469).abs() < 1e-3, "ax = {ax}");
    assert_eq!(fx32(2.0).times(fx32(3.0)), fx32(6.0));
    assert_eq!(fx32(9.0).sq_root(), fx32(3.0));
    assert_eq!(fx32(1.0).divide(fx32(0.0)), fx32(0.0));
}
