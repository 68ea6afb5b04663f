// Scenario tests for the breakup model: satellite construction, event
// construction, the catastrophic classification, the count laws, the
// generation engine and the error kinds. Quantities are fixed point: a
// value v in base units is v * 1_000_000.

use kessler::event::{is_catastrophic, rel_ke, FragmentationEvent};
use kessler::rng::Rng;
use kessler::{run, run_seeded, BreakupError, CollisionEvent, ExplosionEvent, SatKind, Satellite,
    Vec3};

const S: u64 = 1_000_000;

fn sat(mass_kg: f64, vel_ms: (f64, f64, f64), kind: SatKind) -> Satellite {
    let velocity = Vec3 {
        x: (vel_ms.0 * S as f64) as i64,
        y: (vel_ms.1 * S as f64) as i64,
        z: (vel_ms.2 * S as f64) as i64,
    };
    let position = Vec3 { x: 0, y: 0, z: 0 };
    Satellite::new(position, velocity, (mass_kg * S as f64) as u64, kind).unwrap()
}

#[test]
fn kind_codes_round_trip_and_reject() {
    assert_eq!(SatKind::from_code(0).unwrap(), SatKind::Rb);
    assert_eq!(SatKind::from_code(1).unwrap(), SatKind::Soc);
    assert_eq!(SatKind::from_code(2).unwrap(), SatKind::Sc);
    assert_eq!(SatKind::from_code(3), Err(BreakupError::InvalidKindCode));
    assert_eq!(SatKind::from_code(-1), Err(BreakupError::InvalidKindCode));
    assert_eq!(SatKind::Sc.code(), 2);
}

#[test]
fn mass_length_relation_round_trip() {
    // L = (6 * 849 / (92.937 * pi))^(1 / 2.26) = 3.543 m, within fixed-point
    // tolerance of the empirical relation.
    let s = sat(849.0, (0.0, 0.0, 0.0), SatKind::Rb);
    let l = s.characteristic_length as f64 / S as f64;
    assert!((l - 3.543).abs() < 0.02, "characteristic length {l}");
    // The derivation is deterministic: the same mass gives the same length.
    let s2 = sat(849.0, (0.0, 0.0, 0.0), SatKind::Rb);
    assert_eq!(s.characteristic_length, s2.characteristic_length);
}

#[test]
fn satellite_rejects_vanishing_length() {
    // One micro-kilogram truncates to a zero characteristic length, which
    // the construction rejects rather than admitting a degenerate body.
    let position = Vec3 { x: 0, y: 0, z: 0 };
    let velocity = Vec3 { x: 0, y: 0, z: 0 };
    let r = Satellite::new(position, velocity, 1, SatKind::Sc);
    assert_eq!(r, Err(BreakupError::ValueOutOfRange));
}

#[test]
fn satellite_setters_and_getters() {
    let mut s = sat(100.0, (1.0, 2.0, 3.0), SatKind::Sc);
    assert_eq!(s.get_velocity(), Vec3 { x: S as i64, y: 2 * S as i64, z: 3 * S as i64 });
    let p = Vec3 { x: 7, y: 8, z: 9 };
    s.set_position(p);
    assert_eq!(s.get_position(), p);
    let v = Vec3 { x: -1, y: -2, z: -3 };
    s.set_velocity(v);
    assert_eq!(s.get_velocity(), v);
}

#[test]
fn collision_orders_largest_first() {
    let small = sat(10.0, (0.0, 0.0, 0.0), SatKind::Sc);
    let big = sat(1000.0, (1000.0, 0.0, 0.0), SatKind::Sc);
    // Both input orders put the larger body at index 0.
    let ev1 = CollisionEvent::new(vec![small, big], 100_000).unwrap();
    assert!(ev1.satellites[0].characteristic_length >= ev1.satellites[1].characteristic_length);
    assert_eq!(ev1.satellites[0].mass, big.mass);
    let ev2 = CollisionEvent::new(vec![big, small], 100_000).unwrap();
    assert!(ev2.satellites[0].characteristic_length >= ev2.satellites[1].characteristic_length);
    assert_eq!(ev2.satellites[0].mass, big.mass);
    assert_eq!(ev1.max_characteristic_length, big.characteristic_length);
    assert_eq!(ev1.input_mass, small.mass + big.mass);
}

#[test]
fn collision_merges_kinds() {
    let a = sat(10.0, (0.0, 0.0, 0.0), SatKind::Rb);
    let b = sat(1000.0, (1000.0, 0.0, 0.0), SatKind::Sc);
    // A rocket body on either side dominates; otherwise the merge is debris.
    assert_eq!(CollisionEvent::new(vec![a, b], 100_000).unwrap().sat_kind, SatKind::Rb);
    assert_eq!(CollisionEvent::new(vec![b, a], 100_000).unwrap().sat_kind, SatKind::Rb);
    let c = sat(10.0, (0.0, 0.0, 0.0), SatKind::Soc);
    assert_eq!(CollisionEvent::new(vec![b, c], 100_000).unwrap().sat_kind, SatKind::Soc);
    assert_eq!(CollisionEvent::new(vec![b, b], 100_000).unwrap().sat_kind, SatKind::Soc);
}

#[test]
fn collision_rejects_wrong_count() {
    let a = sat(10.0, (0.0, 0.0, 0.0), SatKind::Rb);
    assert_eq!(
        CollisionEvent::new(vec![a], 100_000).unwrap_err(),
        BreakupError::InvalidConstruction
    );
    assert_eq!(
        CollisionEvent::new(vec![], 100_000).unwrap_err(),
        BreakupError::InvalidConstruction
    );
    assert_eq!(
        CollisionEvent::new(vec![a, a, a], 100_000).unwrap_err(),
        BreakupError::InvalidConstruction
    );
}

#[test]
fn catastrophic_classification() {
    // 5 kg projectile, 500 kg target, 10 km/s: 0.5 * 5 * 10000^2 / 500000
    // = 500 J/g, over the 40 J/g threshold.
    let ke = rel_ke(5 * S, 500 * S * 1000, 10_000 * S);
    assert_eq!(ke, 500 * S as u128);
    assert!(is_catastrophic(5 * S, 500 * S, 10_000 * S));
}

#[test]
fn non_catastrophic_classification() {
    // 1 kg projectile, 1000 kg target, 0.5 km/s: 0.5 * 1 * 500^2 / 1000000
    // = 0.125 J/g, under the threshold.
    let ke = rel_ke(S, 1000 * S * 1000, 500 * S);
    assert_eq!(ke, 125_000);
    assert!(!is_catastrophic(S, 1000 * S, 500 * S));
}

#[test]
fn non_catastrophic_count_uses_momentum_mass() {
    // The non-catastrophic branch takes m = m_proj * v(km/s) = 1 * 0.5, so
    // the count at 0.1 m is 0.1 * 0.5^0.75 * 0.1^(-1.71), about 3.05.
    let target = sat(1000.0, (0.0, 0.0, 0.0), SatKind::Sc);
    let projectile = sat(1.0, (500.0, 0.0, 0.0), SatKind::Sc);
    let ev = CollisionEvent::new(vec![target, projectile], 100_000).unwrap();
    let count = ev.fragment_count(100_000).unwrap();
    assert!(3_000_000 <= count && count <= 3_100_000, "count {count}");
}

#[test]
fn catastrophic_count_uses_summed_mass() {
    // 5 kg into 500 kg at 10 km/s is catastrophic: m = 505, and the count
    // at 0.1 m is 0.1 * 505^0.75 * 0.1^(-1.71), about 546.
    let target = sat(500.0, (0.0, 0.0, 0.0), SatKind::Sc);
    let projectile = sat(5.0, (10_000.0, 0.0, 0.0), SatKind::Sc);
    let ev = CollisionEvent::new(vec![target, projectile], 100_000).unwrap();
    let count = ev.fragment_count(100_000).unwrap();
    let expected = 0.1 * 505.0_f64.powf(0.75) * 0.1_f64.powf(-1.71);
    let got = count as f64 / S as f64;
    assert!((got - expected).abs() / expected < 0.01, "count {got}, expected {expected}");
}

#[test]
fn explosion_count_at_tenth_meter() {
    // 6 * 0.1^(-1.6) is about 239 fragments, whatever the satellite mass.
    let s = sat(849.0, (0.0, 0.0, 0.0), SatKind::Rb);
    let ev = ExplosionEvent::new(s, 100_000);
    let count = ev.fragment_count(100_000).unwrap();
    assert!(236_000_000 <= count && count <= 242_000_000, "count {count}");
    // Independence of mass, by design.
    let heavier = sat(10_000.0, (0.0, 0.0, 0.0), SatKind::Rb);
    let ev2 = ExplosionEvent::new(heavier, 100_000);
    assert_eq!(ev2.fragment_count(100_000).unwrap(), count);
}

#[test]
fn fragment_count_monotone_in_length() {
    let s = sat(849.0, (0.0, 0.0, 0.0), SatKind::Rb);
    let ev = ExplosionEvent::new(s, 100_000);
    let c1 = ev.fragment_count(100_000).unwrap();
    let c2 = ev.fragment_count(110_000).unwrap();
    let c3 = ev.fragment_count(200_000).unwrap();
    assert!(c1 >= c2 && c2 >= c3);
    let target = sat(500.0, (0.0, 0.0, 0.0), SatKind::Sc);
    let projectile = sat(5.0, (10_000.0, 0.0, 0.0), SatKind::Sc);
    let cev = CollisionEvent::new(vec![target, projectile], 100_000).unwrap();
    let d1 = cev.fragment_count(100_000).unwrap();
    let d2 = cev.fragment_count(150_000).unwrap();
    let d3 = cev.fragment_count(300_000).unwrap();
    assert!(d1 >= d2 && d2 >= d3);
}

#[test]
fn fragment_count_rejects_zero_length() {
    let s = sat(849.0, (0.0, 0.0, 0.0), SatKind::Rb);
    let ev = ExplosionEvent::new(s, 100_000);
    assert_eq!(ev.fragment_count(0), Err(BreakupError::InvalidCount));
}

#[test]
fn event_parameters() {
    let s = sat(849.0, (0.0, 0.0, 0.0), SatKind::Rb);
    let ev = ExplosionEvent::new(s, 100_000);
    assert_eq!(ev.power_law_exponent(), -2_600_000);
    assert_eq!(ev.delta_velocity_offset(), (200_000, 1_850_000));
    assert_eq!(ev.kind(), SatKind::Rb);
    assert_eq!(ev.min_characteristic_length(), 100_000);
    assert_eq!(ev.max_characteristic_length(), s.characteristic_length);
    assert_eq!(ev.location(), Vec3 { x: 0, y: 0, z: 0 });
    let target = sat(500.0, (0.0, 0.0, 0.0), SatKind::Sc);
    let projectile = sat(5.0, (10_000.0, 0.0, 0.0), SatKind::Sc);
    let cev = CollisionEvent::new(vec![target, projectile], 100_000).unwrap();
    assert_eq!(cev.power_law_exponent(), -2_710_000);
    assert_eq!(cev.delta_velocity_offset(), (900_000, 2_900_000));
}

#[test]
fn engine_is_deterministic_for_a_seed() {
    let s = sat(849.0, (0.0, 0.0, 0.0), SatKind::Rb);
    let ev = ExplosionEvent::new(s, 100_000);
    let a = run_seeded(&ev, 42).unwrap();
    let b = run_seeded(&ev, 42).unwrap();
    assert_eq!(a, b);
    let c = run_seeded(&ev, 43).unwrap();
    assert_eq!(c.len(), a.len());
    assert!(a != c, "different seeds gave an identical population");
}

#[test]
fn engine_population_matches_count_and_bounds() {
    let s = sat(849.0, (0.0, 0.0, 0.0), SatKind::Rb);
    let ev = ExplosionEvent::new(s, 100_000);
    let expected = (ev.fragment_count(100_000).unwrap() / S) as usize;
    let frags = run(&ev).unwrap();
    assert_eq!(frags.len(), expected);
    for f in &frags {
        assert!(100_000 <= f.characteristic_length);
        assert!(f.characteristic_length <= s.characteristic_length);
        assert_eq!(f.position, Vec3 { x: 0, y: 0, z: 0 });
        assert!(f.mass > 0);
        assert!(f.area_to_mass > 0);
    }
}

#[test]
fn engine_runs_a_collision() {
    let target = sat(500.0, (0.0, 0.0, 0.0), SatKind::Rb);
    let projectile = sat(5.0, (10_000.0, 0.0, 0.0), SatKind::Sc);
    let ev = CollisionEvent::new(vec![target, projectile], 100_000).unwrap();
    let expected = (ev.fragment_count(100_000).unwrap() / S) as usize;
    let frags = run_seeded(&ev, 7).unwrap();
    assert_eq!(frags.len(), expected);
    for f in &frags {
        assert!(100_000 <= f.characteristic_length);
        assert!(f.characteristic_length <= ev.max_characteristic_length);
    }
}

#[test]
fn engine_rejects_inverted_bounds() {
    let s = sat(849.0, (0.0, 0.0, 0.0), SatKind::Rb);
    // 10 m of interest on a 3.5 m body: the bounds are inverted.
    let ev = ExplosionEvent::new(s, 10 * S);
    assert_eq!(run(&ev).unwrap_err(), BreakupError::InvalidBounds);
}

#[test]
fn engine_rejects_unrepresentable_count() {
    let s = sat(849.0, (0.0, 0.0, 0.0), SatKind::Rb);
    let ev = ExplosionEvent::new(s, 0);
    assert_eq!(run(&ev).unwrap_err(), BreakupError::InvalidCount);
}

#[test]
fn rng_draws_are_in_the_unit_range() {
    let mut rng = Rng::new(123);
    let mut prev = 0u64;
    let mut all_equal = true;
    for _ in 0..100 {
        let d = rng.draw();
        assert!((1..=S).contains(&d));
        if prev != 0 && d != prev {
            all_equal = false;
        }
        prev = d;
    }
    assert!(!all_equal);
}
