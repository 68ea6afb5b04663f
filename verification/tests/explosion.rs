// The Nimbus-style explosion scenario: a rocket body of 849 kg explodes,
// fragments of at least 0.1 m are of interest. Quantities are handed to
// the library in fixed point (micro-units).

use kessler::{run, ExplosionEvent, SatKind, Satellite, Vec3};

#[test]
fn explosion_nimbus() {
    // Define the initial position, velocity, mass, characteristic length, and kind of a satellite.
    let position = Vec3 { x: 0, y: 0, z: 0 }; // position vector [m] relative to Earth's center
    let velocity = Vec3 { x: 0, y: 0, z: 0 }; // velocity vector [m/s]
    let mass = (849.0_f32 * 1_000_000.0) as u64; // kg
    let characteristic_length = (0.1_f32 * 1_000_000.0) as u64; // m
    let sat_kind = SatKind::Rb; // kind of satellite (Rb, Debris, or Satellite)

    // Create a new satellite with the given parameters
    let satellite = Satellite::new(position, velocity, mass, sat_kind).unwrap();

    // Create a new explosion event with the satellite
    let event = ExplosionEvent::new(satellite, characteristic_length);

    // Run the simulation with the explosion event
    let result = run(&event).unwrap();

    // Print the final state of the satellite after the simulation has completed
    println!("{:#?}", result.len());
}
