//! The physical bodies the model breaks up.
//!
//! A satellite is an immutable-after-construction record of position,
//! velocity, mass and characteristic length. Quantities are fixed-point
//! micro-units (see [`crate::fixed`]): micro-meters, micro-meters per
//! second, micro-kilograms. The characteristic length is derived from the
//! mass by the empirical relation `L = (6 m / (92.937 pi))^(1 / 2.26)`,
//! evaluated in fixed point with the exponent rounded to `1812 / 4096`.

use crate::fixed::{fp_mul, fp_mul_chk, fp_pow, fp_pow_spec, SCALE};
use crate::BreakupError;
use vstd::prelude::*;

verus! {

/// Largest supported mass: one million kilograms, in micro-kilograms.
pub const MASS_MAX: u64 = 1_000_000_000_000;

/// Largest supported characteristic length: one million meters, in
/// micro-meters.
pub const LEN_MAX: u64 = 1_000_000_000_000;

/// Largest supported position component magnitude, in micro-meters.
pub const POS_MAX: i64 = 10_000_000_000_000_000;

/// Largest supported velocity component magnitude, in micro-meters per
/// second.
pub const VEL_MAX: i64 = 1_000_000_000_000;

/// Fixed-point value of `6 / (92.937 pi)`, the mass coefficient of the
/// empirical mass-to-length relation.
pub const LEN_FROM_MASS_COEFF: u64 = 20_550;

/// Exponent numerator for `1 / 2.26` in units of `1 / 4096`.
pub const LEN_FROM_MASS_EXP_NUM: u32 = 1812;

/// A 3-vector of fixed-point components.
#[derive(Clone, Copy, Debug, PartialEq, Eq, Structural)]
pub struct Vec3 {
    pub x: i64,
    pub y: i64,
    pub z: i64,
}

/// Whether every component of `v` lies within `[-bound, bound]`.
pub open spec fn vec3_in_bounds(v: Vec3, bound: int) -> bool {
    &&& -bound <= v.x <= bound
    &&& -bound <= v.y <= bound
    &&& -bound <= v.z <= bound
}

/// The closed classification of body types: rocket body, spacecraft
/// debris ("SOC"), operational spacecraft. The declaration order gives the
/// deterministic tie-break ordering `Rb < Soc < Sc`.
#[derive(Clone, Copy, Debug, PartialEq, Eq, Structural, PartialOrd, Ord, Hash)]
pub enum SatKind {
    Rb,
    Soc,
    Sc,
}

impl SatKind {
    /// The integer code of each kind.
    pub open spec fn code_spec(self) -> i32 {
        match self {
            SatKind::Rb => 0,
            SatKind::Soc => 1,
            SatKind::Sc => 2,
        }
    }

    pub fn code(self) -> (r: i32)
        ensures
            r == self.code_spec(),
    {
        match self {
            SatKind::Rb => 0,
            SatKind::Soc => 1,
            SatKind::Sc => 2,
        }
    }

    /// Conversion from an integer code; every code outside `{0, 1, 2}` is
    /// rejected.
    pub fn from_code(code: i32) -> (r: Result<SatKind, BreakupError>)
        ensures
            r is Ok <==> 0 <= code <= 2,
            r is Ok ==> r->Ok_0.code_spec() == code,
            r is Err ==> r->Err_0 == BreakupError::InvalidKindCode,
    {
        match code {
            0 => Ok(SatKind::Rb),
            1 => Ok(SatKind::Soc),
            2 => Ok(SatKind::Sc),
            _ => Err(BreakupError::InvalidKindCode),
        }
    }
}

/// The characteristic length the empirical relation assigns to a mass:
/// `(mass * LEN_FROM_MASS_COEFF)^(1812 / 4096)` in fixed point, `None`
/// where an intermediate value leaves the `u64` range.
pub open spec fn length_from_mass_spec(mass: int) -> Option<int> {
    match fp_mul_chk(mass, LEN_FROM_MASS_COEFF as int) {
        None => None,
        Some(x) => fp_pow_spec(x, LEN_FROM_MASS_EXP_NUM),
    }
}

/// Evaluates the empirical mass-to-length relation.
pub fn calculate_characteristic_length_from_mass(mass: u64) -> (r: Option<u64>)
    ensures
        r is Some <==> length_from_mass_spec(mass as int) is Some,
        r is Some ==> r->0 as int == length_from_mass_spec(mass as int)->0,
{
    match fp_mul(mass, LEN_FROM_MASS_COEFF) {
        None => None,
        Some(x) => fp_pow(x, LEN_FROM_MASS_EXP_NUM),
    }
}

/// An immutable physical body record.
#[derive(Clone, Copy, Debug, PartialEq, Eq, Structural)]
pub struct Satellite {
    pub mass: u64,
    pub characteristic_length: u64,
    pub sat_kind: SatKind,
    pub position: Vec3,
    pub velocity: Vec3,
}

impl Satellite {
    /// The well-formedness invariant every constructed satellite has:
    /// positive bounded mass and length, bounded position and velocity.
    pub open spec fn wf(self) -> bool {
        &&& 1 <= self.mass <= MASS_MAX
        &&& 1 <= self.characteristic_length <= LEN_MAX
        &&& vec3_in_bounds(self.position, POS_MAX as int)
        &&& vec3_in_bounds(self.velocity, VEL_MAX as int)
    }

    /// Builds a satellite, deriving the characteristic length from the
    /// mass. Fails only where the fixed-point evaluation of the empirical
    /// relation leaves the supported range.
    pub fn new(position: Vec3, velocity: Vec3, mass: u64, sat_kind: SatKind) -> (r: Result<
        Satellite,
        BreakupError,
    >)
        requires
            1 <= mass <= MASS_MAX,
            vec3_in_bounds(position, POS_MAX as int),
            vec3_in_bounds(velocity, VEL_MAX as int),
        ensures
            r is Ok <==> (length_from_mass_spec(mass as int) is Some && 1
                <= length_from_mass_spec(mass as int)->0 <= LEN_MAX),
            r is Ok ==> {
                let s = r->Ok_0;
                &&& s.wf()
                &&& s.mass == mass
                &&& s.characteristic_length as int == length_from_mass_spec(mass as int)->0
                &&& s.sat_kind == sat_kind
                &&& s.position == position
                &&& s.velocity == velocity
            },
            r is Err ==> r->Err_0 == BreakupError::ValueOutOfRange,
    {
        match calculate_characteristic_length_from_mass(mass) {
            None => Err(BreakupError::ValueOutOfRange),
            Some(l) => {
                if l == 0 || l > LEN_MAX {
                    Err(BreakupError::ValueOutOfRange)
                } else {
                    Ok(
                        Satellite {
                            mass,
                            characteristic_length: l,
                            sat_kind,
                            position,
                            velocity,
                        },
                    )
                }
            },
        }
    }

    pub fn set_position(&mut self, position: Vec3)
        requires
            vec3_in_bounds(position, POS_MAX as int),
        ensures
            final(self).position == position,
            final(self).velocity == old(self).velocity,
            final(self).mass == old(self).mass,
            final(self).characteristic_length == old(self).characteristic_length,
            final(self).sat_kind == old(self).sat_kind,
            old(self).wf() ==> final(self).wf(),
    {
        self.position = position;
    }

    pub fn set_velocity(&mut self, velocity: Vec3)
        requires
            vec3_in_bounds(velocity, VEL_MAX as int),
        ensures
            final(self).velocity == velocity,
            final(self).position == old(self).position,
            final(self).mass == old(self).mass,
            final(self).characteristic_length == old(self).characteristic_length,
            final(self).sat_kind == old(self).sat_kind,
            old(self).wf() ==> final(self).wf(),
    {
        self.velocity = velocity;
    }

    pub fn get_position(&self) -> (r: Vec3)
        ensures
            r == self.position,
    {
        self.position
    }

    pub fn get_velocity(&self) -> (r: Vec3)
        ensures
            r == self.velocity,
    {
        self.velocity
    }
}

} // verus!
