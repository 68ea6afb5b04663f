//! Fragmentation events: the physical setup of one breakup.
//!
//! A [`CollisionEvent`] is built from exactly two satellites, an
//! [`ExplosionEvent`] from one. Both expose, through the
//! [`FragmentationEvent`] trait, the scalar parameters the generation
//! engine consumes: the power-law fragment count above a length of
//! interest, the event location, the length bounds, the size-distribution
//! exponent, the resulting kind, and the velocity-offset pair.
//!
//! Counts are fixed-point values (micro-fragments): the engine truncates
//! them to whole fragments. The collision count law is
//! `0.1 * m^0.75 * L^(-1.71)` with the length exponent rounded to
//! `7004 / 4096`; the explosion law is `6 * L^(-1.6)` with the exponent
//! rounded to `6554 / 4096`.

use crate::fixed::{
    fp_div, fp_div_chk, fp_mul, fp_mul_chk, fp_pow, fp_pow_spec, isqrt128, lemma_fp_pow_mono,
    sqrt_floor, SCALE,
};
use vstd::arithmetic::div_mod::{lemma_div_is_ordered_by_denominator, lemma_div_pos_is_pos};
use vstd::arithmetic::mul::lemma_mul_nonnegative;
use crate::satellite::{vec3_in_bounds, SatKind, Satellite, Vec3, MASS_MAX, VEL_MAX};
use crate::BreakupError;
use vstd::prelude::*;

verus! {

/// Fixed-point value of the collision count coefficient `0.1`.
pub const COLLISION_COUNT_COEFF: u64 = 100_000;

/// Exponent numerator for the collision mass power `0.75`, in `1 / 4096`.
pub const COLLISION_MASS_EXP_NUM: u32 = 3072;

/// Exponent numerator for the collision length power `1.71`, in `1 / 4096`.
pub const COLLISION_LEN_EXP_NUM: u32 = 7004;

/// Fixed-point value of the explosion count coefficient `6 * S` with the
/// fixed yield scale `S = 1`.
pub const EXPLOSION_COUNT_COEFF: u64 = 6_000_000;

/// Exponent numerator for the explosion length power `1.6`, in `1 / 4096`.
pub const EXPLOSION_LEN_EXP_NUM: u32 = 6554;

/// Catastrophic-collision threshold: `40` joule per gram, fixed point.
pub const CATASTROPHIC_THRESHOLD: u64 = 40_000_000;

/// The floor of the Euclidean norm of a fixed-point 3-vector difference.
pub open spec fn norm_spec(dx: int, dy: int, dz: int) -> int {
    sqrt_floor((dx * dx + dy * dy + dz * dz) as nat) as int
}

/// Relative kinetic energy of a collision per unit target mass, in
/// micro-joule per gram: `0.5 * m_proj * v^2 / m_targ_g` evaluated as
/// `m_proj * v * v / (2 * m_targ_g * SCALE)`. The projectile mass is in
/// micro-kilograms, the target mass in micro-grams, the impact velocity in
/// micro-meters per second.
pub open spec fn rel_ke_spec(m_proj: int, m_targ_g: int, v_impact: int) -> int {
    m_proj * v_impact * v_impact / (2 * m_targ_g * (SCALE as int))
}

/// A collision is catastrophic exactly when the relative kinetic energy
/// per target gram exceeds 40 joule per gram. The target mass converts
/// from micro-kilograms to micro-grams; the velocity stays in meters per
/// second, the model's defined convention.
pub open spec fn catastrophic_spec(m_proj: int, m_targ: int, v_impact: int) -> bool {
    rel_ke_spec(m_proj, m_targ * 1000, v_impact) > CATASTROPHIC_THRESHOLD as int
}

/// The capability set of one breakup, implemented by [`CollisionEvent`]
/// and [`ExplosionEvent`].
pub trait FragmentationEvent: Sized {
    /// The validity the exec methods rely on.
    spec fn wf_event(&self) -> bool;

    /// The exact fixed-point fragment-count chain: `None` where the count
    /// is not representable.
    spec fn count_chain(&self, l: int) -> Option<int>;

    spec fn location_spec(&self) -> Vec3;

    spec fn min_len_spec(&self) -> int;

    spec fn max_len_spec(&self) -> int;

    spec fn exponent_spec(&self) -> int;

    spec fn kind_spec(&self) -> SatKind;

    spec fn dv_offset_spec(&self) -> (int, int);

    /// The total number of fragments with characteristic length at least
    /// `min_characteristic_len`, as a fixed-point value.
    fn fragment_count(&self, min_characteristic_len: u64) -> (r: Result<u64, BreakupError>)
        requires
            self.wf_event(),
        ensures
            r is Ok <==> self.count_chain(min_characteristic_len as int) is Some,
            r is Ok ==> r->Ok_0 as int == self.count_chain(min_characteristic_len as int)->0,
            r is Err ==> r->Err_0 == BreakupError::InvalidCount,
    ;

    /// Where the fragmentation event occurred.
    fn location(&self) -> (r: Vec3)
        requires
            self.wf_event(),
        ensures
            r == self.location_spec(),
    ;

    fn min_characteristic_length(&self) -> (r: u64)
        ensures
            r as int == self.min_len_spec(),
    ;

    fn max_characteristic_length(&self) -> (r: u64)
        ensures
            r as int == self.max_len_spec(),
    ;

    /// The size-distribution power-law exponent, fixed point.
    fn power_law_exponent(&self) -> (r: i64)
        ensures
            r as int == self.exponent_spec(),
    ;

    fn kind(&self) -> (r: SatKind)
        ensures
            r == self.kind_spec(),
    ;

    /// The (mean, shift) pair of the delta-velocity sampling law, fixed
    /// point.
    fn delta_velocity_offset(&self) -> (r: (u64, u64))
        ensures
            r.0 as int == self.dv_offset_spec().0,
            r.1 as int == self.dv_offset_spec().1,
    ;
}

/// A two-satellite collision. After construction the satellite at index 0
/// is the one with the larger characteristic length.
#[derive(Clone, Debug)]
pub struct CollisionEvent {
    pub min_characteristic_length: u64,
    pub sat_kind: SatKind,
    pub input_mass: u64,
    pub max_characteristic_length: u64,
    pub satellites: Vec<Satellite>,
}

/// The impact velocity of a collision event: the floor of the norm of the
/// velocity difference of its two satellites.
pub open spec fn impact_velocity_spec(ev: CollisionEvent) -> int {
    norm_spec(
        ev.satellites@[0].velocity.x - ev.satellites@[1].velocity.x,
        ev.satellites@[0].velocity.y - ev.satellites@[1].velocity.y,
        ev.satellites@[0].velocity.z - ev.satellites@[1].velocity.z,
    )
}

/// The effective mass of the collision count law: the summed mass for a
/// catastrophic collision, else the projectile mass times the impact
/// velocity in kilometers per second (the branch the model leaves in mixed
/// units on purpose).
pub open spec fn effective_mass_spec(ev: CollisionEvent) -> Option<int> {
    let m_targ = ev.satellites@[0].mass as int;
    let m_proj = ev.satellites@[1].mass as int;
    let v = impact_velocity_spec(ev);
    if catastrophic_spec(m_proj, m_targ, v) {
        Some(m_targ + m_proj)
    } else {
        fp_mul_chk(m_proj, v / 1000)
    }
}

/// The collision fragment-count chain `0.1 * m^0.75 * l^(-1.71)`:
/// `None` where an intermediate value is not representable or the length
/// power vanishes.
pub open spec fn collision_count_chain(ev: CollisionEvent, l: int) -> Option<int> {
    let m = effective_mass_spec(ev);
    if m is Some {
        let pm = fp_pow_spec(m->0, COLLISION_MASS_EXP_NUM);
        let pl = fp_pow_spec(l, COLLISION_LEN_EXP_NUM);
        if pm is Some && pl is Some {
            let t = fp_mul_chk(COLLISION_COUNT_COEFF as int, pm->0);
            if t is Some {
                fp_div_chk(t->0, pl->0)
            } else {
                None
            }
        } else {
            None
        }
    } else {
        None
    }
}

/// The explosion fragment-count chain `6 * l^(-1.6)`, independent of the
/// exploding satellite.
pub open spec fn explosion_count_chain(l: int) -> Option<int> {
    match fp_pow_spec(l, EXPLOSION_LEN_EXP_NUM) {
        None => None,
        Some(pl) => fp_div_chk(EXPLOSION_COUNT_COEFF as int, pl),
    }
}

/// Relative kinetic energy per unit target mass, micro-joule per gram.
/// The projectile mass is in micro-kilograms, the target mass in
/// micro-grams, the impact velocity in micro-meters per second.
pub fn rel_ke(m_proj: u64, m_targ_g: u64, v_impact: u64) -> (r: u128)
    requires
        m_proj <= MASS_MAX,
        1 <= m_targ_g <= MASS_MAX as int * 1000,
        v_impact <= 4 * VEL_MAX,
    ensures
        r as int == rel_ke_spec(m_proj as int, m_targ_g as int, v_impact as int),
{
    proof {
        assert((m_proj as int) * (v_impact as int) <= u128::MAX && (m_proj as int) * (v_impact
            as int) * (v_impact as int) <= u128::MAX) by (nonlinear_arith)
            requires m_proj <= MASS_MAX && v_impact <= 4 * VEL_MAX && MASS_MAX
                == 1_000_000_000_000 && VEL_MAX == 1_000_000_000_000;
        assert(2 * (m_targ_g as int) * (SCALE as int) <= u128::MAX) by (nonlinear_arith)
            requires m_targ_g <= MASS_MAX as int * 1000 && MASS_MAX == 1_000_000_000_000 && SCALE
                == 1_000_000;
    }
    let num = (m_proj as u128) * (v_impact as u128) * (v_impact as u128);
    let den = 2u128 * (m_targ_g as u128) * (SCALE as u128);
    num / den
}

/// Whether a collision of the given projectile and target masses (both in
/// micro-kilograms) at the given impact velocity (micro-meters per second)
/// is catastrophic.
pub fn is_catastrophic(m_proj: u64, m_targ: u64, v_impact: u64) -> (r: bool)
    requires
        m_proj <= MASS_MAX,
        1 <= m_targ <= MASS_MAX,
        v_impact <= 4 * VEL_MAX,
    ensures
        r == catastrophic_spec(m_proj as int, m_targ as int, v_impact as int),
{
    let ke = rel_ke(m_proj, m_targ * 1000, v_impact);
    ke > CATASTROPHIC_THRESHOLD as u128
}

/// The floor of the Euclidean norm of the difference of two bounded
/// vectors.
pub fn norm_of_difference(a: Vec3, b: Vec3) -> (r: u64)
    requires
        vec3_in_bounds(a, VEL_MAX as int),
        vec3_in_bounds(b, VEL_MAX as int),
    ensures
        r as int == norm_spec(a.x - b.x, a.y - b.y, a.z - b.z),
        r <= 4 * VEL_MAX,
{
    let dx = a.x - b.x;
    let dy = a.y - b.y;
    let dz = a.z - b.z;
    proof {
        assert((dx as int) * (dx as int) >= 0 && (dx as int) * (dx as int) <= 4 * (VEL_MAX as int)
            * (VEL_MAX as int)) by (nonlinear_arith)
            requires -2 * VEL_MAX <= dx <= 2 * VEL_MAX;
        assert((dy as int) * (dy as int) >= 0 && (dy as int) * (dy as int) <= 4 * (VEL_MAX as int)
            * (VEL_MAX as int)) by (nonlinear_arith)
            requires -2 * VEL_MAX <= dy <= 2 * VEL_MAX;
        assert((dz as int) * (dz as int) >= 0 && (dz as int) * (dz as int) <= 4 * (VEL_MAX as int)
            * (VEL_MAX as int)) by (nonlinear_arith)
            requires -2 * VEL_MAX <= dz <= 2 * VEL_MAX;
    }
    let sq = (dx as i128) * (dx as i128) + (dy as i128) * (dy as i128) + (dz as i128) * (dz
        as i128);
    let r = isqrt128(sq as u128);
    proof {
        let s = (dx as int) * (dx as int) + (dy as int) * (dy as int) + (dz as int) * (dz as int);
        assert((4 * (VEL_MAX as int)) * (4 * (VEL_MAX as int)) >= 3 * (4 * (VEL_MAX as int) * (
        VEL_MAX as int))) by (nonlinear_arith)
            requires VEL_MAX == 1_000_000_000_000;
        if r > 4 * VEL_MAX {
            crate::fixed::lemma_sqrt_floor_bounds(s as nat);
            assert((r as int) * (r as int) > (4 * (VEL_MAX as int)) * (4 * (VEL_MAX as int)))
                by (nonlinear_arith)
                requires r as int > 4 * (VEL_MAX as int) && VEL_MAX == 1_000_000_000_000;
        }
    }
    r
}

impl CollisionEvent {
    /// Well-formedness: exactly two well-formed satellites, the larger
    /// (by characteristic length) first.
    pub open spec fn wf(&self) -> bool {
        &&& self.satellites@.len() == 2
        &&& self.satellites@[0].wf()
        &&& self.satellites@[1].wf()
        &&& self.satellites@[0].characteristic_length
            >= self.satellites@[1].characteristic_length
    }

    /// Builds a collision event from exactly two satellites and the
    /// minimum characteristic length of interest. Orders the pair so the
    /// larger body (by characteristic length) sits at index 0, merges the
    /// kinds (rocket body dominates, anything else merges to debris),
    /// sums the masses and takes the larger length as the maximum.
    pub fn new(satellites: Vec<Satellite>, min_characteristic_length: u64) -> (r: Result<
        CollisionEvent,
        BreakupError,
    >)
        requires
            forall|i: int| 0 <= i < satellites@.len() ==> satellites@[i].wf(),
        ensures
            r is Ok <==> satellites@.len() == 2,
            r is Err ==> r->Err_0 == BreakupError::InvalidConstruction,
            r is Ok ==> {
                let ev = r->Ok_0;
                let s1 = satellites@[0];
                let s2 = satellites@[1];
                &&& ev.wf()
                &&& ev.min_characteristic_length == min_characteristic_length
                &&& ev.input_mass == s1.mass + s2.mass
                &&& ev.max_characteristic_length == (if s1.characteristic_length
                    >= s2.characteristic_length {
                    s1.characteristic_length
                } else {
                    s2.characteristic_length
                })
                &&& ev.sat_kind == (if s1.sat_kind == SatKind::Rb || s2.sat_kind == SatKind::Rb {
                    SatKind::Rb
                } else {
                    SatKind::Soc
                })
                &&& ev.satellites@[0].characteristic_length
                    >= ev.satellites@[1].characteristic_length
                &&& (if s2.characteristic_length > s1.characteristic_length {
                    ev.satellites@[0] == s2 && ev.satellites@[1] == s1
                } else {
                    ev.satellites@[0] == s1 && ev.satellites@[1] == s2
                })
            },
    {
        if satellites.len() != 2 {
            return Err(BreakupError::InvalidConstruction);
        }
        let satellite_1 = satellites[0];
        let satellite_2 = satellites[1];
        let max_characteristic_length = if satellite_1.characteristic_length
            >= satellite_2.characteristic_length {
            satellite_1.characteristic_length
        } else {
            satellite_2.characteristic_length
        };
        let mut sat_kind = SatKind::Soc;
        if satellite_1.sat_kind == SatKind::Rb || satellite_2.sat_kind == SatKind::Rb {
            sat_kind = SatKind::Rb;
        }
        let input_mass = satellite_1.mass + satellite_2.mass;
        let (first, second) = if satellite_2.characteristic_length
            > satellite_1.characteristic_length {
            (satellite_2, satellite_1)
        } else {
            (satellite_1, satellite_2)
        };
        let mut ordered: Vec<Satellite> = Vec::new();
        ordered.push(first);
        ordered.push(second);
        Ok(
            CollisionEvent {
                min_characteristic_length,
                sat_kind,
                input_mass,
                max_characteristic_length,
                satellites: ordered,
            },
        )
    }
}

impl FragmentationEvent for CollisionEvent {
    open spec fn wf_event(&self) -> bool {
        self.wf()
    }

    open spec fn count_chain(&self, l: int) -> Option<int> {
        collision_count_chain(*self, l)
    }

    open spec fn location_spec(&self) -> Vec3 {
        self.satellites@[0].position
    }

    open spec fn min_len_spec(&self) -> int {
        self.min_characteristic_length as int
    }

    open spec fn max_len_spec(&self) -> int {
        self.max_characteristic_length as int
    }

    open spec fn exponent_spec(&self) -> int {
        -2_710_000
    }

    open spec fn kind_spec(&self) -> SatKind {
        self.sat_kind
    }

    open spec fn dv_offset_spec(&self) -> (int, int) {
        (900_000, 2_900_000)
    }

    fn fragment_count(&self, min_characteristic_len: u64) -> (r: Result<u64, BreakupError>) {
        let satellite_1 = self.satellites[0];
        let satellite_2 = self.satellites[1];
        let v_impact = norm_of_difference(satellite_1.velocity, satellite_2.velocity);
        let m_targ = satellite_1.mass;
        let m_proj = satellite_2.mass;
        let m = if is_catastrophic(m_proj, m_targ, v_impact) {
            m_proj + m_targ
        } else {
            match fp_mul(m_proj, v_impact / 1000) {
                Some(v) => v,
                None => {
                    return Err(BreakupError::InvalidCount);
                },
            }
        };
        let pm = match fp_pow(m, COLLISION_MASS_EXP_NUM) {
            Some(v) => v,
            None => {
                return Err(BreakupError::InvalidCount);
            },
        };
        let pl = match fp_pow(min_characteristic_len, COLLISION_LEN_EXP_NUM) {
            Some(v) => v,
            None => {
                return Err(BreakupError::InvalidCount);
            },
        };
        let t = match fp_mul(COLLISION_COUNT_COEFF, pm) {
            Some(v) => v,
            None => {
                return Err(BreakupError::InvalidCount);
            },
        };
        match fp_div(t, pl) {
            Some(v) => Ok(v),
            None => Err(BreakupError::InvalidCount),
        }
    }

    fn location(&self) -> (r: Vec3) {
        self.satellites[0].get_position()
    }

    fn min_characteristic_length(&self) -> (r: u64) {
        self.min_characteristic_length
    }

    fn max_characteristic_length(&self) -> (r: u64) {
        self.max_characteristic_length
    }

    fn power_law_exponent(&self) -> (r: i64) {
        -2_710_000
    }

    fn kind(&self) -> (r: SatKind) {
        self.sat_kind
    }

    fn delta_velocity_offset(&self) -> (r: (u64, u64)) {
        (900_000, 2_900_000)
    }
}

/// A single-satellite explosion.
#[derive(Clone, Debug)]
pub struct ExplosionEvent {
    pub min_characteristic_length: u64,
    pub sat_type: SatKind,
    pub input_mass: u64,
    pub max_characteristic_length: u64,
    pub satellites: Vec<Satellite>,
}

impl ExplosionEvent {
    pub open spec fn wf(&self) -> bool {
        &&& self.satellites@.len() == 1
        &&& self.satellites@[0].wf()
    }

    /// Builds an explosion event: mass, kind and maximum length come
    /// straight from the satellite.
    pub fn new(satellite: Satellite, min_characteristic_length: u64) -> (r: ExplosionEvent)
        requires
            satellite.wf(),
        ensures
            r.wf(),
            r.min_characteristic_length == min_characteristic_length,
            r.input_mass == satellite.mass,
            r.sat_type == satellite.sat_kind,
            r.max_characteristic_length == satellite.characteristic_length,
            r.satellites@[0] == satellite,
    {
        let input_mass = satellite.mass;
        let sat_type = satellite.sat_kind;
        let max_characteristic_length = satellite.characteristic_length;
        let mut satellites: Vec<Satellite> = Vec::new();
        satellites.push(satellite);
        ExplosionEvent {
            min_characteristic_length,
            input_mass,
            sat_type,
            satellites,
            max_characteristic_length,
        }
    }
}

impl FragmentationEvent for ExplosionEvent {
    open spec fn wf_event(&self) -> bool {
        self.wf()
    }

    open spec fn count_chain(&self, l: int) -> Option<int> {
        explosion_count_chain(l)
    }

    open spec fn location_spec(&self) -> Vec3 {
        self.satellites@[0].position
    }

    open spec fn min_len_spec(&self) -> int {
        self.min_characteristic_length as int
    }

    open spec fn max_len_spec(&self) -> int {
        self.max_characteristic_length as int
    }

    open spec fn exponent_spec(&self) -> int {
        -2_600_000
    }

    open spec fn kind_spec(&self) -> SatKind {
        self.sat_type
    }

    open spec fn dv_offset_spec(&self) -> (int, int) {
        (200_000, 1_850_000)
    }

    fn fragment_count(&self, min_characteristic_len: u64) -> (r: Result<u64, BreakupError>) {
        let pl = match fp_pow(min_characteristic_len, EXPLOSION_LEN_EXP_NUM) {
            Some(v) => v,
            None => {
                return Err(BreakupError::InvalidCount);
            },
        };
        match fp_div(EXPLOSION_COUNT_COEFF, pl) {
            Some(v) => Ok(v),
            None => Err(BreakupError::InvalidCount),
        }
    }

    fn location(&self) -> (r: Vec3) {
        self.satellites[0].get_position()
    }

    fn min_characteristic_length(&self) -> (r: u64) {
        self.min_characteristic_length
    }

    fn max_characteristic_length(&self) -> (r: u64) {
        self.max_characteristic_length
    }

    fn power_law_exponent(&self) -> (r: i64) {
        -2_600_000
    }

    fn kind(&self) -> (r: SatKind) {
        self.sat_type
    }

    fn delta_velocity_offset(&self) -> (r: (u64, u64)) {
        (200_000, 1_850_000)
    }
}

/// The fragment count of a collision event never increases as the minimum
/// characteristic length of interest increases: wherever the count chain
/// is defined for both lengths, the count at the larger length is at most
/// the count at the smaller.
pub proof fn lemma_collision_count_monotone(ev: CollisionEvent, l1: int, l2: int)
    requires
        0 <= l1 <= l2,
        collision_count_chain(ev, l1) is Some,
        collision_count_chain(ev, l2) is Some,
    ensures
        collision_count_chain(ev, l2)->0 <= collision_count_chain(ev, l1)->0,
{
    let m = effective_mass_spec(ev)->0;
    let pm = fp_pow_spec(m, COLLISION_MASS_EXP_NUM)->0;
    let t = fp_mul_chk(COLLISION_COUNT_COEFF as int, pm)->0;
    let pl1 = fp_pow_spec(l1, COLLISION_LEN_EXP_NUM);
    let pl2 = fp_pow_spec(l2, COLLISION_LEN_EXP_NUM);
    lemma_fp_pow_mono(m, m, COLLISION_MASS_EXP_NUM);
    lemma_mul_nonnegative(COLLISION_COUNT_COEFF as int, pm);
    lemma_div_pos_is_pos((COLLISION_COUNT_COEFF as int) * pm, SCALE as int);
    lemma_mul_nonnegative(t, SCALE as int);
    lemma_fp_pow_mono(l1, l2, COLLISION_LEN_EXP_NUM);
    lemma_div_is_ordered_by_denominator(t * (SCALE as int), pl1->0, pl2->0);
}

/// The fragment count of an explosion event never increases as the
/// minimum characteristic length of interest increases.
pub proof fn lemma_explosion_count_monotone(l1: int, l2: int)
    requires
        0 <= l1 <= l2,
        explosion_count_chain(l1) is Some,
        explosion_count_chain(l2) is Some,
    ensures
        explosion_count_chain(l2)->0 <= explosion_count_chain(l1)->0,
{
    let pl1 = fp_pow_spec(l1, EXPLOSION_LEN_EXP_NUM);
    let pl2 = fp_pow_spec(l2, EXPLOSION_LEN_EXP_NUM);
    lemma_fp_pow_mono(l1, l2, EXPLOSION_LEN_EXP_NUM);
    lemma_mul_nonnegative(EXPLOSION_COUNT_COEFF as int, SCALE as int);
    lemma_div_is_ordered_by_denominator(
        (EXPLOSION_COUNT_COEFF as int) * (SCALE as int),
        pl1->0,
        pl2->0,
    );
}

/// The explosion fragment count is independent of the exploding satellite
/// by design: it is a function of the length of interest alone.
pub proof fn lemma_explosion_count_mass_independent(
    e1: ExplosionEvent,
    e2: ExplosionEvent,
    l: int,
)
    ensures
        e1.count_chain(l) == e2.count_chain(l),
{
}

} // verus!
