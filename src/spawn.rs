//! Bulk creation of particles with randomised initial state.
use vstd::prelude::*;
use rand::rngs::ThreadRng;
use crate::particle::{Particle, Rgba, Vector, Viewport, MAX_COORD, MAX_SPEED};
use vstd::arithmetic::div_mod::lemma_mod_multiples_basic;
use crate::random::{admissible, non_zero_rand, random_in, sample_error};

verus! {

/// How particles are drawn: each velocity component from
/// `[-bound, bound)` outside the dead zone `(-dead_zone, dead_zone)`, and the
/// radius as `k * radius_scale` with `k` drawn from `[radius_min, radius_max)`.
#[derive(Debug, Clone, Copy, PartialEq, Eq, Structural)]
pub struct SpawnConfig {
    pub speed_bound: Vector,
    pub radius_min: i64,
    pub radius_max: i64,
    pub radius_scale: i64,
    pub dead_zone: i64,
}

/// Why no particle can be drawn under a configuration.
#[derive(Debug, Clone, Copy, PartialEq, Eq, Structural)]
pub enum SpawnError {
    /// A half extent of the viewport is below 1 or above `MAX_COORD`.
    InvalidViewport,
    /// The radius range is empty, starts below 1, has a scale below 1, or
    /// reaches past `MAX_COORD` once scaled.
    InvalidRadiusRange,
    /// The dead zone is negative, or a speed bound exceeds `MAX_SPEED` or
    /// does not exceed the dead zone, so no admissible speed exists.
    InvalidSpeedBound,
}

/// A speed bound that admits values outside the dead zone and stays in range.
pub open spec fn speed_bound_ok(bound: int, dead_zone: int) -> bool {
    0 <= dead_zone < bound <= MAX_SPEED
}

/// A non-empty radius range whose scaled radii are positive and in range.
pub open spec fn radius_range_ok(cfg: SpawnConfig) -> bool {
    &&& 1 <= cfg.radius_scale
    &&& 1 <= cfg.radius_min < cfg.radius_max
    &&& (cfg.radius_max - 1) * cfg.radius_scale <= MAX_COORD
}

/// The error `generate` reports for `vp` and `cfg`, if any.
pub open spec fn spawn_error(vp: Viewport, cfg: SpawnConfig) -> Option<SpawnError> {
    if !vp.wf() {
        Some(SpawnError::InvalidViewport)
    } else if !radius_range_ok(cfg) {
        Some(SpawnError::InvalidRadiusRange)
    } else if !(speed_bound_ok(cfg.speed_bound.x as int, cfg.dead_zone as int) && speed_bound_ok(
        cfg.speed_bound.y as int,
        cfg.dead_zone as int,
    )) {
        Some(SpawnError::InvalidSpeedBound)
    } else {
        None
    }
}

/// A particle that `generate` may draw for `vp` and `cfg`.
pub open spec fn spawned(p: Particle, vp: Viewport, cfg: SpawnConfig) -> bool {
    &&& -vp.half_width <= p.position.x < vp.half_width
    &&& -vp.half_height <= p.position.y < vp.half_height
    &&& admissible(
        -cfg.speed_bound.x,
        cfg.speed_bound.x as int,
        cfg.dead_zone as int,
        p.velocity.x as int,
    )
    &&& admissible(
        -cfg.speed_bound.y,
        cfg.speed_bound.y as int,
        cfg.dead_zone as int,
        p.velocity.y as int,
    )
    &&& cfg.radius_min * cfg.radius_scale <= p.radius <= (cfg.radius_max - 1) * cfg.radius_scale
    &&& p.radius % cfg.radius_scale == 0
    &&& p.color.a >= 128
}

/// Whether `vp` and `cfg` allow particles to be drawn.
pub fn check_config(vp: &Viewport, cfg: &SpawnConfig) -> (r: Result<(), SpawnError>)
    ensures
        match r {
            Ok(_) => spawn_error(*vp, *cfg) is None,
            Err(e) => spawn_error(*vp, *cfg) == Some(e),
        },
{
    if !vp.is_valid() {
        return Err(SpawnError::InvalidViewport);
    }
    let rmin: i64 = cfg.radius_min;
    let rmax: i64 = cfg.radius_max;
    let scale: i64 = cfg.radius_scale;
    if !(1 <= scale && scale <= MAX_COORD && 1 <= rmin && rmin < rmax && rmax <= MAX_COORD + 1) {
        proof {
            if radius_range_ok(*cfg) {
                assert((rmax - 1) * scale >= scale) by (nonlinear_arith)
                    requires rmax - 1 >= 1, scale >= 1;
                assert((rmax - 1) * scale >= rmax - 1) by (nonlinear_arith)
                    requires rmax - 1 >= 1, scale >= 1;
            }
        }
        return Err(SpawnError::InvalidRadiusRange);
    }
    assert((rmax - 1) * scale <= MAX_COORD * MAX_COORD) by (nonlinear_arith)
        requires 0 <= rmax - 1 <= MAX_COORD, 0 <= scale <= MAX_COORD;
    if (rmax - 1) * scale > MAX_COORD {
        return Err(SpawnError::InvalidRadiusRange);
    }
    let d: i64 = cfg.dead_zone;
    let sx: i64 = cfg.speed_bound.x;
    let sy: i64 = cfg.speed_bound.y;
    if !(0 <= d && d < sx && sx <= MAX_SPEED && d < sy && sy <= MAX_SPEED) {
        return Err(SpawnError::InvalidSpeedBound);
    }
    Ok(())
}

/// Draws one colour channel uniformly from `[lo, 256)`.
fn random_channel(rng: &mut ThreadRng, lo: u8) -> (r: u8)
    ensures
        lo <= r,
{
    random_in(rng, lo as i64, 256) as u8
}

/// Draws one particle for `vp` and `cfg`.
pub fn random_particle(rng: &mut ThreadRng, vp: &Viewport, cfg: &SpawnConfig) -> (p: Particle)
    requires
        spawn_error(*vp, *cfg) is None,
    ensures
        spawned(p, *vp, *cfg),
        p.wf(),
{
    let x: i64 = random_in(rng, -vp.half_width, vp.half_width);
    let y: i64 = random_in(rng, -vp.half_height, vp.half_height);
    let sx: i64 = cfg.speed_bound.x;
    let sy: i64 = cfg.speed_bound.y;
    let d: i64 = cfg.dead_zone;
    let vx: Result<i64, crate::random::SampleError> = non_zero_rand(rng, -sx, sx, d);
    assert(sample_error(-sx, sx as int, d as int) is None);
    let vx: i64 = vx.unwrap();
    let vy: Result<i64, crate::random::SampleError> = non_zero_rand(rng, -sy, sy, d);
    assert(sample_error(-sy, sy as int, d as int) is None);
    let vy: i64 = vy.unwrap();
    let k: i64 = random_in(rng, cfg.radius_min, cfg.radius_max);
    let scale: i64 = cfg.radius_scale;
    proof {
        let rmin = cfg.radius_min as int;
        let rmax = cfg.radius_max as int;
        assert(rmin * scale <= k * scale <= (rmax - 1) * scale) by (nonlinear_arith)
            requires rmin <= k <= rmax - 1, scale >= 1;
        assert(1 <= k * scale) by (nonlinear_arith)
            requires 1 <= k, 1 <= scale;
        lemma_mod_multiples_basic(k as int, scale as int);
    }
    let radius: i64 = k * scale;
    let color = Rgba {
        r: random_channel(rng, 0),
        g: random_channel(rng, 0),
        b: random_channel(rng, 0),
        a: random_channel(rng, 128),
    };
    Particle { position: Vector { x, y }, velocity: Vector { x: vx, y: vy }, radius, color }
}

/// Draws `count` particles for `vp` and `cfg`, or reports why the
/// configuration admits none. Exactly `count` particles are returned.
pub fn generate(rng: &mut ThreadRng, count: u32, vp: &Viewport, cfg: &SpawnConfig) -> (r: Result<
    Vec<Particle>,
    SpawnError,
>)
    ensures
        match r {
            Ok(ps) => {
                &&& spawn_error(*vp, *cfg) is None
                &&& ps@.len() == count
                &&& forall|i: int| 0 <= i < ps@.len() ==> #[trigger] spawned(ps@[i], *vp, *cfg)
                &&& forall|i: int| 0 <= i < ps@.len() ==> #[trigger] ps@[i].wf()
            },
            Err(e) => spawn_error(*vp, *cfg) == Some(e),
        },
{
    match check_config(vp, cfg) {
        Ok(_) => {},
        Err(e) => {
            return Err(e);
        },
    }
    let mut ps: Vec<Particle> = Vec::new();
    let mut i: u32 = 0;
    while i < count
        invariant
            spawn_error(*vp, *cfg) is None,
            i <= count,
            ps@.len() == i,
            forall|j: int| 0 <= j < ps@.len() ==> #[trigger] spawned(ps@[j], *vp, *cfg),
            forall|j: int| 0 <= j < ps@.len() ==> #[trigger] ps@[j].wf(),
        decreases count - i,
    {
        let p: Particle = random_particle(rng, vp, cfg);
        ps.push(p);
        i = i + 1;
    }
    Ok(ps)
}

} // verus!
