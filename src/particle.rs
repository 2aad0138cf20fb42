//! Particles, the viewport they live in, and the per-frame reflection step.
use vstd::prelude::*;
use vstd::math::abs;

verus! {

/// The largest magnitude of a coordinate, a radius or a viewport half extent.
pub const MAX_COORD: i64 = 1_000_000_000;

/// The largest magnitude of a velocity component.
pub const MAX_SPEED: i64 = 1_000_000_000;

/// The largest number of ticks one frame may span.
pub const MAX_TICKS: i64 = 1_000_000_000;

/// A pair of integer components.
#[derive(Debug, Clone, Copy, PartialEq, Eq, Structural)]
pub struct Vector {
    pub x: i64,
    pub y: i64,
}

/// A colour, one byte per channel.
#[derive(Debug, Clone, Copy, PartialEq, Eq, Structural)]
pub struct Rgba {
    pub r: u8,
    pub g: u8,
    pub b: u8,
    pub a: u8,
}

/// A circular particle: its centre relative to the viewport's centre, its
/// velocity per tick, and its fixed radius and colour.
#[derive(Debug, Clone, Copy, PartialEq, Eq, Structural)]
pub struct Particle {
    pub position: Vector,
    pub velocity: Vector,
    pub radius: i64,
    pub color: Rgba,
}

/// The visible rectangle, given by its half extents around the origin.
#[derive(Debug, Clone, Copy, PartialEq, Eq, Structural)]
pub struct Viewport {
    pub half_width: i64,
    pub half_height: i64,
}

impl Viewport {
    pub open spec fn wf(self) -> bool {
        1 <= self.half_width <= MAX_COORD && 1 <= self.half_height <= MAX_COORD
    }

    /// Whether the half extents are within the supported range.
    pub fn is_valid(&self) -> (r: bool)
        ensures
            r == self.wf(),
    {
        1 <= self.half_width && self.half_width <= MAX_COORD && 1 <= self.half_height
            && self.half_height <= MAX_COORD
    }
}

impl Particle {
    /// A positive radius, and coordinates and speeds within the supported range.
    pub open spec fn wf(self) -> bool {
        1 <= self.radius <= MAX_COORD && -MAX_COORD <= self.position.x <= MAX_COORD
            && -MAX_COORD <= self.position.y <= MAX_COORD && -MAX_SPEED <= self.velocity.x
            <= MAX_SPEED && -MAX_SPEED <= self.velocity.y <= MAX_SPEED
    }

    /// The mass a rigid-body solver gives this particle: equal to its radius.
    pub fn mass(&self) -> (r: i64)
        ensures
            r == self.radius,
    {
        self.radius
    }
}

/// Whether a frame of `dt` ticks is within the supported range.
pub open spec fn valid_ticks(dt: int) -> bool {
    0 <= dt <= MAX_TICKS
}

/// One axis of the reflection step, as (position, velocity): move by
/// `v * dt`; past `-(half - radius)` or `half - radius`, flip the velocity
/// and snap onto that edge.
pub open spec fn axis_step(p: int, v: int, half: int, radius: int, dt: int) -> (int, int) {
    let moved = p + v * dt;
    let limit = half - radius;
    if moved < -limit {
        (-limit, -v)
    } else if moved > limit {
        (limit, -v)
    } else {
        (moved, v)
    }
}

/// The particle after one reflection step of `dt` ticks in `vp`.
pub open spec fn step(p: Particle, vp: Viewport, dt: int) -> Particle {
    let (px, vx) = axis_step(
        p.position.x as int,
        p.velocity.x as int,
        vp.half_width as int,
        p.radius as int,
        dt,
    );
    let (py, vy) = axis_step(
        p.position.y as int,
        p.velocity.y as int,
        vp.half_height as int,
        p.radius as int,
        dt,
    );
    Particle {
        position: Vector { x: px as i64, y: py as i64 },
        velocity: Vector { x: vx as i64, y: vy as i64 },
        radius: p.radius,
        color: p.color,
    }
}

proof fn lemma_axis_step_bounds(p: int, v: int, half: int, radius: int, dt: int)
    requires
        -MAX_COORD <= p <= MAX_COORD,
        -MAX_SPEED <= v <= MAX_SPEED,
        1 <= half <= MAX_COORD,
        1 <= radius <= MAX_COORD,
        valid_ticks(dt),
    ensures
        -MAX_COORD <= axis_step(p, v, half, radius, dt).0 <= MAX_COORD,
        -MAX_SPEED <= axis_step(p, v, half, radius, dt).1 <= MAX_SPEED,
{
}

proof fn lemma_product_bound(v: int, dt: int)
    requires
        -MAX_SPEED <= v <= MAX_SPEED,
        valid_ticks(dt),
    ensures
        -MAX_SPEED * MAX_TICKS <= v * dt <= MAX_SPEED * MAX_TICKS,
{
    assert(-MAX_SPEED * MAX_TICKS <= v * dt <= MAX_SPEED * MAX_TICKS) by (nonlinear_arith)
        requires
            -MAX_SPEED <= v <= MAX_SPEED,
            0 <= dt <= MAX_TICKS,
    ;
}

/// One axis of the reflection step.
fn advance_axis(p: i64, v: i64, half: i64, radius: i64, dt: i64) -> (r: (i64, i64))
    requires
        -MAX_COORD <= p <= MAX_COORD,
        -MAX_SPEED <= v <= MAX_SPEED,
        1 <= half <= MAX_COORD,
        1 <= radius <= MAX_COORD,
        valid_ticks(dt as int),
    ensures
        (r.0 as int, r.1 as int) == axis_step(p as int, v as int, half as int, radius as int, dt as int),
{
    proof {
        lemma_product_bound(v as int, dt as int);
        lemma_axis_step_bounds(p as int, v as int, half as int, radius as int, dt as int);
    }
    let moved: i64 = p + v * dt;
    let limit: i64 = half - radius;
    if moved < -limit {
        (-limit, -v)
    } else if moved > limit {
        (limit, -v)
    } else {
        (moved, v)
    }
}

/// Moves one particle by its velocity over `dt` ticks and reflects it off
/// any viewport wall its circle has crossed.
pub fn advance_particle(p: &mut Particle, vp: &Viewport, dt: i64)
    requires
        old(p).wf(),
        vp.wf(),
        valid_ticks(dt as int),
    ensures
        *final(p) == step(*old(p), *vp, dt as int),
        final(p).wf(),
{
    proof {
        lemma_axis_step_bounds(p.position.x as int, p.velocity.x as int, vp.half_width as int, p.radius as int, dt as int);
        lemma_axis_step_bounds(p.position.y as int, p.velocity.y as int, vp.half_height as int, p.radius as int, dt as int);
    }
    let (px, vx): (i64, i64) = advance_axis(p.position.x, p.velocity.x, vp.half_width, p.radius, dt);
    let (py, vy): (i64, i64) = advance_axis(p.position.y, p.velocity.y, vp.half_height, p.radius, dt);
    p.position = Vector { x: px, y: py };
    p.velocity = Vector { x: vx, y: vy };
}

/// Whether one axis of a step carries the circle past a wall: the moved
/// centre lies beyond `half - radius` on either side.
pub open spec fn crosses(p: int, v: int, half: int, radius: int, dt: int) -> bool {
    p + v * dt < -(half - radius) || p + v * dt > half - radius
}

/// Containment: a particle no wider than the viewport ends every step with
/// its whole circle inside the viewport, on both axes.
pub proof fn lemma_step_contained(p: Particle, vp: Viewport, dt: int)
    requires
        p.wf(),
        vp.wf(),
        valid_ticks(dt),
        p.radius <= vp.half_width,
        p.radius <= vp.half_height,
    ensures
        -vp.half_width + p.radius <= step(p, vp, dt).position.x <= vp.half_width - p.radius,
        -vp.half_height + p.radius <= step(p, vp, dt).position.y <= vp.half_height - p.radius,
        step(p, vp, dt).radius == p.radius,
{
    lemma_axis_step_bounds(p.position.x as int, p.velocity.x as int, vp.half_width as int, p.radius as int, dt);
    lemma_axis_step_bounds(p.position.y as int, p.velocity.y as int, vp.half_height as int, p.radius as int, dt);
}

/// Reflection: on an axis where the step crosses a wall the velocity
/// component is negated once, so its magnitude is kept and a non-zero
/// component changes sign; on an axis where it does not, the component is
/// kept as it is.
pub proof fn lemma_step_reflects(p: Particle, vp: Viewport, dt: int)
    requires
        p.wf(),
        vp.wf(),
        valid_ticks(dt),
    ensures
        ({
            let q = step(p, vp, dt);
            let cx = crosses(p.position.x as int, p.velocity.x as int, vp.half_width as int, p.radius as int, dt);
            let cy = crosses(p.position.y as int, p.velocity.y as int, vp.half_height as int, p.radius as int, dt);
            &&& cx ==> q.velocity.x == -p.velocity.x
            &&& cx ==> abs(q.velocity.x as int) == abs(p.velocity.x as int)
            &&& cx && p.velocity.x != 0 ==> (q.velocity.x < 0 <==> p.velocity.x > 0)
            &&& !cx ==> q.velocity.x == p.velocity.x
            &&& cy ==> q.velocity.y == -p.velocity.y
            &&& cy ==> abs(q.velocity.y as int) == abs(p.velocity.y as int)
            &&& cy && p.velocity.y != 0 ==> (q.velocity.y < 0 <==> p.velocity.y > 0)
            &&& !cy ==> q.velocity.y == p.velocity.y
        }),
{
    lemma_axis_step_bounds(p.position.x as int, p.velocity.x as int, vp.half_width as int, p.radius as int, dt);
    lemma_axis_step_bounds(p.position.y as int, p.velocity.y as int, vp.half_height as int, p.radius as int, dt);
}

/// Free flight: a particle whose step crosses no wall moves by exactly its
/// velocity times `dt` and keeps its velocity, radius and colour.
pub proof fn lemma_step_free_flight(p: Particle, vp: Viewport, dt: int)
    requires
        p.wf(),
        vp.wf(),
        valid_ticks(dt),
        !crosses(p.position.x as int, p.velocity.x as int, vp.half_width as int, p.radius as int, dt),
        !crosses(p.position.y as int, p.velocity.y as int, vp.half_height as int, p.radius as int, dt),
    ensures
        step(p, vp, dt).position.x == p.position.x + p.velocity.x * dt,
        step(p, vp, dt).position.y == p.position.y + p.velocity.y * dt,
        step(p, vp, dt).velocity == p.velocity,
        step(p, vp, dt).radius == p.radius,
        step(p, vp, dt).color == p.color,
{
    lemma_axis_step_bounds(p.position.x as int, p.velocity.x as int, vp.half_width as int, p.radius as int, dt);
    lemma_axis_step_bounds(p.position.y as int, p.velocity.y as int, vp.half_height as int, p.radius as int, dt);
}

/// Every particle of `s` is well formed.
pub open spec fn all_wf(s: Seq<Particle>) -> bool {
    forall|i: int| 0 <= i < s.len() ==> #[trigger] s[i].wf()
}

/// Every particle of `s` after one reflection step.
pub open spec fn step_all(s: Seq<Particle>, vp: Viewport, dt: int) -> Seq<Particle> {
    s.map_values(|p: Particle| step(p, vp, dt))
}

/// Advances every particle independently by one reflection step of `dt`
/// ticks. No particle is added or removed, and no two particles interact.
pub fn advance(particles: &mut Vec<Particle>, vp: &Viewport, dt: i64)
    requires
        all_wf(old(particles)@),
        vp.wf(),
        valid_ticks(dt as int),
    ensures
        final(particles)@ == step_all(old(particles)@, *vp, dt as int),
        final(particles)@.len() == old(particles)@.len(),
        all_wf(final(particles)@),
{
    let n: usize = particles.len();
    let mut i: usize = 0;
    while i < n
        invariant
            n == particles@.len(),
            n == old(particles)@.len(),
            i <= n,
            vp.wf(),
            valid_ticks(dt as int),
            all_wf(old(particles)@),
            all_wf(particles@),
            forall|j: int| 0 <= j < i ==> particles@[j] == step(old(particles)@[j], *vp, dt as int),
            forall|j: int| i <= j < n ==> particles@[j] == old(particles)@[j],
        decreases n - i,
    {
        let mut p: Particle = particles[i];
        advance_particle(&mut p, vp, dt);
        particles.set(i, p);
        i = i + 1;
    }
    assert(particles@ =~= step_all(old(particles)@, *vp, dt as int));
}

/// The particles after one step per frame, each frame given as its
/// viewport and its number of ticks.
pub open spec fn run_frames(s: Seq<Particle>, frames: Seq<(Viewport, int)>) -> Seq<Particle>
    decreases frames.len(),
{
    if frames.len() == 0 {
        s
    } else {
        run_frames(step_all(s, frames[0].0, frames[0].1), frames.drop_first())
    }
}

/// Cardinality: any number of frames keeps the number of particles.
pub proof fn lemma_frames_keep_count(s: Seq<Particle>, frames: Seq<(Viewport, int)>)
    ensures
        run_frames(s, frames).len() == s.len(),
    decreases frames.len(),
{
    if frames.len() > 0 {
        lemma_frames_keep_count(step_all(s, frames[0].0, frames[0].1), frames.drop_first());
    }
}

} // verus!
