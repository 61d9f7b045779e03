//! Properties of the engine that hold across inputs and calls.
use vstd::prelude::*;
use crate::fixed::{tdiv, mul_div, reflected, RATIO_ONE, MICROS_PER_SECOND};
use crate::particle::{Particle, Vec2, half, explicit_flight, explicit_motion, verlet_motion, verlet_shift};
use crate::world::{WorldModel, has_id, moved, stepped, cleared};

verus! {

/// `p` is no larger than the box: its radius is at most the full extent on
/// each axis (rounded down to an even number of sub-units).
pub open spec fn fits(p: Particle, bounds: Vec2) -> bool {
    0 <= p.radius <= 2 * half(bounds.x) && 0 <= p.radius <= 2 * half(bounds.y)
}

/// The centre of `p` lies in the box of full extent `bounds` centred at the origin.
pub open spec fn inside(p: Particle, bounds: Vec2) -> bool {
    -half(bounds.x) <= p.pos.x <= half(bounds.x) && -half(bounds.y) <= p.pos.y <= half(bounds.y)
}

/// After one step, in either mode, a particle that fits in the box has its
/// centre inside the box, wherever it was before the step.
pub proof fn lemma_step_keeps_inside(m: WorldModel, p: Particle, dt: i64)
    requires
        fits(p, m.bounds),
    ensures
        inside(moved(m, p, dt), m.bounds),
{
    let hx = half(m.bounds.x);
    let hy = half(m.bounds.y);
    assert(i64::MIN / 2 <= hx <= i64::MAX / 2);
    assert(i64::MIN / 2 <= hy <= i64::MAX / 2);
}

/// After `step`, every particle that fits in the box has its centre inside it.
pub proof fn lemma_world_step_keeps_inside(m: WorldModel, dt: i64)
    ensures
        forall|i: int|
            0 <= i < m.particles.len() && fits(m.particles[i], m.bounds)
                ==> inside(#[trigger] stepped(m, dt).particles[i], stepped(m, dt).bounds),
{
    assert forall|i: int|
        0 <= i < m.particles.len() && fits(m.particles[i], m.bounds)
            implies inside(#[trigger] stepped(m, dt).particles[i], stepped(m, dt).bounds) by {
        lemma_step_keeps_inside(m, m.particles[i], dt);
    }
}

/// With restitution one and no gravity, a step of the explicit integrator
/// that does not reach the floor keeps the magnitude of each velocity
/// component: side and top walls only mirror it. So the speed is kept over
/// any number of such steps.
pub proof fn lemma_explicit_ideal_bounce_keeps_speed(p: Particle, scale: i64, bounds: Vec2, dt: i64)
    requires
        p.restitution == RATIO_ONE,
        p.vel.x > i64::MIN,
        p.vel.y > i64::MIN,
        explicit_flight(p, 0, scale, dt).0.y - p.radius >= -half(bounds.y),
    ensures
        explicit_motion(p, 0, scale, bounds, dt).vel.x == p.vel.x
            || explicit_motion(p, 0, scale, bounds, dt).vel.x == -p.vel.x,
        explicit_motion(p, 0, scale, bounds, dt).vel.y == p.vel.y
            || explicit_motion(p, 0, scale, bounds, dt).vel.y == -p.vel.y,
{
    assert(mul_div(0, dt as int, MICROS_PER_SECOND as int) == 0);
    assert(reflected(p.vel.x as int, RATIO_ONE as int) == -p.vel.x) by {
        assert(tdiv(p.vel.x * 1000, 1000) == p.vel.x);
    }
    assert(reflected(p.vel.y as int, RATIO_ONE as int) == -p.vel.y) by {
        assert(tdiv(p.vel.y * 1000, 1000) == p.vel.y);
    }
}

/// The velocity that a Verlet particle carries: its last displacement.
pub open spec fn implied_velocity(p: Particle) -> (int, int) {
    (p.pos.x - p.old_pos.x, p.pos.y - p.old_pos.y)
}

/// Coordinates small enough that no sum in a step saturates.
pub open spec fn moderate(v: int) -> bool {
    -0x1000_0000_0000_0000 <= v <= 0x1000_0000_0000_0000
}

/// Without gravity and without pending force, a Verlet step keeps the
/// magnitude of each component of the implied velocity, whether or not a wall
/// mirrors it. So the speed is kept over any number of steps.
pub proof fn lemma_verlet_bounce_keeps_speed(p: Particle, scale: i64, bounds: Vec2, dt: i64)
    requires
        p.force == (Vec2 { x: 0, y: 0 }),
        moderate(p.pos.x as int),
        moderate(p.pos.y as int),
        moderate(p.old_pos.x as int),
        moderate(p.old_pos.y as int),
        moderate(p.radius as int),
        moderate(bounds.x as int),
        moderate(bounds.y as int),
    ensures
        implied_velocity(verlet_motion(p, 0, scale, bounds, dt)).0 == implied_velocity(p).0
            || implied_velocity(verlet_motion(p, 0, scale, bounds, dt)).0 == -implied_velocity(p).0,
        implied_velocity(verlet_motion(p, 0, scale, bounds, dt)).1 == implied_velocity(p).1
            || implied_velocity(verlet_motion(p, 0, scale, bounds, dt)).1 == -implied_velocity(p).1,
{
    assert(0 * (scale as int) == 0);
    assert(0 * (dt as int) == 0);
    assert(0int / (MICROS_PER_SECOND as int) == 0);
    assert(mul_div(0, dt as int, MICROS_PER_SECOND as int) == 0);
    assert(verlet_shift(0, scale, dt) == 0);
    if p.mass > 0 {
        assert(0int / (p.mass as int) == 0);
    }
    assert(-0x1000_0000_0000_0000 <= half(bounds.x) <= 0x1000_0000_0000_0000);
    assert(-0x1000_0000_0000_0000 <= half(bounds.y) <= 0x1000_0000_0000_0000);
}

/// In a sequence whose ids are `0, 1, 2, ...` in order, an id is present
/// exactly when it is below the length, and the particle that carries it is
/// the one at that index.
pub proof fn lemma_lookup_dense(s: Seq<Particle>, id: u32)
    requires
        forall|i: int| 0 <= i < s.len() ==> #[trigger] s[i].id == i,
    ensures
        has_id(s, id) <==> id < s.len(),
        forall|q: Particle| s.contains(q) && q.id == id ==> q == s[id as int],
{
    if id < s.len() {
        assert(s[id as int].id == id);
    }
    assert forall|q: Particle| s.contains(q) && q.id == id implies q == s[id as int] by {
        let j = choose|j: int| 0 <= j < s.len() && s[j] == q;
        assert(s[j].id == j);
    }
}

/// Clearing twice is clearing once, and clearing a world with no particles
/// and no sticks changes nothing, the id counter included.
pub proof fn lemma_clear_idempotent(m: WorldModel)
    ensures
        cleared(cleared(m)) == cleared(m),
        m.particles.len() == 0 && m.sticks.len() == 0 ==> cleared(m) == m,
{
    if m.particles.len() == 0 && m.sticks.len() == 0 {
        assert(m.particles =~= Seq::empty());
        assert(m.sticks =~= Seq::empty());
    }
}

} // verus!
