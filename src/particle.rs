//! Particles, sticks, and the motion of one particle over one time step.
use vstd::prelude::*;
use crate::fixed::{
    sat, tdiv, mul_div, reflected, add_sat, sub_sat, mul_sat, mul_div_sat, reflect,
    MICROS_PER_SECOND, FRICTION_NUM, FRICTION_DEN,
};

verus! {

/// A pair of coordinates in thousandths of a world unit (or a rate of them).
#[derive(Clone, Copy, Debug, PartialEq, Eq, Structural)]
pub struct Vec2 {
    pub x: i64,
    pub y: i64,
}

impl Vec2 {
    pub fn new(x: i64, y: i64) -> (r: Vec2)
        ensures
            r == (Vec2 { x, y }),
    {
        Vec2 { x, y }
    }

    pub fn zero() -> (r: Vec2)
        ensures
            r == (Vec2 { x: 0, y: 0 }),
    {
        Vec2 { x: 0, y: 0 }
    }
}

/// Colour of a particle: carried for drawing, never read by the engine.
#[derive(Clone, Copy, Debug, PartialEq, Eq, Structural)]
pub struct Colour {
    pub red: u8,
    pub green: u8,
    pub blue: u8,
    pub alpha: u8,
}

/// Restitution given to a new particle: 0.85, in thousandths.
pub const DEFAULT_RESTITUTION: i64 = 850;

/// A point mass.
///
/// `vel` is the explicit velocity (sub-units per second) used by the explicit
/// integrator; `old_pos` and `force` are the state of the Verlet integrator.
#[derive(Clone, Copy, Debug, PartialEq, Eq, Structural)]
pub struct Particle {
    pub pos: Vec2,
    pub old_pos: Vec2,
    pub vel: Vec2,
    pub force: Vec2,
    pub mass: i64,
    pub radius: i64,
    pub colour: Colour,
    pub restitution: i64,
    pub id: u32,
}

/// A distance relation between the particles with ids `id_1` and `id_2`.
#[derive(Clone, Copy, Debug, PartialEq, Eq, Structural)]
pub struct Stick {
    pub id_1: u32,
    pub id_2: u32,
    pub distance: i64,
}

impl Particle {
    /// A particle at rest at `pos`, with no pending force.
    pub fn new(pos: Vec2, mass: i64, radius: i64, colour: Colour, id: u32) -> (r: Particle)
        ensures
            r == (Particle {
                pos,
                old_pos: pos,
                vel: Vec2 { x: 0, y: 0 },
                force: Vec2 { x: 0, y: 0 },
                mass,
                radius,
                colour,
                restitution: DEFAULT_RESTITUTION,
                id,
            }),
    {
        Particle {
            pos,
            old_pos: pos,
            vel: Vec2::zero(),
            force: Vec2::zero(),
            mass,
            radius,
            colour,
            restitution: DEFAULT_RESTITUTION,
            id,
        }
    }

    /// Adds `(amount_x, amount_y)` to the force pending for the next step.
    pub fn add_impulse(&mut self, amount_x: i64, amount_y: i64)
        ensures
            *final(self) == impulsed(*old(self), amount_x as int, amount_y as int),
    {
        self.force = Vec2 { x: add_sat(self.force.x, amount_x), y: add_sat(self.force.y, amount_y) };
    }
}

/// `p` with `(dx, dy)` added to its pending force.
pub open spec fn impulsed(p: Particle, dx: int, dy: int) -> Particle {
    Particle {
        force: Vec2 { x: sat(p.force.x + dx) as i64, y: sat(p.force.y + dy) as i64 },
        ..p
    }
}

/// Half of a full extent, the distance from the centre to a wall.
pub open spec fn half(extent: i64) -> int {
    tdiv(extent as int, 2)
}

/// Position of a particle of radius `r` pressed against the low wall.
pub open spec fn low_snap(r: int, h: int) -> int {
    sat(r - h)
}

/// Position of a particle of radius `r` pressed against the high wall.
pub open spec fn high_snap(r: int, h: int) -> int {
    sat(h - r)
}

/// Free flight of the explicit integrator, before any wall is consulted:
/// the position advanced by `v dt + a dt^2 / 2`, and the velocity by `a dt`,
/// where `a` is the scaled gravity and acts along y.
pub open spec fn explicit_flight(p: Particle, gravity: i64, scale: i64, dt: i64) -> (Vec2, Vec2) {
    let a = sat(gravity * scale);
    let dv = mul_div(a, dt as int, MICROS_PER_SECOND as int);
    let x = sat(p.pos.x + mul_div(p.vel.x as int, dt as int, MICROS_PER_SECOND as int));
    let y = sat(
        p.pos.y + sat(
            mul_div(p.vel.y as int, dt as int, MICROS_PER_SECOND as int) + mul_div(
                dv,
                dt as int,
                2 * MICROS_PER_SECOND,
            ),
        ),
    );
    (Vec2 { x: x as i64, y: y as i64 }, Vec2 { x: p.vel.x, y: sat(p.vel.y + dv) as i64 })
}

/// One step of the explicit integrator: free flight, then the bottom wall
/// (reflection and friction on the whole velocity), then the left or the right
/// wall, then the top wall, each with a reflection scaled by the restitution.
pub open spec fn explicit_motion(p: Particle, gravity: i64, scale: i64, bounds: Vec2, dt: i64) -> Particle {
    let (pos1, vel1) = explicit_flight(p, gravity, scale, dt);
    let r = p.radius as int;
    let e = p.restitution as int;
    let hx = half(bounds.x);
    let hy = half(bounds.y);
    let bottom = pos1.y - r < -hy;
    let y2 = if bottom { low_snap(r, hy) } else { pos1.y as int };
    let vx2 = if bottom { mul_div(vel1.x as int, FRICTION_NUM as int, FRICTION_DEN as int) } else { vel1.x as int };
    let vy2 = if bottom {
        mul_div(reflected(vel1.y as int, e), FRICTION_NUM as int, FRICTION_DEN as int)
    } else {
        vel1.y as int
    };
    let x3 = if pos1.x - r < -hx {
        low_snap(r, hx)
    } else if pos1.x + r > hx {
        high_snap(r, hx)
    } else {
        pos1.x as int
    };
    let vx3 = if pos1.x - r < -hx || pos1.x + r > hx { reflected(vx2, e) } else { vx2 };
    let top = y2 + r > hy;
    let y4 = if top { high_snap(r, hy) } else { y2 };
    let vy4 = if top { reflected(vy2, e) } else { vy2 };
    Particle { pos: Vec2 { x: x3 as i64, y: y4 as i64 }, vel: Vec2 { x: vx3 as i64, y: vy4 as i64 }, ..p }
}

/// Acceleration from the pending force; a particle without positive mass
/// takes none.
pub open spec fn force_accel(f: int, mass: int) -> int {
    if mass > 0 { tdiv(f, mass) } else { 0 }
}

/// Displacement over `dt` under acceleration `a`, scaled: `a scale dt^2`.
pub open spec fn verlet_shift(a: int, scale: i64, dt: i64) -> int {
    mul_div(
        mul_div(sat(a * scale), dt as int, MICROS_PER_SECOND as int),
        dt as int,
        MICROS_PER_SECOND as int,
    )
}

/// One axis of the Verlet wall check: the new position and previous position,
/// given the tentative position `q`, the position `prev` before the step and
/// the implied velocity `v`. On a wall the particle is pressed against it and
/// its previous position is set so that the next step moves it away at speed `v`.
pub open spec fn verlet_wall(q: int, prev: int, v: int, r: int, h: int) -> (int, int) {
    if q - r < -h {
        (low_snap(r, h), sat(low_snap(r, h) + v))
    } else if q + r > h {
        (high_snap(r, h), sat(high_snap(r, h) + v))
    } else {
        (q, prev)
    }
}

/// One step of the Verlet integrator: the implied velocity is the last
/// displacement; the pending force over the mass, plus gravity on y, gives the
/// acceleration; each axis is then held inside the walls; the force is spent.
pub open spec fn verlet_motion(p: Particle, gravity: i64, scale: i64, bounds: Vec2, dt: i64) -> Particle {
    let vx = sat(p.pos.x - p.old_pos.x);
    let vy = sat(p.pos.y - p.old_pos.y);
    let ax = force_accel(p.force.x as int, p.mass as int);
    let ay = sat(force_accel(p.force.y as int, p.mass as int) + gravity);
    let qx = sat(sat(p.pos.x + vx) + verlet_shift(ax, scale, dt));
    let qy = sat(sat(p.pos.y + vy) + verlet_shift(ay, scale, dt));
    let r = p.radius as int;
    let (y, oy) = verlet_wall(qy, p.pos.y as int, vy, r, half(bounds.y));
    let (x, ox) = verlet_wall(qx, p.pos.x as int, vx, r, half(bounds.x));
    Particle {
        pos: Vec2 { x: x as i64, y: y as i64 },
        old_pos: Vec2 { x: ox as i64, y: oy as i64 },
        force: Vec2 { x: 0, y: 0 },
        ..p
    }
}

pub(crate) fn half_of(extent: i64) -> (r: i64)
    ensures
        r == half(extent),
{
    mul_div_sat(extent, 1, 2)
}

fn below_low(q: i64, r: i64, h: i64) -> (b: bool)
    ensures
        b == (q - r < -h),
{
    (q as i128) - (r as i128) < -(h as i128)
}

fn above_high(q: i64, r: i64, h: i64) -> (b: bool)
    ensures
        b == (q + r > h),
{
    (q as i128) + (r as i128) > (h as i128)
}

pub(crate) fn integrate_explicit(p: &Particle, gravity: i64, scale: i64, bounds: Vec2, dt: i64) -> (out: Particle)
    ensures
        out == explicit_motion(*p, gravity, scale, bounds, dt),
{
    let a = mul_sat(gravity, scale);
    let dv = mul_div_sat(a, dt, MICROS_PER_SECOND);
    let x1 = add_sat(p.pos.x, mul_div_sat(p.vel.x, dt, MICROS_PER_SECOND));
    let dy = add_sat(mul_div_sat(p.vel.y, dt, MICROS_PER_SECOND), mul_div_sat(dv, dt, 2 * MICROS_PER_SECOND));
    let y1 = add_sat(p.pos.y, dy);
    let vy1 = add_sat(p.vel.y, dv);
    let r = p.radius;
    let e = p.restitution;
    let hx = half_of(bounds.x);
    let hy = half_of(bounds.y);

    let mut y = y1;
    let mut vx = p.vel.x;
    let mut vy = vy1;
    if below_low(y1, r, hy) {
        y = sub_sat(r, hy);
        vy = mul_div_sat(reflect(vy1, e), FRICTION_NUM, FRICTION_DEN);
        vx = mul_div_sat(p.vel.x, FRICTION_NUM, FRICTION_DEN);
    }
    let mut x = x1;
    if below_low(x1, r, hx) {
        x = sub_sat(r, hx);
        vx = reflect(vx, e);
    } else if above_high(x1, r, hx) {
        x = sub_sat(hx, r);
        vx = reflect(vx, e);
    }
    if above_high(y, r, hy) {
        y = sub_sat(hy, r);
        vy = reflect(vy, e);
    }
    Particle { pos: Vec2 { x, y }, vel: Vec2 { x: vx, y: vy }, ..*p }
}

fn accel_from_force(f: i64, mass: i64) -> (a: i64)
    ensures
        a == force_accel(f as int, mass as int),
{
    if mass > 0 {
        mul_div_sat(f, 1, mass)
    } else {
        0
    }
}

fn shift_by(a: i64, scale: i64, dt: i64) -> (d: i64)
    ensures
        d == verlet_shift(a as int, scale, dt),
{
    mul_div_sat(mul_div_sat(mul_sat(a, scale), dt, MICROS_PER_SECOND), dt, MICROS_PER_SECOND)
}

fn wall_check(q: i64, prev: i64, v: i64, r: i64, h: i64) -> (out: (i64, i64))
    ensures
        (out.0 as int, out.1 as int) == verlet_wall(q as int, prev as int, v as int, r as int, h as int),
{
    if below_low(q, r, h) {
        let s = sub_sat(r, h);
        (s, add_sat(s, v))
    } else if above_high(q, r, h) {
        let s = sub_sat(h, r);
        (s, add_sat(s, v))
    } else {
        (q, prev)
    }
}

pub(crate) fn integrate_verlet(p: &Particle, gravity: i64, scale: i64, bounds: Vec2, dt: i64) -> (out: Particle)
    ensures
        out == verlet_motion(*p, gravity, scale, bounds, dt),
{
    let vx = sub_sat(p.pos.x, p.old_pos.x);
    let vy = sub_sat(p.pos.y, p.old_pos.y);
    let ax = accel_from_force(p.force.x, p.mass);
    let ay = add_sat(accel_from_force(p.force.y, p.mass), gravity);
    let qx = add_sat(add_sat(p.pos.x, vx), shift_by(ax, scale, dt));
    let qy = add_sat(add_sat(p.pos.y, vy), shift_by(ay, scale, dt));
    let (y, oy) = wall_check(qy, p.pos.y, vy, p.radius, half_of(bounds.y));
    let (x, ox) = wall_check(qx, p.pos.x, vx, p.radius, half_of(bounds.x));
    Particle { pos: Vec2 { x, y }, old_pos: Vec2 { x: ox, y: oy }, force: Vec2::zero(), ..*p }
}

} // verus!
