//! The world: its particles in ascending id order, its sticks, and the
//! parameters shared by every particle.
use vstd::prelude::*;
use crate::particle::{
    Particle, Stick, Vec2, impulsed, explicit_motion, verlet_motion, integrate_explicit,
    integrate_verlet,
};

verus! {

/// How a step advances the particles.
#[derive(Clone, Copy, Debug, PartialEq, Eq, Structural)]
pub enum IntegrationMode {
    /// Explicit velocity, gravity, restitution on every wall, friction on the floor.
    Explicit,
    /// Position history, pending forces, walls that mirror the implied velocity.
    Verlet,
}

/// What a world holds, as a mathematical value.
pub ghost struct WorldModel {
    pub particles: Seq<Particle>,
    pub sticks: Seq<Stick>,
    pub gravity: i64,
    pub bounds: Vec2,
    pub scale: i64,
    pub next_id: u32,
    pub mode: IntegrationMode,
}

/// Ids strictly increase along the sequence.
pub open spec fn ids_ascending(s: Seq<Particle>) -> bool {
    forall|i: int, j: int| 0 <= i < j < s.len() ==> s[i].id < s[j].id
}

/// Some particle of `s` has id `id`.
pub open spec fn has_id(s: Seq<Particle>, id: u32) -> bool {
    exists|i: int| 0 <= i < s.len() && s[i].id == id
}

/// `p` moved by one step of length `dt` under the model's parameters.
pub open spec fn moved(m: WorldModel, p: Particle, dt: i64) -> Particle {
    match m.mode {
        IntegrationMode::Explicit => explicit_motion(p, m.gravity, m.scale, m.bounds, dt),
        IntegrationMode::Verlet => verlet_motion(p, m.gravity, m.scale, m.bounds, dt),
    }
}

/// The model after one step: every particle moved, nothing else changed.
pub open spec fn stepped(m: WorldModel, dt: i64) -> WorldModel {
    WorldModel { particles: m.particles.map_values(|p: Particle| moved(m, p, dt)), ..m }
}

/// The model after every particle received the impulse `(dx, dy)`.
pub open spec fn pushed(m: WorldModel, dx: i64, dy: i64) -> WorldModel {
    WorldModel {
        particles: m.particles.map_values(|p: Particle| impulsed(p, dx as int, dy as int)),
        ..m
    }
}

/// The model with no particles and no sticks; the id counter is kept.
pub open spec fn cleared(m: WorldModel) -> WorldModel {
    WorldModel { particles: Seq::empty(), sticks: Seq::empty(), ..m }
}

/// A copy of `v` with `p` inserted at index `k`.
fn inserted(v: &Vec<Particle>, k: usize, p: Particle) -> (out: Vec<Particle>)
    requires
        k <= v@.len(),
    ensures
        out@ == v@.insert(k as int, p),
{
    let mut out: Vec<Particle> = Vec::new();
    let n = v.len();
    for i in 0..k
        invariant
            k <= n == v@.len(),
            out@ == v@.subrange(0, i as int),
    {
        out.push(v[i]);
        assert(out@ =~= v@.subrange(0, i + 1));
    }
    out.push(p);
    for i in k..n
        invariant
            k <= n == v@.len(),
            out@ == v@.subrange(0, k as int).push(p) + v@.subrange(k as int, i as int),
    {
        out.push(v[i]);
        assert(out@ =~= v@.subrange(0, k as int).push(p) + v@.subrange(k as int, i + 1));
    }
    assert(out@ =~= v@.insert(k as int, p));
    out
}

/// A copy of `v` with `s` added at the end.
fn appended(v: &Vec<Stick>, s: Stick) -> (out: Vec<Stick>)
    ensures
        out@ == v@.push(s),
{
    let mut out: Vec<Stick> = Vec::new();
    for i in 0..v.len()
        invariant
            out@ == v@.subrange(0, i as int),
    {
        out.push(v[i]);
        assert(out@ =~= v@.subrange(0, i + 1));
    }
    out.push(s);
    assert(out@ =~= v@.push(s));
    out
}

pub struct PhysicsWorld {
    objects: Vec<Particle>,
    connections: Vec<Stick>,
    gravity: i64,
    world_bounds: Vec2,
    scale: i64,
    current_id: u32,
    mode: IntegrationMode,
}

impl View for PhysicsWorld {
    type V = WorldModel;

    closed spec fn view(&self) -> WorldModel {
        WorldModel {
            particles: self.objects@,
            sticks: self.connections@,
            gravity: self.gravity,
            bounds: self.world_bounds,
            scale: self.scale,
            next_id: self.current_id,
            mode: self.mode,
        }
    }
}

impl PhysicsWorld {
    #[verifier::type_invariant]
    closed spec fn well_formed(&self) -> bool {
        ids_ascending(self.objects@)
    }

    /// An empty world with the Verlet integrator.
    ///
    /// `gravity` is in thousandths of a unit per second squared (negative is
    /// down), `world_bounds` the full width and height in thousandths of a
    /// unit, and `scale` multiplies gravity.
    pub fn new(gravity: i64, world_bounds: Vec2, scale: i64) -> (w: PhysicsWorld)
        ensures
            w@ == (WorldModel {
                particles: Seq::empty(),
                sticks: Seq::empty(),
                gravity,
                bounds: world_bounds,
                scale,
                next_id: 0,
                mode: IntegrationMode::Verlet,
            }),
    {
        PhysicsWorld::with_mode(gravity, world_bounds, scale, IntegrationMode::Verlet)
    }

    /// An empty world that steps with the given integrator.
    pub fn with_mode(gravity: i64, world_bounds: Vec2, scale: i64, mode: IntegrationMode) -> (w: PhysicsWorld)
        ensures
            w@ == (WorldModel {
                particles: Seq::empty(),
                sticks: Seq::empty(),
                gravity,
                bounds: world_bounds,
                scale,
                next_id: 0,
                mode,
            }),
    {
        let w = PhysicsWorld {
            objects: Vec::new(),
            connections: Vec::new(),
            gravity,
            world_bounds,
            scale,
            current_id: 0,
            mode,
        };
        assert(w.objects@ =~= Seq::<Particle>::empty());
        assert(w.connections@ =~= Seq::<Stick>::empty());
        w
    }

    /// Replaces the full width and height of the box.
    pub fn set_bounds(&mut self, new_bounds: Vec2)
        ensures
            final(self)@ == (WorldModel { bounds: new_bounds, ..old(self)@ }),
    {
        proof {
            use_type_invariant(&*self);
        }
        if self.world_bounds != new_bounds {
            self.world_bounds = new_bounds;
        }
    }

    /// Hands out the current id and advances the counter.
    pub fn next_id(&mut self) -> (id: u32)
        requires
            old(self)@.next_id < u32::MAX,
        ensures
            id == old(self)@.next_id,
            final(self)@ == (WorldModel { next_id: (id + 1) as u32, ..old(self)@ }),
    {
        proof {
            use_type_invariant(&*self);
        }
        let current = self.current_id;
        self.current_id = current + 1;
        current
    }

    /// The particle with id `target_id`, found by binary search.
    pub fn get_particle_by_id(&self, target_id: u32) -> (r: Option<&Particle>)
        ensures
            ids_ascending(self@.particles),
            r.is_some() <==> has_id(self@.particles, target_id),
            r matches Some(p) ==> p.id == target_id && self@.particles.contains(*p),
    {
        proof {
            use_type_invariant(self);
        }
        let mut lo: usize = 0;
        let mut hi: usize = self.objects.len();
        while lo < hi
            invariant
                0 <= lo <= hi <= self.objects@.len(),
                ids_ascending(self.objects@),
                forall|k: int| 0 <= k < lo ==> self.objects@[k].id < target_id,
                forall|k: int| hi <= k < self.objects@.len() ==> self.objects@[k].id > target_id,
            decreases hi - lo,
        {
            let mid: usize = lo + (hi - lo) / 2;
            let m = self.objects[mid].id;
            if m == target_id {
                assert(self.objects@.contains(self.objects@[mid as int]));
                return Some(&self.objects[mid]);
            } else if m < target_id {
                lo = mid + 1;
            } else {
                hi = mid;
            }
        }
        None
    }

    /// The id that `next_id` hands out next.
    pub fn peek_id(&self) -> (id: u32)
        ensures
            id == self@.next_id,
    {
        self.current_id
    }

    /// The particles, in ascending id order.
    pub fn get_particles(&self) -> (r: &Vec<Particle>)
        ensures
            r@ == self@.particles,
            ids_ascending(r@),
    {
        proof {
            use_type_invariant(self);
        }
        &self.objects
    }

    /// Inserts `object` at the place its id takes in ascending order.
    /// Returns false, and changes nothing, when its id is already present.
    pub fn add_object(&mut self, object: Particle) -> (added: bool)
        ensures
            added == !has_id(old(self)@.particles, object.id),
            !added ==> final(self)@ == old(self)@,
            added ==> exists|k: int|
                0 <= k <= old(self)@.particles.len()
                && final(self)@ == (WorldModel { particles: #[trigger] old(self)@.particles.insert(k, object), ..old(self)@ })
                && (forall|j: int| 0 <= j < k ==> old(self)@.particles[j].id < object.id)
                && (forall|j: int| k <= j < old(self)@.particles.len() ==> old(self)@.particles[j].id > object.id),
    {
        proof {
            use_type_invariant(&*self);
        }
        let mut lo: usize = 0;
        let mut hi: usize = self.objects.len();
        while lo < hi
            invariant
                0 <= lo <= hi <= self.objects@.len(),
                ids_ascending(self.objects@),
                forall|k: int| 0 <= k < lo ==> self.objects@[k].id < object.id,
                forall|k: int| hi <= k < self.objects@.len() ==> self.objects@[k].id >= object.id,
            decreases hi - lo,
        {
            let mid: usize = lo + (hi - lo) / 2;
            if self.objects[mid].id < object.id {
                lo = mid + 1;
            } else {
                hi = mid;
            }
        }
        if lo < self.objects.len() && self.objects[lo].id == object.id {
            return false;
        }
        proof {
            assert forall|k: int| lo <= k < self.objects@.len() implies self.objects@[k].id > object.id by {
                if self.objects@[k].id == object.id {
                    assert(k == lo || self.objects@[lo as int].id < self.objects@[k].id);
                }
            }
        }
        let ghost before = self.objects@;
        self.objects = inserted(&self.objects, lo, object);
        proof {
            let after = self.objects@;
            assert forall|i: int, j: int| 0 <= i < j < after.len() implies after[i].id < after[j].id by {
                if j < lo {
                } else if j == lo {
                } else if i < lo {
                    assert(after[j] == before[j - 1]);
                } else if i == lo {
                    assert(after[j] == before[j - 1]);
                } else {
                    assert(after[i] == before[i - 1]);
                    assert(after[j] == before[j - 1]);
                }
            }
        }
        assert(self@ == (WorldModel { particles: old(self)@.particles.insert(lo as int, object), ..old(self)@ }));
        true
    }

    /// The sticks, in the order they were added.
    pub fn get_sticks(&self) -> (r: &Vec<Stick>)
        ensures
            r@ == self@.sticks,
    {
        &self.connections
    }

    /// Records `stick`; its ids need not name present particles.
    pub fn add_stick(&mut self, stick: Stick)
        ensures
            final(self)@ == (WorldModel { sticks: old(self)@.sticks.push(stick), ..old(self)@ }),
    {
        proof {
            use_type_invariant(&*self);
        }
        self.connections = appended(&self.connections, stick);
    }

    /// Removes every particle and every stick; ids are never handed out twice.
    pub fn clear(&mut self)
        ensures
            final(self)@ == cleared(old(self)@),
    {
        self.objects = Vec::new();
        self.connections = Vec::new();
        assert(self.objects@ =~= Seq::<Particle>::empty());
        assert(self.connections@ =~= Seq::<Stick>::empty());
    }

    /// Adds `(amount_x, amount_y)` to the pending force of every particle.
    pub fn add_impulses(&mut self, amount_x: i64, amount_y: i64)
        ensures
            final(self)@ == pushed(old(self)@, amount_x, amount_y),
    {
        proof {
            use_type_invariant(&*self);
        }
        let mut out: Vec<Particle> = Vec::new();
        let n = self.objects.len();
        for i in 0..n
            invariant
                n == self.objects@.len(),
                out@.len() == i,
                forall|k: int| 0 <= k < i ==> out@[k] == impulsed(self.objects@[k], amount_x as int, amount_y as int),
        {
            let mut p = self.objects[i];
            p.add_impulse(amount_x, amount_y);
            out.push(p);
        }
        let ghost before = self.objects@;
        self.objects = out;
        assert(self.objects@ =~= before.map_values(|p: Particle| impulsed(p, amount_x as int, amount_y as int)));
    }

    /// Advances every particle by `delta_time` microseconds.
    pub fn step(&mut self, delta_time: i64)
        ensures
            final(self)@ == stepped(old(self)@, delta_time),
    {
        proof {
            use_type_invariant(&*self);
        }
        let mut out: Vec<Particle> = Vec::new();
        let n = self.objects.len();
        for i in 0..n
            invariant
                n == self.objects@.len(),
                out@.len() == i,
                forall|k: int| 0 <= k < i ==> out@[k] == moved(self@, self.objects@[k], delta_time),
        {
            let p = match self.mode {
                IntegrationMode::Explicit => integrate_explicit(
                    &self.objects[i],
                    self.gravity,
                    self.scale,
                    self.world_bounds,
                    delta_time,
                ),
                IntegrationMode::Verlet => integrate_verlet(
                    &self.objects[i],
                    self.gravity,
                    self.scale,
                    self.world_bounds,
                    delta_time,
                ),
            };
            out.push(p);
        }
        let ghost m = self@;
        self.objects = out;
        assert(self.objects@ =~= m.particles.map_values(|p: Particle| moved(m, p, delta_time)));
    }

    /// The two ends of `stick`, or nothing when either id is not present.
    pub fn stick_ends(&self, stick: &Stick) -> (r: Option<(Vec2, Vec2)>)
        ensures
            r.is_some() <==> has_id(self@.particles, stick.id_1) && has_id(self@.particles, stick.id_2),
            r matches Some(ends) ==> exists|i: int, j: int|
                0 <= i < self@.particles.len() && 0 <= j < self@.particles.len()
                && self@.particles[i].id == stick.id_1 && self@.particles[j].id == stick.id_2
                && ends == (self@.particles[i].pos, self@.particles[j].pos),
    {
        match self.get_particle_by_id(stick.id_1) {
            Some(a) => match self.get_particle_by_id(stick.id_2) {
                Some(b) => Some((a.pos, b.pos)),
                None => None,
            },
            None => None,
        }
    }
}

} // verus!
