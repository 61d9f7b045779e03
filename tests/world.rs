use particle_physics::particle::{Colour, Particle, Stick, Vec2};
use particle_physics::world::{IntegrationMode, PhysicsWorld};

const WHITE: Colour = Colour { red: 255, green: 255, blue: 255, alpha: 255 };

fn particle(x: i64, y: i64, mass: i64, radius: i64, id: u32) -> Particle {
    Particle::new(Vec2::new(x, y), mass, radius, WHITE, id)
}

fn ids(world: &PhysicsWorld) -> Vec<u32> {
    world.get_particles().iter().map(|p| p.id).collect()
}

#[test]
fn new_particle_is_at_rest() {
    let p = particle(5, -7, 10, 20, 3);
    assert_eq!(p.pos, Vec2::new(5, -7));
    assert_eq!(p.old_pos, Vec2::new(5, -7));
    assert_eq!(p.vel, Vec2::zero());
    assert_eq!(p.force, Vec2::zero());
    assert_eq!(p.restitution, 850);
    assert_eq!(p.id, 3);
}

#[test]
fn impulses_accumulate_and_saturate() {
    let mut p = particle(0, 0, 1, 1, 0);
    p.add_impulse(3, -4);
    p.add_impulse(10, 10);
    assert_eq!(p.force, Vec2::new(13, 6));
    p.add_impulse(i64::MAX, i64::MIN);
    assert_eq!(p.force, Vec2::new(i64::MAX, i64::MIN + 6));
}

#[test]
fn new_world_is_empty() {
    let w = PhysicsWorld::new(-9810, Vec2::new(800_000, 600_000), 100);
    assert!(w.get_particles().is_empty());
    assert!(w.get_sticks().is_empty());
}

#[test]
fn ids_increase_from_zero_across_spawns_and_clears() {
    let mut w = PhysicsWorld::new(-9810, Vec2::new(800_000, 600_000), 100);
    let mut seen = Vec::new();
    for round in 0..5 {
        let a = w.next_id();
        let b = w.next_id();
        assert!(w.add_object(particle(0, 0, 10, 20, a)));
        assert!(w.add_object(particle(10, 0, 10, 20, b)));
        w.add_stick(Stick { id_1: a, id_2: b, distance: 100_000 });
        seen.push(a);
        seen.push(b);
        if round % 2 == 1 {
            w.clear();
        }
        w.step(16_000);
    }
    let expected: Vec<u32> = (0..10).collect();
    assert_eq!(seen, expected);
    assert_eq!(w.next_id(), 10);
}

#[test]
fn lookup_finds_every_present_id() {
    let mut w = PhysicsWorld::new(0, Vec2::new(1_000, 1_000), 1);
    for k in 0..7u32 {
        let id = w.next_id();
        assert!(w.add_object(particle(k as i64, 0, 1, 1, id)));
    }
    for k in 0..7u32 {
        let p = w.get_particle_by_id(k).expect("present");
        assert_eq!(p.id, k);
        assert_eq!(p.pos.x, k as i64);
    }
    assert!(w.get_particle_by_id(7).is_none());
    assert!(w.get_particle_by_id(u32::MAX).is_none());
}

#[test]
fn lookup_on_empty_world_finds_nothing() {
    let w = PhysicsWorld::new(0, Vec2::new(1_000, 1_000), 1);
    assert!(w.get_particle_by_id(0).is_none());
    assert!(w.get_particle_by_id(42).is_none());
}

#[test]
fn add_object_keeps_ids_in_order_and_refuses_duplicates() {
    let mut w = PhysicsWorld::new(0, Vec2::new(1_000, 1_000), 1);
    assert!(w.add_object(particle(0, 0, 1, 1, 5)));
    assert!(w.add_object(particle(0, 0, 1, 1, 2)));
    assert!(w.add_object(particle(0, 0, 1, 1, 9)));
    assert!(w.add_object(particle(0, 0, 1, 1, 7)));
    assert!(!w.add_object(particle(1, 1, 1, 1, 7)));
    assert_eq!(ids(&w), vec![2, 5, 7, 9]);
    assert_eq!(w.get_particle_by_id(7).unwrap().pos, Vec2::new(0, 0));
    assert!(w.get_particle_by_id(6).is_none());
}

#[test]
fn clear_on_empty_world_changes_nothing() {
    let mut w = PhysicsWorld::new(0, Vec2::new(1_000, 1_000), 1);
    assert_eq!(w.next_id(), 0);
    assert_eq!(w.next_id(), 1);
    w.clear();
    w.clear();
    assert!(w.get_particles().is_empty());
    assert!(w.get_sticks().is_empty());
    assert_eq!(w.next_id(), 2);
}

#[test]
fn clear_removes_particles_and_sticks_but_keeps_counter() {
    let mut w = PhysicsWorld::new(0, Vec2::new(1_000, 1_000), 1);
    let a = w.next_id();
    assert!(w.add_object(particle(0, 0, 1, 1, a)));
    w.add_stick(Stick { id_1: a, id_2: a, distance: 3 });
    w.clear();
    assert!(w.get_particles().is_empty());
    assert!(w.get_sticks().is_empty());
    assert_eq!(w.next_id(), 1);
}

#[test]
fn stick_ends_resolve_by_id_and_tolerate_missing_ends() {
    let mut w = PhysicsWorld::new(0, Vec2::new(1_000, 1_000), 1);
    assert!(w.add_object(particle(1, 2, 1, 1, 0)));
    assert!(w.add_object(particle(3, 4, 1, 1, 1)));
    let s = Stick { id_1: 1, id_2: 0, distance: 100 };
    w.add_stick(s);
    assert_eq!(w.get_sticks().len(), 1);
    assert_eq!(w.stick_ends(&s), Some((Vec2::new(3, 4), Vec2::new(1, 2))));
    let dangling = Stick { id_1: 0, id_2: 8, distance: 100 };
    assert_eq!(w.stick_ends(&dangling), None);
}

#[test]
fn set_bounds_replaces_bounds() {
    let mut w = PhysicsWorld::with_mode(0, Vec2::new(1_000, 1_000), 1, IntegrationMode::Verlet);
    assert!(w.add_object(particle(450, 0, 1, 10, 0)));
    w.set_bounds(Vec2::new(800, 1_000));
    w.step(1_000);
    // the new right wall stands at 400; a radius of 10 holds the centre at 390
    assert_eq!(w.get_particles()[0].pos.x, 390);
}

#[test]
fn explicit_drop_bounces_off_the_floor() {
    // gravity -9.81, scale 300, bounds 800 x 600, radius 20, restitution 0.85
    let mut w = PhysicsWorld::with_mode(-9810, Vec2::new(800_000, 600_000), 300, IntegrationMode::Explicit);
    assert!(w.add_object(particle(0, 0, 10, 20_000, 0)));
    let floor = -300_000 + 20_000;
    let mut hit = false;
    for _ in 0..50 {
        let before = w.get_particles()[0];
        w.step(1_000_000);
        let after = w.get_particles()[0];
        assert!(after.pos.y >= floor);
        if !hit && after.pos.y == floor {
            hit = true;
            // velocity just before the hit: before.vel.y plus one second of gravity
            let falling = before.vel.y - 2_943_000;
            assert_eq!(falling, -2_943_000);
            let reflected = -falling * 850 / 1000;
            assert_eq!(after.vel.y, reflected * 97 / 100);
            assert_eq!(after.vel.y, 2_426_503);
        }
    }
    assert!(hit);
}

#[test]
fn explicit_step_exact_free_flight() {
    let mut w = PhysicsWorld::with_mode(-9810, Vec2::new(800_000, 600_000), 100, IntegrationMode::Explicit);
    let mut p = particle(0, 0, 1, 1_000, 0);
    p.vel = Vec2::new(50_000, 0);
    assert!(w.add_object(p));
    w.step(100_000);
    let q = w.get_particles()[0];
    // a = -981000; dv = -98100; dy = 0.5 * dv * dt = -4905
    assert_eq!(q.vel, Vec2::new(50_000, -98_100));
    assert_eq!(q.pos, Vec2::new(5_000, -4_905));
}

#[test]
fn explicit_side_and_top_walls_reflect_without_friction() {
    let mut w = PhysicsWorld::with_mode(0, Vec2::new(1_000, 1_000), 1, IntegrationMode::Explicit);
    let mut p = particle(480, 480, 1, 10, 0);
    p.vel = Vec2::new(1_000, 1_000);
    assert!(w.add_object(p));
    w.step(100_000);
    let q = w.get_particles()[0];
    assert_eq!(q.pos, Vec2::new(490, 490));
    assert_eq!(q.vel, Vec2::new(-850, -850));
}

#[test]
fn explicit_bottom_wall_applies_friction_to_both_components() {
    let mut w = PhysicsWorld::with_mode(0, Vec2::new(1_000, 1_000), 1, IntegrationMode::Explicit);
    let mut p = particle(0, -480, 1, 10, 0);
    p.vel = Vec2::new(1_000, -1_000);
    p.restitution = 1_000;
    assert!(w.add_object(p));
    w.step(100_000);
    let q = w.get_particles()[0];
    assert_eq!(q.pos, Vec2::new(100, -490));
    assert_eq!(q.vel, Vec2::new(970, 970));
}

#[test]
fn explicit_ideal_bounce_keeps_speed_between_side_walls() {
    let mut w = PhysicsWorld::with_mode(0, Vec2::new(1_000, 1_000), 1, IntegrationMode::Explicit);
    let mut p = particle(0, 0, 1, 10, 0);
    p.vel = Vec2::new(3_000, 0);
    p.restitution = 1_000;
    assert!(w.add_object(p));
    let mut bounces = 0;
    for _ in 0..200 {
        let before = w.get_particles()[0].vel.x;
        w.step(50_000);
        let q = w.get_particles()[0];
        assert_eq!(q.vel.x.abs(), 3_000);
        assert_eq!(q.vel.y, 0);
        if q.vel.x != before {
            bounces += 1;
        }
    }
    assert!(bounces > 5);
}

#[test]
fn verlet_step_exact_gravity_shift() {
    let mut w = PhysicsWorld::new(-9810, Vec2::new(800_000, 600_000), 100);
    assert!(w.add_object(particle(0, 0, 10, 20_000, 0)));
    w.step(16_000);
    let q = w.get_particles()[0];
    // -9810 * 100 * 0.016^2 = -251.136
    assert_eq!(q.pos, Vec2::new(0, -251));
    assert_eq!(q.old_pos, Vec2::new(0, 0));
    w.step(16_000);
    let r = w.get_particles()[0];
    assert_eq!(r.pos, Vec2::new(0, -251 - 251 - 251));
    assert_eq!(r.old_pos, Vec2::new(0, -251));
}

#[test]
fn verlet_impulse_acts_for_one_step() {
    let mut w = PhysicsWorld::new(0, Vec2::new(4_000_000, 4_000_000), 1);
    assert!(w.add_object(particle(0, 0, 2, 10, 0)));
    assert!(w.add_object(particle(0, 0, 0, 10, 1)));
    w.add_impulses(2_000_000, 0);
    assert_eq!(w.get_particles()[0].force, Vec2::new(2_000_000, 0));
    w.step(1_000_000);
    let a = w.get_particles()[0];
    // acceleration 1_000_000 over one second
    assert_eq!(a.pos, Vec2::new(1_000_000, 0));
    assert_eq!(a.old_pos, Vec2::new(0, 0));
    assert_eq!(a.force, Vec2::zero());
    // a particle without positive mass takes no acceleration from force
    let b = w.get_particles()[1];
    assert_eq!(b.pos, Vec2::new(0, 0));
    assert_eq!(b.force, Vec2::zero());
}

#[test]
fn verlet_wall_mirrors_the_implied_velocity() {
    let mut w = PhysicsWorld::new(0, Vec2::new(1_000, 1_000), 1);
    let mut p = particle(480, 0, 1, 10, 0);
    p.old_pos = Vec2::new(460, 0);
    assert!(w.add_object(p));
    w.step(16_000);
    let q = w.get_particles()[0];
    assert_eq!(q.pos, Vec2::new(490, 0));
    assert_eq!(q.old_pos, Vec2::new(510, 0));
    w.step(16_000);
    let r = w.get_particles()[0];
    assert_eq!(r.pos, Vec2::new(470, 0));
    assert_eq!(r.pos.x - r.old_pos.x, -20);
}

#[test]
fn verlet_speed_kept_without_gravity() {
    let mut w = PhysicsWorld::new(0, Vec2::new(1_000, 800), 1);
    let mut p = particle(0, 0, 1, 10, 0);
    p.old_pos = Vec2::new(-7, 3);
    assert!(w.add_object(p));
    for _ in 0..500 {
        w.step(16_000);
        let q = w.get_particles()[0];
        assert_eq!((q.pos.x - q.old_pos.x).abs(), 7);
        assert_eq!((q.pos.y - q.old_pos.y).abs(), 3);
    }
}

#[test]
fn particles_stay_inside_in_both_modes() {
    for mode in [IntegrationMode::Explicit, IntegrationMode::Verlet] {
        let mut w = PhysicsWorld::with_mode(-9810, Vec2::new(800_000, 600_000), 300, mode);
        let starts = [(0, 0, 3_000_000, 5_000_000), (-390_000, 290_000, -9_000_000, 0), (100, -100, 1, -1)];
        for (k, (x, y, vx, vy)) in starts.iter().enumerate() {
            let mut p = particle(*x, *y, 10, 20_000, k as u32);
            p.vel = Vec2::new(*vx, *vy);
            p.old_pos = Vec2::new(x - vx / 100, y - vy / 100);
            assert!(w.add_object(p));
        }
        for step in 0..300 {
            if step % 37 == 0 {
                w.add_impulses(5_000_000, -3_000_000);
            }
            w.step(16_000 + (step as i64 % 5) * 7_000);
            for p in w.get_particles() {
                assert!(p.pos.x.abs() <= 400_000);
                assert!(p.pos.y.abs() <= 300_000);
            }
        }
    }
}

#[test]
fn huge_values_saturate_instead_of_overflowing() {
    let mut w = PhysicsWorld::with_mode(i64::MIN, Vec2::new(i64::MAX, i64::MAX), i64::MAX, IntegrationMode::Explicit);
    let mut p = particle(i64::MAX, i64::MIN, 1, 0, 0);
    p.vel = Vec2::new(i64::MAX, i64::MIN);
    assert!(w.add_object(p));
    w.step(i64::MAX);
    w.step(-1);
    let mut v = PhysicsWorld::new(i64::MAX, Vec2::new(-5, -5), i64::MIN);
    let mut q = particle(i64::MIN, i64::MAX, -3, i64::MAX, 0);
    q.old_pos = Vec2::new(i64::MAX, i64::MIN);
    assert!(v.add_object(q));
    v.add_impulses(i64::MIN, i64::MAX);
    v.step(i64::MIN);
}

#[test]
fn unenforced_stick_leaves_separation_alone() {
    let mut w = PhysicsWorld::new(0, Vec2::new(1_000_000, 1_000_000), 1);
    let a = w.next_id();
    let b = w.next_id();
    assert!(w.add_object(particle(0, 0, 10, 1_000, a)));
    assert!(w.add_object(particle(10_000, 0, 10, 1_000, b)));
    let s = Stick { id_1: a, id_2: b, distance: 100_000 };
    w.add_stick(s);
    w.step(16_000);
    let (p, q) = w.stick_ends(&s).unwrap();
    assert_eq!(q.x - p.x, 10_000);
}
