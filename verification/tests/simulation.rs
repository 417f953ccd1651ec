use fireworks::color::Color;
use fireworks::firework::Firework;
use fireworks::object::Pos3D;
use fireworks::star::Star;
use fireworks::static_point::StaticPoint;

fn quiet_star(age: i64) -> Star {
    Star {
        pos: Pos3D { x: 0, y: 0, z: 0 },
        vel: Pos3D { x: 0, y: 0, z: 0 },
        color: Color::White,
        age,
        is_alive: true,
    }
}

#[test]
fn star_age_drops_by_exactly_dt() {
    let mut s = quiet_star(1000);
    s.fly(300);
    assert_eq!(s.age, 700);
    assert!(s.is_alive);
    s.fly(300);
    assert_eq!(s.age, 400);
    s.fly(150);
    assert_eq!(s.age, 250);
    assert!(s.is_alive);
}

#[test]
fn star_dies_exactly_when_age_crosses_zero_and_stays_dead() {
    let mut s = quiet_star(1000);
    s.fly(999);
    assert!(s.is_alive, "age 1 is still positive");
    s.fly(1);
    assert_eq!(s.age, 0);
    assert!(!s.is_alive, "age zero is death");
    s.fly(100);
    assert!(!s.is_alive, "a dead star never revives");
}

#[test]
fn star_still_moves_on_the_tick_it_dies() {
    let mut s = quiet_star(100);
    s.vel = Pos3D { x: 1000, y: 0, z: 0 };
    s.fly(200);
    assert!(!s.is_alive);
    // one full motion step still happened: 1 unit/s over 0.2 s
    assert_eq!(s.pos.x, 200);
}

#[test]
fn star_feels_gravity_and_quadratic_drag() {
    let mut s = quiet_star(5000);
    s.vel = Pos3D { x: 10_000, y: 0, z: 0 };
    s.fly(1000);
    // position used the pre-step velocity: 10 units over one second
    assert_eq!(s.pos, Pos3D { x: 10_000, y: 0, z: 0 });
    // drag on X: -0.01 * 10 * 10 = -1 unit/s^2; gravity on Y: -1.962
    assert_eq!(s.vel, Pos3D { x: 9000, y: -1962, z: 0 });
}

#[test]
fn spawned_star_sits_at_its_parents_position() {
    let pos = Pos3D { x: 123, y: 456, z: -789 };
    let vel = Pos3D { x: 1, y: 2, z: 3 };
    for _ in 0..50 {
        let s = Star::new(pos, vel, Color::Purple);
        assert_eq!(s.pos, pos);
        assert_eq!(s.color, Color::Purple);
        assert!(s.is_alive);
        assert!((1500..=2000).contains(&s.age));
        for c in [s.vel.x, s.vel.y, s.vel.z] {
            assert!((-20_000..=20_000).contains(&c));
        }
    }
}

fn test_firework(age: i64) -> Firework {
    Firework {
        pos: Pos3D { x: 0, y: 0, z: 0 },
        vel: Pos3D { x: 0, y: 0, z: 0 },
        color: Color::Red,
        age,
        is_alive: true,
        stars_alive: -1,
        stars: Vec::new(),
    }
}

#[test]
fn firework_lifecycle_end_to_end() {
    // Fuse of 5 whole units, updates of 0.1: death lands exactly on the
    // fiftieth update (the fuse is spent; the ceiling stays far away).
    let mut fw = test_firework(5000);
    let dt = 100;
    let mut ticks = 0;
    while fw.is_alive {
        assert_eq!(fw.stars_alive, -1, "no burst before death");
        assert!(fw.stars.is_empty());
        fw.fly(dt);
        ticks += 1;
        assert!(ticks <= 1000, "the fuse must run out");
    }
    assert_eq!(ticks, 50, "age 5.0 at 0.1 per tick dies on tick 50");
    assert!(fw.pos.y < 350_000);
    // the burst happened on that same update call
    assert_eq!(fw.stars.len(), 50);
    assert_eq!(fw.stars_alive, 50);
    for s in &fw.stars {
        assert!(s.is_alive);
        assert_eq!(s.color, Color::Red);
        // spawned at the rocket's position, then moved one tick
        assert!((s.pos.x - fw.pos.x).abs() <= 2000);
        assert!((s.pos.y - fw.pos.y).abs() <= 2000);
        assert!((s.pos.z - fw.pos.z).abs() <= 2000);
    }
}

#[test]
fn firework_bursts_exactly_once() {
    let mut fw = test_firework(100);
    fw.fly(200);
    assert!(!fw.is_alive);
    assert_eq!(fw.stars.len(), 50);
    assert_eq!(fw.stars_alive, 50);
    // a second update call must not spawn more
    fw.fly(100);
    assert_eq!(fw.stars.len(), 50);
    assert_eq!(fw.stars_alive, 50);
    fw.fly(100);
    assert!(fw.stars.len() <= 50);
}

#[test]
fn stars_alive_gauges_the_preprune_count_until_all_stars_die() {
    let mut fw = test_firework(100);
    fw.fly(200);
    assert_eq!(fw.stars_alive, 50);
    let mut ticks = 0;
    while fw.stars_alive != 0 {
        let before = fw.stars.len() as i32;
        fw.fly(100);
        assert_eq!(fw.stars_alive, before, "gauge reads the pre-prune count");
        assert!(fw.stars.iter().all(|s| s.is_alive), "dead stars are pruned");
        ticks += 1;
        assert!(ticks <= 100, "every star dies within its fuse");
    }
    assert!(fw.stars.is_empty());
    // fuses of at most 2.0 at 0.2 + 0.1 per tick: all dead well before 25 ticks
    assert!(ticks <= 25);
}

#[test]
fn retention_keeps_the_rocket_through_the_burst_tick() {
    let mut fw = test_firework(100);
    assert!(fw.is_active(), "ascending rockets are retained");
    fw.fly(200);
    // dead but the gauge is nonzero: retained while stars burn
    assert!(fw.is_active());
    while fw.stars_alive != 0 {
        fw.fly(100);
    }
    assert!(!fw.is_active(), "spent fireworks are dropped");
}

#[test]
fn a_rocket_at_the_ceiling_dies_even_with_fuse_left() {
    let mut fw = test_firework(5000);
    fw.pos.y = 350_000;
    fw.fly(100);
    assert!(!fw.is_alive, "the ceiling kills the rocket");
    assert_eq!(fw.age, 4900, "the fuse still burned down");
    assert_eq!(fw.stars.len(), 50, "the burst still happens");
}

#[test]
fn fresh_fireworks_start_ascending_within_the_launch_window() {
    for _ in 0..20 {
        let fw = Firework::new(Color::Yellow);
        assert!(fw.is_alive);
        assert_eq!(fw.stars_alive, -1);
        assert!(fw.stars.is_empty());
        assert_eq!(fw.color, Color::Yellow);
        assert_eq!(fw.pos.y, -2000);
        assert!((-70_000..=70_000).contains(&fw.pos.x));
        assert!((-70_000..=70_000).contains(&fw.pos.z));
        assert_eq!(fw.vel.y, 5000);
        assert!((-1000..=1000).contains(&fw.vel.x));
        assert!((-1000..=1000).contains(&fw.vel.z));
        assert!(4000 <= fw.age && fw.age < 9000);
    }
}

#[test]
fn static_points_scatter_only_vertically() {
    let pos = Pos3D { x: 42, y: 1000, z: -42 };
    for _ in 0..20 {
        let p = StaticPoint::new(pos, Color::White);
        assert_eq!(p.pos.x, 42);
        assert_eq!(p.pos.z, -42);
        assert!((-9000..=11_000).contains(&p.pos.y));
    }
}
