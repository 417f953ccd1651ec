use fireworks::color::Color;
use fireworks::fixed::{fp_add, fp_mul, fp_sub, FP_MAX};
use fireworks::object::{calculate_position, calculate_velocity, Pos2D, Pos3D, Rotation};

#[test]
fn fixed_point_products_are_exact() {
    // 1.5 * 2.0 == 3.0
    assert_eq!(fp_mul(1500, 2000), 3000);
    assert_eq!(fp_mul(-1500, 2000), -3000);
    assert_eq!(fp_mul(-1500, -2000), 3000);
}

#[test]
fn fixed_point_products_truncate_toward_zero() {
    // 0.001 * 0.999 = 0.000999 -> 0
    assert_eq!(fp_mul(1, 999), 0);
    // and on the negative side it rounds up toward zero, not down
    assert_eq!(fp_mul(-1, 999), 0);
}

#[test]
fn fixed_point_sums_clip_at_the_range_bound() {
    assert_eq!(fp_add(FP_MAX, FP_MAX), FP_MAX);
    assert_eq!(fp_sub(-FP_MAX, FP_MAX), -FP_MAX);
    assert_eq!(fp_add(1500, -2500), -1000);
}

#[test]
fn magnitude_of_a_pythagorean_triple() {
    let v = Pos3D { x: 3000, y: 4000, z: 0 };
    assert_eq!(v.len(), 5000);
    let u = Pos3D { x: 1000, y: 1000, z: 1000 };
    // sqrt(3) truncated to the milli grid
    assert_eq!(u.len(), 1732);
}

#[test]
fn stationary_entity_stays_put_for_any_dt() {
    let zero = Pos3D { x: 0, y: 0, z: 0 };
    let pos = Pos3D { x: 12345, y: -678, z: 90 };
    for dt in [0i64, 1, 100, 1000, 50_000] {
        let vel = calculate_velocity(zero, zero, dt);
        let npos = calculate_position(pos, zero, dt);
        assert_eq!(vel, zero);
        assert_eq!(npos, pos);
    }
}

#[test]
fn integration_uses_the_prestep_velocity() {
    // Hand-computed two-step sequence at dt = 0.5 under a constant force of
    // 2 units on Y, starting from velocity 1 unit/s on X.
    let dt = 500;
    let force = Pos3D { x: 0, y: 2000, z: 0 };
    let pos0 = Pos3D { x: 0, y: 0, z: 0 };
    let vel0 = Pos3D { x: 1000, y: 0, z: 0 };

    let vel1 = calculate_velocity(vel0, force, dt);
    let pos1 = calculate_position(pos0, vel0, dt);
    // The position must not see the force applied in the same step.
    assert_eq!(pos1, Pos3D { x: 500, y: 0, z: 0 });
    assert_eq!(vel1, Pos3D { x: 1000, y: 1000, z: 0 });

    let vel2 = calculate_velocity(vel1, force, dt);
    let pos2 = calculate_position(pos1, vel1, dt);
    assert_eq!(pos2, Pos3D { x: 1000, y: 500, z: 0 });
    assert_eq!(vel2, Pos3D { x: 1000, y: 2000, z: 0 });
}

#[test]
fn projecting_the_origin_lands_at_the_screen_anchor() {
    let origin = Pos3D { x: 0, y: 0, z: 0 };
    let t0 = Rotation { cos: 1000, sin: 0 };
    let p = origin.project(600, 800, t0);
    // width / 2 and 3/4 * height, in milli-units
    assert_eq!(p, Pos2D { x: 300_000, y: 600_000 });
    // the origin is a fixed point of the rotation, so any angle agrees
    let spun = Rotation { cos: -707, sin: 707 };
    assert_eq!(origin.project(600, 800, spun), Pos2D { x: 300_000, y: 600_000 });
}

#[test]
fn projection_applies_the_oblique_matrix() {
    let p = Pos3D { x: 1000, y: 0, z: 0 };
    let t0 = Rotation { cos: 1000, sin: 0 };
    // 0.866 * 1 + width/2 ; -0.5 * 1 + 0.75 * height
    assert_eq!(p.project(600, 800, t0), Pos2D { x: 300_866, y: 599_500 });
    // a quarter turn moves the unit X axis onto the Z axis
    let quarter = Rotation { cos: 0, sin: 1000 };
    assert_eq!(p.project(600, 800, quarter), Pos2D { x: 299_134, y: 599_500 });
}

#[test]
fn palette_resolves_to_exact_triples() {
    assert_eq!(Color::Red.get_rgb(), [0xff, 0x00, 0x00]);
    assert_eq!(Color::Orange.get_rgb(), [0xff, 0xaa, 0x00]);
    assert_eq!(Color::Yellow.get_rgb(), [0xff, 0xff, 0x00]);
    assert_eq!(Color::Green.get_rgb(), [0x00, 0xff, 0x00]);
    assert_eq!(Color::Blue.get_rgb(), [0x00, 0x00, 0xff]);
    assert_eq!(Color::Purple.get_rgb(), [0xaa, 0x00, 0xaa]);
    assert_eq!(Color::White.get_rgb(), [0xff, 0xff, 0xff]);
    assert_eq!(Color::Black.get_rgb(), [0x00, 0x00, 0x00]);
    assert_eq!(Color::RGB(1, 2, 3).get_rgb(), [1, 2, 3]);
}
