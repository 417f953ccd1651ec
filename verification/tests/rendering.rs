use fireworks::color::Color;
use fireworks::object::{Pos3D, Render, Rotation};
use fireworks::raster::print_point;
use fireworks::star::Star;
use fireworks::trail::Trail;

fn fresh_buffer(w: u32, h: u32, fill: u8) -> Vec<u8> {
    vec![fill; (w * h * 4) as usize]
}

#[test]
fn radius_zero_touches_exactly_one_pixel() {
    let (w, h) = (3u32, 3u32);
    let mut buf = fresh_buffer(w, h, 7);
    print_point(1, 1, 0, &mut buf, w, h, [1, 2, 3, 9]);
    // pixel (1, 1) has linear index 4; its RGB bytes start at 16
    for (j, b) in buf.iter().enumerate() {
        match j {
            16 => assert_eq!(*b, 1),
            17 => assert_eq!(*b, 2),
            18 => assert_eq!(*b, 3),
            // byte 19 is the pixel's alpha byte: never written
            _ => assert_eq!(*b, 7, "byte {} changed", j),
        }
    }
}

#[test]
fn fully_offscreen_disk_mutates_zero_bytes() {
    let (w, h) = (3u32, 3u32);
    let expected = fresh_buffer(w, h, 5);

    let mut buf = fresh_buffer(w, h, 5);
    print_point(10, 10, 2, &mut buf, w, h, [1, 2, 3, 9]);
    assert_eq!(buf, expected);

    let mut buf = fresh_buffer(w, h, 5);
    print_point(-7, 1, 2, &mut buf, w, h, [1, 2, 3, 9]);
    assert_eq!(buf, expected);

    let mut buf = fresh_buffer(w, h, 5);
    print_point(1, -4, 3, &mut buf, w, h, [1, 2, 3, 9]);
    assert_eq!(buf, expected);
}

#[test]
fn pixel_index_zero_is_never_written() {
    let (w, h) = (3u32, 3u32);
    let expected = fresh_buffer(w, h, 0);
    let mut buf = fresh_buffer(w, h, 0);
    print_point(0, 0, 0, &mut buf, w, h, [1, 2, 3, 9]);
    assert_eq!(buf, expected);
}

#[test]
fn coordinate_equal_to_width_is_accepted_and_wraps_to_the_next_row() {
    let (w, h) = (3u32, 3u32);
    let mut buf = fresh_buffer(w, h, 0);
    // x == width passes the inclusive bound; linear index 0 * 3 + 3 == 3,
    // which is the first pixel of row one.
    print_point(3, 0, 0, &mut buf, w, h, [1, 2, 3, 9]);
    for (j, b) in buf.iter().enumerate() {
        match j {
            12 => assert_eq!(*b, 1),
            13 => assert_eq!(*b, 2),
            14 => assert_eq!(*b, 3),
            _ => assert_eq!(*b, 0, "byte {} changed", j),
        }
    }
}

#[test]
fn radius_one_paints_the_full_square_block() {
    let (w, h) = (4u32, 4u32);
    let mut buf = fresh_buffer(w, h, 0);
    print_point(2, 2, 1, &mut buf, w, h, [9, 9, 9, 1]);
    // all nine pixels around (2, 2) are in range with positive index
    let mut touched = Vec::new();
    for (j, b) in buf.iter().enumerate() {
        if *b == 9 {
            touched.push(j);
        }
    }
    let mut expected = Vec::new();
    for py in 1..=3u32 {
        for px in 1..=3u32 {
            let i = (py * w + px) as usize;
            expected.extend_from_slice(&[4 * i, 4 * i + 1, 4 * i + 2]);
        }
    }
    expected.sort();
    assert_eq!(touched, expected);
}

#[test]
fn dead_star_renders_nothing() {
    let (w, h) = (600u32, 800u32);
    let expected = fresh_buffer(w, h, 0);
    let mut buf = fresh_buffer(w, h, 0);
    let star = Star {
        pos: Pos3D { x: 0, y: 0, z: 0 },
        vel: Pos3D { x: 0, y: 0, z: 0 },
        color: Color::White,
        age: -100,
        is_alive: false,
    };
    star.render(&mut buf, w, h, Rotation { cos: 1000, sin: 0 });
    assert_eq!(buf, expected);
}

#[test]
fn live_star_at_origin_paints_the_anchor_pixel() {
    let (w, h) = (600u32, 800u32);
    let mut buf = fresh_buffer(w, h, 0);
    let star = Star {
        pos: Pos3D { x: 0, y: 0, z: 0 },
        vel: Pos3D { x: 0, y: 0, z: 0 },
        color: Color::Blue,
        age: 1000,
        is_alive: true,
    };
    star.render(&mut buf, w, h, Rotation { cos: 1000, sin: 0 });
    // projected to (300, 600): radius 1000 / 1500 truncates to zero
    let i = (600 * w + 300) as usize;
    assert_eq!(&buf[4 * i..4 * i + 4], &[0x00, 0x00, 0xff, 0x00]);
    let changed = buf.iter().filter(|b| **b != 0).count();
    assert_eq!(changed, 1, "only the blue channel of one pixel is nonzero");
}

#[test]
fn trail_starts_alive_with_one_unit_of_age() {
    let t = Trail::new(Pos3D { x: 1, y: 2, z: 3 }, Color::Green);
    assert_eq!(t.pos, Pos3D { x: 1, y: 2, z: 3 });
    assert_eq!(t.color, Color::Green);
    assert_eq!(t.age, 1000);
    assert!(t.is_alive);
}

#[test]
fn trail_renders_like_a_single_point_while_alive() {
    let (w, h) = (600u32, 800u32);
    let mut buf = fresh_buffer(w, h, 0);
    let t = Trail::new(Pos3D { x: 0, y: 0, z: 0 }, Color::Red);
    t.render(&mut buf, w, h, Rotation { cos: 1000, sin: 0 });
    let i = (600 * w + 300) as usize;
    assert_eq!(&buf[4 * i..4 * i + 4], &[0xff, 0x00, 0x00, 0x00]);
}
