//! A static point: a fixed scene marker drawn as a single pixel, placed
//! with a small random vertical scatter.

use vstd::prelude::*;
use crate::color::Color;
use crate::fixed::{fp_ok, fp_add_s, fp_add};
use crate::object::{Pos3D, Rotation, Render, v3_ok, project_s};
use crate::raster::{write_disk, print_point};
use crate::color::rgb_of;
use crate::fixed::{units_sat_s, units_sat};
use crate::rng::rand_i64;

verus! {

pub struct StaticPoint {
    pub pos: Pos3D,
    pub color: Color,
}

/// The new point keeps the given X and Z and sits within ten whole units
/// vertically of the given Y.
pub open spec fn scattered_from(p: StaticPoint, pos: Pos3D, color: Color) -> bool {
    &&& p.color == color
    &&& p.pos.x == pos.x
    &&& p.pos.z == pos.z
    &&& exists|off: int|
        -10000 <= off <= 10000 && p.pos.y as int == #[trigger] fp_add_s(pos.y as int, off)
}

/// What rendering a static point does to the buffer: a single-pixel disk at
/// its projected position.
pub open spec fn static_point_render_s(
    p: StaticPoint,
    buf: Seq<u8>,
    w: int,
    h: int,
    rot: Rotation,
) -> Seq<u8> {
    let proj = project_s(p.pos, w, h, rot);
    write_disk(
        buf,
        units_sat_s(proj.x as int, 1000),
        units_sat_s(proj.y as int, 1000),
        0,
        w,
        h,
        rgb_of(p.color).push(0xff),
    )
}

impl StaticPoint {
    /// Place a point at the given position, scattered vertically by a
    /// uniform draw from `[-10, 10]` whole units.
    pub fn new(pos: Pos3D, color: Color) -> (p: StaticPoint)
        requires
            v3_ok(pos),
        ensures
            scattered_from(p, pos, color),
            v3_ok(p.pos),
    {
        let off = rand_i64(-10000, 10000);
        let y = fp_add(pos.y, off);
        proof {
            assert(-10000 <= off as int <= 10000 && y as int == fp_add_s(
                pos.y as int,
                off as int,
            ));
        }
        StaticPoint { pos: Pos3D { x: pos.x, y, z: pos.z }, color }
    }
}

impl Render for StaticPoint {
    open spec fn render_ok(&self) -> bool {
        v3_ok(self.pos)
    }

    open spec fn render_spec(&self, buf: Seq<u8>, w: int, h: int, rot: Rotation) -> Seq<u8> {
        static_point_render_s(*self, buf, w, h, rot)
    }

    /// Draw this point as a single pixel.
    fn render(&self, screen: &mut Vec<u8>, width: u32, height: u32, rot: Rotation) {
        let proj = self.pos.project(width, height, rot);
        let px = units_sat(proj.x, 1000);
        let py = units_sat(proj.y, 1000);
        let c = self.color.get_rgb();
        let rgba = [c[0], c[1], c[2], 0xff];
        proof {
            assert(rgba@ =~= rgb_of(self.color).push(0xff));
        }
        print_point(px, py, 0, screen, width, height, rgba);
    }
}

} // verus!
