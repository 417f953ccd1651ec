//! A star: a fragment spawned by a firework's burst, subject to gravity and
//! quadratic air drag. It ages toward death but still moves on the tick it
//! dies; its owner prunes it afterwards.

use vstd::prelude::*;
use crate::color::{Color, rgb_of};
use crate::fixed::{fp_ok, fp_add_s, fp_sub_s, fp_mul_s, fp_add, fp_sub, fp_mul, units_sat_s,
    units_sat, FP_MAX};
use crate::object::{Pos3D, Rotation, PhysicsObject, Render, v3_ok, rot_ok, v3_add_s, v3_scale_s,
    project_s, calculate_velocity, calculate_position};
use crate::raster::{write_disk, print_point};
use crate::rng::rand_i64;

verus! {

/// Gravity scaled for the scene, in milli-units: `-9.81 * 0.2`.
pub const GRAVITY_FP: i64 = -1962;

/// Quadratic drag coefficient, in milli-units: `0.01`.
pub const DRAG_K: i64 = 10;

#[derive(Clone, Copy, Debug, PartialEq, Eq, Structural)]
pub struct Star {
    pub pos: Pos3D,
    pub vel: Pos3D,
    pub color: Color,
    pub age: i64,
    pub is_alive: bool,
}

pub open spec fn star_ok(s: Star) -> bool {
    v3_ok(s.pos) && v3_ok(s.vel) && fp_ok(s.age as int)
}

/// Quadratic drag on one velocity component: magnitude `0.01 * v * v`,
/// directed against the component's own sign.
pub open spec fn drag_s(v: int) -> int {
    let m = fp_mul_s(fp_mul_s(v, v), DRAG_K as int);
    if v >= 0 {
        -m
    } else {
        m
    }
}

/// The force on a star: per-axis quadratic drag, plus gravity on Y only.
pub open spec fn star_force_s(vel: Pos3D) -> Pos3D {
    Pos3D {
        x: drag_s(vel.x as int) as i64,
        y: fp_add_s(drag_s(vel.y as int), GRAVITY_FP as int) as i64,
        z: drag_s(vel.z as int) as i64,
    }
}

/// One full update of a star: the age drops by exactly `dt`; the star is
/// dead afterwards exactly when the new age is at or below zero (and a dead
/// star never revives); and one motion step still happens regardless, with
/// the position advanced by the velocity from before the force application.
pub open spec fn star_step_s(s: Star, dt: int) -> Star {
    let new_age = fp_sub_s(s.age as int, dt);
    Star {
        pos: v3_add_s(s.pos, v3_scale_s(s.vel, dt)),
        vel: v3_add_s(s.vel, v3_scale_s(star_force_s(s.vel), dt)),
        color: s.color,
        age: new_age as i64,
        is_alive: if new_age <= 0 {
            false
        } else {
            s.is_alive
        },
    }
}

/// What a newly spawned star may look like: it sits at its parent's
/// position in its parent's color, alive, with a fuse drawn from
/// `[1.5, 2.0]` and a velocity drawn from `[-20, 20]` per axis.
pub open spec fn fresh_star(s: Star, pos: Pos3D, color: Color) -> bool {
    &&& s.pos == pos
    &&& s.color == color
    &&& s.is_alive == true
    &&& -20000 <= s.vel.x <= 20000
    &&& -20000 <= s.vel.y <= 20000
    &&& -20000 <= s.vel.z <= 20000
    &&& 1500 <= s.age <= 2000
}

fn drag(v: i64) -> (r: i64)
    requires
        fp_ok(v as int),
    ensures
        r as int == drag_s(v as int),
        fp_ok(r as int),
{
    let m = fp_mul(fp_mul(v, v), DRAG_K);
    if v >= 0 {
        -m
    } else {
        m
    }
}

/// The disk a live entity paints: centered on its projected position, with
/// radius `age / 1.5` in whole pixels, in its color at full opacity.
pub open spec fn paint_s(
    buf: Seq<u8>,
    pos: Pos3D,
    color: Color,
    age: int,
    w: int,
    h: int,
    rot: Rotation,
) -> Seq<u8> {
    let proj = project_s(pos, w, h, rot);
    write_disk(
        buf,
        units_sat_s(proj.x as int, 1000),
        units_sat_s(proj.y as int, 1000),
        units_sat_s(age, 1500),
        w,
        h,
        rgb_of(color).push(0xff),
    )
}

/// What rendering one star does to the buffer: nothing when it is dead,
/// otherwise its painted disk.
pub open spec fn star_render_s(
    s: Star,
    buf: Seq<u8>,
    w: int,
    h: int,
    rot: Rotation,
) -> Seq<u8> {
    if !s.is_alive {
        buf
    } else {
        paint_s(buf, s.pos, s.color, s.age as int, w, h, rot)
    }
}

/// Paint the disk of a live entity. Shared by every entity's render.
pub(crate) fn paint(
    pos: Pos3D,
    color: Color,
    age: i64,
    screen: &mut Vec<u8>,
    width: u32,
    height: u32,
    rot: Rotation,
)
    requires
        v3_ok(pos),
        fp_ok(age as int),
        rot_ok(rot),
        old(screen)@.len() == width as int * height as int * 4,
    ensures
        final(screen)@ == paint_s(
            old(screen)@,
            pos,
            color,
            age as int,
            width as int,
            height as int,
            rot,
        ),
{
    let proj = pos.project(width, height, rot);
    let px = units_sat(proj.x, 1000);
    let py = units_sat(proj.y, 1000);
    let radius = units_sat(age, 1500);
    let c = color.get_rgb();
    let rgba = [c[0], c[1], c[2], 0xff];
    proof {
        assert(rgba@ =~= rgb_of(color).push(0xff));
    }
    print_point(px, py, radius, screen, width, height, rgba);
}

impl PhysicsObject for Star {
    open spec fn spec_pos(&self) -> Pos3D {
        self.pos
    }

    open spec fn spec_vel(&self) -> Pos3D {
        self.vel
    }

    open spec fn obj_ok(&self) -> bool {
        star_ok(*self)
    }

    /// A star's force is deterministic: drag plus gravity.
    open spec fn force_ok(&self, f: Pos3D) -> bool {
        f == star_force_s(self.vel)
    }

    fn pos(&self) -> (r: Pos3D) {
        self.pos
    }

    fn vel(&self) -> (r: Pos3D) {
        self.vel
    }

    fn calculate_forces(&self) -> (r: Pos3D) {
        Pos3D {
            x: drag(self.vel.x),
            y: fp_add(drag(self.vel.y), GRAVITY_FP),
            z: drag(self.vel.z),
        }
    }
}

impl Render for Star {
    open spec fn render_ok(&self) -> bool {
        star_ok(*self)
    }

    open spec fn render_spec(&self, buf: Seq<u8>, w: int, h: int, rot: Rotation) -> Seq<u8> {
        star_render_s(*self, buf, w, h, rot)
    }

    /// Draw this star into the buffer; a dead star draws nothing.
    fn render(&self, screen: &mut Vec<u8>, width: u32, height: u32, rot: Rotation) {
        if !self.is_alive {
            return ;
        }
        paint(self.pos, self.color, self.age, screen, width, height, rot);
    }
}

impl Star {
    /// One update tick: age, possibly die, and still take one motion step.
    pub fn fly(&mut self, dt: i64)
        requires
            star_ok(*old(self)),
            0 <= dt <= FP_MAX,
        ensures
            *final(self) == star_step_s(*old(self), dt as int),
            star_ok(*final(self)),
    {
        self.age = fp_sub(self.age, dt);
        if self.age <= 0 {
            self.is_alive = false;
        }
        let forces = self.calculate_forces();
        let new_pos = calculate_position(self.pos, self.vel, dt);
        self.vel = calculate_velocity(self.vel, forces, dt);
        self.pos = new_pos;
    }

    /// Spawn a fresh star at its parent's position, in its parent's color,
    /// with a random velocity and fuse. The parent's velocity is not
    /// inherited.
    pub fn new(pos: Pos3D, _r_vel: Pos3D, color: Color) -> (s: Star)
        requires
            v3_ok(pos),
        ensures
            fresh_star(s, pos, color),
            star_ok(s),
    {
        let vel = Pos3D {
            x: rand_i64(-20000, 20000),
            y: rand_i64(-20000, 20000),
            z: rand_i64(-20000, 20000),
        };
        let age = rand_i64(1500, 2000);
        Star { pos, vel, color, age, is_alive: true }
    }
}

/// The integration order of the shared motion step: the new position is
/// computed from the velocity as it was *before* this step's force
/// application, while only the velocity absorbs the force. The updated
/// velocity therefore first moves the entity on the following step.
pub proof fn lemma_motion_uses_prestep_velocity(s: Star, dt: int)
    ensures
        star_step_s(s, dt).pos == v3_add_s(s.pos, v3_scale_s(s.vel, dt)),
        star_step_s(s, dt).vel == v3_add_s(s.vel, v3_scale_s(star_force_s(s.vel), dt)),
{
}

/// A star's age strictly decreases by `dt` on every update (while the age is
/// within range and `dt` is positive), the star is dead after an update
/// exactly when its new age is at or below zero, and a star that was already
/// dead stays dead.
pub proof fn lemma_star_aging(s: Star, dt: int)
    requires
        star_ok(s),
        0 < dt <= FP_MAX as int,
        -(FP_MAX as int) < s.age as int - dt,
    ensures
        (star_step_s(s, dt).age as int) == s.age as int - dt,
        star_step_s(s, dt).is_alive <==> (s.age as int - dt > 0 && s.is_alive),
        !s.is_alive ==> !star_step_s(s, dt).is_alive,
{
}

} // verus!
