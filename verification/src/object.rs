//! 3D vectors, the oblique screen projection, and the shared motion
//! integration step.

use vstd::prelude::*;
use crate::fixed::{
    fp_ok, fp_clip, fp_add_s, fp_sub_s, fp_mul_s, fp_add, fp_sub, fp_mul, FP_MAX,
};

verus! {

/// A 3D position or velocity in fixed-point milli-units.
#[derive(Clone, Copy, Debug, PartialEq, Eq, Structural)]
pub struct Pos3D {
    pub x: i64,
    pub y: i64,
    pub z: i64,
}

/// A projected screen coordinate in fixed-point milli-units; not yet clipped
/// to the buffer (clipping happens at rasterization).
#[derive(Clone, Copy, Debug, PartialEq, Eq, Structural)]
pub struct Pos2D {
    pub x: i64,
    pub y: i64,
}

/// The time-dependent rotation about the vertical axis, given as the cosine
/// and sine of the rotation angle in fixed-point milli-units.
#[derive(Clone, Copy, Debug, PartialEq, Eq, Structural)]
pub struct Rotation {
    pub cos: i64,
    pub sin: i64,
}

pub open spec fn v3_ok(v: Pos3D) -> bool {
    fp_ok(v.x as int) && fp_ok(v.y as int) && fp_ok(v.z as int)
}

/// A well-formed rotation: a cosine/sine pair has magnitude at most one.
pub open spec fn rot_ok(r: Rotation) -> bool {
    -1000 <= r.cos <= 1000 && -1000 <= r.sin <= 1000
}

pub open spec fn v3_add_s(a: Pos3D, b: Pos3D) -> Pos3D {
    Pos3D {
        x: fp_add_s(a.x as int, b.x as int) as i64,
        y: fp_add_s(a.y as int, b.y as int) as i64,
        z: fp_add_s(a.z as int, b.z as int) as i64,
    }
}

pub open spec fn v3_scale_s(a: Pos3D, k: int) -> Pos3D {
    Pos3D {
        x: fp_mul_s(a.x as int, k) as i64,
        y: fp_mul_s(a.y as int, k) as i64,
        z: fp_mul_s(a.z as int, k) as i64,
    }
}

pub open spec fn v3_zero() -> Pos3D {
    Pos3D { x: 0, y: 0, z: 0 }
}

impl Pos3D {
    /// Componentwise vector sum.
    pub fn add(self, rhs: Pos3D) -> (r: Pos3D)
        requires
            v3_ok(self),
            v3_ok(rhs),
        ensures
            r == v3_add_s(self, rhs),
            v3_ok(r),
    {
        Pos3D { x: fp_add(self.x, rhs.x), y: fp_add(self.y, rhs.y), z: fp_add(self.z, rhs.z) }
    }

    /// Componentwise scaling by a fixed-point factor.
    pub fn scale(self, k: i64) -> (r: Pos3D)
        requires
            v3_ok(self),
            fp_ok(k as int),
        ensures
            r == v3_scale_s(self, k as int),
            v3_ok(r),
    {
        Pos3D { x: fp_mul(self.x, k), y: fp_mul(self.y, k), z: fp_mul(self.z, k) }
    }
}

/// The fixed oblique projection of a rotated point onto the screen:
/// the point is rotated about the Y axis, then mapped through the matrix
/// `[[0.866, 0, -0.866], [-0.5, -1, -0.5]]` and translated so that the world
/// origin lands at `(width / 2, 3/4 * height)`.
pub open spec fn project_s(p: Pos3D, w: int, h: int, rot: Rotation) -> Pos2D {
    let rx = fp_sub_s(fp_mul_s(p.x as int, rot.cos as int), fp_mul_s(p.z as int, rot.sin as int));
    let rz = fp_add_s(fp_mul_s(p.x as int, rot.sin as int), fp_mul_s(p.z as int, rot.cos as int));
    let sx = fp_add_s(fp_sub_s(fp_mul_s(866, rx), fp_mul_s(866, rz)), w * 500);
    let sy = fp_add_s(
        fp_sub_s(fp_sub_s(fp_sub_s(0, fp_mul_s(500, rx)), p.y as int), fp_mul_s(500, rz)),
        h * 750,
    );
    Pos2D { x: sx as i64, y: sy as i64 }
}

impl Pos3D {
    pub fn project(&self, width: u32, height: u32, rot: Rotation) -> (r: Pos2D)
        requires
            v3_ok(*self),
            rot_ok(rot),
        ensures
            r == project_s(*self, width as int, height as int, rot),
            fp_ok(r.x as int),
            fp_ok(r.y as int),
    {
        let rx = fp_sub(fp_mul(self.x, rot.cos), fp_mul(self.z, rot.sin));
        let rz = fp_add(fp_mul(self.x, rot.sin), fp_mul(self.z, rot.cos));
        let sx = fp_add(fp_sub(fp_mul(866, rx), fp_mul(866, rz)), (width as i64) * 500);
        let sy = fp_add(
            fp_sub(fp_sub(fp_sub(0, fp_mul(500, rx)), self.y), fp_mul(500, rz)),
            (height as i64) * 750,
        );
        Pos2D { x: sx, y: sy }
    }
}

/// The squared raw magnitude of a vector.
pub open spec fn magnitude_sq(v: Pos3D) -> int {
    v.x as int * v.x as int + v.y as int * v.y as int + v.z as int * v.z as int
}

impl Pos3D {
    /// The Euclidean norm on the raw fixed-point grid: the integer square
    /// root of the squared raw magnitude, truncated downward and clipped to
    /// the well-formed range.
    pub fn len(&self) -> (r: i64)
        requires
            v3_ok(*self),
        ensures
            0 <= r <= FP_MAX,
            r as int * r as int <= magnitude_sq(*self),
            r < FP_MAX ==> (r as int + 1) * (r as int + 1) > magnitude_sq(*self),
    {
        let xx = (if self.x < 0 { -self.x } else { self.x }) as u128;
        let yy = (if self.y < 0 { -self.y } else { self.y }) as u128;
        let zz = (if self.z < 0 { -self.z } else { self.z }) as u128;
        proof {
            let xi = self.x as int;
            let yi = self.y as int;
            let zi = self.z as int;
            assert(xx as int * xx as int == xi * xi) by (nonlinear_arith)
                requires
                    xx as int == (if xi < 0 { -xi } else { xi }),
            ;
            assert(yy as int * yy as int == yi * yi) by (nonlinear_arith)
                requires
                    yy as int == (if yi < 0 { -yi } else { yi }),
            ;
            assert(zz as int * zz as int == zi * zi) by (nonlinear_arith)
                requires
                    zz as int == (if zi < 0 { -zi } else { zi }),
            ;
            assert(xx as int * xx as int <= FP_MAX as int * FP_MAX as int) by (nonlinear_arith)
                requires
                    0 <= xx as int <= FP_MAX as int,
            ;
            assert(yy as int * yy as int <= FP_MAX as int * FP_MAX as int) by (nonlinear_arith)
                requires
                    0 <= yy as int <= FP_MAX as int,
            ;
            assert(zz as int * zz as int <= FP_MAX as int * FP_MAX as int) by (nonlinear_arith)
                requires
                    0 <= zz as int <= FP_MAX as int,
            ;
        }
        let s: u128 = xx * xx + yy * yy + zz * zz;
        let mut lo: u128 = 0;
        let mut hi: u128 = 2_000_000_000_000_000;
        proof {
            assert((hi as int) * (hi as int) > s as int);
        }
        while lo + 1 < hi
            invariant
                (lo as int) * (lo as int) <= s as int,
                (s as int) < (hi as int) * (hi as int),
                0 <= (lo as int) < (hi as int) <= 2_000_000_000_000_000int,
            decreases hi as int - lo as int,
        {
            let mid = lo + (hi - lo) / 2;
            proof {
                assert((mid as int) * (mid as int) <= 2_000_000_000_000_000int
                    * 2_000_000_000_000_000int) by (nonlinear_arith)
                    requires
                        0 <= (mid as int) <= 2_000_000_000_000_000int,
                ;
            }
            if mid * mid <= s {
                lo = mid;
            } else {
                hi = mid;
            }
        }
        proof {
            assert(hi as int == lo as int + 1);
        }
        if lo > FP_MAX as u128 {
            proof {
                assert((FP_MAX as int) * (FP_MAX as int) < (lo as int) * (lo as int))
                    by (nonlinear_arith)
                    requires
                        0 <= (FP_MAX as int) < (lo as int),
                ;
            }
            FP_MAX
        } else {
            lo as i64
        }
    }
}

/// One half of the shared semi-implicit Euler step: the velocity gains the
/// force integrated over the elapsed time.
pub fn calculate_velocity(vel: Pos3D, forces: Pos3D, dt: i64) -> (r: Pos3D)
    requires
        v3_ok(vel),
        v3_ok(forces),
        fp_ok(dt as int),
    ensures
        r == v3_add_s(vel, v3_scale_s(forces, dt as int)),
        v3_ok(r),
{
    vel.add(forces.scale(dt))
}

/// The other half of the step: the position advances by the velocity from
/// before this step's force application, integrated over the elapsed time.
pub fn calculate_position(pos: Pos3D, vel: Pos3D, dt: i64) -> (r: Pos3D)
    requires
        v3_ok(pos),
        v3_ok(vel),
        fp_ok(dt as int),
    ensures
        r == v3_add_s(pos, v3_scale_s(vel, dt as int)),
        v3_ok(r),
{
    pos.add(vel.scale(dt))
}

/// A moving entity: it exposes its position, its velocity, and a force of
/// its own; the shared integration step is the pair of free functions
/// `calculate_velocity` and `calculate_position`.
pub trait PhysicsObject {
    /// The entity's current position.
    spec fn spec_pos(&self) -> Pos3D;

    /// The entity's current velocity.
    spec fn spec_vel(&self) -> Pos3D;

    /// The entity's well-formedness.
    spec fn obj_ok(&self) -> bool;

    /// What the entity's force may be; a randomized force admits a set of
    /// outcomes, a deterministic one exactly one.
    spec fn force_ok(&self, f: Pos3D) -> bool;

    fn pos(&self) -> (r: Pos3D)
        ensures
            r == self.spec_pos(),
    ;

    fn vel(&self) -> (r: Pos3D)
        ensures
            r == self.spec_vel(),
    ;

    fn calculate_forces(&self) -> (r: Pos3D)
        requires
            self.obj_ok(),
        ensures
            self.force_ok(r),
            v3_ok(r),
    ;
}

/// A drawable entity: rendering rewrites the pixel buffer to exactly the
/// sequence its `render_spec` describes, built from the disks the free
/// function `print_point` writes.
pub trait Render {
    /// What rendering requires of the entity itself.
    spec fn render_ok(&self) -> bool;

    /// The buffer after this entity is drawn onto `buf`.
    spec fn render_spec(&self, buf: Seq<u8>, w: int, h: int, rot: Rotation) -> Seq<u8>;

    fn render(&self, screen: &mut Vec<u8>, width: u32, height: u32, rot: Rotation)
        requires
            self.render_ok(),
            rot_ok(rot),
            old(screen)@.len() == width as int * height as int * 4,
        ensures
            final(screen)@ == self.render_spec(
                old(screen)@,
                width as int,
                height as int,
                rot,
            ),
    ;
}

/// Integrating a stationary entity changes nothing: under zero velocity and
/// zero force, one motion step returns the same position and velocity, for
/// every nonnegative elapsed time.
pub proof fn lemma_stationary_motion(pos: Pos3D, dt: int)
    requires
        v3_ok(pos),
        0 <= dt <= FP_MAX as int,
    ensures
        v3_add_s(v3_zero(), v3_scale_s(v3_zero(), dt)) == v3_zero(),
        v3_add_s(pos, v3_scale_s(v3_zero(), dt)) == pos,
{
    assert(fp_mul_s(0, dt) == 0);
    assert(fp_add_s(pos.x as int, 0) == pos.x as int);
    assert(fp_add_s(pos.y as int, 0) == pos.y as int);
    assert(fp_add_s(pos.z as int, 0) == pos.z as int);
}

/// Projecting the world origin is independent of the rotation and lands
/// exactly at `(width / 2, 3/4 * height)` on the screen.
pub proof fn lemma_project_origin(w: int, h: int, rot: Rotation)
    requires
        0 <= w <= u32::MAX as int,
        0 <= h <= u32::MAX as int,
        rot_ok(rot),
    ensures
        project_s(v3_zero(), w, h, rot) == (Pos2D { x: (w * 500) as i64, y: (h * 750) as i64 }),
{
    assert(fp_mul_s(0, rot.cos as int) == 0);
    assert(fp_mul_s(0, rot.sin as int) == 0);
    assert(fp_mul_s(866, 0) == 0);
    assert(fp_mul_s(500, 0) == 0);
    assert(fp_clip(w * 500) == w * 500);
    assert(fp_clip(h * 750) == h * 750);
}

} // verus!
