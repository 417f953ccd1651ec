//! A firework: a rocket that ascends under randomized thrust, dies when its
//! fuse runs out or it reaches the ceiling, bursts exactly once into fifty
//! stars on the update that first observes death, and then drives those
//! stars until all of them have died and been pruned.

use vstd::prelude::*;
use vstd::pervasive::VecAdditionalExecFns;
use crate::color::{Color, rgb_of};
use crate::fixed::{fp_ok, fp_sub_s, fp_mul_s, fp_sub, fp_mul, units_sat_s, units_sat, FP_MAX};
use crate::object::{Pos3D, Rotation, PhysicsObject, Render, v3_ok, rot_ok, v3_add_s, v3_scale_s,
    project_s, calculate_velocity, calculate_position};
use crate::raster::{write_disk, print_point};
use crate::rng::rand_i64;
use crate::star::{Star, star_ok, star_step_s, fresh_star, star_render_s};

verus! {

/// The height at which a rocket expires, in milli-units: 350 whole units.
pub const CEILING: i64 = 350_000;

/// A rocket that has not burst yet records this sentinel instead of a star
/// count.
pub const NOT_BURST: i32 = -1;

pub struct Firework {
    pub pos: Pos3D,
    pub vel: Pos3D,
    pub color: Color,
    pub age: i64,
    pub is_alive: bool,
    pub stars_alive: i32,
    pub stars: Vec<Star>,
}

/// Well-formedness: the numeric fields are in fixed-point range, a rocket
/// that has not burst owns no stars, at most one burst of fifty stars ever
/// exists, and every star still owned is alive (dead ones are pruned on the
/// update that killed them).
pub open spec fn firework_ok(f: Firework) -> bool {
    &&& v3_ok(f.pos)
    &&& v3_ok(f.vel)
    &&& fp_ok(f.age as int)
    &&& f.stars_alive >= NOT_BURST
    &&& f.stars@.len() <= 50
    &&& (f.stars_alive == NOT_BURST ==> f.stars@.len() == 0)
    &&& forall|i: int|
        0 <= i < f.stars@.len() ==> star_ok(#[trigger] f.stars@[i]) && f.stars@[i].is_alive
}

/// The rocket keeps ascending on this update exactly when the decremented
/// fuse is still positive, it is below the ceiling, and it was still alive.
pub open spec fn keeps_ascending(f: Firework, dt: int) -> bool {
    fp_sub_s(f.age as int, dt) > 0 && f.pos.y < CEILING && f.is_alive
}

/// The thrust on an ascending rocket: a randomized horizontal pull on X and
/// Z, and an upward component of `25 * age / 5` that decays as the fuse
/// burns down.
pub open spec fn thrust_force(fx: i64, fz: i64, age: int) -> Pos3D {
    Pos3D { x: fx, y: fp_mul_s(age, 5000) as i64, z: fz }
}

/// The new velocity came from one motion step under some thrust whose
/// horizontal components were drawn from `[-2, 2] * 25`.
pub open spec fn ascend_vel_ok(f: Firework, g: Firework, dt: int) -> bool {
    exists|fx: i64, fz: i64|
        -50000 <= fx <= 50000 && -50000 <= fz <= 50000 && g.vel == v3_add_s(
            f.vel,
            v3_scale_s(#[trigger] thrust_force(fx, fz, fp_sub_s(f.age as int, dt)), dt),
        )
}

/// One ascending update: still alive, the position advanced by the velocity
/// from before this step's force application, the velocity advanced under
/// thrust, and the stars untouched.
pub open spec fn ascend_step_ok(f: Firework, g: Firework, dt: int) -> bool {
    &&& g.is_alive == true
    &&& g.pos == v3_add_s(f.pos, v3_scale_s(f.vel, dt))
    &&& ascend_vel_ok(f, g, dt)
    &&& g.stars@ == f.stars@
    &&& g.stars_alive == f.stars_alive
}

/// Exactly fifty stars, each freshly spawned at the firework's position in
/// its color.
pub open spec fn spawned_ok(sp: Seq<Star>, f: Firework) -> bool {
    sp.len() == 50 && forall|i: int| 0 <= i < 50 ==> fresh_star(#[trigger] sp[i], f.pos, f.color)
}

/// Every star advanced one tick.
pub open spec fn steps_s(stars: Seq<Star>, dt: int) -> Seq<Star> {
    stars.map_values(|s: Star| star_step_s(s, dt))
}

/// The live stars of a sequence, in order: what pruning keeps.
pub open spec fn live_only(s: Seq<Star>) -> Seq<Star>
    decreases s.len(),
{
    if s.len() == 0 {
        Seq::empty()
    } else {
        let rest = live_only(s.drop_last());
        if s.last().is_alive {
            rest.push(s.last())
        } else {
            rest
        }
    }
}

/// One dead-state update: the rocket no longer moves; on the first update
/// that observes death — and only then — fifty fresh stars are spawned; the
/// gauge records the number of stars present before this update's pruning;
/// every star advances one tick and the dead ones are pruned.
pub open spec fn dead_step_ok(f: Firework, g: Firework, dt: int) -> bool {
    &&& g.is_alive == false
    &&& g.pos == f.pos
    &&& g.vel == f.vel
    &&& if f.stars_alive == NOT_BURST {
        exists|sp: Seq<Star>|
            #[trigger] spawned_ok(sp, f) && g.stars_alive as int == f.stars@.len() + 50
                && g.stars@ == live_only(steps_s(f.stars@ + sp, dt))
    } else {
        g.stars_alive as int == f.stars@.len() && g.stars@ == live_only(steps_s(f.stars@, dt))
    }
}

impl PhysicsObject for Firework {
    open spec fn spec_pos(&self) -> Pos3D {
        self.pos
    }

    open spec fn spec_vel(&self) -> Pos3D {
        self.vel
    }

    open spec fn obj_ok(&self) -> bool {
        firework_ok(*self)
    }

    /// A rocket's force is randomized: any thrust with horizontal
    /// components drawn from `[-2, 2] * 25` is a possible outcome.
    open spec fn force_ok(&self, f: Pos3D) -> bool {
        exists|fx: i64, fz: i64|
            -50000 <= fx <= 50000 && -50000 <= fz <= 50000 && f == #[trigger] thrust_force(
                fx,
                fz,
                self.age as int,
            )
    }

    fn pos(&self) -> (r: Pos3D) {
        self.pos
    }

    fn vel(&self) -> (r: Pos3D) {
        self.vel
    }

    fn calculate_forces(&self) -> (r: Pos3D) {
        let fxr = rand_i64(-2000, 2000);
        let fzr = rand_i64(-2000, 2000);
        let fx = fxr * 25;
        let fz = fzr * 25;
        let fy = fp_mul(self.age, 5000);
        let r = Pos3D { x: fx, y: fy, z: fz };
        proof {
            assert(r == thrust_force(fx, fz, self.age as int));
        }
        r
    }
}

impl Firework {
    /// One update tick of the whole firework state machine.
    pub fn fly(&mut self, dt: i64)
        requires
            firework_ok(*old(self)),
            0 <= dt <= FP_MAX,
        ensures
            firework_ok(*final(self)),
            final(self).age as int == fp_sub_s(old(self).age as int, dt as int),
            final(self).color == old(self).color,
            keeps_ascending(*old(self), dt as int) ==> ascend_step_ok(
                *old(self),
                *final(self),
                dt as int,
            ),
            !keeps_ascending(*old(self), dt as int) ==> dead_step_ok(
                *old(self),
                *final(self),
                dt as int,
            ),
    {
        self.age = fp_sub(self.age, dt);
        if self.age > 0 && self.pos.y < CEILING && self.is_alive {
            let forces = self.calculate_forces();
            let new_pos = calculate_position(self.pos, self.vel, dt);
            self.vel = calculate_velocity(self.vel, forces, dt);
            self.pos = new_pos;
            proof {
                let newage = fp_sub_s(old(self).age as int, dt as int);
                let (fx, fz) = choose|fx: i64, fz: i64|
                    -50000 <= fx <= 50000 && -50000 <= fz <= 50000 && forces
                        == #[trigger] thrust_force(fx, fz, newage);
                assert(self.vel == v3_add_s(
                    old(self).vel,
                    v3_scale_s(thrust_force(fx, fz, newage), dt as int),
                ));
            }
        } else {
            self.is_alive = false;
            let ghost pre = self.stars@;
            if self.stars_alive == NOT_BURST {
                let mut k: usize = 0;
                while k < 50
                    invariant
                        0 <= k <= 50,
                        firework_ok(*old(self)),
                        self.pos == old(self).pos,
                        self.vel == old(self).vel,
                        self.color == old(self).color,
                        self.age as int == fp_sub_s(old(self).age as int, dt as int),
                        self.is_alive == false,
                        self.stars_alive == old(self).stars_alive,
                        pre == old(self).stars@,
                        self.stars@.len() == pre.len() + k,
                        forall|i: int| 0 <= i < pre.len() ==> self.stars@[i] == pre[i],
                        forall|i: int|
                            pre.len() <= i < self.stars@.len() ==> fresh_star(
                                #[trigger] self.stars@[i],
                                old(self).pos,
                                old(self).color,
                            ) && star_ok(self.stars@[i]),
                    decreases 50 - k,
                {
                    let s = Star::new(self.pos, self.vel, self.color);
                    self.stars.push(s);
                    k += 1;
                }
            }
            let ghost base = self.stars@;
            self.stars_alive = self.stars.len() as i32;
            let mut i: usize = 0;
            while i < self.stars.len()
                invariant
                    firework_ok(*old(self)),
                    0 <= dt <= FP_MAX,
                    0 <= i <= base.len(),
                    base.len() <= 100,
                    self.pos == old(self).pos,
                    self.vel == old(self).vel,
                    self.color == old(self).color,
                    self.age as int == fp_sub_s(old(self).age as int, dt as int),
                    self.is_alive == false,
                    self.stars_alive as int == base.len(),
                    self.stars@.len() == base.len(),
                    forall|j: int| 0 <= j < base.len() ==> star_ok(#[trigger] base[j]),
                    forall|j: int|
                        0 <= j < i ==> #[trigger] self.stars@[j] == star_step_s(
                            base[j],
                            dt as int,
                        ) && star_ok(self.stars@[j]),
                    forall|j: int| i <= j < base.len() ==> #[trigger] self.stars@[j] == base[j],
                decreases base.len() - i,
            {
                let mut s = self.stars[i];
                s.fly(dt);
                self.stars.set(i, s);
                i += 1;
            }
            let ghost stepped = self.stars@;
            proof {
                assert(stepped =~= steps_s(base, dt as int));
            }
            let mut kept: Vec<Star> = Vec::new();
            let mut n: usize = 0;
            while n < self.stars.len()
                invariant
                    0 <= n <= stepped.len(),
                    self.stars@ == stepped,
                    kept@ == live_only(stepped.subrange(0, n as int)),
                    kept@.len() <= n,
                    forall|j: int|
                        0 <= j < stepped.len() ==> star_ok(#[trigger] stepped[j]),
                    forall|j: int|
                        0 <= j < kept@.len() ==> star_ok(#[trigger] kept@[j])
                            && kept@[j].is_alive,
                decreases stepped.len() - n,
            {
                let s = self.stars[n];
                proof {
                    assert(stepped.subrange(0, n as int + 1).drop_last() =~= stepped.subrange(
                        0,
                        n as int,
                    ));
                    assert(stepped.subrange(0, n as int + 1).last() == stepped[n as int]);
                }
                if s.is_alive {
                    kept.push(s);
                }
                n += 1;
            }
            proof {
                assert(stepped.subrange(0, stepped.len() as int) =~= stepped);
            }
            self.stars = kept;
            proof {
                let f = *old(self);
                let spawned = base.subrange(pre.len() as int, base.len() as int);
                if f.stars_alive == NOT_BURST {
                    assert(pre.len() == 0);
                    assert(spawned.len() == 50);
                    assert forall|q: int| 0 <= q < 50 implies fresh_star(
                        #[trigger] spawned[q],
                        f.pos,
                        f.color,
                    ) by {
                        assert(spawned[q] == base[pre.len() + q]);
                    }
                    assert(spawned_ok(spawned, f));
                    assert(f.stars@ + spawned =~= base);
                    assert(self.stars@ == live_only(steps_s(f.stars@ + spawned, dt as int)));
                } else {
                    assert(base =~= pre);
                }
            }
        }
    }

    /// Launch a fresh rocket in the given color: a random ground position,
    /// an upward-biased random velocity, and a random fuse in `[4, 9)`
    /// whole units.
    pub fn new(color: Color) -> (f: Firework)
        ensures
            firework_ok(f),
            f.color == color,
            f.is_alive == true,
            f.stars_alive == NOT_BURST,
            f.stars@.len() == 0,
            f.pos.y == -2000,
            -70000 <= f.pos.x <= 70000,
            -70000 <= f.pos.z <= 70000,
            f.vel.y == 5000,
            -1000 <= f.vel.x <= 1000,
            -1000 <= f.vel.z <= 1000,
            4000 <= f.age <= 8999,
    {
        let pos = Pos3D { x: rand_i64(-70000, 70000), y: -2000, z: rand_i64(-70000, 70000) };
        let vel = Pos3D { x: rand_i64(-1000, 1000), y: 5000, z: rand_i64(-1000, 1000) };
        let age = rand_i64(4000, 8999);
        Firework {
            pos,
            vel,
            color,
            age,
            is_alive: true,
            stars_alive: NOT_BURST,
            stars: Vec::new(),
        }
    }

    /// The retention query the frame driver uses: a firework still matters
    /// while it is ascending or still has stars to account for — the first
    /// dead tick still reports the unburst sentinel, which keeps the rocket
    /// around for exactly the one update that performs the burst.
    pub fn is_active(&self) -> (r: bool)
        ensures
            r == (self.is_alive || self.stars_alive != 0),
    {
        self.is_alive || self.stars_alive != 0
    }
}

/// The buffer after every star of a list is drawn, in list order.
pub open spec fn render_stars_s(
    stars: Seq<Star>,
    buf: Seq<u8>,
    w: int,
    h: int,
    rot: Rotation,
) -> Seq<u8>
    decreases stars.len(),
{
    if stars.len() == 0 {
        buf
    } else {
        star_render_s(stars.last(), render_stars_s(stars.drop_last(), buf, w, h, rot), w, h, rot)
    }
}

proof fn lemma_render_stars_len(stars: Seq<Star>, buf: Seq<u8>, w: int, h: int, rot: Rotation)
    ensures
        render_stars_s(stars, buf, w, h, rot).len() == buf.len(),
    decreases stars.len(),
{
    if stars.len() > 0 {
        lemma_render_stars_len(stars.drop_last(), buf, w, h, rot);
    }
}

/// What rendering a firework does to the buffer: every star is drawn first
/// (in list order), then — only while the rocket is still ascending — the
/// rocket itself as a single pixel in its color.
pub open spec fn fw_render_s(f: Firework, buf: Seq<u8>, w: int, h: int, rot: Rotation) -> Seq<u8> {
    let bs = render_stars_s(f.stars@, buf, w, h, rot);
    if f.is_alive {
        let proj = project_s(f.pos, w, h, rot);
        write_disk(
            bs,
            units_sat_s(proj.x as int, 1000),
            units_sat_s(proj.y as int, 1000),
            0,
            w,
            h,
            rgb_of(f.color).push(0xff),
        )
    } else {
        bs
    }
}

impl Render for Firework {
    open spec fn render_ok(&self) -> bool {
        firework_ok(*self)
    }

    open spec fn render_spec(&self, buf: Seq<u8>, w: int, h: int, rot: Rotation) -> Seq<u8> {
        fw_render_s(*self, buf, w, h, rot)
    }

    /// Draw this firework: all its stars, then the rocket body while it is
    /// still ascending.
    fn render(&self, screen: &mut Vec<u8>, width: u32, height: u32, rot: Rotation) {
        let ghost buf0 = old(screen)@;
        let ghost w = width as int;
        let ghost h = height as int;
        let mut i: usize = 0;
        while i < self.stars.len()
            invariant
                firework_ok(*self),
                rot_ok(rot),
                0 <= i <= self.stars@.len(),
                buf0.len() == w * h * 4,
                w == width as int,
                h == height as int,
                screen@ == render_stars_s(self.stars@.subrange(0, i as int), buf0, w, h, rot),
            decreases self.stars@.len() - i,
        {
            proof {
                lemma_render_stars_len(self.stars@.subrange(0, i as int), buf0, w, h, rot);
            }
            let s = self.stars[i];
            s.render(screen, width, height, rot);
            proof {
                assert(self.stars@.subrange(0, i as int + 1).drop_last() =~= self.stars@.subrange(
                    0,
                    i as int,
                ));
                assert(self.stars@.subrange(0, i as int + 1).last() == self.stars@[i as int]);
            }
            i += 1;
        }
        proof {
            assert(self.stars@.subrange(0, self.stars@.len() as int) =~= self.stars@);
            lemma_render_stars_len(self.stars@, buf0, w, h, rot);
        }
        if !self.is_alive {
            return ;
        }
        let proj = self.pos.project(width, height, rot);
        let px = units_sat(proj.x, 1000);
        let py = units_sat(proj.y, 1000);
        let c = self.color.get_rgb();
        let rgba = [c[0], c[1], c[2], 0xff];
        proof {
            assert(rgba@ =~= rgb_of(self.color).push(0xff));
        }
        print_point(px, py, 0, screen, width, height, rgba);
    }
}

proof fn lemma_live_only_len(s: Seq<Star>)
    ensures
        live_only(s).len() <= s.len(),
    decreases s.len(),
{
    if s.len() > 0 {
        lemma_live_only_len(s.drop_last());
    }
}

/// A firework bursts exactly once. Once an update has recorded a
/// nonnegative star count, every later dead-state update spawns nothing:
/// the gauge stays nonnegative and the star list can only shrink.
pub proof fn lemma_burst_once(f: Firework, g: Firework, dt: int)
    requires
        firework_ok(f),
        dead_step_ok(f, g, dt),
        f.stars_alive >= 0,
    ensures
        g.stars_alive >= 0,
        g.stars@.len() <= f.stars@.len(),
{
    lemma_live_only_len(steps_s(f.stars@, dt));
}

/// The update that first observes death spawns exactly fifty stars and
/// records them in the gauge.
pub proof fn lemma_burst_spawns_fifty(f: Firework, g: Firework, dt: int)
    requires
        firework_ok(f),
        dead_step_ok(f, g, dt),
        f.stars_alive == NOT_BURST,
    ensures
        g.stars_alive == 50,
{
}

/// On every post-burst update the gauge equals the number of live stars
/// present before this update's pruning (every star a well-formed firework
/// still owns is alive), and it reads zero exactly when every spawned star
/// had already died and been pruned.
pub proof fn lemma_stars_alive_gauge(f: Firework, g: Firework, dt: int)
    requires
        firework_ok(f),
        dead_step_ok(f, g, dt),
        f.stars_alive >= 0,
    ensures
        g.stars_alive as int == f.stars@.len(),
        g.stars_alive == 0 <==> f.stars@.len() == 0,
{
}

} // verus!
