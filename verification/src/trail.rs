//! A trail: a fading point-marker left at a fixed position. It is a decay
//! primitive the simulation does not currently drive: nothing ages it down
//! or appends it during updates, so the entities own no trail collections.

use vstd::prelude::*;
use crate::color::Color;
use crate::fixed::fp_ok;
use crate::object::{Pos3D, Rotation, Render, v3_ok};
use crate::star::{paint_s, paint};

verus! {

#[derive(Clone, Copy, Debug, PartialEq, Eq, Structural)]
pub struct Trail {
    pub pos: Pos3D,
    pub color: Color,
    pub age: i64,
    pub is_alive: bool,
}

/// What rendering one trail does to the buffer: nothing when it is dead,
/// otherwise its painted disk.
pub open spec fn trail_render_s(
    t: Trail,
    buf: Seq<u8>,
    w: int,
    h: int,
    rot: Rotation,
) -> Seq<u8> {
    if !t.is_alive {
        buf
    } else {
        paint_s(buf, t.pos, t.color, t.age as int, w, h, rot)
    }
}

impl Trail {
    /// A trail starts alive at the given position with one whole unit of age.
    pub fn new(pos: Pos3D, color: Color) -> (t: Trail)
        ensures
            t == (Trail { pos, color, age: 1000, is_alive: true }),
    {
        Trail { pos, color, age: 1000, is_alive: true }
    }
}

impl Render for Trail {
    open spec fn render_ok(&self) -> bool {
        v3_ok(self.pos) && fp_ok(self.age as int)
    }

    open spec fn render_spec(&self, buf: Seq<u8>, w: int, h: int, rot: Rotation) -> Seq<u8> {
        trail_render_s(*self, buf, w, h, rot)
    }

    /// Draw this trail into the buffer; a dead trail draws nothing.
    fn render(&self, screen: &mut Vec<u8>, width: u32, height: u32, rot: Rotation) {
        if !self.is_alive {
            return ;
        }
        paint(self.pos, self.color, self.age, screen, width, height, rot);
    }
}

} // verus!
