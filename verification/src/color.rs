//! The palette: a closed set of named colors plus an open RGB triple, each
//! resolving to exact 8-bit channel values.

use vstd::prelude::*;

verus! {

#[derive(Clone, Copy, Debug, PartialEq, Eq, Structural)]
pub enum Color {
    Red,
    Orange,
    Yellow,
    Green,
    Blue,
    Purple,
    White,
    Black,
    RGB(u8, u8, u8),
}

/// The exact channel triple each color resolves to.
pub open spec fn rgb_of(c: Color) -> Seq<u8> {
    match c {
        Color::Red => seq![0xffu8, 0x00u8, 0x00u8],
        Color::Orange => seq![0xffu8, 0xaau8, 0x00u8],
        Color::Yellow => seq![0xffu8, 0xffu8, 0x00u8],
        Color::Green => seq![0x00u8, 0xffu8, 0x00u8],
        Color::Blue => seq![0x00u8, 0x00u8, 0xffu8],
        Color::Purple => seq![0xaau8, 0x00u8, 0xaau8],
        Color::White => seq![0xffu8, 0xffu8, 0xffu8],
        Color::Black => seq![0x00u8, 0x00u8, 0x00u8],
        Color::RGB(r, g, b) => seq![r, g, b],
    }
}

impl Color {
    pub fn get_rgb(&self) -> (r: [u8; 3])
        ensures
            r@ == rgb_of(*self),
    {
        let out = match self {
            Color::Red => [0xff, 0x00, 0x00],
            Color::Orange => [0xff, 0xaa, 0x00],
            Color::Yellow => [0xff, 0xff, 0x00],
            Color::Green => [0x00, 0xff, 0x00],
            Color::Blue => [0x00, 0x00, 0xff],
            Color::Purple => [0xaa, 0x00, 0xaa],
            Color::White => [0xff, 0xff, 0xff],
            Color::Black => [0x00, 0x00, 0x00],
            Color::RGB(r, g, b) => [*r, *g, *b],
        };
        proof {
            assert(out@ =~= rgb_of(*self));
        }
        out
    }
}

} // verus!
