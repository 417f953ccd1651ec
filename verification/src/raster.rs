//! The rasterizer: writes a filled square disk of a given radius and color
//! into a flat row-major RGBA byte buffer, silently clipping anything out of
//! range. Only the three RGB bytes of a touched pixel change; the alpha byte
//! is never written.
//!
//! Two deliberate quirks of the clipping rule: a coordinate is accepted up
//! to and *including* the buffer width and height, and the pixel with
//! linear index zero is never written.

use vstd::prelude::*;
use vstd::pervasive::VecAdditionalExecFns;

verus! {

/// Byte `j` belongs to the RGB triple of the pixel at `(x, y)`, and that
/// pixel is one the clipping rule lets through: coordinates within
/// `[0, w] x [0, h]`, linear index positive, and the triple's base strictly
/// inside the buffer.
pub open spec fn pix_hit(x: int, y: int, w: int, h: int, len: int, j: int) -> bool {
    &&& 0 <= x <= w
    &&& 0 <= y <= h
    &&& 0 < y * w + x
    &&& 4 * (y * w + x) < len
    &&& 4 * (y * w + x) <= j <= 4 * (y * w + x) + 2
}

/// The buffer after one coordinate's RGB bytes are overwritten (or the
/// buffer unchanged, where the clipping rule drops the coordinate).
pub open spec fn write_rgb(buf: Seq<u8>, x: int, y: int, w: int, h: int, rgba: Seq<u8>) -> Seq<u8> {
    Seq::new(
        buf.len(),
        |j: int| if pix_hit(x, y, w, h, buf.len() as int, j) {
            rgba[j % 4]
        } else {
            buf[j]
        },
    )
}

/// `(px, py)` lies in the filled square of radius `r` around `(cx, cy)`.
pub open spec fn pix_in_disk(cx: int, cy: int, r: int, px: int, py: int) -> bool {
    cx - r <= px <= cx + r && cy - r <= py <= cy + r
}

/// Byte `j` is touched when the whole disk is rasterized.
pub open spec fn disk_hit(cx: int, cy: int, r: int, w: int, h: int, len: int, j: int) -> bool {
    exists|px: int, py: int|
        #[trigger] pix_in_disk(cx, cy, r, px, py) && pix_hit(px, py, w, h, len, j)
}

/// The buffer after a whole disk is rasterized.
pub open spec fn write_disk(
    buf: Seq<u8>,
    cx: int,
    cy: int,
    r: int,
    w: int,
    h: int,
    rgba: Seq<u8>,
) -> Seq<u8> {
    Seq::new(
        buf.len(),
        |j: int| if disk_hit(cx, cy, r, w, h, buf.len() as int, j) {
            rgba[j % 4]
        } else {
            buf[j]
        },
    )
}

/// Byte `j` is touched by the disk offsets already processed: those
/// lexicographically below `(dxb, dyb)` in the column-major sweep.
pub open spec fn disk_hit_upto(
    cx: int,
    cy: int,
    r: int,
    w: int,
    h: int,
    len: int,
    j: int,
    dxb: int,
    dyb: int,
) -> bool {
    exists|px: int, py: int|
        #[trigger] pix_in_disk(cx, cy, r, px, py)
            && (px - cx < dxb || (px - cx == dxb && py - cy < dyb))
            && pix_hit(px, py, w, h, len, j)
}

/// The buffer after the disk offsets lexicographically below `(dxb, dyb)`
/// are processed.
pub open spec fn write_disk_upto(
    buf: Seq<u8>,
    cx: int,
    cy: int,
    r: int,
    w: int,
    h: int,
    rgba: Seq<u8>,
    dxb: int,
    dyb: int,
) -> Seq<u8> {
    Seq::new(
        buf.len(),
        |j: int| if disk_hit_upto(cx, cy, r, w, h, buf.len() as int, j, dxb, dyb) {
            rgba[j % 4]
        } else {
            buf[j]
        },
    )
}

proof fn lemma_mod4(i: int, c: int)
    requires
        i >= 0,
        0 <= c < 4,
    ensures
        (4 * i + c) % 4 == c,
{
    assert((4 * i + c) % 4 == c) by (nonlinear_arith)
        requires
            i >= 0,
            0 <= c < 4,
    ;
}

/// Overwrite the RGB bytes of one coordinate, clipping exactly as the disk
/// rasterizer does for each of its cells.
pub fn print_coord_in_pixelbuffer(
    x: i64,
    y: i64,
    screen: &mut Vec<u8>,
    width: u32,
    height: u32,
    rgba: [u8; 4],
)
    requires
        old(screen)@.len() == width as int * height as int * 4,
    ensures
        final(screen)@ == write_rgb(
            old(screen)@,
            x as int,
            y as int,
            width as int,
            height as int,
            rgba@,
        ),
{
    let ghost w = width as int;
    let ghost h = height as int;
    let ghost len = old(screen)@.len() as int;
    proof {
        assert((w * h * 4) / 4 == w * h) by (nonlinear_arith);
    }
    if x >= 0 && x <= width as i64 && y >= 0 && y <= height as i64 {
        proof {
            assert(y as int * (width as int) <= (u32::MAX as int) * (u32::MAX as int))
                by (nonlinear_arith)
                requires
                    0 <= y as int <= u32::MAX as int,
                    0 <= width as int <= u32::MAX as int,
            ;
            assert(y as int * (width as int) >= 0) by (nonlinear_arith)
                requires
                    0 <= y as int,
                    0 <= width as int,
            ;
        }
        let i: u64 = (y as u64) * (width as u64) + (x as u64);
        let quarter: u64 = (screen.len() as u64) / 4;
        if i > 0 && i < quarter {
            proof {
                assert(4 * (quarter as int) == len);
                assert(4 * (i as int) < len);
            }
            let base: usize = (4 * i) as usize;
            screen.set(base, rgba[0]);
            screen.set(base + 1, rgba[1]);
            screen.set(base + 2, rgba[2]);
            proof {
                let ii = i as int;
                lemma_mod4(ii, 0);
                lemma_mod4(ii, 1);
                lemma_mod4(ii, 2);
                assert forall|j: int| 0 <= j < len implies screen@[j] == write_rgb(
                    old(screen)@,
                    x as int,
                    y as int,
                    w,
                    h,
                    rgba@,
                )[j] by {
                    if 4 * ii <= j <= 4 * ii + 2 {
                        assert(pix_hit(x as int, y as int, w, h, len, j));
                        assert(j % 4 == j - 4 * ii);
                    } else {
                        assert(!pix_hit(x as int, y as int, w, h, len, j));
                    }
                }
                assert(screen@ =~= write_rgb(old(screen)@, x as int, y as int, w, h, rgba@));
            }
        } else {
            proof {
                assert(i as int == y as int * w + x as int);
                assert(4 * (quarter as int) == len);
                assert forall|j: int| 0 <= j < len implies !(#[trigger] pix_hit(
                    x as int,
                    y as int,
                    w,
                    h,
                    len,
                    j,
                )) by {}
                assert(screen@ =~= write_rgb(old(screen)@, x as int, y as int, w, h, rgba@));
            }
        }
    } else {
        proof {
            assert forall|j: int| 0 <= j < len implies !(#[trigger] pix_hit(
                x as int,
                y as int,
                w,
                h,
                len,
                j,
            )) by {}
            assert(screen@ =~= write_rgb(old(screen)@, x as int, y as int, w, h, rgba@));
        }
    }
}

proof fn lemma_upto_start(buf: Seq<u8>, cx: int, cy: int, r: int, w: int, h: int, rgba: Seq<u8>)
    ensures
        write_disk_upto(buf, cx, cy, r, w, h, rgba, -r, -r) == buf,
{
    let len = buf.len() as int;
    assert forall|j: int| 0 <= j < len implies !(#[trigger] disk_hit_upto(
        cx,
        cy,
        r,
        w,
        h,
        len,
        j,
        -r,
        -r,
    )) by {
        if disk_hit_upto(cx, cy, r, w, h, len, j, -r, -r) {
            let (px, py) = choose|px: int, py: int|
                #[trigger] pix_in_disk(cx, cy, r, px, py)
                    && (px - cx < -r || (px - cx == -r && py - cy < -r))
                    && pix_hit(px, py, w, h, len, j);
            assert(px - cx >= -r && py - cy >= -r);
        }
    }
    assert(write_disk_upto(buf, cx, cy, r, w, h, rgba, -r, -r) =~= buf);
}

proof fn lemma_upto_step(
    buf: Seq<u8>,
    cx: int,
    cy: int,
    r: int,
    w: int,
    h: int,
    rgba: Seq<u8>,
    dx: int,
    dy: int,
)
    requires
        -r <= dx <= r,
        -r <= dy <= r,
    ensures
        write_rgb(
            write_disk_upto(buf, cx, cy, r, w, h, rgba, dx, dy),
            cx + dx,
            cy + dy,
            w,
            h,
            rgba,
        ) == write_disk_upto(buf, cx, cy, r, w, h, rgba, dx, dy + 1),
{
    let len = buf.len() as int;
    let mid = write_disk_upto(buf, cx, cy, r, w, h, rgba, dx, dy);
    let lhs = write_rgb(mid, cx + dx, cy + dy, w, h, rgba);
    let rhs = write_disk_upto(buf, cx, cy, r, w, h, rgba, dx, dy + 1);
    assert forall|j: int| 0 <= j < len implies lhs[j] == rhs[j] by {
        if pix_hit(cx + dx, cy + dy, w, h, len, j) {
            assert(pix_in_disk(cx, cy, r, cx + dx, cy + dy));
            assert(disk_hit_upto(cx, cy, r, w, h, len, j, dx, dy + 1));
        } else {
            if disk_hit_upto(cx, cy, r, w, h, len, j, dx, dy) {
                let (px, py) = choose|px: int, py: int|
                    #[trigger] pix_in_disk(cx, cy, r, px, py)
                        && (px - cx < dx || (px - cx == dx && py - cy < dy))
                        && pix_hit(px, py, w, h, len, j);
                assert(px - cx < dx || (px - cx == dx && py - cy < dy + 1));
                assert(disk_hit_upto(cx, cy, r, w, h, len, j, dx, dy + 1));
            } else {
                if disk_hit_upto(cx, cy, r, w, h, len, j, dx, dy + 1) {
                    let (px, py) = choose|px: int, py: int|
                        #[trigger] pix_in_disk(cx, cy, r, px, py)
                            && (px - cx < dx || (px - cx == dx && py - cy < dy + 1))
                            && pix_hit(px, py, w, h, len, j);
                    if px - cx == dx && py - cy == dy {
                        assert(pix_hit(cx + dx, cy + dy, w, h, len, j));
                    } else {
                        assert(px - cx < dx || (px - cx == dx && py - cy < dy));
                        assert(disk_hit_upto(cx, cy, r, w, h, len, j, dx, dy));
                    }
                }
            }
        }
    }
    assert(lhs =~= rhs);
}

proof fn lemma_upto_row(
    buf: Seq<u8>,
    cx: int,
    cy: int,
    r: int,
    w: int,
    h: int,
    rgba: Seq<u8>,
    dx: int,
)
    requires
        -r <= dx <= r,
    ensures
        write_disk_upto(buf, cx, cy, r, w, h, rgba, dx, r + 1) == write_disk_upto(
            buf,
            cx,
            cy,
            r,
            w,
            h,
            rgba,
            dx + 1,
            -r,
        ),
{
    let len = buf.len() as int;
    assert forall|j: int| 0 <= j < len implies #[trigger] disk_hit_upto(cx, cy, r, w, h, len, j, dx, r + 1)
        == disk_hit_upto(cx, cy, r, w, h, len, j, dx + 1, -r) by {
        if disk_hit_upto(cx, cy, r, w, h, len, j, dx, r + 1) {
            let (px, py) = choose|px: int, py: int|
                #[trigger] pix_in_disk(cx, cy, r, px, py)
                    && (px - cx < dx || (px - cx == dx && py - cy < r + 1))
                    && pix_hit(px, py, w, h, len, j);
            assert(px - cx < dx + 1);
            assert(disk_hit_upto(cx, cy, r, w, h, len, j, dx + 1, -r));
        }
        if disk_hit_upto(cx, cy, r, w, h, len, j, dx + 1, -r) {
            let (px, py) = choose|px: int, py: int|
                #[trigger] pix_in_disk(cx, cy, r, px, py)
                    && (px - cx < dx + 1 || (px - cx == dx + 1 && py - cy < -r))
                    && pix_hit(px, py, w, h, len, j);
            assert(py - cy >= -r);
            assert(px - cx < dx || (px - cx == dx && py - cy < r + 1));
            assert(disk_hit_upto(cx, cy, r, w, h, len, j, dx, r + 1));
        }
    }
    assert(write_disk_upto(buf, cx, cy, r, w, h, rgba, dx, r + 1) =~= write_disk_upto(
        buf,
        cx,
        cy,
        r,
        w,
        h,
        rgba,
        dx + 1,
        -r,
    ));
}

proof fn lemma_upto_full(buf: Seq<u8>, cx: int, cy: int, r: int, w: int, h: int, rgba: Seq<u8>)
    requires
        r >= 0,
    ensures
        write_disk_upto(buf, cx, cy, r, w, h, rgba, r + 1, -r) == write_disk(
            buf,
            cx,
            cy,
            r,
            w,
            h,
            rgba,
        ),
{
    let len = buf.len() as int;
    assert forall|j: int| 0 <= j < len implies #[trigger] disk_hit_upto(cx, cy, r, w, h, len, j, r + 1, -r)
        == disk_hit(cx, cy, r, w, h, len, j) by {
        if disk_hit_upto(cx, cy, r, w, h, len, j, r + 1, -r) {
            let (px, py) = choose|px: int, py: int|
                #[trigger] pix_in_disk(cx, cy, r, px, py)
                    && (px - cx < r + 1 || (px - cx == r + 1 && py - cy < -r))
                    && pix_hit(px, py, w, h, len, j);
            assert(disk_hit(cx, cy, r, w, h, len, j));
        }
        if disk_hit(cx, cy, r, w, h, len, j) {
            let (px, py) = choose|px: int, py: int|
                #[trigger] pix_in_disk(cx, cy, r, px, py) && pix_hit(px, py, w, h, len, j);
            assert(px - cx < r + 1);
            assert(disk_hit_upto(cx, cy, r, w, h, len, j, r + 1, -r));
        }
    }
    assert(write_disk_upto(buf, cx, cy, r, w, h, rgba, r + 1, -r) =~= write_disk(
        buf,
        cx,
        cy,
        r,
        w,
        h,
        rgba,
    ));
}

/// A negative radius rasterizes nothing.
pub proof fn lemma_disk_negative_radius(
    buf: Seq<u8>,
    cx: int,
    cy: int,
    r: int,
    w: int,
    h: int,
    rgba: Seq<u8>,
)
    requires
        r < 0,
    ensures
        write_disk(buf, cx, cy, r, w, h, rgba) == buf,
{
    let len = buf.len() as int;
    assert forall|j: int| 0 <= j < len implies !(#[trigger] disk_hit(cx, cy, r, w, h, len, j)) by {
        if disk_hit(cx, cy, r, w, h, len, j) {
            let (px, py) = choose|px: int, py: int|
                #[trigger] pix_in_disk(cx, cy, r, px, py) && pix_hit(px, py, w, h, len, j);
            assert(cx - r <= px <= cx + r);
        }
    }
    assert(write_disk(buf, cx, cy, r, w, h, rgba) =~= buf);
}

/// Rasterizing at radius zero, at a coordinate the clipping rule accepts,
/// touches exactly the three RGB bytes of that one pixel and leaves every
/// other byte — the pixel's alpha byte in particular — unchanged.
pub proof fn lemma_radius_zero_touches_one_pixel(
    buf: Seq<u8>,
    cx: int,
    cy: int,
    w: int,
    h: int,
    rgba: Seq<u8>,
)
    requires
        buf.len() == w * h * 4,
        rgba.len() == 4,
        0 <= cx <= w,
        0 <= cy <= h,
        0 < cy * w + cx,
        4 * (cy * w + cx) < buf.len(),
    ensures
        ({
            let i = cy * w + cx;
            let out = write_disk(buf, cx, cy, 0, w, h, rgba);
            &&& out[4 * i] == rgba[0]
            &&& out[4 * i + 1] == rgba[1]
            &&& out[4 * i + 2] == rgba[2]
            &&& out[4 * i + 3] == buf[4 * i + 3]
            &&& forall|j: int|
                0 <= j < buf.len() && !(4 * i <= j <= 4 * i + 2) ==> #[trigger] out[j] == buf[j]
        }),
{
    let len = buf.len() as int;
    let i = cy * w + cx;
    let out = write_disk(buf, cx, cy, 0, w, h, rgba);
    lemma_mod4(i, 0);
    lemma_mod4(i, 1);
    lemma_mod4(i, 2);
    assert(pix_in_disk(cx, cy, 0, cx, cy));
    assert(pix_hit(cx, cy, w, h, len, 4 * i));
    assert(pix_hit(cx, cy, w, h, len, 4 * i + 1));
    assert(pix_hit(cx, cy, w, h, len, 4 * i + 2));
    assert forall|j: int| 0 <= j < len && !(4 * i <= j <= 4 * i + 2) implies #[trigger] out[j]
        == buf[j] by {
        if disk_hit(cx, cy, 0, w, h, len, j) {
            let (px, py) = choose|px: int, py: int|
                #[trigger] pix_in_disk(cx, cy, 0, px, py) && pix_hit(px, py, w, h, len, j);
            assert(px == cx && py == cy);
        }
    }
}

/// Rasterizing a disk that lies entirely outside `[0, w] x [0, h]` leaves
/// every byte of the buffer unchanged.
pub proof fn lemma_offscreen_writes_nothing(
    buf: Seq<u8>,
    cx: int,
    cy: int,
    r: int,
    w: int,
    h: int,
    rgba: Seq<u8>,
)
    requires
        cx + r < 0 || cx - r > w || cy + r < 0 || cy - r > h,
    ensures
        write_disk(buf, cx, cy, r, w, h, rgba) == buf,
{
    let len = buf.len() as int;
    assert forall|j: int| 0 <= j < len implies !(#[trigger] disk_hit(
        cx,
        cy,
        r,
        w,
        h,
        len,
        j,
    )) by {
        if disk_hit(cx, cy, r, w, h, len, j) {
            let (px, py) = choose|px: int, py: int|
                #[trigger] pix_in_disk(cx, cy, r, px, py) && pix_hit(px, py, w, h, len, j);
            assert(0 <= px <= w && 0 <= py <= h);
        }
    }
    assert(write_disk(buf, cx, cy, r, w, h, rgba) =~= buf);
}

/// Rasterize a filled square of radius `r` around `(x, y)`: every cell of
/// the square is clipped and written as `print_coord_in_pixelbuffer` does.
pub fn print_point(
    x: i32,
    y: i32,
    r: i32,
    screen: &mut Vec<u8>,
    width: u32,
    height: u32,
    rgba: [u8; 4],
)
    requires
        old(screen)@.len() == width as int * height as int * 4,
    ensures
        final(screen)@ == write_disk(
            old(screen)@,
            x as int,
            y as int,
            r as int,
            width as int,
            height as int,
            rgba@,
        ),
{
    let ghost w = width as int;
    let ghost h = height as int;
    let ghost buf0 = old(screen)@;
    if r < 0 {
        proof {
            lemma_disk_negative_radius(buf0, x as int, y as int, r as int, w, h, rgba@);
        }
        return ;
    }
    let rw: i64 = r as i64;
    let mut dx: i64 = -rw;
    proof {
        lemma_upto_start(buf0, x as int, y as int, r as int, w, h, rgba@);
    }
    while dx <= rw
        invariant
            rw == r as int,
            0 <= rw,
            -rw <= dx <= rw + 1,
            buf0.len() == w * h * 4,
            buf0 == old(screen)@,
            w == width as int,
            h == height as int,
            screen@ == write_disk_upto(buf0, x as int, y as int, r as int, w, h, rgba@, dx as int, -(r as int)),
        decreases rw + 1 - dx,
    {
        let mut dy: i64 = -rw;
        while dy <= rw
            invariant
                rw == r as int,
                0 <= rw,
                -rw <= dx <= rw,
                -rw <= dy <= rw + 1,
                buf0.len() == w * h * 4,
                buf0 == old(screen)@,
                w == width as int,
                h == height as int,
                screen@ == write_disk_upto(buf0, x as int, y as int, r as int, w, h, rgba@, dx as int, dy as int),
            decreases rw + 1 - dy,
        {
            let px: i64 = (x as i64) + dx;
            let py: i64 = (y as i64) + dy;
            proof {
                assert(screen@.len() == buf0.len());
            }
            print_coord_in_pixelbuffer(px, py, screen, width, height, rgba);
            proof {
                lemma_upto_step(buf0, x as int, y as int, r as int, w, h, rgba@, dx as int, dy as int);
            }
            dy = dy + 1;
        }
        proof {
            lemma_upto_row(buf0, x as int, y as int, r as int, w, h, rgba@, dx as int);
        }
        dx = dx + 1;
    }
    proof {
        lemma_upto_full(buf0, x as int, y as int, r as int, w, h, rgba@);
    }
}

} // verus!
