//! The frame loops of the host tracer.
//!
//! A frame is a row-major buffer of packed 24-bit pixels, `(R << 16) |
//! (G << 8) | B`, pixel (`x`, `y`) standing at `x + y * w`. What colour a
//! pixel gets is computed per pixel by the caller (camera ray, tracing, gamma
//! encoding), here handed in as a function of the pixel's coordinates.
use vstd::prelude::*;

verus! {

/// The packed value of a pixel with channels `r`, `g` and `b`.
pub open spec fn rgb(r: u8, g: u8, b: u8) -> int {
    r * 65536 + g * 256 + b
}

/// Where pixel (`x`, `y`) of a frame `w` pixels wide stands in the buffer.
pub open spec fn pixel_index(x: int, y: int, w: int) -> int {
    x + y * w
}

/// The pixel (`x`, `y`) of `screen` holds the packing, by `pack`, of a
/// value that `color` can return for it.
pub open spec fn filled_at<A, F: Fn(usize, usize) -> A, G: Fn(A) -> u32>(
    color: F,
    pack: G,
    screen: Seq<u32>,
    w: usize,
    x: usize,
    y: usize,
) -> bool {
    exists|a: A| #[trigger]
        color.ensures((x, y), a) && pack.ensures(
            (a,),
            screen[pixel_index(x as int, y as int, w as int)],
        )
}

/// Pixel (`x`, `y`) of `screen` holds the packed channels that `trace_pixel`
/// can return for it.
pub open spec fn traced_at<F: Fn(usize, usize) -> (u8, u8, u8)>(
    trace_pixel: F,
    screen: Seq<u32>,
    w: usize,
    x: usize,
    y: usize,
) -> bool {
    exists|c: (u8, u8, u8)| #[trigger]
        trace_pixel.ensures((x, y), c) && screen[pixel_index(x as int, y as int, w as int)]
            == rgb(c.0, c.1, c.2)
}

/// Pixel (`x`, `y`) of `screen` holds the grey of a level that `level` can
/// return for it.
pub open spec fn grey_at<F: Fn(usize, usize) -> u8>(
    level: F,
    screen: Seq<u32>,
    w: usize,
    x: usize,
    y: usize,
) -> bool {
    exists|v: u8| #[trigger]
        level.ensures((x, y), v) && screen[pixel_index(x as int, y as int, w as int)] == rgb(
            v,
            v,
            v,
        )
}

/// Packs three channels into one pixel: `(r << 16) + (g << 8) + b`.
pub fn pack_rgb(r: u8, g: u8, b: u8) -> (p: u32)
    ensures
        p == rgb(r, g, b),
{
    let r32: u32 = r as u32;
    let g32: u32 = g as u32;
    let b32: u32 = b as u32;
    assert(r32 << 16 == r32 * 65536) by (bit_vector)
        requires
            r32 < 256,
    ;
    assert(g32 << 8 == g32 * 256) by (bit_vector)
        requires
            g32 < 256,
    ;
    (r32 << 16) + (g32 << 8) + b32
}

fn pack_channels(c: (u8, u8, u8)) -> (p: u32)
    ensures
        p == rgb(c.0, c.1, c.2),
{
    pack_rgb(c.0, c.1, c.2)
}

fn pack_grey(v: u8) -> (p: u32)
    ensures
        p == rgb(v, v, v),
{
    pack_rgb(v, v, v)
}

proof fn lemma_pixel_index_distinct(w: int, x1: int, y1: int, x2: int, y2: int)
    requires
        0 <= x1 < w,
        0 <= x2 < w,
        0 <= y1,
        0 <= y2,
        x1 != x2 || y1 != y2,
    ensures
        pixel_index(x1, y1, w) != pixel_index(x2, y2, w),
{
    if y1 < y2 {
        assert(x1 + y1 * w < x2 + y2 * w) by (nonlinear_arith)
            requires
                0 <= x1 < w,
                0 <= x2,
                0 <= y1 < y2,
        {
            assert(y1 * w + w == (y1 + 1) * w);
            assert((y1 + 1) * w <= y2 * w);
        }
    } else if y2 < y1 {
        assert(x2 + y2 * w < x1 + y1 * w) by (nonlinear_arith)
            requires
                0 <= x2 < w,
                0 <= x1,
                0 <= y2 < y1,
        {
            assert(y2 * w + w == (y2 + 1) * w);
            assert((y2 + 1) * w <= y1 * w);
        }
    }
}

proof fn lemma_pixel_index_in_frame(w: int, h: int, x: int, y: int)
    requires
        0 <= x < w,
        0 <= y < h,
    ensures
        0 <= pixel_index(x, y, w) < w * h,
{
    assert(0 <= x + y * w < w * h) by (nonlinear_arith)
        requires
            0 <= x < w,
            0 <= y < h,
    {
        assert(x + y * w < (y + 1) * w);
        assert((y + 1) * w <= h * w);
    }
}

/// Fills the `w` by `h` frame at the front of `screen`, column by column:
/// each pixel gets the packing, by `pack`, of what `color` returns for it.
/// The rest of `screen` keeps its values.
fn fill_frame<A, F: Fn(usize, usize) -> A, G: Fn(A) -> u32>(
    w: usize,
    h: usize,
    screen: &mut Vec<u32>,
    color: F,
    pack: G,
)
    requires
        w * h <= old(screen)@.len(),
        forall|x: usize, y: usize| x < w && y < h ==> #[trigger] color.requires((x, y)),
        forall|a: A| #[trigger] pack.requires((a,)),
    ensures
        final(screen)@.len() == old(screen)@.len(),
        forall|x: usize, y: usize|
            x < w && y < h ==> #[trigger] filled_at(color, pack, final(screen)@, w, x, y),
        forall|i: int| w * h <= i < old(screen)@.len() ==> final(screen)@[i] == old(screen)@[i],
{
    let ghost frame: int = w * h;
    let total: usize = screen.len();
    let mut x: usize = 0;
    while x < w
        invariant
            x <= w,
            frame == w * h,
            frame <= screen@.len(),
            screen@.len() == old(screen)@.len(),
            screen@.len() == total,
            forall|x: usize, y: usize| x < w && y < h ==> #[trigger] color.requires((x, y)),
            forall|a: A| #[trigger] pack.requires((a,)),
            forall|a: usize, b: usize|
                a < x && b < h ==> #[trigger] filled_at(color, pack, screen@, w, a, b),
            forall|i: int| frame <= i < old(screen)@.len() ==> screen@[i] == old(screen)@[i],
        decreases w - x,
    {
        let mut y: usize = 0;
        while y < h
            invariant
                x < w,
                y <= h,
                frame == w * h,
                frame <= screen@.len(),
                screen@.len() == old(screen)@.len(),
                screen@.len() == total,
                forall|x: usize, y: usize| x < w && y < h ==> #[trigger] color.requires((x, y)),
                forall|a: A| #[trigger] pack.requires((a,)),
                forall|a: usize, b: usize|
                    (a < x && b < h) || (a == x && b < y) ==> #[trigger] filled_at(
                        color,
                        pack,
                        screen@,
                        w,
                        a,
                        b,
                    ),
                forall|i: int| frame <= i < old(screen)@.len() ==> screen@[i] == old(screen)@[i],
            decreases h - y,
        {
            proof {
                lemma_pixel_index_in_frame(w as int, h as int, x as int, y as int);
            }
            let idx: usize = x + y * w;
            let c = color(x, y);
            let p: u32 = pack(c);
            let ghost before: Seq<u32> = screen@;
            screen.set(idx, p);
            assert forall|a: usize, b: usize|
                (a < x && b < h) || (a == x && b < y + 1) implies #[trigger] filled_at(
                color,
                pack,
                screen@,
                w,
                a,
                b,
            ) by {
                if a == x && b == y {
                    assert(screen@[pixel_index(x as int, y as int, w as int)] == p);
                    assert(color.ensures((x, y), c) && pack.ensures(
                        (c,),
                        screen@[pixel_index(x as int, y as int, w as int)],
                    ));
                } else {
                    lemma_pixel_index_distinct(w as int, a as int, b as int, x as int, y as int);
                    lemma_pixel_index_in_frame(w as int, h as int, a as int, b as int);
                    assert(filled_at(color, pack, before, w, a, b));
                    let q: A = choose|q: A| #[trigger]
                        color.ensures((a, b), q) && pack.ensures(
                            (q,),
                            before[pixel_index(a as int, b as int, w as int)],
                        );
                    assert(screen@[pixel_index(a as int, b as int, w as int)] == before[pixel_index(
                        a as int,
                        b as int,
                        w as int,
                    )]);
                    assert(color.ensures((a, b), q) && pack.ensures(
                        (q,),
                        screen@[pixel_index(a as int, b as int, w as int)],
                    ));
                }
            }
            y = y + 1;
        }
        x = x + 1;
    }
}

/// Renders a `w` by `h` frame into `screen`: each pixel (`x`, `y`) gets the
/// packed value of the channels that `trace_pixel` returns for it, the
/// gamma-encoded colour of the ray through that pixel.
pub fn whitted<F: Fn(usize, usize) -> (u8, u8, u8)>(
    w: usize,
    h: usize,
    screen: &mut Vec<u32>,
    trace_pixel: F,
)
    requires
        w * h <= old(screen)@.len(),
        forall|x: usize, y: usize| x < w && y < h ==> #[trigger] trace_pixel.requires((x, y)),
    ensures
        final(screen)@.len() == old(screen)@.len(),
        forall|x: usize, y: usize|
            x < w && y < h ==> #[trigger] traced_at(trace_pixel, final(screen)@, w, x, y),
        forall|i: int| w * h <= i < old(screen)@.len() ==> final(screen)@[i] == old(screen)@[i],
{
    fill_frame(w, h, screen, trace_pixel, pack_channels);
    assert forall|x: usize, y: usize| x < w && y < h implies #[trigger] traced_at(
        trace_pixel,
        screen@,
        w,
        x,
        y,
    ) by {
        assert(filled_at(trace_pixel, pack_channels, screen@, w, x, y));
    }
}

/// Draws the radial test pattern into `screen`: each pixel (`x`, `y`) gets
/// the grey whose three channels are the level that `level` returns for it.
pub fn test<F: Fn(usize, usize) -> u8>(w: usize, h: usize, screen: &mut Vec<u32>, level: F)
    requires
        w * h <= old(screen)@.len(),
        forall|x: usize, y: usize| x < w && y < h ==> #[trigger] level.requires((x, y)),
    ensures
        final(screen)@.len() == old(screen)@.len(),
        forall|x: usize, y: usize|
            x < w && y < h ==> #[trigger] grey_at(level, final(screen)@, w, x, y),
        forall|i: int| w * h <= i < old(screen)@.len() ==> final(screen)@[i] == old(screen)@[i],
{
    fill_frame(w, h, screen, level, pack_grey);
    assert forall|x: usize, y: usize| x < w && y < h implies #[trigger] grey_at(
        level,
        screen@,
        w,
        x,
        y,
    ) by {
        assert(filled_at(level, pack_grey, screen@, w, x, y));
    }
}

} // verus!
