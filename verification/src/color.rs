//! Shared pixel and color helpers: region averaging on the sixteen-bit
//! scale, lightness, and the primary-color predicates the result screens
//! sample with.

use vstd::arithmetic::div_mod::lemma_div_is_ordered;
use vstd::arithmetic::div_mod::lemma_div_multiples_vanish;
use vstd::prelude::*;

use crate::frame::chan;
use crate::frame::Frame;

verus! {

/// The sixteen-bit accent-color floor used by the per-seat HUD checks.
pub const COLOR_THRESHOLD: u16 = 45_000;

/// Sum of the sixteen-bit values (257 times the byte) of channel `c` over
/// the first `n` pixels of the row at `y` starting at `x0`.
pub open spec fn sum_row(w: int, p: Seq<u8>, y: int, x0: int, n: int, c: int) -> int
    decreases n,
{
    if n <= 0 {
        0
    } else {
        sum_row(w, p, y, x0, n - 1, c) + 257 * (chan(w, p, x0 + n - 1, y, c) as int)
    }
}

/// Sum of the sixteen-bit values of channel `c` over the first `n` rows of
/// the `rw`-wide rectangle whose top-left corner sits at `(x0, y0)`.
pub open spec fn sum_rect(w: int, p: Seq<u8>, x0: int, y0: int, rw: int, n: int, c: int) -> int
    decreases n,
{
    if n <= 0 {
        0
    } else {
        sum_rect(w, p, x0, y0, rw, n - 1, c) + sum_row(w, p, y0 + n - 1, x0, rw, c)
    }
}

/// The average sixteen-bit value of channel `c` over the `rw` x `rh`
/// rectangle at `(x0, y0)`: the truncating division of the channel sum by
/// the pixel count.
pub open spec fn avg_chan(w: int, p: Seq<u8>, x0: int, y0: int, rw: int, rh: int, c: int) -> int {
    sum_rect(w, p, x0, y0, rw, rh, c) / (rw * rh)
}

/// The overall brightness of a rectangle: the plain average of its three
/// channel averages.
pub open spec fn overall_avg(w: int, p: Seq<u8>, x0: int, y0: int, rw: int, rh: int) -> int {
    (avg_chan(w, p, x0, y0, rw, rh, 0) + avg_chan(w, p, x0, y0, rw, rh, 1) + avg_chan(
        w,
        p,
        x0,
        y0,
        rw,
        rh,
        2,
    )) / 3
}

/// A row sum lies between zero and 65535 per pixel.
pub proof fn lemma_sum_row_bound(w: int, p: Seq<u8>, y: int, x0: int, n: int, c: int)
    requires
        n >= 0,
    ensures
        0 <= sum_row(w, p, y, x0, n, c) <= 65535 * n,
    decreases n,
{
    if n > 0 {
        lemma_sum_row_bound(w, p, y, x0, n - 1, c);
    }
}

/// A rectangle sum lies between zero and 65535 per pixel.
pub proof fn lemma_sum_rect_bound(w: int, p: Seq<u8>, x0: int, y0: int, rw: int, n: int, c: int)
    requires
        n >= 0,
        rw >= 0,
    ensures
        0 <= sum_rect(w, p, x0, y0, rw, n, c) <= 65535 * (rw * n),
    decreases n,
{
    if n > 0 {
        lemma_sum_rect_bound(w, p, x0, y0, rw, n - 1, c);
        lemma_sum_row_bound(w, p, y0 + n - 1, x0, rw, c);
        assert(65535 * (rw * (n - 1)) + 65535 * rw == 65535 * (rw * n)) by (nonlinear_arith);
    } else {
        assert(65535 * (rw * 0) == 0) by (nonlinear_arith);
    }
}

/// The per-channel averages of a rectangle of the frame, on the sixteen-bit
/// scale, exactly as averaging a sixteen-bit copy of the cropped region
/// computes them.
#[verifier::loop_isolation(false)]
pub fn region_average(f: &Frame, x0: u32, y0: u32, rw: u32, rh: u32) -> (r: [u16; 3])
    requires
        f.wf(),
        x0 + rw <= f.width,
        y0 + rh <= f.height,
        rw >= 1,
        rh >= 1,
        (rw as int) * (rh as int) <= 0x1_0000_0000,
    ensures
        forall|c: int|
            0 <= c < 3 ==> r[c] == avg_chan(
                f.width as int,
                f.pixels@,
                x0 as int,
                y0 as int,
                rw as int,
                rh as int,
                c,
            ),
{
    let ghost w = f.width as int;
    let ghost p = f.pixels@;
    let mut sums: [u64; 3] = [0, 0, 0];
    let mut yy: u32 = 0;
    while yy < rh
        invariant
            yy <= rh,
            forall|c: int|
                0 <= c < 3 ==> sums[c] == sum_rect(w, p, x0 as int, y0 as int, rw as int, yy as int, c),
            forall|c: int| 0 <= c < 3 ==> sums[c] <= 65535 * ((rw as int) * (yy as int)),
        decreases rh - yy,
    {
        let mut xx: u32 = 0;
        let ghost base = sums@;
        while xx < rw
            invariant
                yy < rh,
                xx <= rw,
                forall|c: int|
                    0 <= c < 3 ==> base[c] == sum_rect(
                        w,
                        p,
                        x0 as int,
                        y0 as int,
                        rw as int,
                        yy as int,
                        c,
                    ),
                forall|c: int| 0 <= c < 3 ==> base[c] <= 65535 * ((rw as int) * (yy as int)),
                forall|c: int|
                    0 <= c < 3 ==> sums[c] == base[c] + sum_row(
                        w,
                        p,
                        (y0 + yy) as int,
                        x0 as int,
                        xx as int,
                        c,
                    ),
            decreases rw - xx,
        {
            proof {
                lemma_sum_row_bound(w, p, (y0 + yy) as int, x0 as int, xx as int, 0);
                lemma_sum_row_bound(w, p, (y0 + yy) as int, x0 as int, xx as int, 1);
                lemma_sum_row_bound(w, p, (y0 + yy) as int, x0 as int, xx as int, 2);
                assert(65535 * ((rw as int) * (yy as int)) + 65535 * (xx as int) + 65535 <= 65535
                    * 0x1_0000_0001) by (nonlinear_arith)
                    requires
                        xx < rw,
                        yy < rh,
                        (rw as int) * (rh as int) <= 0x1_0000_0000,
                ;
            }
            let px = f.rgb16(x0 + xx, y0 + yy);
            sums[0] = sums[0] + (px[0] as u64);
            sums[1] = sums[1] + (px[1] as u64);
            sums[2] = sums[2] + (px[2] as u64);
            xx += 1;
        }
        proof {
            assert(65535 * ((rw as int) * (yy as int)) + 65535 * (rw as int) == 65535 * ((rw as int)
                * ((yy as int) + 1))) by (nonlinear_arith);
            lemma_sum_row_bound(w, p, (y0 + yy) as int, x0 as int, rw as int, 0);
            lemma_sum_row_bound(w, p, (y0 + yy) as int, x0 as int, rw as int, 1);
            lemma_sum_row_bound(w, p, (y0 + yy) as int, x0 as int, rw as int, 2);
        }
        yy += 1;
    }
    let count: u64 = (rw as u64) * (rh as u64);
    let ghost cnt = (rw as int) * (rh as int);
    proof {
        assert((rw as int) * (rh as int) >= 1) by (nonlinear_arith)
            requires
                rw >= 1,
                rh >= 1,
        ;
        assert forall|c: int| 0 <= c < 3 implies 0 <= #[trigger] (sums[c] as int) / cnt
            <= 65535 by {
            lemma_sum_rect_bound(w, p, x0 as int, y0 as int, rw as int, rh as int, c);
            lemma_div_is_ordered(sums[c] as int, 65535 * cnt, cnt);
            lemma_div_multiples_vanish(65535, cnt);
            assert(65535 * cnt == cnt * 65535) by (nonlinear_arith);
        }
    }
    [
        (sums[0] / count) as u16,
        (sums[1] / count) as u16,
        (sums[2] / count) as u16,
    ]
}

/// The per-channel averages of the whole frame on the sixteen-bit scale.
pub fn average_colors(im: &Frame) -> (r: [u16; 3])
    requires
        im.wf(),
        im.width >= 1,
        im.height >= 1,
        (im.width as int) * (im.height as int) <= 0x1_0000_0000,
    ensures
        forall|c: int|
            0 <= c < 3 ==> r[c] == avg_chan(
                im.width as int,
                im.pixels@,
                0,
                0,
                im.width as int,
                im.height as int,
                c,
            ),
{
    region_average(im, 0, 0, im.width, im.height)
}

/// The overall brightness of the whole frame: the average of its three
/// channel averages.
pub fn get_overall_average(image: &Frame) -> (r: u32)
    requires
        image.wf(),
        image.width >= 1,
        image.height >= 1,
        (image.width as int) * (image.height as int) <= 0x1_0000_0000,
    ensures
        r == overall_avg(
            image.width as int,
            image.pixels@,
            0,
            0,
            image.width as int,
            image.height as int,
        ),
{
    let a = average_colors(image);
    ((a[0] as u32) + (a[1] as u32) + (a[2] as u32)) / 3
}

/// The largest of three channel values.
pub open spec fn max3(r: int, g: int, b: int) -> int {
    if r >= g && r >= b {
        r
    } else if g >= b {
        g
    } else {
        b
    }
}

/// The smallest of three channel values.
pub open spec fn min3(r: int, g: int, b: int) -> int {
    if r <= g && r <= b {
        r
    } else if g <= b {
        g
    } else {
        b
    }
}

/// The lightness of a sixteen-bit pixel: the midpoint of its largest and
/// smallest channel.
pub open spec fn lightness_spec(r: int, g: int, b: int) -> int {
    (max3(r, g, b) + min3(r, g, b)) / 2
}

/// Computes the lightness of a sixteen-bit pixel.
pub fn lightness(pixel: [u16; 3]) -> (r: u16)
    ensures
        r == lightness_spec(pixel[0] as int, pixel[1] as int, pixel[2] as int),
{
    let a = pixel[0];
    let b = pixel[1];
    let c = pixel[2];
    let mx: u16 = if a >= b && a >= c {
        a
    } else if b >= c {
        b
    } else {
        c
    };
    let mn: u16 = if a <= b && a <= c {
        a
    } else if b <= c {
        b
    } else {
        c
    };
    (((mx as u32) + (mn as u32)) / 2) as u16
}

/// A sixteen-bit color dominated by its red channel.
pub open spec fn mostly_red_spec(r: u16, g: u16, b: u16) -> bool {
    r > 40_000 && g < 20_000 && b < 20_000
}

/// A sixteen-bit color dominated by its green channel.
pub open spec fn mostly_green_spec(r: u16, g: u16, b: u16) -> bool {
    g > 40_000 && r < 20_000 && b < 20_000
}

/// A sixteen-bit color dominated by its blue channel.
pub open spec fn mostly_blue_spec(r: u16, g: u16, b: u16) -> bool {
    b > 40_000 && r < 20_000 && g < 20_000
}

/// Tests whether a sixteen-bit color is dominated by its red channel.
pub fn mostly_red(rgb: [u16; 3]) -> (res: bool)
    ensures
        res == mostly_red_spec(rgb[0], rgb[1], rgb[2]),
{
    rgb[0] > 40_000 && rgb[1] < 20_000 && rgb[2] < 20_000
}

/// Tests whether a sixteen-bit color is dominated by its green channel.
pub fn mostly_green(rgb: [u16; 3]) -> (res: bool)
    ensures
        res == mostly_green_spec(rgb[0], rgb[1], rgb[2]),
{
    rgb[1] > 40_000 && rgb[0] < 20_000 && rgb[2] < 20_000
}

/// Tests whether a sixteen-bit color is dominated by its blue channel.
pub fn mostly_blue(rgb: [u16; 3]) -> (res: bool)
    ensures
        res == mostly_blue_spec(rgb[0], rgb[1], rgb[2]),
{
    rgb[2] > 40_000 && rgb[0] < 20_000 && rgb[1] < 20_000
}

} // verus!
