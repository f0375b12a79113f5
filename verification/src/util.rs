//! Layout utilities shared by the race-family screens: the split-screen
//! divider detector.

use vstd::prelude::*;

use crate::color::lightness;
use crate::color::lightness_spec;
use crate::color::overall_avg;
use crate::color::region_average;
use crate::frame::chan;
use crate::frame::Frame;

verus! {

/// The lightness of the frame's pixel at `(x, y)` on the sixteen-bit scale.
pub open spec fn pixel_lightness(w: int, p: Seq<u8>, x: int, y: int) -> int {
    lightness_spec(
        257 * (chan(w, p, x, y, 0) as int),
        257 * (chan(w, p, x, y, 1) as int),
        257 * (chan(w, p, x, y, 2) as int),
    )
}

/// A frame shows the split-screen race layout when thin strips at the
/// midpoints of all four edges are near-black (the divider lines) while at
/// least one left corner pixel is clearly brighter than black (ruling out
/// an entirely black screen).
pub open spec fn is_splitscreen_spec(w: int, h: int, p: Seq<u8>) -> bool {
    overall_avg(w, p, w / 2 - 1, 2, 2, 4) <= 5000 && overall_avg(w, p, w / 2 - 1, h - 4, 2, 4)
        <= 5000 && overall_avg(w, p, 2, h / 2 - 1, 4, 2) <= 5000 && overall_avg(
        w,
        p,
        w - 4,
        h / 2 - 1,
        4,
        2,
    ) <= 5000 && (pixel_lightness(w, p, 0, 0) > 3800 || pixel_lightness(w, p, 0, h - 1) > 3800)
}

/// Detects the split-screen race layout from the frame's edge-midpoint
/// strips and corner pixels.
pub fn is_splitscreen(frame: &Frame) -> (r: bool)
    requires
        frame.wf(),
        frame.width >= 8,
        frame.height >= 8,
    ensures
        r == is_splitscreen_spec(frame.width as int, frame.height as int, frame.pixels@),
{
    let width = frame.width;
    let height = frame.height;

    let top = overall_of(frame, width / 2 - 1, 2, 2, 4);
    let left = overall_of(frame, 2, height / 2 - 1, 4, 2);
    let right = overall_of(frame, width - 4, height / 2 - 1, 4, 2);
    let bottom = overall_of(frame, width / 2 - 1, height - 4, 2, 4);

    let top_left = lightness(frame.rgb16(0, 0));
    let bottom_left = lightness(frame.rgb16(0, height - 1));

    top <= 5000 && bottom <= 5000 && left <= 5000 && right <= 5000 && (top_left > 3800
        || bottom_left > 3800)
}

/// The overall brightness of one sampling strip.
fn overall_of(frame: &Frame, x0: u32, y0: u32, rw: u32, rh: u32) -> (r: u32)
    requires
        frame.wf(),
        x0 + rw <= frame.width,
        y0 + rh <= frame.height,
        1 <= rw <= 16,
        1 <= rh <= 16,
    ensures
        r == overall_avg(
            frame.width as int,
            frame.pixels@,
            x0 as int,
            y0 as int,
            rw as int,
            rh as int,
        ),
{
    proof {
        assert((rw as int) * (rh as int) <= 256) by (nonlinear_arith)
            requires
                rw <= 16,
                rh <= 16,
        ;
    }
    let a = region_average(frame, x0, y0, rw, rh);
    ((a[0] as u32) + (a[1] as u32) + (a[2] as u32)) / 3
}

} // verus!
