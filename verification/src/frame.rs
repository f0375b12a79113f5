//! The frame model: a decoded RGB image held as plain bytes, with the
//! pixel-level operations the classifiers read (cropping, grayscaling,
//! black/white binarization).

use vstd::arithmetic::div_mod::lemma_div_multiples_vanish;
use vstd::arithmetic::div_mod::lemma_fundamental_div_mod_converse;
use vstd::prelude::*;

verus! {

/// A decoded RGB frame: `pixels` holds one byte per channel, three channels
/// per pixel, row-major from the top-left corner.
pub struct Frame {
    pub width: u32,
    pub height: u32,
    pub pixels: Vec<u8>,
}

/// The channel byte of the pixel at `(x, y)` in a row-major RGB byte
/// sequence of row length `w`; `c` selects red (0), green (1) or blue (2).
pub open spec fn chan(w: int, p: Seq<u8>, x: int, y: int, c: int) -> u8 {
    p[3 * (y * w + x) + c]
}

/// The byte sequence of the `cw` x `ch` sub-image of `p` whose top-left
/// corner sits at `(cx, cy)`.
pub open spec fn crop_pixels(w: int, p: Seq<u8>, cx: int, cy: int, cw: int, ch: int) -> Seq<u8> {
    Seq::new(
        (3 * (cw * ch)) as nat,
        |k: int| chan(w, p, cx + (k / 3) % cw, cy + (k / 3) / cw, k % 3),
    )
}

/// The luma value of one RGB pixel, as the image decoder computes it when
/// converting to grayscale: a weighted integer average of the channels.
pub open spec fn luma_of(r: u8, g: u8, b: u8) -> u8 {
    ((2126 * (r as int) + 7152 * (g as int) + 722 * (b as int)) / 10000) as u8
}

/// The byte sequence of `p` with every pixel replaced by its gray value
/// (all three channels equal to the pixel's luma).
pub open spec fn gray_pixels(p: Seq<u8>) -> Seq<u8> {
    Seq::new(
        p.len(),
        |k: int| luma_of(p[3 * (k / 3)], p[3 * (k / 3) + 1], p[3 * (k / 3) + 2]),
    )
}

/// The byte sequence of `p` with every pixel forced to pure white (255) when
/// its plain channel average exceeds `cutoff`, and to pure black (0) otherwise.
pub open spec fn bin_pixels(p: Seq<u8>, cutoff: int) -> Seq<u8> {
    Seq::new(
        p.len(),
        |k: int|
            if (p[3 * (k / 3)] + p[3 * (k / 3) + 1] + p[3 * (k / 3) + 2]) / 3 > cutoff {
                255u8
            } else {
                0u8
            },
    )
}

/// A pixel's linear index computed from in-bounds coordinates stays below
/// the frame's pixel count.
pub proof fn lemma_pixel_index(w: int, h: int, x: int, y: int)
    requires
        0 <= x < w,
        0 <= y < h,
    ensures
        0 <= y * w + x,
        y * w + x < w * h,
{
    assert(0 <= y * w + x && y * w + x < w * h) by (nonlinear_arith)
        requires
            0 <= x < w,
            0 <= y < h,
    ;
}

impl Frame {
    /// The byte buffer holds exactly three bytes per pixel.
    pub open spec fn wf(self) -> bool {
        self.pixels.len() == 3 * ((self.width as int) * (self.height as int))
    }

    /// Reads the three channel bytes of the pixel at `(x, y)`.
    pub fn rgb8(&self, x: u32, y: u32) -> (r: [u8; 3])
        requires
            self.wf(),
            x < self.width,
            y < self.height,
        ensures
            forall|c: int|
                0 <= c < 3 ==> r[c] == chan(self.width as int, self.pixels@, x as int, y as int, c),
    {
        proof {
            lemma_pixel_index(self.width as int, self.height as int, x as int, y as int);
        }
        let base: usize = 3 * ((y as usize) * (self.width as usize) + (x as usize));
        [self.pixels[base], self.pixels[base + 1], self.pixels[base + 2]]
    }

    /// Reads the pixel at `(x, y)` widened to sixteen-bit channels, the way
    /// an eight-bit image reads after conversion to a sixteen-bit buffer.
    pub fn rgb16(&self, x: u32, y: u32) -> (r: [u16; 3])
        requires
            self.wf(),
            x < self.width,
            y < self.height,
        ensures
            forall|c: int|
                0 <= c < 3 ==> r[c] == 257 * (chan(
                    self.width as int,
                    self.pixels@,
                    x as int,
                    y as int,
                    c,
                ) as int),
    {
        let p = self.rgb8(x, y);
        [257 * (p[0] as u16), 257 * (p[1] as u16), 257 * (p[2] as u16)]
    }

    /// Copies out the `cw` x `ch` sub-image whose top-left corner sits at
    /// `(cx, cy)`.
    #[verifier::loop_isolation(false)]
    pub fn crop(&self, cx: u32, cy: u32, cw: u32, ch: u32) -> (r: Frame)
        requires
            self.wf(),
            cx + cw <= self.width,
            cy + ch <= self.height,
        ensures
            r.width == cw,
            r.height == ch,
            r.wf(),
            r.pixels@ == crop_pixels(
                self.width as int,
                self.pixels@,
                cx as int,
                cy as int,
                cw as int,
                ch as int,
            ),
    {
        let ghost target = crop_pixels(
            self.width as int,
            self.pixels@,
            cx as int,
            cy as int,
            cw as int,
            ch as int,
        );
        let mut out: Vec<u8> = Vec::new();
        let mut py: u32 = 0;
        while py < ch
            invariant
                self.wf(),
                cx + cw <= self.width,
                cy + ch <= self.height,
                py <= ch,
                out@.len() == 3 * ((py as int) * (cw as int)),
                forall|k: int| 0 <= k < out@.len() ==> out@[k] == target[k],
                target.len() == 3 * ((cw as int) * (ch as int)),
            decreases ch - py,
        {
            let mut px: u32 = 0;
            while px < cw
                invariant
                    self.wf(),
                    cx + cw <= self.width,
                    cy + ch <= self.height,
                    py < ch,
                    px <= cw,
                    out@.len() == 3 * ((py as int) * (cw as int) + px as int),
                    forall|k: int| 0 <= k < out@.len() ==> out@[k] == target[k],
                    target.len() == 3 * ((cw as int) * (ch as int)),
                decreases cw - px,
            {
                proof {
                    lemma_pixel_index(cw as int, ch as int, px as int, py as int);
                }
                let src = self.rgb8(cx + px, cy + py);
                let ghost q = (py as int) * (cw as int) + (px as int);
                proof {
                    lemma_fundamental_div_mod_converse(3 * q, 3, q, 0);
                    lemma_fundamental_div_mod_converse(3 * q + 1, 3, q, 1);
                    lemma_fundamental_div_mod_converse(3 * q + 2, 3, q, 2);
                    lemma_fundamental_div_mod_converse(q, cw as int, py as int, px as int);
                }
                out.push(src[0]);
                out.push(src[1]);
                out.push(src[2]);
                proof {
                    assert(out@[3 * q] == target[3 * q]);
                    assert(out@[3 * q + 1] == target[3 * q + 1]);
                    assert(out@[3 * q + 2] == target[3 * q + 2]);
                }
                px += 1;
            }
            proof {
                assert(((py as int) + 1) * (cw as int) == (py as int) * (cw as int) + (cw as int))
                    by (nonlinear_arith);
            }
            py += 1;
        }
        proof {
            assert((ch as int) * (cw as int) == (cw as int) * (ch as int)) by (nonlinear_arith);
        }
        let r = Frame { width: cw, height: ch, pixels: out };
        proof {
            assert(r.pixels@ =~= target);
        }
        r
    }

    /// Replaces every pixel with its gray value, the way the image library's
    /// grayscale conversion computes luma for eight-bit channels.
    #[verifier::loop_isolation(false)]
    pub fn grayscale(&self) -> (r: Frame)
        requires
            self.wf(),
        ensures
            r.width == self.width,
            r.height == self.height,
            r.wf(),
            r.pixels@ == gray_pixels(self.pixels@),
    {
        let ghost target = gray_pixels(self.pixels@);
        let ghost npix = (self.width as int) * (self.height as int);
        let n: usize = self.pixels.len() / 3;
        proof {
            lemma_div_multiples_vanish(npix, 3);
            assert(3 * (n as int) == self.pixels@.len());
        }
        let mut out: Vec<u8> = Vec::new();
        let mut q: usize = 0;
        while q < n
            invariant
                self.wf(),
                3 * (n as int) == self.pixels@.len(),
                q <= n,
                out@.len() == 3 * (q as int),
                forall|k: int| 0 <= k < out@.len() ==> out@[k] == target[k],
                target.len() == self.pixels@.len(),
            decreases n - q,
        {
            let r0 = self.pixels[3 * q];
            let g0 = self.pixels[3 * q + 1];
            let b0 = self.pixels[3 * q + 2];
            let v: u8 = ((2126 * (r0 as u32) + 7152 * (g0 as u32) + 722 * (b0 as u32)) / 10000)
                as u8;
            proof {
                assert forall|c: int| 0 <= c < 3 implies #[trigger] target[3 * (q as int) + c]
                    == luma_of(r0, g0, b0) by {
                    lemma_fundamental_div_mod_converse(3 * (q as int) + c, 3, q as int, c);
                }
            }
            out.push(v);
            out.push(v);
            out.push(v);
            q += 1;
        }
        let r = Frame { width: self.width, height: self.height, pixels: out };
        proof {
            assert(r.pixels@ =~= target);
        }
        r
    }
}

/// Forces every pixel whose plain channel average exceeds `cutoff` to pure
/// white and every other pixel to pure black, in place.
#[verifier::loop_isolation(false)]
pub fn max_color_diff(image: &mut Frame, cutoff: u16)
    requires
        old(image).wf(),
    ensures
        final(image).width == old(image).width,
        final(image).height == old(image).height,
        final(image).wf(),
        final(image).pixels@ == bin_pixels(old(image).pixels@, cutoff as int),
{
    let ghost target = bin_pixels(old(image).pixels@, cutoff as int);
    let ghost npix = (old(image).width as int) * (old(image).height as int);
    let n: usize = image.pixels.len() / 3;
    proof {
        lemma_div_multiples_vanish(npix, 3);
        assert(3 * (n as int) == image.pixels@.len());
    }
    let mut q: usize = 0;
    while q < n
        invariant
            image.wf(),
            image.width == old(image).width,
            image.height == old(image).height,
            image.pixels@.len() == old(image).pixels@.len(),
            3 * (n as int) == image.pixels@.len(),
            q <= n,
            forall|k: int| 0 <= k < 3 * (q as int) ==> image.pixels@[k] == target[k],
            forall|k: int|
                3 * (q as int) <= k < image.pixels@.len() ==> image.pixels@[k] == old(
                    image,
                ).pixels@[k],
            target.len() == old(image).pixels@.len(),
        decreases n - q,
    {
        let r0 = image.pixels[3 * q];
        let g0 = image.pixels[3 * q + 1];
        let b0 = image.pixels[3 * q + 2];
        let avg: u16 = ((r0 as u16) + (g0 as u16) + (b0 as u16)) / 3;
        let v: u8 = if avg > cutoff {
            255
        } else {
            0
        };
        proof {
            assert forall|c: int| 0 <= c < 3 implies #[trigger] target[3 * (q as int) + c] == (if ((
            r0 as int) + (g0 as int) + (b0 as int)) / 3 > cutoff {
                255u8
            } else {
                0u8
            }) by {
                lemma_fundamental_div_mod_converse(3 * (q as int) + c, 3, q as int, c);
            }
        }
        image.pixels[3 * q] = v;
        image.pixels[3 * q + 1] = v;
        image.pixels[3 * q + 2] = v;
        q += 1;
    }
    proof {
        assert(image.pixels@ =~= target);
    }
}

} // verus!
