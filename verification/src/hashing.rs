//! Perceptual hashing: the trusted bridge to the image-hashing library and
//! a verified Hamming distance over hash bytes.

use vstd::prelude::*;

use crate::frame::Frame;

verus! {

/// Number of one-bits in a byte, summed bit by bit.
pub open spec fn popcount8(x: u8) -> int {
    (x & 1) + ((x >> 1) & 1) + ((x >> 2) & 1) + ((x >> 3) & 1) + ((x >> 4) & 1) + ((x >> 5) & 1) + (
    (x >> 6) & 1) + ((x >> 7) & 1)
}

/// Every byte has at most eight one-bits.
pub proof fn lemma_popcount8_bound(x: u8)
    ensures
        0 <= popcount8(x) <= 8,
{
    assert((x & 1) <= 1 && ((x >> 1) & 1) <= 1 && ((x >> 2) & 1) <= 1 && ((x >> 3) & 1) <= 1 && ((x
        >> 4) & 1) <= 1 && ((x >> 5) & 1) <= 1 && ((x >> 6) & 1) <= 1 && ((x >> 7) & 1) <= 1)
        by (bit_vector);
}

/// A byte differs from itself in no bit.
pub proof fn lemma_popcount8_self(x: u8)
    ensures
        popcount8(x ^ x) == 0,
{
    assert(x ^ x == 0) by (bit_vector);
    assert(0u8 & 1 == 0 && (0u8 >> 1) & 1 == 0 && (0u8 >> 2) & 1 == 0 && (0u8 >> 3) & 1 == 0 && (0u8
        >> 4) & 1 == 0 && (0u8 >> 5) & 1 == 0 && (0u8 >> 6) & 1 == 0 && (0u8 >> 7) & 1 == 0)
        by (bit_vector);
}

/// Counts the one-bits of a byte.
pub fn count_ones8(x: u8) -> (r: u32)
    ensures
        r == popcount8(x),
        r <= 8,
{
    proof {
        lemma_popcount8_bound(x);
    }
    let mut r: u32 = 0;
    r += (x & 1) as u32;
    r += ((x >> 1) & 1) as u32;
    r += ((x >> 2) & 1) as u32;
    r += ((x >> 3) & 1) as u32;
    r += ((x >> 4) & 1) as u32;
    r += ((x >> 5) & 1) as u32;
    r += ((x >> 6) & 1) as u32;
    r += ((x >> 7) & 1) as u32;
    r
}

/// The Hamming distance between two equally long byte sequences: the number
/// of bit positions where they differ.
pub open spec fn hamming(a: Seq<u8>, b: Seq<u8>) -> int
    decreases a.len(),
{
    if a.len() == 0 || b.len() == 0 {
        0
    } else {
        hamming(a.drop_last(), b.drop_last()) + popcount8(a.last() ^ b.last())
    }
}

/// The Hamming distance lies between zero and eight bits per byte.
pub proof fn lemma_hamming_bound(a: Seq<u8>, b: Seq<u8>)
    ensures
        0 <= hamming(a, b) <= 8 * a.len(),
    decreases a.len(),
{
    if a.len() != 0 && b.len() != 0 {
        lemma_hamming_bound(a.drop_last(), b.drop_last());
        lemma_popcount8_bound(a.last() ^ b.last());
    }
}

/// A byte sequence is at distance zero from itself.
pub proof fn lemma_hamming_self(a: Seq<u8>)
    ensures
        hamming(a, a) == 0,
    decreases a.len(),
{
    if a.len() != 0 {
        lemma_hamming_self(a.drop_last());
        lemma_popcount8_self(a.last());
    }
}

/// Computes the Hamming distance between two hashes of the same size.
#[verifier::loop_isolation(false)]
pub fn hamming_dist(a: &Vec<u8>, b: &Vec<u8>) -> (r: u32)
    requires
        a@.len() == b@.len(),
        a@.len() <= 0x0800_0000,
    ensures
        r == hamming(a@, b@),
{
    let mut r: u32 = 0;
    let mut i: usize = 0;
    while i < a.len()
        invariant
            i <= a@.len(),
            r == hamming(a@.subrange(0, i as int), b@.subrange(0, i as int)),
            r <= 8 * i,
        decreases a@.len() - i,
    {
        let d = count_ones8(a[i] ^ b[i]);
        proof {
            let ghost ap = a@.subrange(0, i + 1);
            let ghost bp = b@.subrange(0, i + 1);
            assert(ap.drop_last() =~= a@.subrange(0, i as int));
            assert(bp.drop_last() =~= b@.subrange(0, i as int));
            assert(ap.last() == a@[i as int] && bp.last() == b@[i as int]);
        }
        r += d;
        i += 1;
    }
    proof {
        assert(a@.subrange(0, a@.len() as int) =~= a@);
        assert(b@.subrange(0, b@.len() as int) =~= b@);
    }
    r
}

/// What the perceptual hasher returns for a frame: an opaque fingerprint
/// that depends on the frame's dimensions and pixel bytes alone.
pub uninterp spec fn hash_of(width: int, height: int, pixels: Seq<u8>) -> Seq<u8>;

/// Relies on image_hasher's default hasher (the 8x8 gradient hash) applied
/// to an RGB image rebuilt from the frame's bytes: the hash is a pure
/// function of the frame's dimensions and pixel bytes, and is 8 bytes long.
#[verifier::external_body]
pub fn hash_image(frame: &Frame) -> (r: Vec<u8>)
    requires
        frame.wf(),
        frame.width >= 1,
        frame.height >= 1,
    ensures
        r@ == hash_of(frame.width as int, frame.height as int, frame.pixels@),
        r@.len() == 8,
{
    let buf = image::RgbImage::from_raw(frame.width, frame.height, frame.pixels.clone())
        .expect("frame byte count matches its dimensions");
    let hasher = image_hasher::HasherConfig::new().to_hasher();
    hasher.hash_image(&buf).as_bytes().to_vec()
}

/// What nearest-neighbour resizing to fit within 1280x720 returns for a
/// frame: a byte sequence that depends on the input frame alone.
pub uninterp spec fn resize_of(width: int, height: int, pixels: Seq<u8>) -> Seq<u8>;

/// Relies on image::DynamicImage::resize with nearest-neighbour filtering,
/// which scales a frame to the largest size that fits within 1280x720 while
/// preserving its aspect ratio: a frame already in 16:9 proportions lands
/// exactly on 1280x720, and the result is a pure function of the input.
#[verifier::external_body]
pub(crate) fn resize_to_canonical(frame: &Frame) -> (r: Frame)
    requires
        frame.wf(),
        frame.width >= 1,
        frame.height >= 1,
    ensures
        r.wf(),
        (frame.width as int) * 720 == (frame.height as int) * 1280 && frame.width <= 65536 ==> {
            &&& r.width == 1280
            &&& r.height == 720
            &&& r.pixels@ == resize_of(frame.width as int, frame.height as int, frame.pixels@)
        },
{
    let buf = image::RgbImage::from_raw(frame.width, frame.height, frame.pixels.clone())
        .expect("frame byte count matches its dimensions");
    let resized = image::DynamicImage::ImageRgb8(buf)
        .resize(1280, 720, image::imageops::FilterType::Nearest)
        .to_rgb8();
    let (width, height) = resized.dimensions();
    Frame { width, height, pixels: resized.into_raw() }
}

} // verus!
