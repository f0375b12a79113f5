//! The loading screen: a single hash probe on a fixed region.

use vstd::prelude::*;

use crate::frame::crop_pixels;
use crate::frame::Frame;
use crate::hashing::hamming;
use crate::hashing::hamming_dist;
use crate::hashing::hash_image;
use crate::hashing::hash_of;

verus! {

/// The loading screen carries no payload.
#[derive(Clone, Copy, Debug, PartialEq, Eq, Structural)]
pub struct Loading {}

/// The hash of the loading screen's probe region.
pub open spec fn loading_hash(p: Seq<u8>) -> Seq<u8> {
    hash_of(100, 100, crop_pixels(1280, p, 670, 20, 100, 100))
}

/// A frame reads as the loading screen when its probe region matches the
/// loading reference within distance 5.
pub open spec fn loading_compare_spec(reference: Seq<u8>, p: Seq<u8>) -> bool {
    hamming(reference, loading_hash(p)) < 5
}

impl Loading {
    /// Decides whether the frame shows the loading screen.
    pub fn compare(frame: &Frame, reference: &Vec<u8>) -> (r: bool)
        requires
            frame.wf(),
            frame.width == 1280,
            frame.height == 720,
            reference@.len() == 8,
        ensures
            r == loading_compare_spec(reference@, frame.pixels@),
    {
        let crop = frame.crop(670, 20, 100, 100);
        let check_hash = hash_image(&crop);
        hamming_dist(reference, &check_hash) < 5
    }
}

} // verus!
