//! The character-select screen: a single hash probe on a fixed region.

use vstd::prelude::*;

use crate::frame::crop_pixels;
use crate::frame::Frame;
use crate::hashing::hamming;
use crate::hashing::hamming_dist;
use crate::hashing::hash_image;
use crate::hashing::hash_of;

verus! {

/// The character-select screen carries no payload.
#[derive(Clone, Copy, Debug, PartialEq, Eq, Structural)]
pub struct SelectCharacter {}

/// The hash of the character-select screen's probe region.
pub open spec fn select_character_hash(p: Seq<u8>) -> Seq<u8> {
    hash_of(40, 35, crop_pixels(1280, p, 735, 435, 40, 35))
}

/// A frame reads as the character-select screen when its probe region
/// matches the reference within distance 10 (inclusive).
pub open spec fn select_character_compare_spec(reference: Seq<u8>, p: Seq<u8>) -> bool {
    hamming(reference, select_character_hash(p)) <= 10
}

impl SelectCharacter {
    /// Decides whether the frame shows the character-select screen.
    pub fn compare(frame: &Frame, reference: &Vec<u8>) -> (r: bool)
        requires
            frame.wf(),
            frame.width == 1280,
            frame.height == 720,
            reference@.len() == 8,
        ensures
            r == select_character_compare_spec(reference@, frame.pixels@),
    {
        let crop = frame.crop(735, 435, 40, 35);
        let check_hash = hash_image(&crop);
        hamming_dist(reference, &check_hash) <= 10
    }
}

} // verus!
