//! The main-menu screen: a single hash probe on a fixed region.

use vstd::prelude::*;

use crate::frame::crop_pixels;
use crate::frame::Frame;
use crate::hashing::hamming;
use crate::hashing::hamming_dist;
use crate::hashing::hash_image;
use crate::hashing::hash_of;

verus! {

/// The main-menu screen carries no payload.
#[derive(Clone, Copy, Debug, PartialEq, Eq, Structural)]
pub struct MainMenu {}

/// The hash of the main menu's probe region.
pub open spec fn main_menu_hash(p: Seq<u8>) -> Seq<u8> {
    hash_of(122, 24, crop_pixels(1280, p, 220, 467, 122, 24))
}

/// A frame reads as the main menu when its probe region matches the main
/// menu reference within distance 10 (inclusive).
pub open spec fn main_menu_compare_spec(reference: Seq<u8>, p: Seq<u8>) -> bool {
    hamming(reference, main_menu_hash(p)) <= 10
}

impl MainMenu {
    /// Decides whether the frame shows the main menu.
    pub fn compare(frame: &Frame, reference: &Vec<u8>) -> (r: bool)
        requires
            frame.wf(),
            frame.width == 1280,
            frame.height == 720,
            reference@.len() == 8,
        ensures
            r == main_menu_compare_spec(reference@, frame.pixels@),
    {
        let crop = frame.crop(220, 467, 122, 24);
        let check_hash = hash_image(&crop);
        hamming_dist(reference, &check_hash) <= 10
    }
}

} // verus!
