//! The intro (track title-card) screen: gating on the title-card reference
//! and the speed-class indicator, then two-stage resolution of the regional
//! variant group and the track name by binarized hash matching.

use vstd::prelude::*;

use crate::color::avg_chan;
use crate::color::region_average;
use crate::frame::bin_pixels;
use crate::frame::crop_pixels;
use crate::frame::max_color_diff;
use crate::frame::Frame;
use crate::hashing::hamming;
use crate::hashing::hamming_dist;
use crate::hashing::hash_image;
use crate::hashing::hash_of;
use crate::matcher::best_sel;
use crate::matcher::best_upto;
use crate::screens::Screen;

verus! {

/// One track's name and the stored hash of its binarized title text.
#[derive(Clone, Debug)]
pub struct IntroReference {
    pub name: String,
    pub reference: Vec<u8>,
}

/// One regional variant group: the stored hash of its binarized variant
/// logo, and the tracks whose title cards use that style.
#[derive(Clone, Debug)]
pub struct VariantGroup {
    pub variant: Vec<u8>,
    pub tracks: Vec<IntroReference>,
}

/// The intro screen's reference data: the title-card gate hash and the
/// variant groups.
#[derive(Clone, Debug)]
pub struct IntroCatalog {
    pub reference: Vec<u8>,
    pub groups: Vec<VariantGroup>,
}

impl IntroCatalog {
    /// All stored hashes have the hasher's fixed length.
    pub open spec fn wf(self) -> bool {
        &&& self.reference@.len() == 8
        &&& forall|g: int|
            0 <= g < self.groups@.len() ==> #[trigger] self.groups@[g].variant@.len() == 8
        &&& forall|g: int, t: int|
            0 <= g < self.groups@.len() && 0 <= t < self.groups@[g].tracks@.len()
                ==> #[trigger] self.groups@[g].tracks@[t].reference@.len() == 8
    }
}

/// An intro result: the resolved course name, or "Unknown Course".
#[derive(Clone, Debug)]
pub struct Intro {
    pub course: String,
}

/// The hash of the title-card gate region.
pub open spec fn intro_title_hash(p: Seq<u8>) -> Seq<u8> {
    hash_of(44, 37, crop_pixels(1280, p, 111, 589, 44, 37))
}

/// The speed-class indicator region is near-white: every channel average
/// above 60000 on the sixteen-bit scale. Until it renders, the track name
/// has not fully rendered either and resolution must not be attempted.
pub open spec fn speed_slice_spec(p: Seq<u8>) -> bool {
    avg_chan(1280, p, 1130, 600, 10, 2, 0) > 60_000 && avg_chan(1280, p, 1130, 600, 10, 2, 1)
        > 60_000 && avg_chan(1280, p, 1130, 600, 10, 2, 2) > 60_000
}

/// A frame reads as the intro screen when the title-card region matches the
/// intro reference within distance 3 (inclusive) and the speed-class
/// indicator is already near-white.
pub open spec fn intro_compare_spec(cat: IntroCatalog, p: Seq<u8>) -> bool {
    hamming(cat.reference@, intro_title_hash(p)) <= 3 && speed_slice_spec(p)
}

/// The binarized variant-logo region's bytes.
pub open spec fn variant_pixels(p: Seq<u8>) -> Seq<u8> {
    bin_pixels(crop_pixels(1280, p, 258, 638, 80, 18), 220)
}

/// The hash of the binarized variant-logo region.
pub open spec fn variant_hash(p: Seq<u8>) -> Seq<u8> {
    hash_of(80, 18, variant_pixels(p))
}

/// The binarized track-name region's bytes.
pub open spec fn track_pixels(p: Seq<u8>) -> Seq<u8> {
    bin_pixels(crop_pixels(1280, p, 338, 620, 350, 36), 220)
}

/// The hash of the binarized track-name region.
pub open spec fn track_hash(p: Seq<u8>) -> Seq<u8> {
    hash_of(350, 36, track_pixels(p))
}

/// The first variant group among the first `n` whose variant hash lies
/// within distance 10 of the candidate; earlier groups win because at most
/// one group is expected within the cutoff.
pub open spec fn first_variant_upto(groups: Seq<VariantGroup>, vh: Seq<u8>, n: int) -> Option<int>
    decreases n,
{
    if n <= 0 {
        None
    } else {
        match first_variant_upto(groups, vh, n - 1) {
            Some(g) => Some(g),
            None => if hamming(groups[n - 1].variant@, vh) < 10 {
                Some(n - 1)
            } else {
                None
            },
        }
    }
}

/// The variant group the candidate hash resolves to, if any.
pub open spec fn variant_group_spec(groups: Seq<VariantGroup>, vh: Seq<u8>) -> Option<int> {
    first_variant_upto(groups, vh, groups.len() as int)
}

/// Once a variant group has been found among a prefix, longer prefixes
/// return the same group.
pub proof fn lemma_first_variant_stable(groups: Seq<VariantGroup>, vh: Seq<u8>, n: int, m: int)
    requires
        0 <= n <= m,
        first_variant_upto(groups, vh, n) is Some,
    ensures
        first_variant_upto(groups, vh, m) == first_variant_upto(groups, vh, n),
    decreases m,
{
    if m > n {
        lemma_first_variant_stable(groups, vh, n, m - 1);
    }
}

/// The variant stage returns the first matching group and nothing else:
/// when it returns a group, every earlier group lies at or over the cutoff,
/// and when it returns nothing, every group does.
pub proof fn lemma_variant_group_first(groups: Seq<VariantGroup>, vh: Seq<u8>)
    ensures
        match variant_group_spec(groups, vh) {
            None => forall|j: int| 0 <= j < groups.len() ==> !(hamming(groups[j].variant@, vh)
                < 10),
            Some(g) => {
                &&& 0 <= g < groups.len()
                &&& hamming(groups[g].variant@, vh) < 10
                &&& forall|j: int| 0 <= j < g ==> !(hamming(groups[j].variant@, vh) < 10)
            },
        },
{
    lemma_first_variant_upto_first(groups, vh, groups.len() as int);
}

/// Helper induction for the first-match law, over prefixes of the groups.
proof fn lemma_first_variant_upto_first(groups: Seq<VariantGroup>, vh: Seq<u8>, n: int)
    requires
        n <= groups.len(),
    ensures
        match first_variant_upto(groups, vh, n) {
            None => forall|j: int| 0 <= j < n ==> !(hamming(groups[j].variant@, vh) < 10),
            Some(g) => {
                &&& 0 <= g < n
                &&& hamming(groups[g].variant@, vh) < 10
                &&& forall|j: int| 0 <= j < g ==> !(hamming(groups[j].variant@, vh) < 10)
            },
        },
    decreases n,
{
    if n > 0 {
        lemma_first_variant_upto_first(groups, vh, n - 1);
    }
}

/// The per-track distances of a candidate hash within one variant group.
pub open spec fn track_dists(group: VariantGroup, cand: Seq<u8>) -> Seq<int> {
    Seq::new(group.tracks@.len(), |t: int| hamming(group.tracks@[t].reference@, cand))
}

/// The uniform strict limit for track matching.
pub open spec fn track_limits(group: VariantGroup) -> Seq<int> {
    Seq::new(group.tracks@.len(), |t: int| 10)
}

/// The resolved (group, track) pair: the first variant group within the
/// variant cutoff, then the best-matching track of that group within the
/// track cutoff.
pub open spec fn resolution_spec(cat: IntroCatalog, p: Seq<u8>) -> Option<(int, int)> {
    match variant_group_spec(cat.groups@, variant_hash(p)) {
        None => None,
        Some(g) => match best_sel(track_dists(cat.groups@[g], track_hash(p)), track_limits(
            cat.groups@[g],
        )) {
            None => None,
            Some(b) => Some((g, b.0)),
        },
    }
}

/// The course name the frame resolves to: the matched track's catalog name,
/// or "Unknown Course" when no variant group or no track matches.
pub open spec fn course_view(cat: IntroCatalog, p: Seq<u8>) -> Seq<char> {
    match resolution_spec(cat, p) {
        None => "Unknown Course"@,
        Some(r) => cat.groups@[r.0].tracks@[r.1].name@,
    }
}

/// What intro processing returns: always an intro screen, whose course is
/// the resolved name or "Unknown Course"; the flag asks the caller to
/// persist the frame for later labeling exactly when resolution failed.
pub open spec fn intro_process_post(
    cat: IntroCatalog,
    p: Seq<u8>,
    screen: Option<Screen>,
    save: bool,
) -> bool {
    &&& save == (resolution_spec(cat, p) is None)
    &&& match screen {
        Some(Screen::Intro(i)) => i.course@ == course_view(cat, p),
        _ => false,
    }
}

/// When the variant stage finds no group under its cutoff, track matching
/// is never consulted: the result is "Unknown Course" and the frame is
/// persisted for later labeling, whatever the track region shows.
pub proof fn lemma_no_variant_means_unknown(
    cat: IntroCatalog,
    p: Seq<u8>,
    screen: Option<Screen>,
    save: bool,
)
    requires
        intro_process_post(cat, p, screen, save),
        variant_group_spec(cat.groups@, variant_hash(p)) is None,
    ensures
        save,
        screen matches Some(Screen::Intro(i)) && i.course@ == "Unknown Course"@,
{
}

/// Crops and binarizes the variant-logo region.
pub fn get_variant_image(image: &Frame) -> (r: Frame)
    requires
        image.wf(),
        image.width == 1280,
        image.height == 720,
    ensures
        r.wf(),
        r.width == 80,
        r.height == 18,
        r.pixels@ == variant_pixels(image.pixels@),
{
    let mut variant = image.crop(258, 638, 80, 18);
    max_color_diff(&mut variant, 220);
    variant
}

/// Crops and binarizes the track-name region.
pub fn get_track_image(image: &Frame) -> (r: Frame)
    requires
        image.wf(),
        image.width == 1280,
        image.height == 720,
    ensures
        r.wf(),
        r.width == 350,
        r.height == 36,
        r.pixels@ == track_pixels(image.pixels@),
{
    let mut track = image.crop(338, 620, 350, 36);
    max_color_diff(&mut track, 220);
    track
}

/// Finds the first variant group whose stored hash lies within the variant
/// cutoff of the candidate.
#[verifier::loop_isolation(false)]
fn find_variant_group(cat: &IntroCatalog, vh: &Vec<u8>) -> (r: Option<usize>)
    requires
        cat.wf(),
        vh@.len() == 8,
    ensures
        match r {
            None => variant_group_spec(cat.groups@, vh@) is None,
            Some(g) => g < cat.groups@.len() && variant_group_spec(cat.groups@, vh@) == Some(
                g as int,
            ),
        },
{
    let mut gi: usize = 0;
    while gi < cat.groups.len()
        invariant
            gi <= cat.groups@.len(),
            first_variant_upto(cat.groups@, vh@, gi as int) is None,
        decreases cat.groups@.len() - gi,
    {
        if hamming_dist(&cat.groups[gi].variant, vh) < 10 {
            proof {
                lemma_first_variant_stable(
                    cat.groups@,
                    vh@,
                    gi + 1,
                    cat.groups@.len() as int,
                );
            }
            return Some(gi);
        }
        gi += 1;
    }
    None
}

/// Resolves the course shown by a binarized variant image and a binarized
/// track image: the first variant group within the variant cutoff, then the
/// minimum-distance track of that group within the track cutoff, earliest
/// catalog order breaking ties.
#[verifier::loop_isolation(false)]
pub fn find_closest_track(variant: &Frame, track: &Frame, cat: &IntroCatalog) -> (r: Option<String>)
    requires
        variant.wf(),
        variant.width >= 1,
        variant.height >= 1,
        track.wf(),
        track.width >= 1,
        track.height >= 1,
        cat.wf(),
    ensures
        ({
            let vh = hash_of(variant.width as int, variant.height as int, variant.pixels@);
            let th = hash_of(track.width as int, track.height as int, track.pixels@);
            match variant_group_spec(cat.groups@, vh) {
                None => r is None,
                Some(g) => match best_sel(track_dists(cat.groups@[g], th), track_limits(
                    cat.groups@[g],
                )) {
                    None => r is None,
                    Some(b) => r matches Some(name) && name@ == cat.groups@[g].tracks@[b.0].name@,
                },
            }
        }),
{
    let variant_hash = hash_image(variant);
    let group = match find_variant_group(cat, &variant_hash) {
        None => {
            return None;
        },
        Some(g) => g,
    };
    let track_hash = hash_image(track);
    let ghost dists = track_dists(cat.groups@[group as int], track_hash@);
    let ghost limits = track_limits(cat.groups@[group as int]);
    let tracks = &cat.groups[group].tracks;
    let mut best: Option<(usize, u32)> = None;
    let mut t: usize = 0;
    while t < tracks.len()
        invariant
            t <= tracks@.len(),
            match best {
                None => best_upto(dists, limits, t as int) is None,
                Some(b) => b.0 < t && best_upto(dists, limits, t as int) == Some(
                    (b.0 as int, b.1 as int),
                ),
            },
        decreases tracks@.len() - t,
    {
        let d = hamming_dist(&tracks[t].reference, &track_hash);
        let take = d < 10 && match best {
            None => true,
            Some(b) => d < b.1,
        };
        if take {
            best = Some((t, d));
        }
        t += 1;
    }
    match best {
        None => None,
        Some(b) => Some(tracks[b.0].name.clone()),
    }
}

/// The speed-class indicator region is near-white on every channel.
fn check_speed_slice(frame: &Frame) -> (r: bool)
    requires
        frame.wf(),
        frame.width == 1280,
        frame.height == 720,
    ensures
        r == speed_slice_spec(frame.pixels@),
{
    let a = region_average(frame, 1130, 600, 10, 2);
    a[0] > 60_000 && a[1] > 60_000 && a[2] > 60_000
}

impl Intro {
    /// Decides whether the frame shows a fully rendered intro title card.
    pub fn compare(frame: &Frame, cat: &IntroCatalog) -> (r: bool)
        requires
            frame.wf(),
            frame.width == 1280,
            frame.height == 720,
            cat.wf(),
        ensures
            r == intro_compare_spec(*cat, frame.pixels@),
    {
        let crop = frame.crop(111, 589, 44, 37);
        let check_hash = hash_image(&crop);
        let delta = hamming_dist(&cat.reference, &check_hash);
        if delta > 3 {
            return false;
        }
        check_speed_slice(frame)
    }

    /// Resolves the course shown on the title card. Returns the intro
    /// screen (course name or "Unknown Course") and a flag asking the
    /// caller to persist the frame for later labeling when resolution
    /// failed; the caller owns that write, and a failed write must not
    /// alter the classification.
    pub fn process(frame: &Frame, cat: &IntroCatalog) -> (r: (Option<Screen>, bool))
        requires
            frame.wf(),
            frame.width == 1280,
            frame.height == 720,
            cat.wf(),
        ensures
            intro_process_post(*cat, frame.pixels@, r.0, r.1),
    {
        let variant = get_variant_image(frame);
        let track = get_track_image(frame);

        let closest_track = find_closest_track(&variant, &track, cat);

        match closest_track {
            None => {
                let course = String::from_str("Unknown Course");
                (Some(Screen::Intro(Intro { course })), true)
            },
            Some(course) => (Some(Screen::Intro(Intro { course })), false),
        }
    }
}

} // verus!
