//! The race screen: split-screen gating, per-seat presence probes, and
//! extraction of each seat's position, status and held item from fixed
//! regions of the HUD.

use vstd::prelude::*;

use crate::color::overall_avg;
use crate::color::region_average;
use crate::color::COLOR_THRESHOLD;
use crate::frame::crop_pixels;
use crate::frame::gray_pixels;
use crate::frame::Frame;
use crate::hashing::hamming;
use crate::hashing::hamming_dist;
use crate::hashing::hash_image;
use crate::hashing::hash_of;
use crate::matcher::best_sel;
use crate::matcher::best_upto;
use crate::matcher::entry_dist;
use crate::matcher::min_dist_over;
use crate::screens::Screen;
use crate::util::is_splitscreen;
use crate::util::is_splitscreen_spec;

verus! {

/// The items a seat's item box can show.
#[derive(Clone, Copy, Debug, PartialEq, Eq, Structural)]
pub enum Item {
    Banana,
    BananaDouble,
    BananaTriple,
    BlueShell,
    Bomb,
    Boomerang,
    Bullet,
    Coin,
    CrazyEight,
    FireFlower,
    Boo,
    GoldenMushroom,
    GreenShell,
    GreenShellDouble,
    GreenShellTriple,
    Horn,
    Lightning,
    Mushroom,
    MushroomDouble,
    MushroomTriple,
    PiranhaPlant,
    RedShell,
    RedShellDouble,
    RedShellTriple,
    Squid,
    Star,
}

/// Whether a seat is still racing or has crossed the finish line.
#[derive(Clone, Copy, Debug, PartialEq, Eq, Structural)]
pub enum Status {
    Racing,
    Finished,
}

impl Status {
    /// Tests whether a status is the still-racing one.
    pub fn is_racing(value: &Self) -> (r: bool)
        ensures
            r == (*value == Status::Racing),
    {
        match value {
            Status::Racing => true,
            Status::Finished => false,
        }
    }
}

/// One seat's extracted state: its fixed seat index, its on-screen position
/// when recognized, its racing status, and its held item when recognized.
#[derive(Clone, Copy, Debug, PartialEq, Eq, Structural)]
pub struct Player {
    pub index: u8,
    pub position: Option<u8>,
    pub status: Status,
    pub item: Option<Item>,
}

/// A race screen result: the occupied seats in ascending seat order, and
/// whether the starting banner is showing.
#[derive(Clone, Debug)]
pub struct Race {
    pub players: Vec<Player>,
    pub starting: bool,
}

/// One position digit's stored reference hashes (several variants absorb
/// rendering noise).
#[derive(Clone, Debug)]
pub struct ImageReference {
    pub files: Vec<Vec<u8>>,
}

/// One item's stored reference hashes together with its own match
/// threshold (inclusive).
#[derive(Clone, Debug)]
pub struct ItemReference {
    pub files: Vec<Vec<u8>>,
    pub item: Item,
    pub threshold: u8,
}

/// The race screen's reference data: single hashes for the lap flag, the
/// starting banner and the finish banner, twelve position-digit entries,
/// and the item entries.
#[derive(Clone, Debug)]
pub struct RaceCatalog {
    pub lap_flag: Vec<u8>,
    pub go: Vec<u8>,
    pub finished: Vec<u8>,
    pub positions: Vec<ImageReference>,
    pub items: Vec<ItemReference>,
}

impl RaceCatalog {
    /// All stored hashes have the hasher's fixed length, and there is one
    /// position entry per on-screen position.
    pub open spec fn wf(self) -> bool {
        &&& self.lap_flag@.len() == 8
        &&& self.go@.len() == 8
        &&& self.finished@.len() == 8
        &&& self.positions@.len() == 12
        &&& forall|i: int, j: int|
            0 <= i < self.positions@.len() && 0 <= j < self.positions@[i].files@.len()
                ==> #[trigger] self.positions@[i].files@[j]@.len() == 8
        &&& forall|i: int, j: int|
            0 <= i < self.items@.len() && 0 <= j < self.items@[i].files@.len()
                ==> #[trigger] self.items@[i].files@[j]@.len() == 8
    }
}

/// The fixed top-left corner of each seat's position-digit region.
pub open spec fn position_pos(s: int) -> (int, int) {
    if s == 0 {
        (57, 239)
    } else if s == 1 {
        (1167, 239)
    } else if s == 2 {
        (57, 599)
    } else {
        (1167, 599)
    }
}

/// The fixed top-left corner of each seat's lap-flag region.
pub open spec fn lap_flag_pos(s: int) -> (int, int) {
    if s == 0 {
        (114, 317)
    } else if s == 1 {
        (1178, 317)
    } else if s == 2 {
        (114, 677)
    } else {
        (1178, 677)
    }
}

/// The fixed top-left corner of each seat's finish-banner region.
pub open spec fn finish_pos(s: int) -> (int, int) {
    if s == 0 {
        (159, 127)
    } else if s == 1 {
        (799, 127)
    } else if s == 2 {
        (159, 487)
    } else {
        (799, 487)
    }
}

/// The fixed top-left corner of each seat's item-box region.
pub open spec fn item_pos(s: int) -> (int, int) {
    if s == 0 {
        (99, 62)
    } else if s == 1 {
        (1140, 62)
    } else if s == 2 {
        (99, 422)
    } else {
        (1140, 422)
    }
}

/// The hash of a seat's lap-flag region.
pub open spec fn lap_hash(p: Seq<u8>, s: int) -> Seq<u8> {
    hash_of(11, 11, crop_pixels(1280, p, lap_flag_pos(s).0, lap_flag_pos(s).1, 11, 11))
}

/// A seat counts as occupied when its lap-flag region matches the lap-flag
/// reference within distance 20.
pub open spec fn seat_exists_spec(cat: RaceCatalog, p: Seq<u8>, s: int) -> bool {
    hamming(cat.lap_flag@, lap_hash(p, s)) < 20
}

/// The hash of a seat's position-digit region after grayscaling.
pub open spec fn position_hash(p: Seq<u8>, s: int) -> Seq<u8> {
    hash_of(36, 54, gray_pixels(crop_pixels(1280, p, position_pos(s).0, position_pos(s).1, 36, 54)))
}

/// The per-entry distances of a candidate hash against the position-digit
/// catalog.
pub open spec fn position_dists(cat: RaceCatalog, cand: Seq<u8>) -> Seq<int> {
    Seq::new(
        cat.positions@.len(),
        |i: int| entry_dist(cat.positions@[i].files@.map_values(|h: Vec<u8>| h@), cand),
    )
}

/// The uniform strict limit for position-digit matching.
pub open spec fn position_limits(cat: RaceCatalog) -> Seq<int> {
    Seq::new(cat.positions@.len(), |i: int| 16)
}

/// A seat's recognized on-screen position: the best-matching digit entry
/// below the limit, one-based, or nothing when no entry matches.
pub open spec fn position_spec(cat: RaceCatalog, p: Seq<u8>, s: int) -> Option<u8> {
    match best_sel(position_dists(cat, position_hash(p, s)), position_limits(cat)) {
        None => None,
        Some(b) => Some((b.0 + 1) as u8),
    }
}

/// The hash of a seat's finish-banner region.
pub open spec fn finish_hash(p: Seq<u8>, s: int) -> Seq<u8> {
    hash_of(38, 38, crop_pixels(1280, p, finish_pos(s).0, finish_pos(s).1, 38, 38))
}

/// A seat's status: finished when its finish-banner region matches the
/// finished reference within distance 15, else still racing.
pub open spec fn status_spec(cat: RaceCatalog, p: Seq<u8>, s: int) -> Status {
    if hamming(cat.finished@, finish_hash(p, s)) < 15 {
        Status::Finished
    } else {
        Status::Racing
    }
}

/// A seat's HUD accent-color gate: a small fixed strip near the seat's HUD
/// must strongly show that seat's known accent color family before the item
/// box is read at all.
pub open spec fn item_gate_spec(p: Seq<u8>, s: int) -> bool {
    if s == 0 {
        overall_chan(p, 112, 40, 0) > COLOR_THRESHOLD && overall_chan(p, 112, 40, 1)
            > COLOR_THRESHOLD
    } else if s == 1 {
        overall_chan(p, 1154, 40, 1) > COLOR_THRESHOLD && overall_chan(p, 1154, 40, 2)
            > COLOR_THRESHOLD
    } else if s == 2 {
        overall_chan(p, 112, 400, 0) > COLOR_THRESHOLD
    } else if s == 3 {
        overall_chan(p, 1154, 400, 1) > COLOR_THRESHOLD
    } else {
        false
    }
}

/// The average of one channel over a seat's 10 x 2 HUD accent strip.
pub open spec fn overall_chan(p: Seq<u8>, x: int, y: int, c: int) -> int {
    crate::color::avg_chan(1280, p, x, y, 10, 2, c)
}

/// The hash of a seat's item-box region.
pub open spec fn item_hash(p: Seq<u8>, s: int) -> Seq<u8> {
    hash_of(41, 41, crop_pixels(1280, p, item_pos(s).0, item_pos(s).1, 41, 41))
}

/// The per-entry distances of a candidate hash against the item catalog.
pub open spec fn item_dists(cat: RaceCatalog, cand: Seq<u8>) -> Seq<int> {
    Seq::new(
        cat.items@.len(),
        |i: int| entry_dist(cat.items@[i].files@.map_values(|h: Vec<u8>| h@), cand),
    )
}

/// The per-entry inclusive thresholds of the item catalog, as strict
/// limits.
pub open spec fn item_limits(cat: RaceCatalog) -> Seq<int> {
    Seq::new(cat.items@.len(), |i: int| cat.items@[i].threshold + 1)
}

/// A seat's recognized held item: nothing when the seat's HUD gate fails,
/// else the best-matching item entry within its own threshold, or nothing
/// when no entry matches.
pub open spec fn item_spec(cat: RaceCatalog, p: Seq<u8>, s: int) -> Option<Item> {
    if !item_gate_spec(p, s) {
        None
    } else {
        match best_sel(item_dists(cat, item_hash(p, s)), item_limits(cat)) {
            None => None,
            Some(b) => Some(cat.items@[b.0].item),
        }
    }
}

/// The hash of the central starting-banner region.
pub open spec fn go_hash(p: Seq<u8>) -> Seq<u8> {
    hash_of(39, 37, crop_pixels(1280, p, 573, 292, 39, 37))
}

/// The race is starting when the central banner matches the starting
/// reference within distance 15.
pub open spec fn starting_spec(cat: RaceCatalog, p: Seq<u8>) -> bool {
    hamming(cat.go@, go_hash(p)) < 15
}

/// A frame reads as the race screen when it shows the split-screen layout
/// and a fixed strip near the vertical center is near-black, which holds of
/// the active racing HUD but not of other dark screens.
pub open spec fn race_compare_spec(p: Seq<u8>) -> bool {
    is_splitscreen_spec(1280, 720, p) && overall_avg(1280, p, 639, 48, 1, 8) < 5000
}

/// The record extracted for one occupied seat.
pub open spec fn player_spec(cat: RaceCatalog, p: Seq<u8>, s: int) -> Player {
    Player {
        index: s as u8,
        position: position_spec(cat, p, s),
        status: status_spec(cat, p, s),
        item: item_spec(cat, p, s),
    }
}

/// The records of the occupied seats among the first `n`, in ascending
/// seat order.
pub open spec fn players_upto(cat: RaceCatalog, p: Seq<u8>, n: int) -> Seq<Player>
    decreases n,
{
    if n <= 0 {
        Seq::empty()
    } else {
        players_upto(cat, p, n - 1) + if seat_exists_spec(cat, p, n - 1) {
            seq![player_spec(cat, p, n - 1)]
        } else {
            Seq::<Player>::empty()
        }
    }
}

/// The records of all occupied seats.
pub open spec fn race_players_spec(cat: RaceCatalog, p: Seq<u8>) -> Seq<Player> {
    players_upto(cat, p, 4)
}

/// The extracted players carry their own seat index and appear in strictly
/// ascending seat order.
pub proof fn lemma_players_upto_sorted(cat: RaceCatalog, p: Seq<u8>, n: int)
    requires
        0 <= n <= 4,
    ensures
        forall|k: int|
            0 <= k < players_upto(cat, p, n).len() ==> (#[trigger] players_upto(cat, p, n)[k]).index
                < n,
        forall|k1: int, k2: int|
            0 <= k1 < k2 < players_upto(cat, p, n).len() ==> players_upto(cat, p, n)[k1].index
                < players_upto(cat, p, n)[k2].index,
    decreases n,
{
    if n > 0 {
        lemma_players_upto_sorted(cat, p, n - 1);
    }
}

/// What race processing returns: nothing when no seat passes the presence
/// check, else a race screen holding the occupied seats' records in
/// ascending seat order and the starting flag.
pub open spec fn race_process_post(cat: RaceCatalog, p: Seq<u8>, res: Option<Screen>) -> bool {
    if race_players_spec(cat, p).len() == 0 {
        res is None
    } else {
        match res {
            Some(Screen::Race(race)) => race.players@ == race_players_spec(cat, p)
                && race.starting == starting_spec(cat, p),
            _ => false,
        }
    }
}

impl Race {
    /// Decides whether the frame shows the race screen.
    pub fn compare(frame: &Frame) -> (r: bool)
        requires
            frame.wf(),
            frame.width == 1280,
            frame.height == 720,
        ensures
            r == race_compare_spec(frame.pixels@),
    {
        if !is_splitscreen(frame) {
            return false;
        }
        let a = region_average(frame, frame.width / 2 - 1, 48, 1, 8);
        let average = ((a[0] as u32) + (a[1] as u32) + (a[2] as u32)) / 3;
        average < 5000
    }
}

/// Decides whether the central starting banner is showing.
pub fn check_starting(frame: &Frame, cat: &RaceCatalog) -> (r: bool)
    requires
        frame.wf(),
        frame.width == 1280,
        frame.height == 720,
        cat.wf(),
    ensures
        r == starting_spec(*cat, frame.pixels@),
{
    let image = frame.crop(573, 292, 39, 37);
    let hash = hash_image(&image);
    hamming_dist(&cat.go, &hash) < 15
}

/// Decides whether a seat is occupied, from its lap-flag region.
pub fn check_player_exists(frame: &Frame, cat: &RaceCatalog, index: usize) -> (r: bool)
    requires
        frame.wf(),
        frame.width == 1280,
        frame.height == 720,
        cat.wf(),
        index < 4,
    ensures
        r == seat_exists_spec(*cat, frame.pixels@, index as int),
{
    let (x, y) = lap_flag_crop(index);
    let image = frame.crop(x, y, 11, 11);
    let hash = hash_image(&image);
    hamming_dist(&cat.lap_flag, &hash) < 20
}

/// The top-left corner of a seat's lap-flag region.
fn lap_flag_crop(index: usize) -> (r: (u32, u32))
    requires
        index < 4,
    ensures
        r.0 == lap_flag_pos(index as int).0,
        r.1 == lap_flag_pos(index as int).1,
{
    match index {
        0 => (114, 317),
        1 => (1178, 317),
        2 => (114, 677),
        _ => (1178, 677),
    }
}

/// Reads a seat's on-screen position from its grayscaled position-digit
/// region: the best-matching digit below the limit, one-based.
#[verifier::loop_isolation(false)]
pub fn get_position(frame: &Frame, cat: &RaceCatalog, index: usize) -> (r: Option<u8>)
    requires
        frame.wf(),
        frame.width == 1280,
        frame.height == 720,
        cat.wf(),
        index < 4,
    ensures
        r == position_spec(*cat, frame.pixels@, index as int),
{
    let (x, y) = match index {
        0 => (57u32, 239u32),
        1 => (1167u32, 239u32),
        2 => (57u32, 599u32),
        _ => (1167u32, 599u32),
    };
    let image = frame.crop(x, y, 36, 54).grayscale();
    let res = hash_image(&image);
    let ghost dists = position_dists(*cat, res@);
    let ghost limits = position_limits(*cat);
    let mut best: Option<(usize, u32)> = None;
    let mut i: usize = 0;
    while i < cat.positions.len()
        invariant
            i <= cat.positions@.len(),
            match best {
                None => best_upto(dists, limits, i as int) is None,
                Some(b) => b.0 < i && best_upto(dists, limits, i as int) == Some(
                    (b.0 as int, b.1 as int),
                ),
            },
        decreases cat.positions@.len() - i,
    {
        let d = min_dist_over(&cat.positions[i].files, &res);
        let take = d < 16 && match best {
            None => true,
            Some(b) => d < b.1,
        };
        if take {
            best = Some((i, d));
        }
        i += 1;
    }
    match best {
        None => None,
        Some(b) => Some((b.0 as u8) + 1),
    }
}

/// Reads a seat's status from its finish-banner region.
pub fn get_status(frame: &Frame, cat: &RaceCatalog, index: usize) -> (r: Status)
    requires
        frame.wf(),
        frame.width == 1280,
        frame.height == 720,
        cat.wf(),
        index < 4,
    ensures
        r == status_spec(*cat, frame.pixels@, index as int),
{
    let (x, y) = match index {
        0 => (159u32, 127u32),
        1 => (799u32, 127u32),
        2 => (159u32, 487u32),
        _ => (799u32, 487u32),
    };
    let image = frame.crop(x, y, 38, 38);
    let res = hash_image(&image);
    if hamming_dist(&cat.finished, &res) < 15 {
        Status::Finished
    } else {
        Status::Racing
    }
}

/// Tests one seat's HUD accent-color gate.
fn check_player(frame: &Frame, index: usize) -> (r: bool)
    requires
        frame.wf(),
        frame.width == 1280,
        frame.height == 720,
        index < 4,
    ensures
        r == item_gate_spec(frame.pixels@, index as int),
{
    let (x, y) = match index {
        0 => (112u32, 40u32),
        1 => (1154u32, 40u32),
        2 => (112u32, 400u32),
        _ => (1154u32, 400u32),
    };
    let a = region_average(frame, x, y, 10, 2);
    match index {
        0 => a[0] > COLOR_THRESHOLD && a[1] > COLOR_THRESHOLD,
        1 => a[1] > COLOR_THRESHOLD && a[2] > COLOR_THRESHOLD,
        2 => a[0] > COLOR_THRESHOLD,
        _ => a[1] > COLOR_THRESHOLD,
    }
}

/// Reads a seat's held item: nothing unless the seat's HUD gate passes,
/// else the best-matching item entry within its own threshold.
#[verifier::loop_isolation(false)]
pub fn get_item(frame: &Frame, cat: &RaceCatalog, index: usize) -> (r: Option<Item>)
    requires
        frame.wf(),
        frame.width == 1280,
        frame.height == 720,
        cat.wf(),
        index < 4,
    ensures
        r == item_spec(*cat, frame.pixels@, index as int),
{
    if !check_player(frame, index) {
        return None;
    }
    let (x, y) = match index {
        0 => (99u32, 62u32),
        1 => (1140u32, 62u32),
        2 => (99u32, 422u32),
        _ => (1140u32, 422u32),
    };
    let image = frame.crop(x, y, 41, 41);
    let res = hash_image(&image);
    let ghost dists = item_dists(*cat, res@);
    let ghost limits = item_limits(*cat);
    let mut best: Option<(usize, u32)> = None;
    let mut i: usize = 0;
    while i < cat.items.len()
        invariant
            i <= cat.items@.len(),
            match best {
                None => best_upto(dists, limits, i as int) is None,
                Some(b) => b.0 < i && best_upto(dists, limits, i as int) == Some(
                    (b.0 as int, b.1 as int),
                ),
            },
        decreases cat.items@.len() - i,
    {
        let d = min_dist_over(&cat.items[i].files, &res);
        let take = d <= (cat.items[i].threshold as u32) && match best {
            None => true,
            Some(b) => d < b.1,
        };
        if take {
            best = Some((i, d));
        }
        i += 1;
    }
    match best {
        None => None,
        Some(b) => Some(cat.items[b.0].item),
    }
}

impl Race {
    /// Extracts the race state: probes each seat's presence, reads the
    /// occupied seats' position, status and item, and returns them in
    /// ascending seat order together with the starting flag; a frame with
    /// no occupied seat yields no result rather than an empty race.
    #[verifier::loop_isolation(false)]
    pub fn process(frame: &Frame, cat: &RaceCatalog) -> (r: Option<Screen>)
        requires
            frame.wf(),
            frame.width == 1280,
            frame.height == 720,
            cat.wf(),
        ensures
            race_process_post(*cat, frame.pixels@, r),
            match r {
                Some(Screen::Race(race)) => race.players@.len() >= 1 && forall|k1: int, k2: int|
                    0 <= k1 < k2 < race.players@.len() ==> race.players@[k1].index
                        < race.players@[k2].index,
                _ => true,
            },
    {
        let ghost p = frame.pixels@;
        let mut players: Vec<Player> = Vec::new();
        let mut s: usize = 0;
        while s < 4
            invariant
                s <= 4,
                players@ == players_upto(*cat, p, s as int),
            decreases 4 - s,
        {
            if check_player_exists(frame, cat, s) {
                let position = get_position(frame, cat, s);
                let status = get_status(frame, cat, s);
                let item = get_item(frame, cat, s);
                players.push(Player { index: s as u8, position, status, item });
            }
            s += 1;
        }

        if players.len() == 0 {
            return None;
        }

        let starting = check_starting(frame, cat);
        proof {
            lemma_players_upto_sorted(*cat, p, 4);
        }
        Some(Screen::Race(Race { players, starting }))
    }
}

/// The exact-match law at the position lookup: a candidate hash that
/// exactly equals one of a position entry's stored hashes is always
/// recognized, and as a zero-distance match.
pub proof fn lemma_exact_position_selected(cat: RaceCatalog, cand: Seq<u8>, i: int, j: int)
    requires
        cat.wf(),
        0 <= i < 12,
        0 <= j < cat.positions@[i].files@.len(),
        cat.positions@[i].files@[j]@ == cand,
    ensures
        best_sel(position_dists(cat, cand), position_limits(cat)) matches Some(b) && b.1 == 0,
{
    let dists = position_dists(cat, cand);
    let limits = position_limits(cat);
    let files = cat.positions@[i].files@.map_values(|h: Vec<u8>| h@);
    crate::hashing::lemma_hamming_self(cand);
    crate::matcher::lemma_entry_dist_le(files, cand, j);
    crate::matcher::lemma_entry_dist_nonneg(files, cand);
    assert forall|k: int| 0 <= k < dists.len() implies #[trigger] dists[k] >= 0 by {
        crate::matcher::lemma_entry_dist_nonneg(
            cat.positions@[k].files@.map_values(|h: Vec<u8>| h@),
            cand,
        );
    }
    crate::matcher::lemma_exact_match_selected(dists, limits, i);
}

} // verus!
