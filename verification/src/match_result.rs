//! The match-result screen: speed-class gating on two reference hashes,
//! per-row color-strip seat detection, and a seven-segment-style pixel
//! decoder for each row's two-digit score.

use vstd::prelude::*;

use crate::color::avg_chan;
use crate::color::overall_avg;
use crate::color::region_average;
use crate::frame::bin_pixels;
use crate::frame::crop_pixels;
use crate::frame::max_color_diff;
use crate::frame::Frame;
use crate::hashing::hamming;
use crate::hashing::hamming_dist;
use crate::hashing::hash_image;
use crate::hashing::hash_of;
use crate::screens::Screen;

verus! {

/// One standing row's result: the seat that occupies it, its final
/// position, and its decoded two-digit score when recognized.
#[derive(Clone, Copy, Debug, PartialEq, Eq, Structural)]
pub struct PlayerResult {
    pub index: u8,
    pub position: u8,
    pub score: Option<u8>,
}

/// A match-result screen: the seats' final standings in ascending seat
/// order and the speed class the match ran at.
#[derive(Clone, Debug)]
pub struct MatchResult {
    pub players: Vec<PlayerResult>,
    pub speed: Option<u8>,
}

/// The match-result screen's reference data: one hash per supported speed
/// class banner.
#[derive(Clone, Debug)]
pub struct MatchResultCatalog {
    pub h150: Vec<u8>,
    pub h200: Vec<u8>,
}

impl MatchResultCatalog {
    /// Both stored hashes have the hasher's fixed length.
    pub open spec fn wf(self) -> bool {
        self.h150@.len() == 8 && self.h200@.len() == 8
    }
}

/// The hash of the speed-class banner region.
pub open spec fn speed_hash(p: Seq<u8>) -> Seq<u8> {
    hash_of(99, 26, crop_pixels(1280, p, 37, 28, 99, 26))
}

/// The speed class the frame shows: 200 when the banner matches the 200
/// reference within distance 10, else 150 when it matches the 150
/// reference, else nothing.
pub open spec fn race_speed_spec(cat: MatchResultCatalog, p: Seq<u8>) -> Option<u8> {
    if hamming(cat.h200@, speed_hash(p)) < 10 {
        Some(200u8)
    } else if hamming(cat.h150@, speed_hash(p)) < 10 {
        Some(150u8)
    } else {
        None
    }
}

/// A frame reads as the match-result screen when a speed-class banner is
/// recognized.
pub open spec fn match_result_compare_spec(cat: MatchResultCatalog, p: Seq<u8>) -> bool {
    race_speed_spec(cat, p) is Some
}

/// The seat a standings row belongs to, read from the row's color strip:
/// yellow is seat 0, blue seat 1, green seat 3, red seat 2, in that testing
/// order; a strip showing none of those colors means the row is empty.
pub open spec fn row_seat_spec(p: Seq<u8>, i: int) -> Option<int> {
    let y = 132 + i * 42;
    let r = avg_chan(1280, p, 104, y, 1, 3, 0);
    let g = avg_chan(1280, p, 104, y, 1, 3, 1);
    let b = avg_chan(1280, p, 104, y, 1, 3, 2);
    if r > 55_000 && g > 55_000 {
        Some(0)
    } else if g > 55_000 && b > 55_000 {
        Some(1)
    } else if g > 55_000 {
        Some(3)
    } else if r > 55_000 {
        Some(2)
    } else {
        None
    }
}

/// One seven-segment probe: a tiny region of the binarized score section
/// reads as a lit segment when its overall brightness is below 25000.
pub open spec fn seg_dark(q: Seq<u8>, x0: int, y0: int, rw: int, rh: int) -> bool {
    overall_avg(45, q, x0, y0, rw, rh) < 25_000
}

/// The digit a seven-segment probe pattern decodes to, if any.
pub open spec fn seven_seg(
    top: bool,
    top_left: bool,
    top_right: bool,
    center: bool,
    bottom_left: bool,
    bottom_right: bool,
    bottom: bool,
) -> Option<u8> {
    if !top && !top_left && top_right && !center && !bottom_left && bottom_right && !bottom {
        Some(1u8)
    } else if top && !top_left && top_right && center && bottom_left && !bottom_right && bottom {
        Some(2u8)
    } else if top && !top_left && top_right && center && !bottom_left && bottom_right && bottom {
        Some(8u8)
    } else if !top && top_left && top_right && center && !bottom_left && bottom_right && !bottom {
        Some(4u8)
    } else if top && top_left && !top_right && center && !bottom_left && bottom_right && bottom {
        Some(5u8)
    } else if top && top_left && !top_right && center && bottom_left && bottom_right && bottom {
        Some(6u8)
    } else if top && !top_left && top_right && !center && !bottom_left && bottom_right && !bottom {
        Some(7u8)
    } else if top && top_left && top_right && center && bottom_left && bottom_right && bottom {
        Some(8u8)
    } else if top && top_left && top_right && center && !bottom_left && bottom_right && bottom {
        Some(9u8)
    } else {
        None
    }
}

/// The digit decoded at horizontal offset `x0` of a binarized score
/// section.
pub open spec fn number_spec(q: Seq<u8>, x0: int) -> Option<u8> {
    seven_seg(
        seg_dark(q, x0 + 7, 6, 3, 1),
        seg_dark(q, x0 + 2, 10, 1, 3),
        seg_dark(q, x0 + 16, 10, 1, 3),
        seg_dark(q, x0 + 7, 18, 3, 1),
        seg_dark(q, x0 + 2, 22, 3, 1),
        seg_dark(q, x0 + 16, 22, 3, 1),
        seg_dark(q, x0 + 7, 30, 3, 1),
    )
}

/// The two-digit score a 45 x 38 score section decodes to after
/// binarization: tens digit at offset 0, ones digit at offset 23, defined
/// only when both digits decode.
pub open spec fn score_of_section(q: Seq<u8>) -> Option<u8> {
    let b = bin_pixels(q, 130);
    match (number_spec(b, 0), number_spec(b, 23)) {
        (Some(t), Some(o)) => Some((t * 10 + o) as u8),
        _ => None,
    }
}

/// The decoded score of standings row `i`.
pub open spec fn row_score_spec(p: Seq<u8>, i: int) -> Option<u8> {
    score_of_section(crop_pixels(1280, p, 543, 132 + i * 42, 45, 38))
}

/// The result a standings row contributes, if its color strip shows a
/// seat.
pub open spec fn row_spec(p: Seq<u8>, i: int) -> Option<PlayerResult> {
    match row_seat_spec(p, i) {
        None => None,
        Some(seat) => Some(
            PlayerResult {
                index: seat as u8,
                position: (i + 1) as u8,
                score: row_score_spec(p, i),
            },
        ),
    }
}

/// The occupied rows among the first `n`, in row order.
pub open spec fn rows_upto(p: Seq<u8>, n: int) -> Seq<PlayerResult>
    decreases n,
{
    if n <= 0 {
        Seq::empty()
    } else {
        rows_upto(p, n - 1) + match row_spec(p, n - 1) {
            None => Seq::<PlayerResult>::empty(),
            Some(row) => seq![row],
        }
    }
}

/// The rows belonging to one seat among the first `n`, in row order.
pub open spec fn by_seat_upto(s: Seq<PlayerResult>, seat: int, n: int) -> Seq<PlayerResult>
    decreases n,
{
    if n <= 0 {
        Seq::empty()
    } else {
        by_seat_upto(s, seat, n - 1) + if s[n - 1].index == seat {
            seq![s[n - 1]]
        } else {
            Seq::<PlayerResult>::empty()
        }
    }
}

/// The rows regrouped by seat: all rows of the first `k` seats, seats in
/// ascending order, row order kept within a seat.
pub open spec fn seat_sorted(s: Seq<PlayerResult>, k: int) -> Seq<PlayerResult>
    decreases k,
{
    if k <= 0 {
        Seq::empty()
    } else {
        seat_sorted(s, k - 1) + by_seat_upto(s, k - 1, s.len() as int)
    }
}

/// The players the match-result screen extracts: the occupied standings
/// rows, regrouped in ascending seat order.
pub open spec fn mr_players_spec(p: Seq<u8>) -> Seq<PlayerResult> {
    seat_sorted(rows_upto(p, 12), 4)
}

/// What match-result processing returns: always a match-result screen
/// holding the extracted standings and the recognized speed class.
pub open spec fn match_result_process_post(
    cat: MatchResultCatalog,
    p: Seq<u8>,
    res: Option<Screen>,
) -> bool {
    match res {
        Some(Screen::MatchResult(m)) => m.players@ == mr_players_spec(p) && m.speed
            == race_speed_spec(cat, p),
        _ => false,
    }
}

/// Reads the speed class from the banner region.
pub fn race_speed(frame: &Frame, cat: &MatchResultCatalog) -> (r: Option<u8>)
    requires
        frame.wf(),
        frame.width == 1280,
        frame.height == 720,
        cat.wf(),
    ensures
        r == race_speed_spec(*cat, frame.pixels@),
{
    let crop = frame.crop(37, 28, 99, 26);
    let check_hash = hash_image(&crop);
    if hamming_dist(&cat.h200, &check_hash) < 10 {
        Some(200)
    } else if hamming_dist(&cat.h150, &check_hash) < 10 {
        Some(150)
    } else {
        None
    }
}

/// One seven-segment probe on the binarized score section.
fn is_black(section: &Frame, x0: u32, y0: u32, rw: u32, rh: u32) -> (r: bool)
    requires
        section.wf(),
        section.width == 45,
        x0 + rw <= section.width,
        y0 + rh <= section.height,
        1 <= rw <= 3,
        1 <= rh <= 3,
    ensures
        r == seg_dark(section.pixels@, x0 as int, y0 as int, rw as int, rh as int),
{
    proof {
        assert((rw as int) * (rh as int) <= 9) by (nonlinear_arith)
            requires
                rw <= 3,
                rh <= 3,
        ;
    }
    let a = region_average(section, x0, y0, rw, rh);
    let average = ((a[0] as u32) + (a[1] as u32) + (a[2] as u32)) / 3;
    average < 25_000
}

/// Decodes the digit at horizontal offset `x_offset` of a binarized score
/// section by probing seven fixed segment regions.
pub fn get_number(section: &Frame, x_offset: u32) -> (r: Option<u8>)
    requires
        section.wf(),
        section.width == 45,
        section.height == 38,
        x_offset <= 23,
    ensures
        r == number_spec(section.pixels@, x_offset as int),
{
    let top = is_black(section, x_offset + 7, 6, 3, 1);
    let top_left = is_black(section, x_offset + 2, 10, 1, 3);
    let top_right = is_black(section, x_offset + 16, 10, 1, 3);
    let center = is_black(section, x_offset + 7, 18, 3, 1);
    let bottom_left = is_black(section, x_offset + 2, 22, 3, 1);
    let bottom_right = is_black(section, x_offset + 16, 22, 3, 1);
    let bottom = is_black(section, x_offset + 7, 30, 3, 1);

    if !top && !top_left && top_right && !center && !bottom_left && bottom_right && !bottom {
        Some(1)
    } else if top && !top_left && top_right && center && bottom_left && !bottom_right && bottom {
        Some(2)
    } else if top && !top_left && top_right && center && !bottom_left && bottom_right && bottom {
        Some(8)
    } else if !top && top_left && top_right && center && !bottom_left && bottom_right && !bottom {
        Some(4)
    } else if top && top_left && !top_right && center && !bottom_left && bottom_right && bottom {
        Some(5)
    } else if top && top_left && !top_right && center && bottom_left && bottom_right && bottom {
        Some(6)
    } else if top && !top_left && top_right && !center && !bottom_left && bottom_right && !bottom {
        Some(7)
    } else if top && top_left && top_right && center && bottom_left && bottom_right && bottom {
        Some(8)
    } else if top && top_left && top_right && center && !bottom_left && bottom_right && bottom {
        Some(9)
    } else {
        None
    }
}

/// Binarizes a 45 x 38 score section in place and decodes its two digits
/// into a score.
pub fn calculate_score(section: &mut Frame) -> (r: Option<u8>)
    requires
        old(section).wf(),
        old(section).width == 45,
        old(section).height == 38,
    ensures
        r == score_of_section(old(section).pixels@),
{
    max_color_diff(section, 130);
    let tens = get_number(section, 0);
    let ones = get_number(section, 23);
    match (tens, ones) {
        (Some(t), Some(o)) => Some(t * 10 + o),
        _ => None,
    }
}

impl MatchResult {
    /// Decides whether the frame shows the match-result screen.
    pub fn compare(frame: &Frame, cat: &MatchResultCatalog) -> (r: bool)
        requires
            frame.wf(),
            frame.width == 1280,
            frame.height == 720,
            cat.wf(),
        ensures
            r == match_result_compare_spec(*cat, frame.pixels@),
    {
        race_speed(frame, cat).is_some()
    }

    /// Extracts the standings: walks the twelve rows, reads each row's seat
    /// from its color strip and its score from the seven-segment section,
    /// and returns the occupied rows regrouped in ascending seat order.
    #[verifier::loop_isolation(false)]
    #[verifier::rlimit(60)]
    pub fn process(frame: &Frame, cat: &MatchResultCatalog) -> (r: Option<Screen>)
        requires
            frame.wf(),
            frame.width == 1280,
            frame.height == 720,
            cat.wf(),
        ensures
            match_result_process_post(*cat, frame.pixels@, r),
    {
        let ghost p = frame.pixels@;
        let mut rows: Vec<PlayerResult> = Vec::new();
        let mut i: u32 = 0;
        while i < 12
            invariant
                i <= 12,
                rows@ == rows_upto(p, i as int),
            decreases 12 - i,
        {
            let y: u32 = 132 + i * 42;
            let a = region_average(frame, 104, y, 1, 3);
            let seat: Option<u8> = if a[0] > 55_000 && a[1] > 55_000 {
                Some(0)
            } else if a[1] > 55_000 && a[2] > 55_000 {
                Some(1)
            } else if a[1] > 55_000 {
                Some(3)
            } else if a[0] > 55_000 {
                Some(2)
            } else {
                None
            };
            match seat {
                None => {},
                Some(seat) => {
                    let mut section = frame.crop(543, y, 45, 38);
                    let score = calculate_score(&mut section);
                    rows.push(
                        PlayerResult { index: seat, position: (i as u8) + 1, score },
                    );
                },
            }
            i += 1;
        }
        let mut players: Vec<PlayerResult> = Vec::new();
        let mut seat: u32 = 0;
        while seat < 4
            invariant
                seat <= 4,
                players@ == seat_sorted(rows@, seat as int),
            decreases 4 - seat,
        {
            let mut j: usize = 0;
            while j < rows.len()
                invariant
                    j <= rows@.len(),
                    seat < 4,
                    players@ == seat_sorted(rows@, seat as int) + by_seat_upto(
                        rows@,
                        seat as int,
                        j as int,
                    ),
                decreases rows@.len() - j,
            {
                if rows[j].index == seat as u8 {
                    players.push(rows[j]);
                }
                j += 1;
            }
            seat += 1;
        }
        let speed = race_speed(frame, cat);
        Some(Screen::MatchResult(MatchResult { players, speed }))
    }
}

} // verus!
