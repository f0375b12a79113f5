//! The race-result scoreboard screen: split-screen gating on a bright
//! center pixel, a colored-stripe rejection check, and per-row seat
//! detection with fixed points per scoreboard position.

use vstd::prelude::*;

use crate::color::mostly_blue_spec;
use crate::color::mostly_green_spec;
use crate::color::mostly_red_spec;
use crate::color::region_average;
use crate::color::COLOR_THRESHOLD;
use crate::frame::chan;
use crate::frame::Frame;
use crate::screens::Screen;
use crate::util::is_splitscreen;
use crate::util::is_splitscreen_spec;
use crate::util::pixel_lightness;

verus! {

/// One scoreboard row's result: the seat that occupies it, its finishing
/// position, and the points that position awards.
#[derive(Clone, Copy, Debug, PartialEq, Eq, Structural)]
pub struct Player {
    pub index: u8,
    pub position: u8,
    pub points: u8,
}

/// A race-result screen: the seats' finishing rows in ascending seat
/// order.
#[derive(Clone, Debug)]
pub struct RaceResult {
    pub players: Vec<Player>,
}

/// The points awarded for each scoreboard position (zero-based row).
pub open spec fn points_for(i: int) -> u8 {
    if i == 0 {
        15u8
    } else if i == 1 {
        12u8
    } else if i == 2 {
        10u8
    } else if i == 3 {
        9u8
    } else if i == 4 {
        8u8
    } else if i == 5 {
        7u8
    } else if i == 6 {
        6u8
    } else if i == 7 {
        5u8
    } else if i == 8 {
        4u8
    } else if i == 9 {
        3u8
    } else if i == 10 {
        2u8
    } else {
        1u8
    }
}

/// A frame reads as the race-result screen when it shows the split-screen
/// layout and the pixel just left of the top-center is clearly bright.
pub open spec fn race_result_compare_spec(p: Seq<u8>) -> bool {
    is_splitscreen_spec(1280, 720, p) && pixel_lightness(1280, p, 639, 50) > 12_850
}

/// The sixteen-bit channel value of the stripe pixel at row `k` of the
/// rejection column.
pub open spec fn stripe_chan(p: Seq<u8>, k: int, c: int) -> int {
    257 * (chan(1280, p, 320, 70 + k, c) as int)
}

/// Whether the stripe pixel at row `k` shows one of the three strong
/// primary colors.
pub open spec fn stripe_colored(p: Seq<u8>, k: int) -> bool {
    mostly_red_spec(
        stripe_chan(p, k, 0) as u16,
        stripe_chan(p, k, 1) as u16,
        stripe_chan(p, k, 2) as u16,
    ) || mostly_blue_spec(
        stripe_chan(p, k, 0) as u16,
        stripe_chan(p, k, 1) as u16,
        stripe_chan(p, k, 2) as u16,
    ) || mostly_green_spec(
        stripe_chan(p, k, 0) as u16,
        stripe_chan(p, k, 1) as u16,
        stripe_chan(p, k, 2) as u16,
    )
}

/// How many of the first `n` stripe pixels show a strong primary color.
pub open spec fn stripe_count(p: Seq<u8>, n: int) -> int
    decreases n,
{
    if n <= 0 {
        0
    } else {
        stripe_count(p, n - 1) + if stripe_colored(p, n - 1) {
            1int
        } else {
            0int
        }
    }
}

/// The seat a scoreboard row belongs to, read from a tiny strip beside the
/// row: yellow is seat 0, blue seat 1, green seat 3, red seat 2, in that
/// testing order; a strip showing none of those colors means the row is
/// empty.
pub open spec fn rr_row_seat_spec(p: Seq<u8>, i: int) -> Option<int> {
    let y = 52 + i * 52;
    let r = crate::color::avg_chan(1280, p, 639, y, 2, 2, 0);
    let g = crate::color::avg_chan(1280, p, 639, y, 2, 2, 1);
    let b = crate::color::avg_chan(1280, p, 639, y, 2, 2, 2);
    if r > COLOR_THRESHOLD && g > COLOR_THRESHOLD {
        Some(0)
    } else if g > COLOR_THRESHOLD && b > COLOR_THRESHOLD {
        Some(1)
    } else if g > COLOR_THRESHOLD {
        Some(3)
    } else if r > COLOR_THRESHOLD {
        Some(2)
    } else {
        None
    }
}

/// The player a scoreboard row contributes, if its strip shows a seat.
pub open spec fn rr_row_spec(p: Seq<u8>, i: int) -> Option<Player> {
    match rr_row_seat_spec(p, i) {
        None => None,
        Some(seat) => Some(
            Player { index: seat as u8, position: (i + 1) as u8, points: points_for(i) },
        ),
    }
}

/// The occupied rows among the first `n`, in row order.
pub open spec fn rr_rows_upto(p: Seq<u8>, n: int) -> Seq<Player>
    decreases n,
{
    if n <= 0 {
        Seq::empty()
    } else {
        rr_rows_upto(p, n - 1) + match rr_row_spec(p, n - 1) {
            None => Seq::<Player>::empty(),
            Some(row) => seq![row],
        }
    }
}

/// The rows belonging to one seat among the first `n`, in row order.
pub open spec fn rr_by_seat_upto(s: Seq<Player>, seat: int, n: int) -> Seq<Player>
    decreases n,
{
    if n <= 0 {
        Seq::empty()
    } else {
        rr_by_seat_upto(s, seat, n - 1) + if s[n - 1].index == seat {
            seq![s[n - 1]]
        } else {
            Seq::<Player>::empty()
        }
    }
}

/// The rows regrouped by seat: all rows of the first `k` seats, seats in
/// ascending order, row order kept within a seat.
pub open spec fn rr_seat_sorted(s: Seq<Player>, k: int) -> Seq<Player>
    decreases k,
{
    if k <= 0 {
        Seq::empty()
    } else {
        rr_seat_sorted(s, k - 1) + rr_by_seat_upto(s, k - 1, s.len() as int)
    }
}

/// The players the race-result screen extracts.
pub open spec fn rr_players_spec(p: Seq<u8>) -> Seq<Player> {
    rr_seat_sorted(rr_rows_upto(p, 12), 4)
}

/// What race-result processing returns: nothing when the colored-stripe
/// check rejects the frame (more than ten strongly colored pixels in the
/// rejection column), else a race-result screen holding the extracted
/// rows regrouped in ascending seat order.
pub open spec fn race_result_process_post(p: Seq<u8>, res: Option<Screen>) -> bool {
    if stripe_count(p, 600) > 10 {
        res is None
    } else {
        match res {
            Some(Screen::RaceResult(rr)) => rr.players@ == rr_players_spec(p),
            _ => false,
        }
    }
}

impl RaceResult {
    /// Decides whether the frame shows the race-result scoreboard.
    pub fn compare(frame: &Frame) -> (r: bool)
        requires
            frame.wf(),
            frame.width == 1280,
            frame.height == 720,
        ensures
            r == race_result_compare_spec(frame.pixels@),
    {
        if !is_splitscreen(frame) {
            return false;
        }
        let px = frame.rgb16(frame.width / 2 - 1, 50);
        let value = crate::color::lightness(px);
        value > 12_850
    }

    /// Extracts the scoreboard: rejects frames whose rejection column shows
    /// too many strongly colored pixels, then walks the twelve rows, reads
    /// each row's seat from its color strip, and returns the occupied rows
    /// regrouped in ascending seat order.
    #[verifier::loop_isolation(false)]
    pub fn process(frame: &Frame) -> (r: Option<Screen>)
        requires
            frame.wf(),
            frame.width == 1280,
            frame.height == 720,
        ensures
            race_result_process_post(frame.pixels@, r),
    {
        let ghost p = frame.pixels@;
        let mut colored: u32 = 0;
        let mut k: u32 = 0;
        while k < 600
            invariant
                k <= 600,
                colored == stripe_count(p, k as int),
                colored <= k,
            decreases 600 - k,
        {
            let px = frame.rgb16(320, 70 + k);
            if crate::color::mostly_red(px) || crate::color::mostly_blue(px)
                || crate::color::mostly_green(px) {
                colored += 1;
            }
            k += 1;
        }
        if colored > 10 {
            return None;
        }

        let mut rows: Vec<Player> = Vec::new();
        let mut i: u32 = 0;
        while i < 12
            invariant
                i <= 12,
                rows@ == rr_rows_upto(p, i as int),
            decreases 12 - i,
        {
            let y: u32 = 52 + i * 52;
            let a = region_average(frame, frame.width / 2 - 1, y, 2, 2);
            let seat: Option<u8> = if a[0] > COLOR_THRESHOLD && a[1] > COLOR_THRESHOLD {
                Some(0)
            } else if a[1] > COLOR_THRESHOLD && a[2] > COLOR_THRESHOLD {
                Some(1)
            } else if a[1] > COLOR_THRESHOLD {
                Some(3)
            } else if a[0] > COLOR_THRESHOLD {
                Some(2)
            } else {
                None
            };
            match seat {
                None => {},
                Some(seat) => {
                    let points: u8 = match i {
                        0 => 15,
                        1 => 12,
                        2 => 10,
                        3 => 9,
                        4 => 8,
                        5 => 7,
                        6 => 6,
                        7 => 5,
                        8 => 4,
                        9 => 3,
                        10 => 2,
                        _ => 1,
                    };
                    rows.push(Player { index: seat, position: (i as u8) + 1, points });
                },
            }
            i += 1;
        }

        let mut players: Vec<Player> = Vec::new();
        let mut seat: u32 = 0;
        while seat < 4
            invariant
                seat <= 4,
                players@ == rr_seat_sorted(rows@, seat as int),
            decreases 4 - seat,
        {
            let mut j: usize = 0;
            while j < rows.len()
                invariant
                    j <= rows@.len(),
                    seat < 4,
                    players@ == rr_seat_sorted(rows@, seat as int) + rr_by_seat_upto(
                        rows@,
                        seat as int,
                        j as int,
                    ),
                decreases rows@.len() - j,
            {
                if rows[j].index == seat as u8 {
                    players.push(rows[j]);
                }
                j += 1;
            }
            seat += 1;
        }

        Some(Screen::RaceResult(RaceResult { players }))
    }
}

} // verus!
