//! The classification result: one tagged variant per recognizable screen
//! kind, the stable event tag each variant routes under, and a deep
//! equality the emitter's debouncing compares with.

use vstd::prelude::*;

use crate::intro::Intro;
use crate::loading::Loading;
use crate::main_menu::MainMenu;
use crate::match_result::MatchResult;
use crate::race::Race;
use crate::race_result::RaceResult;
use crate::select_character::SelectCharacter;

verus! {

/// A classified screen: exactly one variant per classification call, or
/// `Unknown` when no probe claims the frame.
#[derive(Clone, Debug)]
pub enum Screen {
    Intro(Intro),
    Loading(Loading),
    MainMenu(MainMenu),
    MatchResult(MatchResult),
    Race(Race),
    RaceResult(RaceResult),
    SelectCharacter(SelectCharacter),
    Unknown,
}

/// The stable event tag of each screen variant.
pub open spec fn event_type_view(s: Screen) -> Seq<char> {
    match s {
        Screen::Intro(_) => "intro_screen"@,
        Screen::Loading(_) => "loading_screen"@,
        Screen::MainMenu(_) => "main_menu_screen"@,
        Screen::Race(_) => "race_screen"@,
        Screen::SelectCharacter(_) => "select_character_screen"@,
        Screen::MatchResult(_) => "match_result_screen"@,
        Screen::RaceResult(_) => "race_result_screen"@,
        Screen::Unknown => "unknown_screen"@,
    }
}

/// Two screens are the same result: the same variant with equal payloads,
/// element for element.
pub open spec fn screen_eq_spec(a: Screen, b: Screen) -> bool {
    match (a, b) {
        (Screen::Intro(x), Screen::Intro(y)) => x.course@ == y.course@,
        (Screen::Loading(_), Screen::Loading(_)) => true,
        (Screen::MainMenu(_), Screen::MainMenu(_)) => true,
        (Screen::MatchResult(x), Screen::MatchResult(y)) => x.players@ == y.players@ && x.speed
            == y.speed,
        (Screen::Race(x), Screen::Race(y)) => x.players@ == y.players@ && x.starting == y.starting,
        (Screen::RaceResult(x), Screen::RaceResult(y)) => x.players@ == y.players@,
        (Screen::SelectCharacter(_), Screen::SelectCharacter(_)) => true,
        (Screen::Unknown, Screen::Unknown) => true,
        _ => false,
    }
}

impl Screen {
    /// The stable event tag this screen routes under downstream.
    pub fn event_type(&self) -> (r: &'static str)
        ensures
            r@ == event_type_view(*self),
    {
        match self {
            Screen::Intro(_) => "intro_screen",
            Screen::Loading(_) => "loading_screen",
            Screen::MainMenu(_) => "main_menu_screen",
            Screen::Race(_) => "race_screen",
            Screen::SelectCharacter(_) => "select_character_screen",
            Screen::MatchResult(_) => "match_result_screen",
            Screen::RaceResult(_) => "race_result_screen",
            Screen::Unknown => "unknown_screen",
        }
    }

    /// Compares two screens for deep equality, the comparison the
    /// emitter's debouncing runs on.
    pub fn same_as(&self, other: &Screen) -> (r: bool)
        ensures
            r == screen_eq_spec(*self, *other),
    {
        match (self, other) {
            (Screen::Intro(x), Screen::Intro(y)) => x.course == y.course,
            (Screen::Loading(_), Screen::Loading(_)) => true,
            (Screen::MainMenu(_), Screen::MainMenu(_)) => true,
            (Screen::MatchResult(x), Screen::MatchResult(y)) => {
                let speed_eq = match (x.speed, y.speed) {
                    (None, None) => true,
                    (Some(a), Some(b)) => a == b,
                    _ => false,
                };
                speed_eq && results_eq(&x.players, &y.players)
            },
            (Screen::Race(x), Screen::Race(y)) => x.starting == y.starting && players_eq(
                &x.players,
                &y.players,
            ),
            (Screen::RaceResult(x), Screen::RaceResult(y)) => rows_eq(&x.players, &y.players),
            (Screen::SelectCharacter(_), Screen::SelectCharacter(_)) => true,
            (Screen::Unknown, Screen::Unknown) => true,
            _ => false,
        }
    }
}

/// Element-wise equality of race player lists.
#[verifier::loop_isolation(false)]
fn players_eq(a: &Vec<crate::race::Player>, b: &Vec<crate::race::Player>) -> (r: bool)
    ensures
        r == (a@ == b@),
{
    if a.len() != b.len() {
        proof {
            assert(a@ != b@);
        }
        return false;
    }
    let mut i: usize = 0;
    while i < a.len()
        invariant
            i <= a@.len(),
            a@.len() == b@.len(),
            forall|k: int| 0 <= k < i ==> a@[k] == b@[k],
        decreases a@.len() - i,
    {
        if !(a[i] == b[i]) {
            proof {
                assert(a@ != b@);
            }
            return false;
        }
        i += 1;
    }
    proof {
        assert(a@ =~= b@);
    }
    true
}

/// Element-wise equality of match-result row lists.
#[verifier::loop_isolation(false)]
fn results_eq(a: &Vec<crate::match_result::PlayerResult>, b: &Vec<crate::match_result::PlayerResult>) -> (r:
    bool)
    ensures
        r == (a@ == b@),
{
    if a.len() != b.len() {
        proof {
            assert(a@ != b@);
        }
        return false;
    }
    let mut i: usize = 0;
    while i < a.len()
        invariant
            i <= a@.len(),
            a@.len() == b@.len(),
            forall|k: int| 0 <= k < i ==> a@[k] == b@[k],
        decreases a@.len() - i,
    {
        if !(a[i] == b[i]) {
            proof {
                assert(a@ != b@);
            }
            return false;
        }
        i += 1;
    }
    proof {
        assert(a@ =~= b@);
    }
    true
}

/// Element-wise equality of race-result row lists.
#[verifier::loop_isolation(false)]
fn rows_eq(a: &Vec<crate::race_result::Player>, b: &Vec<crate::race_result::Player>) -> (r: bool)
    ensures
        r == (a@ == b@),
{
    if a.len() != b.len() {
        proof {
            assert(a@ != b@);
        }
        return false;
    }
    let mut i: usize = 0;
    while i < a.len()
        invariant
            i <= a@.len(),
            a@.len() == b@.len(),
            forall|k: int| 0 <= k < i ==> a@[k] == b@[k],
        decreases a@.len() - i,
    {
        if !(a[i] == b[i]) {
            proof {
                assert(a@ != b@);
            }
            return false;
        }
        i += 1;
    }
    proof {
        assert(a@ =~= b@);
    }
    true
}

} // verus!
