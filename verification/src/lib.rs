//! Screen classification and race-state extraction for captured racing-game
//! frames: perceptual-hash reference matching over fixed regions of a
//! 1280x720 RGB frame, with per-seat extraction on the race screen.

pub mod cli;
pub mod color;
pub mod emit;
pub mod frame;
pub mod hashing;
pub mod intro;
pub mod loading;
pub mod main_menu;
pub mod match_result;
pub mod matcher;
pub mod race;
pub mod race_result;
pub mod screens;
pub mod select_character;
pub mod util;

use vstd::prelude::*;

use crate::frame::Frame;
use crate::hashing::resize_of;
use crate::hashing::resize_to_canonical;
use crate::intro::intro_compare_spec;
use crate::intro::intro_process_post;
use crate::intro::Intro;
use crate::intro::IntroCatalog;
use crate::loading::loading_compare_spec;
use crate::loading::Loading;
use crate::main_menu::main_menu_compare_spec;
use crate::main_menu::MainMenu;
use crate::match_result::match_result_compare_spec;
use crate::match_result::match_result_process_post;
use crate::match_result::MatchResult;
use crate::match_result::MatchResultCatalog;
use crate::race::race_compare_spec;
use crate::race::race_process_post;
use crate::race::Race;
use crate::race::RaceCatalog;
use crate::race_result::race_result_compare_spec;
use crate::race_result::race_result_process_post;
use crate::race_result::RaceResult;
use crate::screens::screen_eq_spec;
use crate::screens::Screen;
use crate::select_character::select_character_compare_spec;
use crate::select_character::SelectCharacter;

verus! {

/// The read-only reference catalog: every screen kind's reference hashes,
/// built once at startup from the bundled reference images and immutable
/// during classification.
pub struct Catalog {
    pub race: RaceCatalog,
    pub intro: IntroCatalog,
    pub match_result: MatchResultCatalog,
    pub loading: Vec<u8>,
    pub main_menu: Vec<u8>,
    pub select_character: Vec<u8>,
}

impl Catalog {
    /// Every stored hash has the hasher's fixed length.
    pub open spec fn wf(self) -> bool {
        &&& self.race.wf()
        &&& self.intro.wf()
        &&& self.match_result.wf()
        &&& self.loading@.len() == 8
        &&& self.main_menu@.len() == 8
        &&& self.select_character@.len() == 8
    }
}

/// One classification call's outcome: the recognized screen (or nothing,
/// when a probe claimed the frame but extraction found no data), and a flag
/// asking the caller to persist the frame into the unknown-intros directory
/// for later labeling.
pub struct Classification {
    pub screen: Option<Screen>,
    pub save_unknown_intro: bool,
}

/// What classification returns for a canonical-resolution frame: the
/// probes run in fixed priority order (race, main menu, race result,
/// select character, loading, intro, match result), the first probe that
/// claims the frame owns the result even when its extraction finds no
/// data, and a frame no probe claims is `Unknown`.
pub open spec fn classify_post(p: Seq<u8>, cat: Catalog, r: Classification) -> bool {
    if race_compare_spec(p) {
        race_process_post(cat.race, p, r.screen) && !r.save_unknown_intro
    } else if main_menu_compare_spec(cat.main_menu@, p) {
        r.screen == Some(Screen::MainMenu(MainMenu {  })) && !r.save_unknown_intro
    } else if race_result_compare_spec(p) {
        race_result_process_post(p, r.screen) && !r.save_unknown_intro
    } else if select_character_compare_spec(cat.select_character@, p) {
        r.screen == Some(Screen::SelectCharacter(SelectCharacter {  })) && !r.save_unknown_intro
    } else if loading_compare_spec(cat.loading@, p) {
        r.screen == Some(Screen::Loading(Loading {  })) && !r.save_unknown_intro
    } else if intro_compare_spec(cat.intro, p) {
        intro_process_post(cat.intro, p, r.screen, r.save_unknown_intro)
    } else if match_result_compare_spec(cat.match_result, p) {
        match_result_process_post(cat.match_result, p, r.screen) && !r.save_unknown_intro
    } else {
        r.screen == Some(Screen::Unknown) && !r.save_unknown_intro
    }
}

/// Classifies a canonical-resolution frame: runs the ordered probes and
/// delegates extraction to the first one that claims the frame.
pub fn classify(frame: &Frame, catalog: &Catalog) -> (r: Classification)
    requires
        frame.wf(),
        frame.width == 1280,
        frame.height == 720,
        catalog.wf(),
    ensures
        classify_post(frame.pixels@, *catalog, r),
{
    if Race::compare(frame) {
        Classification { screen: Race::process(frame, &catalog.race), save_unknown_intro: false }
    } else if MainMenu::compare(frame, &catalog.main_menu) {
        Classification {
            screen: Some(Screen::MainMenu(MainMenu {  })),
            save_unknown_intro: false,
        }
    } else if RaceResult::compare(frame) {
        Classification { screen: RaceResult::process(frame), save_unknown_intro: false }
    } else if SelectCharacter::compare(frame, &catalog.select_character) {
        Classification {
            screen: Some(Screen::SelectCharacter(SelectCharacter {  })),
            save_unknown_intro: false,
        }
    } else if Loading::compare(frame, &catalog.loading) {
        Classification { screen: Some(Screen::Loading(Loading {  })), save_unknown_intro: false }
    } else if Intro::compare(frame, &catalog.intro) {
        let (screen, save_unknown_intro) = Intro::process(frame, &catalog.intro);
        Classification { screen, save_unknown_intro }
    } else if MatchResult::compare(frame, &catalog.match_result) {
        Classification {
            screen: MatchResult::process(frame, &catalog.match_result),
            save_unknown_intro: false,
        }
    } else {
        Classification { screen: Some(Screen::Unknown), save_unknown_intro: false }
    }
}

/// Classifies an arbitrary 16:9 frame by first resizing it to the canonical
/// 1280x720 working resolution with nearest-neighbour filtering.
pub fn analyze(frame: &Frame, catalog: &Catalog) -> (r: Classification)
    requires
        frame.wf(),
        1 <= frame.width <= 65536,
        (frame.width as int) * 720 == (frame.height as int) * 1280,
        catalog.wf(),
    ensures
        classify_post(
            resize_of(frame.width as int, frame.height as int, frame.pixels@),
            *catalog,
            r,
        ),
{
    let resized = resize_to_canonical(frame);
    classify(&resized, catalog)
}

/// Classification is a pure function of the frame and the catalog: any two
/// results that satisfy its contract on the same inputs are the same
/// classification, so classifying the same frame twice yields identical
/// results.
pub proof fn lemma_classify_deterministic(
    p: Seq<u8>,
    cat: Catalog,
    r1: Classification,
    r2: Classification,
)
    requires
        classify_post(p, cat, r1),
        classify_post(p, cat, r2),
    ensures
        r1.save_unknown_intro == r2.save_unknown_intro,
        match (r1.screen, r2.screen) {
            (None, None) => true,
            (Some(a), Some(b)) => screen_eq_spec(a, b),
            _ => false,
        },
{
}

} // verus!
