use kart_rs::analyze;
use kart_rs::classify;
use kart_rs::frame::Frame;
use kart_rs::hashing::hash_image;
use kart_rs::intro::get_track_image;
use kart_rs::intro::get_variant_image;
use kart_rs::intro::IntroCatalog;
use kart_rs::intro::IntroReference;
use kart_rs::intro::VariantGroup;
use kart_rs::match_result::MatchResultCatalog;
use kart_rs::match_result::PlayerResult;
use kart_rs::race::get_position;
use kart_rs::race::ImageReference;
use kart_rs::race::Item;
use kart_rs::race::ItemReference;
use kart_rs::race::Player;
use kart_rs::race::RaceCatalog;
use kart_rs::race::Status;
use kart_rs::screens::Screen;
use kart_rs::util::is_splitscreen;
use kart_rs::Catalog;

fn solid(width: u32, height: u32, rgb: [u8; 3]) -> Frame {
    let mut pixels = Vec::with_capacity((3 * width * height) as usize);
    for _ in 0..width * height {
        pixels.push(rgb[0]);
        pixels.push(rgb[1]);
        pixels.push(rgb[2]);
    }
    Frame { width, height, pixels }
}

fn fill(frame: &mut Frame, x0: u32, y0: u32, rw: u32, rh: u32, rgb: [u8; 3]) {
    for y in y0..y0 + rh {
        for x in x0..x0 + rw {
            let i = 3 * ((y * frame.width + x) as usize);
            frame.pixels[i] = rgb[0];
            frame.pixels[i + 1] = rgb[1];
            frame.pixels[i + 2] = rgb[2];
        }
    }
}

/// Alternating black and white columns: a region whose hash sits far from a
/// uniform region's hash.
fn stripes(frame: &mut Frame, x0: u32, y0: u32, rw: u32, rh: u32) {
    for y in y0..y0 + rh {
        for x in x0..x0 + rw {
            let v = if (x - x0) % 2 == 0 { 255 } else { 0 };
            let i = 3 * ((y * frame.width + x) as usize);
            frame.pixels[i] = v;
            frame.pixels[i + 1] = v;
            frame.pixels[i + 2] = v;
        }
    }
}

/// The bitwise complement of a hash: at Hamming distance 64 from it, so it
/// can never match.
fn inv(h: &[u8]) -> Vec<u8> {
    h.iter().map(|b| !b).collect()
}

/// The hash with its first `n` bits flipped: at Hamming distance exactly
/// `n` from the original.
fn flip_bits(h: &[u8], n: u32) -> Vec<u8> {
    let mut out = h.to_vec();
    let mut left = n;
    for byte in out.iter_mut() {
        for b in 0..8 {
            if left > 0 {
                *byte ^= 1 << b;
                left -= 1;
            }
        }
    }
    out
}

fn region_hash(frame: &Frame, x: u32, y: u32, w: u32, h: u32) -> Vec<u8> {
    hash_image(&frame.crop(x, y, w, h))
}

fn gray_region_hash(frame: &Frame, x: u32, y: u32, w: u32, h: u32) -> Vec<u8> {
    hash_image(&frame.crop(x, y, w, h).grayscale())
}

/// A catalog whose every reference is the complement of what this frame
/// shows in the probed region: no probe can claim the frame.
fn neutral_catalog(frame: &Frame) -> Catalog {
    let gray_pos = gray_region_hash(frame, 57, 239, 36, 54);
    Catalog {
        race: RaceCatalog {
            lap_flag: inv(&region_hash(frame, 114, 317, 11, 11)),
            go: inv(&region_hash(frame, 573, 292, 39, 37)),
            finished: inv(&region_hash(frame, 159, 127, 38, 38)),
            positions: (0..12)
                .map(|_| ImageReference { files: vec![inv(&gray_pos)] })
                .collect(),
            items: vec![],
        },
        intro: IntroCatalog {
            reference: inv(&region_hash(frame, 111, 589, 44, 37)),
            groups: vec![],
        },
        match_result: MatchResultCatalog {
            h150: inv(&region_hash(frame, 37, 28, 99, 26)),
            h200: inv(&region_hash(frame, 37, 28, 99, 26)),
        },
        loading: inv(&region_hash(frame, 670, 20, 100, 100)),
        main_menu: inv(&region_hash(frame, 220, 467, 122, 24)),
        select_character: inv(&region_hash(frame, 735, 435, 40, 35)),
    }
}

/// A gray frame with the four split-screen divider strips forced black.
fn splitscreen_frame() -> Frame {
    let mut frame = solid(1280, 720, [100, 100, 100]);
    fill(&mut frame, 639, 2, 2, 4, [0, 0, 0]);
    fill(&mut frame, 2, 359, 4, 2, [0, 0, 0]);
    fill(&mut frame, 1276, 359, 4, 2, [0, 0, 0]);
    fill(&mut frame, 639, 716, 2, 4, [0, 0, 0]);
    frame
}

/// A race frame: split-screen layout plus the near-black center strip the
/// race probe requires, with a distinctive pattern in seat 0's lap-flag
/// region.
fn race_frame() -> Frame {
    let mut frame = splitscreen_frame();
    fill(&mut frame, 639, 48, 1, 8, [0, 0, 0]);
    stripes(&mut frame, 114, 317, 11, 11);
    frame
}

#[test]
fn splitscreen_detected_with_black_edges_and_bright_corner() {
    let frame = splitscreen_frame();
    assert!(is_splitscreen(&frame));
}

#[test]
fn splitscreen_rejected_when_any_edge_is_bright() {
    let edges: [[u32; 4]; 4] = [
        [639, 2, 2, 4],
        [2, 359, 4, 2],
        [1276, 359, 4, 2],
        [639, 716, 2, 4],
    ];
    for edge in edges {
        let mut frame = splitscreen_frame();
        fill(&mut frame, edge[0], edge[1], edge[2], edge[3], [255, 255, 255]);
        assert!(!is_splitscreen(&frame));
    }
}

#[test]
fn splitscreen_rejected_when_corners_are_black() {
    // An entirely black frame has black dividers but no bright corner.
    let frame = solid(1280, 720, [0, 0, 0]);
    assert!(!is_splitscreen(&frame));
}

#[test]
fn race_scenario_one_seat_position_seven() {
    let frame = race_frame();
    let mut catalog = neutral_catalog(&frame);
    catalog.race.lap_flag = flip_bits(&region_hash(&frame, 114, 317, 11, 11), 5);
    catalog.race.positions[6] =
        ImageReference { files: vec![flip_bits(&gray_region_hash(&frame, 57, 239, 36, 54), 3)] };
    catalog.race.finished = flip_bits(&region_hash(&frame, 159, 127, 38, 38), 40);

    let result = classify(&frame, &catalog);
    assert!(!result.save_unknown_intro);
    match result.screen {
        Some(Screen::Race(race)) => {
            assert!(!race.starting);
            assert_eq!(
                race.players,
                vec![Player { index: 0, position: Some(7), status: Status::Racing, item: None }]
            );
        }
        other => panic!("expected a race screen, got {other:?}"),
    }
}

#[test]
fn race_scenario_zero_seats_yields_no_screen() {
    // Split-screen and darkness gates pass, but no seat passes the
    // lap-flag existence check: no screen at all, not an empty race.
    let mut frame = splitscreen_frame();
    fill(&mut frame, 639, 48, 1, 8, [0, 0, 0]);
    let catalog = neutral_catalog(&frame);

    let result = classify(&frame, &catalog);
    assert!(result.screen.is_none());
    assert!(!result.save_unknown_intro);
}

#[test]
fn race_players_sorted_by_seat() {
    let mut frame = race_frame();
    stripes(&mut frame, 114, 677, 11, 11);
    let mut catalog = neutral_catalog(&frame);
    // Seats 0 and 2 show the same striped lap region: both match exactly.
    catalog.race.lap_flag = region_hash(&frame, 114, 317, 11, 11);

    let result = classify(&frame, &catalog);
    match result.screen {
        Some(Screen::Race(race)) => {
            let indexes: Vec<u8> = race.players.iter().map(|p| p.index).collect();
            assert_eq!(indexes, vec![0, 2]);
        }
        other => panic!("expected a race screen, got {other:?}"),
    }
}

#[test]
fn exact_hash_match_always_wins_the_lookup() {
    let frame = race_frame();
    let mut catalog = neutral_catalog(&frame);
    catalog.race.lap_flag = flip_bits(&region_hash(&frame, 114, 317, 11, 11), 5);
    let gray_pos = gray_region_hash(&frame, 57, 239, 36, 54);
    // One entry matches at distance 5, but the exact (distance 0) entry is
    // the one selected.
    catalog.race.positions[0] = ImageReference { files: vec![flip_bits(&gray_pos, 5)] };
    catalog.race.positions[2] = ImageReference { files: vec![gray_pos.clone()] };

    assert_eq!(get_position(&frame, &catalog.race, 0), Some(3));
}

#[test]
fn exact_match_wins_among_multiple_stored_variants() {
    let frame = race_frame();
    let mut catalog = neutral_catalog(&frame);
    catalog.race.lap_flag = flip_bits(&region_hash(&frame, 114, 317, 11, 11), 5);
    let gray_pos = gray_region_hash(&frame, 57, 239, 36, 54);
    // The entry's distance is the minimum over its stored variants.
    catalog.race.positions[4] =
        ImageReference { files: vec![flip_bits(&gray_pos, 30), gray_pos.clone()] };

    assert_eq!(get_position(&frame, &catalog.race, 0), Some(5));
}

#[test]
fn classification_is_idempotent() {
    let frame = race_frame();
    let mut catalog = neutral_catalog(&frame);
    catalog.race.lap_flag = flip_bits(&region_hash(&frame, 114, 317, 11, 11), 5);
    catalog.race.positions[6] =
        ImageReference { files: vec![flip_bits(&gray_region_hash(&frame, 57, 239, 36, 54), 3)] };

    let first = classify(&frame, &catalog);
    let second = classify(&frame, &catalog);
    assert_eq!(first.save_unknown_intro, second.save_unknown_intro);
    match (first.screen, second.screen) {
        (Some(a), Some(b)) => assert!(a.same_as(&b)),
        (None, None) => {}
        _ => panic!("the two classifications disagree"),
    }
}

/// An intro frame: the gating reference will be taken from this frame's
/// title region, and the speed-class indicator region is forced white.
fn intro_frame() -> Frame {
    let mut frame = solid(1280, 720, [100, 100, 100]);
    stripes(&mut frame, 111, 589, 44, 37);
    stripes(&mut frame, 338, 620, 350, 36);
    fill(&mut frame, 1130, 600, 10, 2, [255, 255, 255]);
    frame
}

fn intro_gated_catalog(frame: &Frame) -> Catalog {
    let mut catalog = neutral_catalog(frame);
    catalog.intro.reference = region_hash(frame, 111, 589, 44, 37);
    catalog
}

#[test]
fn intro_scenario_resolves_wii_track() {
    let frame = intro_frame();
    let mut catalog = intro_gated_catalog(&frame);
    let vhash = hash_image(&get_variant_image(&frame));
    let thash = hash_image(&get_track_image(&frame));
    catalog.intro.groups = vec![
        VariantGroup {
            variant: flip_bits(&vhash, 30),
            tracks: vec![IntroReference {
                name: String::from("Toad Circuit (3DS)"),
                reference: thash.clone(),
            }],
        },
        VariantGroup {
            variant: flip_bits(&vhash, 2),
            tracks: vec![
                IntroReference {
                    name: String::from("Moo Moo Meadows (Wii)"),
                    reference: flip_bits(&thash, 30),
                },
                IntroReference {
                    name: String::from("Coconut Mall (Wii)"),
                    reference: flip_bits(&thash, 4),
                },
                IntroReference {
                    name: String::from("Rainbow Road (Wii)"),
                    reference: flip_bits(&thash, 30),
                },
            ],
        },
    ];

    let result = classify(&frame, &catalog);
    assert!(!result.save_unknown_intro);
    match result.screen {
        Some(Screen::Intro(intro)) => assert_eq!(intro.course, "Coconut Mall (Wii)"),
        other => panic!("expected an intro screen, got {other:?}"),
    }
}

#[test]
fn intro_scenario_unknown_course_requests_persistence() {
    let frame = intro_frame();
    let mut catalog = intro_gated_catalog(&frame);
    let vhash = hash_image(&get_variant_image(&frame));
    let thash = hash_image(&get_track_image(&frame));
    // No variant group comes under the cutoff: the track stage never runs,
    // even though a track reference would match exactly.
    catalog.intro.groups = vec![VariantGroup {
        variant: flip_bits(&vhash, 30),
        tracks: vec![IntroReference {
            name: String::from("Coconut Mall (Wii)"),
            reference: thash,
        }],
    }];

    let result = classify(&frame, &catalog);
    assert!(result.save_unknown_intro);
    match result.screen {
        Some(Screen::Intro(intro)) => assert_eq!(intro.course, "Unknown Course"),
        other => panic!("expected an intro screen, got {other:?}"),
    }
}

#[test]
fn intro_scenario_track_over_cutoff_is_unknown() {
    let frame = intro_frame();
    let mut catalog = intro_gated_catalog(&frame);
    let vhash = hash_image(&get_variant_image(&frame));
    let thash = hash_image(&get_track_image(&frame));
    catalog.intro.groups = vec![VariantGroup {
        variant: vhash,
        tracks: vec![IntroReference {
            name: String::from("Coconut Mall (Wii)"),
            reference: flip_bits(&thash, 10),
        }],
    }];

    let result = classify(&frame, &catalog);
    assert!(result.save_unknown_intro);
    match result.screen {
        Some(Screen::Intro(intro)) => assert_eq!(intro.course, "Unknown Course"),
        other => panic!("expected an intro screen, got {other:?}"),
    }
}

#[test]
fn intro_gate_rejects_unrendered_speed_slice() {
    // The title card matches, but the speed-class indicator is not yet
    // white: the frame must not classify as an intro.
    let mut frame = intro_frame();
    fill(&mut frame, 1130, 600, 10, 2, [100, 100, 100]);
    let catalog = intro_gated_catalog(&frame);

    let result = classify(&frame, &catalog);
    match result.screen {
        Some(Screen::Unknown) => {}
        other => panic!("expected no intro claim, got {other:?}"),
    }
    assert!(!result.save_unknown_intro);
}

#[test]
fn intro_gate_rejects_distant_title_card() {
    let frame = intro_frame();
    let mut catalog = intro_gated_catalog(&frame);
    catalog.intro.reference = flip_bits(&region_hash(&frame, 111, 589, 44, 37), 4);

    let result = classify(&frame, &catalog);
    match result.screen {
        Some(Screen::Unknown) => {}
        other => panic!("expected no intro claim, got {other:?}"),
    }
}

#[test]
fn unmatched_frame_is_unknown_without_persistence() {
    let frame = solid(1280, 720, [100, 100, 100]);
    let catalog = neutral_catalog(&frame);

    let result = classify(&frame, &catalog);
    match result.screen {
        Some(Screen::Unknown) => {}
        other => panic!("expected the unknown screen, got {other:?}"),
    }
    assert!(!result.save_unknown_intro);
}

#[test]
fn loading_scenario() {
    let frame = solid(1280, 720, [100, 100, 100]);
    let mut catalog = neutral_catalog(&frame);
    catalog.loading = region_hash(&frame, 670, 20, 100, 100);

    let result = classify(&frame, &catalog);
    assert!(matches!(result.screen, Some(Screen::Loading(_))));
}

#[test]
fn main_menu_scenario() {
    let frame = solid(1280, 720, [100, 100, 100]);
    let mut catalog = neutral_catalog(&frame);
    catalog.main_menu = region_hash(&frame, 220, 467, 122, 24);

    let result = classify(&frame, &catalog);
    assert!(matches!(result.screen, Some(Screen::MainMenu(_))));
}

#[test]
fn select_character_scenario() {
    let frame = solid(1280, 720, [100, 100, 100]);
    let mut catalog = neutral_catalog(&frame);
    catalog.select_character = region_hash(&frame, 735, 435, 40, 35);

    let result = classify(&frame, &catalog);
    assert!(matches!(result.screen, Some(Screen::SelectCharacter(_))));
}

#[test]
fn match_result_scenario_extracts_row_and_speed() {
    let mut frame = solid(1280, 720, [100, 100, 100]);
    // Row 1 (position 2) shows the yellow seat strip; its score section is
    // uniform gray, which binarizes to all-dark segments: both digits read 8.
    fill(&mut frame, 104, 174, 1, 3, [255, 255, 0]);
    let mut catalog = neutral_catalog(&frame);
    catalog.match_result.h150 = region_hash(&frame, 37, 28, 99, 26);

    let result = classify(&frame, &catalog);
    match result.screen {
        Some(Screen::MatchResult(m)) => {
            assert_eq!(m.speed, Some(150));
            assert_eq!(
                m.players,
                vec![PlayerResult { index: 0, position: 2, score: Some(88) }]
            );
        }
        other => panic!("expected a match-result screen, got {other:?}"),
    }
}

#[test]
fn race_result_scenario_rows_sorted_by_seat() {
    let mut frame = splitscreen_frame();
    // Scoreboard rows 0 and 3 show the yellow and green seat strips.
    fill(&mut frame, 639, 52, 2, 2, [255, 255, 0]);
    fill(&mut frame, 639, 208, 2, 2, [0, 255, 0]);
    let catalog = neutral_catalog(&frame);

    let result = classify(&frame, &catalog);
    match result.screen {
        Some(Screen::RaceResult(rr)) => {
            assert_eq!(
                rr.players,
                vec![
                    kart_rs::race_result::Player { index: 0, position: 1, points: 15 },
                    kart_rs::race_result::Player { index: 3, position: 4, points: 9 },
                ]
            );
        }
        other => panic!("expected a race-result screen, got {other:?}"),
    }
}

#[test]
fn race_result_rejected_by_colored_stripe() {
    let mut frame = splitscreen_frame();
    fill(&mut frame, 639, 52, 2, 2, [255, 255, 0]);
    // More than ten strongly colored pixels in the rejection column.
    fill(&mut frame, 320, 100, 1, 20, [255, 0, 0]);
    let catalog = neutral_catalog(&frame);

    let result = classify(&frame, &catalog);
    assert!(result.screen.is_none());
}

#[test]
fn analyze_resizes_then_classifies() {
    // A uniform 16:9 frame stays uniform after resizing, so a catalog built
    // against the canonical resolution still rejects every probe.
    let large = solid(1920, 1080, [100, 100, 100]);
    let canonical = solid(1280, 720, [100, 100, 100]);
    let catalog = neutral_catalog(&canonical);

    let result = analyze(&large, &catalog);
    match result.screen {
        Some(Screen::Unknown) => {}
        other => panic!("expected the unknown screen, got {other:?}"),
    }
}

#[test]
fn race_starting_banner_sets_the_flag() {
    let frame = race_frame();
    let mut catalog = neutral_catalog(&frame);
    catalog.race.lap_flag = flip_bits(&region_hash(&frame, 114, 317, 11, 11), 5);
    catalog.race.go = region_hash(&frame, 573, 292, 39, 37);

    let result = classify(&frame, &catalog);
    match result.screen {
        Some(Screen::Race(race)) => assert!(race.starting),
        other => panic!("expected a race screen, got {other:?}"),
    }
}

#[test]
fn race_item_recognized_when_gate_passes() {
    let mut frame = race_frame();
    // Seat 0's HUD accent strip must show its red and green floor before
    // the item box is read.
    fill(&mut frame, 112, 40, 10, 2, [255, 255, 0]);
    stripes(&mut frame, 99, 62, 41, 41);
    let mut catalog = neutral_catalog(&frame);
    catalog.race.lap_flag = flip_bits(&region_hash(&frame, 114, 317, 11, 11), 5);
    let item_hash = region_hash(&frame, 99, 62, 41, 41);
    catalog.race.items = vec![
        ItemReference { files: vec![flip_bits(&item_hash, 13)], item: Item::Banana, threshold: 12 },
        ItemReference { files: vec![flip_bits(&item_hash, 3)], item: Item::Boo, threshold: 12 },
    ];

    let result = classify(&frame, &catalog);
    match result.screen {
        Some(Screen::Race(race)) => {
            assert_eq!(race.players.len(), 1);
            // The first entry misses its own threshold; the second is the
            // minimum-distance entry within its threshold.
            assert_eq!(race.players[0].item, Some(Item::Boo));
        }
        other => panic!("expected a race screen, got {other:?}"),
    }
}

#[test]
fn resize_halves_an_aligned_pattern() {
    // A 2560x1440 frame whose two-pixel stripes land, after the 2x resize,
    // exactly on the loading probe region as one-pixel stripes. The probe
    // only matches if resizing really happened.
    let mut large = solid(2560, 1440, [0, 0, 0]);
    for y in 40..240u32 {
        for x in 1340..1540u32 {
            if ((x - 1340) / 2) % 2 == 0 {
                let i = 3 * ((y * large.width + x) as usize);
                large.pixels[i] = 255;
                large.pixels[i + 1] = 255;
                large.pixels[i + 2] = 255;
            }
        }
    }
    let mut expected = solid(1280, 720, [0, 0, 0]);
    for y in 20..120u32 {
        for x in 670..770u32 {
            if (x - 670) % 2 == 0 {
                let i = 3 * ((y * expected.width + x) as usize);
                expected.pixels[i] = 255;
                expected.pixels[i + 1] = 255;
                expected.pixels[i + 2] = 255;
            }
        }
    }
    let mut catalog = neutral_catalog(&expected);
    catalog.loading = region_hash(&expected, 670, 20, 100, 100);

    let result = analyze(&large, &catalog);
    assert!(matches!(result.screen, Some(Screen::Loading(_))));
}
