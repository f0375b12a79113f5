use kart_rs::color::average_colors;
use kart_rs::color::lightness;
use kart_rs::color::mostly_blue;
use kart_rs::color::mostly_green;
use kart_rs::color::mostly_red;
use kart_rs::emit::Emit;
use kart_rs::frame::max_color_diff;
use kart_rs::frame::Frame;
use kart_rs::hashing::count_ones8;
use kart_rs::hashing::hamming_dist;
use kart_rs::hashing::hash_image;
use kart_rs::intro::Intro;
use kart_rs::loading::Loading;
use kart_rs::main_menu::MainMenu;
use kart_rs::match_result::calculate_score;
use kart_rs::match_result::get_number;
use kart_rs::match_result::MatchResult;
use kart_rs::race::Player;
use kart_rs::race::Race;
use kart_rs::race::Status;
use kart_rs::race_result::RaceResult;
use kart_rs::screens::Screen;
use kart_rs::select_character::SelectCharacter;

fn solid(width: u32, height: u32, rgb: [u8; 3]) -> Frame {
    let mut pixels = Vec::with_capacity((3 * width * height) as usize);
    for _ in 0..width * height {
        pixels.push(rgb[0]);
        pixels.push(rgb[1]);
        pixels.push(rgb[2]);
    }
    Frame { width, height, pixels }
}

fn fill(frame: &mut Frame, x0: u32, y0: u32, rw: u32, rh: u32, rgb: [u8; 3]) {
    for y in y0..y0 + rh {
        for x in x0..x0 + rw {
            let i = 3 * ((y * frame.width + x) as usize);
            frame.pixels[i] = rgb[0];
            frame.pixels[i + 1] = rgb[1];
            frame.pixels[i + 2] = rgb[2];
        }
    }
}

#[test]
fn lightness_is_midpoint_of_extremes() {
    assert_eq!(lightness([40_000, 10_000, 30_000]), 25_000);
    assert_eq!(lightness([0, 0, 0]), 0);
    assert_eq!(lightness([65_535, 65_535, 65_535]), 65_535);
    assert_eq!(lightness([1, 2, 4]), 2);
}

#[test]
fn mostly_color_predicates() {
    assert!(mostly_red([50_000, 1_000, 1_000]));
    assert!(!mostly_red([50_000, 30_000, 1_000]));
    assert!(mostly_green([1_000, 50_000, 1_000]));
    assert!(!mostly_green([1_000, 30_000, 1_000]));
    assert!(mostly_blue([1_000, 1_000, 50_000]));
    assert!(!mostly_blue([25_000, 1_000, 50_000]));
}

#[test]
fn count_ones_of_bytes() {
    assert_eq!(count_ones8(0x00), 0);
    assert_eq!(count_ones8(0xff), 8);
    assert_eq!(count_ones8(0b1010_0101), 4);
}

#[test]
fn hamming_distance_counts_differing_bits() {
    assert_eq!(hamming_dist(&vec![], &vec![]), 0);
    assert_eq!(hamming_dist(&vec![0x00], &vec![0xff]), 8);
    assert_eq!(hamming_dist(&vec![0b1010, 0b0110], &vec![0b1010, 0b0110]), 0);
    assert_eq!(hamming_dist(&vec![0b1010, 0b0110], &vec![0b1010, 0b0000]), 2);
    assert_eq!(
        hamming_dist(&vec![1, 2, 3, 4, 5, 6, 7, 8], &vec![1, 2, 3, 4, 5, 6, 7, 8]),
        0
    );
}

#[test]
fn average_colors_truncates_per_channel() {
    // Two pixels: the sixteen-bit averages are 257 times the byte averages.
    let mut frame = solid(2, 1, [10, 20, 30]);
    fill(&mut frame, 1, 0, 1, 1, [20, 40, 50]);
    let a = average_colors(&frame);
    assert_eq!(a, [257 * 15, 257 * 30, 257 * 40]);
}

#[test]
fn grayscale_uses_integer_luma() {
    let frame = solid(2, 2, [100, 150, 200]);
    let gray = frame.grayscale();
    // (2126 * 100 + 7152 * 150 + 722 * 200) / 10000 = 142.
    assert_eq!(gray.width, 2);
    assert_eq!(gray.height, 2);
    assert!(gray.pixels.iter().all(|&v| v == 142));
}

#[test]
fn binarization_forces_pure_black_and_white() {
    let mut frame = solid(2, 1, [255, 255, 255]);
    fill(&mut frame, 1, 0, 1, 1, [100, 100, 100]);
    max_color_diff(&mut frame, 220);
    assert_eq!(frame.pixels, vec![255, 255, 255, 0, 0, 0]);
}

#[test]
fn crop_copies_the_region() {
    let mut frame = solid(2, 2, [1, 1, 1]);
    fill(&mut frame, 1, 0, 1, 1, [2, 2, 2]);
    fill(&mut frame, 1, 1, 1, 1, [3, 3, 3]);
    let right = frame.crop(1, 0, 1, 2);
    assert_eq!(right.width, 1);
    assert_eq!(right.height, 2);
    assert_eq!(right.pixels, vec![2, 2, 2, 3, 3, 3]);
}

#[test]
fn hash_image_is_deterministic_and_eight_bytes() {
    let mut frame = solid(16, 16, [10, 10, 10]);
    fill(&mut frame, 0, 0, 8, 16, [240, 240, 240]);
    let h1 = hash_image(&frame);
    let h2 = hash_image(&frame);
    assert_eq!(h1.len(), 8);
    assert_eq!(h1, h2);
}

fn white_section() -> Frame {
    solid(45, 38, [255, 255, 255])
}

fn draw_digit_four(section: &mut Frame, x: u32) {
    fill(section, x + 2, 10, 1, 3, [0, 0, 0]);
    fill(section, x + 16, 10, 1, 3, [0, 0, 0]);
    fill(section, x + 7, 18, 3, 1, [0, 0, 0]);
    fill(section, x + 16, 22, 3, 1, [0, 0, 0]);
}

fn draw_digit_two(section: &mut Frame, x: u32) {
    fill(section, x + 7, 6, 3, 1, [0, 0, 0]);
    fill(section, x + 16, 10, 1, 3, [0, 0, 0]);
    fill(section, x + 7, 18, 3, 1, [0, 0, 0]);
    fill(section, x + 2, 22, 3, 1, [0, 0, 0]);
    fill(section, x + 7, 30, 3, 1, [0, 0, 0]);
}

#[test]
fn score_decodes_drawn_digits() {
    let mut section = white_section();
    draw_digit_four(&mut section, 0);
    draw_digit_two(&mut section, 23);
    assert_eq!(calculate_score(&mut section), Some(42));
}

#[test]
fn score_requires_both_digits() {
    let mut section = white_section();
    draw_digit_four(&mut section, 0);
    // The ones position stays blank: no segment is dark, no digit decodes.
    assert_eq!(calculate_score(&mut section), None);
}

#[test]
fn unrecognized_segment_pattern_gives_no_digit() {
    let mut section = white_section();
    max_color_diff(&mut section, 130);
    assert_eq!(get_number(&section, 0), None);
}

#[test]
fn event_type_tags_are_stable() {
    let intro = Screen::Intro(Intro { course: String::from("Rainbow Road (Wii)") });
    assert_eq!(intro.event_type(), "intro_screen");
    assert_eq!(Screen::Loading(Loading {}).event_type(), "loading_screen");
    assert_eq!(Screen::MainMenu(MainMenu {}).event_type(), "main_menu_screen");
    assert_eq!(
        Screen::Race(Race { players: vec![], starting: false }).event_type(),
        "race_screen"
    );
    assert_eq!(
        Screen::SelectCharacter(SelectCharacter {}).event_type(),
        "select_character_screen"
    );
    assert_eq!(
        Screen::MatchResult(MatchResult { players: vec![], speed: None }).event_type(),
        "match_result_screen"
    );
    assert_eq!(
        Screen::RaceResult(RaceResult { players: vec![] }).event_type(),
        "race_result_screen"
    );
    assert_eq!(Screen::Unknown.event_type(), "unknown_screen");
}

#[test]
fn status_is_racing() {
    assert!(Status::is_racing(&Status::Racing));
    assert!(!Status::is_racing(&Status::Finished));
}

fn sample_race_screen(position: Option<u8>) -> Screen {
    Screen::Race(Race {
        players: vec![Player { index: 0, position, status: Status::Racing, item: None }],
        starting: false,
    })
}

#[test]
fn emitter_skips_identical_screen_within_floor() {
    let mut emit = Emit::new(1_000);
    assert!(emit.emit(sample_race_screen(Some(3)), 1_000));
    assert!(!emit.emit(sample_race_screen(Some(3)), 1_200));
    assert_eq!(emit.last_emitted_at, 1_000);
}

#[test]
fn emitter_sends_changed_screen_at_once() {
    let mut emit = Emit::new(1_000);
    assert!(emit.emit(sample_race_screen(Some(3)), 1_000));
    assert!(emit.emit(sample_race_screen(Some(4)), 1_001));
    assert_eq!(emit.last_emitted_at, 1_001);
}

#[test]
fn emitter_resends_after_the_floor_passes() {
    let mut emit = Emit::new(1_000);
    assert!(emit.emit(sample_race_screen(None), 1_000));
    assert!(!emit.emit(sample_race_screen(None), 1_500));
    assert!(emit.emit(sample_race_screen(None), 1_501));
}

#[test]
fn screens_compare_deeply() {
    let a = sample_race_screen(Some(3));
    let b = sample_race_screen(Some(3));
    let c = sample_race_screen(None);
    assert!(a.same_as(&b));
    assert!(!a.same_as(&c));
    assert!(!a.same_as(&Screen::Unknown));
}
