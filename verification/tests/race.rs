use std::io::Cursor;

use favilib::race::DEFAULT_LIMIT;
use favilib::{Favicon, FavilibError, Race, SiteUrl, Step};
use image::{DynamicImage, Rgb, RgbImage};

fn favicon(name: &str) -> Favicon {
    let url = SiteUrl::parse("https://example.com").unwrap().join(name).unwrap();
    let image = DynamicImage::ImageRgb8(RgbImage::from_pixel(2, 2, Rgb([9, 9, 9])));
    let mut buffer = Cursor::new(Vec::new());
    image.write_to(&mut buffer, image::ImageFormat::Png).unwrap();
    Favicon::build(url, buffer.into_inner()).unwrap()
}

fn start_all(race: Race, expected: &[usize]) -> Race {
    let mut race = race;
    for lane in expected {
        let (next, step) = race.step();
        assert_eq!(step, Step::Start(*lane));
        race = next;
    }
    race
}

/// Runs a race in which candidate `k` gives `valid[k]`, and the fetches in
/// flight arrive in the order that `pick` chooses among them.
fn run(
    valid: &[bool],
    limit: usize,
    pick: fn(&[usize]) -> usize,
) -> (Result<String, FavilibError>, usize) {
    let mut race = Race::new(valid.len(), limit);
    let mut in_flight: Vec<usize> = Vec::new();
    let mut most = 0;
    loop {
        let (next, step) = race.step();
        race = next;
        match step {
            Step::Start(lane) => {
                assert!(!in_flight.contains(&lane));
                in_flight.push(lane);
                assert_eq!(race.in_flight(), in_flight.len());
                assert!(in_flight.len() <= limit);
                most = most.max(in_flight.len());
            }
            Step::Wait => {
                assert!(!in_flight.is_empty());
                let lane = in_flight.remove(pick(&in_flight));
                let outcome =
                    if valid[lane] { Some(favicon(&format!("/{}.png", lane))) } else { None };
                race = race.arrive(lane, outcome);
            }
            Step::Done => {
                let winner = race.finish().map(|favicon| favicon.url().as_str().to_string());
                return (winner, most);
            }
        }
    }
}

fn oldest(_: &[usize]) -> usize {
    0
}

fn newest(in_flight: &[usize]) -> usize {
    in_flight.len() - 1
}

fn middle(in_flight: &[usize]) -> usize {
    in_flight.len() / 2
}

#[test]
fn default_limit_is_ten() {
    assert_eq!(DEFAULT_LIMIT, 10);
}

#[test]
fn new_race_has_nothing_in_flight() {
    let race = Race::new(3, 2);
    assert_eq!(race.len(), 3);
    assert_eq!(race.in_flight(), 0);
}

#[test]
fn race_without_candidates_is_lost_at_once() {
    let (race, step) = Race::new(0, 10).step();
    assert_eq!(step, Step::Done);
    assert!(matches!(race.finish(), Err(FavilibError::NoFaviconFound)));
}

#[test]
fn fetches_start_in_harvest_order_up_to_the_limit() {
    let race = start_all(Race::new(5, 3), &[0, 1, 2]);
    assert_eq!(race.in_flight(), 3);
    let (race, step) = race.step();
    assert_eq!(step, Step::Wait);
    assert_eq!(race.in_flight(), 3);
}

#[test]
fn a_failure_frees_a_place() {
    let race = start_all(Race::new(5, 2), &[0, 1]);
    let race = race.arrive(1, None);
    assert_eq!(race.in_flight(), 1);
    let race = start_all(race, &[2]);
    let (_, step) = race.step();
    assert_eq!(step, Step::Wait);
}

#[test]
fn later_arrival_does_not_win_while_an_earlier_lane_is_open() {
    let race = start_all(Race::new(3, 3), &[0, 1, 2]);
    let race = race.arrive(2, Some(favicon("/late.png")));
    let (race, step) = race.step();
    assert_eq!(step, Step::Wait);
    let race = race.arrive(1, Some(favicon("/middle.png")));
    let (race, step) = race.step();
    assert_eq!(step, Step::Wait);
    let race = race.arrive(0, None);
    let (race, step) = race.step();
    assert_eq!(step, Step::Done);
    assert_eq!(race.finish().unwrap().url().as_str(), "https://example.com/middle.png");
}

#[test]
fn first_lane_wins_as_soon_as_it_arrives() {
    let race = start_all(Race::new(4, 2), &[0, 1]);
    let race = race.arrive(0, Some(favicon("/first.png")));
    let (race, step) = race.step();
    assert_eq!(step, Step::Done);
    assert_eq!(race.in_flight(), 1);
    assert_eq!(race.finish().unwrap().url().as_str(), "https://example.com/first.png");
}

#[test]
fn nothing_is_started_behind_a_valid_lane() {
    let race = start_all(Race::new(4, 3), &[0, 1]);
    let race = race.arrive(1, Some(favicon("/second.png")));
    let (race, step) = race.step();
    assert_eq!(step, Step::Wait);
    assert_eq!(race.in_flight(), 1);
    let race = race.arrive(0, None);
    let (race, step) = race.step();
    assert_eq!(step, Step::Done);
    assert_eq!(race.finish().unwrap().url().as_str(), "https://example.com/second.png");
}

#[test]
fn arrival_for_a_lane_not_in_flight_is_passed_over() {
    let race = start_all(Race::new(3, 1), &[0]);
    let race = race.arrive(2, Some(favicon("/stray.png")));
    let race = race.arrive(7, None);
    assert_eq!(race.in_flight(), 1);
    let race = race.arrive(0, None);
    let race = race.arrive(0, Some(favicon("/twice.png")));
    assert_eq!(race.in_flight(), 0);
    let race = start_all(race, &[1]);
    let race = race.arrive(1, None);
    let race = start_all(race, &[2]);
    let race = race.arrive(2, None);
    let (race, step) = race.step();
    assert_eq!(step, Step::Done);
    assert!(matches!(race.finish(), Err(FavilibError::NoFaviconFound)));
}

#[test]
fn finishing_an_open_race_gives_no_favicon() {
    let race = start_all(Race::new(2, 2), &[0, 1]);
    let race = race.arrive(1, Some(favicon("/second.png")));
    assert!(matches!(race.finish(), Err(FavilibError::NoFaviconFound)));
}

#[test]
fn winner_does_not_depend_on_the_order_of_arrival() {
    let cases: [&[bool]; 7] = [
        &[false, false, true, true, false, true],
        &[true, true, true],
        &[false, false, false, false],
        &[false, true],
        &[true],
        &[false],
        &[false, false, false, false, false, false, false, false, false, false, false, true, true],
    ];
    for valid in cases {
        let expected = match valid.iter().position(|v| *v) {
            Some(lane) => Ok(format!("https://example.com/{}.png", lane)),
            None => Err(FavilibError::NoFaviconFound),
        };
        for limit in [1, 2, 3, 10] {
            for pick in [oldest, newest, middle] {
                let (winner, most) = run(valid, limit, pick);
                assert_eq!(winner, expected);
                assert!(most <= limit);
            }
        }
    }
}
