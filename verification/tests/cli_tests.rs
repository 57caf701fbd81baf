use copy_dvd::cli::parse_titles;
use copy_dvd::utils::{compute_aspect_ratio, format_duration, gcd};

#[test]
fn titles_and_ranges_in_order() {
    assert_eq!(parse_titles("1,3-5,2"), Ok(vec![1, 3, 4, 5, 2]));
    assert_eq!(parse_titles("7"), Ok(vec![7]));
    assert_eq!(parse_titles("+4"), Ok(vec![4]));
}

#[test]
fn bad_title_pieces_are_reported() {
    assert_eq!(parse_titles("1-2-3"), Err("Invalid title range: 1-2-3".to_string()));
    assert_eq!(parse_titles("a-3"), Err("Invalid title number: a".to_string()));
    assert_eq!(parse_titles("3-b"), Err("Invalid title number: b".to_string()));
    assert_eq!(parse_titles("5-3"), Err("Invalid title range: 5-3".to_string()));
    assert_eq!(parse_titles("x"), Err("Invalid title number: x".to_string()));
    assert_eq!(parse_titles(""), Err("Invalid title number: ".to_string()));
    assert_eq!(parse_titles("1,,2"), Err("Invalid title number: ".to_string()));
}

#[test]
fn durations_are_clock_text() {
    assert_eq!(format_duration(0), "00:00:00");
    assert_eq!(format_duration(3725), "01:02:05");
    assert_eq!(format_duration(360000), "100:00:00");
}

#[test]
fn aspect_ratio_is_reduced() {
    assert_eq!(compute_aspect_ratio(1920, 1080), (16, 9));
    assert_eq!(compute_aspect_ratio(720, 480), (3, 2));
    assert_eq!(compute_aspect_ratio(0, 5), (0, 1));
    assert_eq!(gcd(12, 18), 6);
    assert_eq!(gcd(7, 0), 7);
}
