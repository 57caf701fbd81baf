use copy_dvd::config::Config;
use copy_dvd::disc::{
    mount_point_from_df, parse_title_count, parse_title_details, AudioTrack, Chapter, Dvd, RipTask, SubtitleTrack,
    Title, VideoSize,
};
use copy_dvd::error::AppError;

fn size() -> VideoSize {
    VideoSize { width: 720, height: 480, pixel_aspect_width: 8, pixel_aspect_height: 9, fps: "29.970".to_string() }
}

fn title(number: usize, duration: u64, chapters: usize) -> Title {
    Title {
        number,
        duration,
        chapters: (1..=chapters).map(|n| Chapter { number: n, duration: 60 }).collect(),
        audio_tracks: vec![],
        subtitle_tracks: vec![],
        size: size(),
    }
}

#[test]
fn title_count_comes_from_either_line() {
    assert_eq!(parse_title_count("libhb: scan: DVD has 12 title(s)\n"), Some(12));
    assert_eq!(parse_title_count("Scanning title 1 of 7...\n"), Some(7));
    assert_eq!(parse_title_count("nothing"), None);
}

#[test]
fn title_details_are_read() {
    let out = "  + duration: 01:30:15\n  + size: 720x480, pixel aspect: 32/27, display aspect: 1.78, 29.970 fps\n";
    let t = parse_title_details(3, out).unwrap();
    assert_eq!(t.number, 3);
    assert_eq!(t.duration, 5415);
    assert_eq!(t.size.width, 720);
    assert_eq!(t.size.height, 480);
    assert_eq!(t.size.pixel_aspect_width, 32);
    assert_eq!(t.size.pixel_aspect_height, 27);
    assert_eq!(t.size.fps, "29.970");
    assert!(t.chapters.is_empty());
}

#[test]
fn missing_details_are_errors() {
    match parse_title_details(1, "  + size: 720x480, pixel aspect: 32/27, 25.000 fps") {
        Err(AppError::DvdParseFailed(m)) => assert_eq!(m, "Failed to parse title duration"),
        _ => panic!("expected the duration error"),
    }
    match parse_title_details(1, "  + duration: 00:00:10\n") {
        Err(AppError::DvdParseFailed(m)) => assert_eq!(m, "Failed to parse video size"),
        _ => panic!("expected the size error"),
    }
}

#[test]
fn df_output_gives_the_mount_point() {
    let df = "Filesystem 1024-blocks Used Available Capacity Mounted on\n/dev/sda1 100 50 50 50% /\n/dev/sr0 4000 4000 0 100% /media/dvd\n";
    assert_eq!(mount_point_from_df(df, "/dev/sr0"), Some("/media/dvd".to_string()));
    assert_eq!(mount_point_from_df(df, "/dev/sr1"), None);
    assert_eq!(mount_point_from_df("/dev/sr0 1 2 3 4% /x\n", "/dev/sr0"), None);
}

#[test]
fn chapter_tasks_are_named_per_chapter() {
    let mut d = Dvd::new("/dev/sr0".to_string(), Some("/media/dvd".to_string()), Config::default());
    d.titles = vec![title(1, 100, 2), title(2, 300, 0)];
    let tasks = d.create_rip_tasks("/out", None, true);
    let paths: Vec<&str> = tasks.iter().map(|t| t.output_path.as_str()).collect();
    assert_eq!(paths, vec!["/out/Title01_Ch01.mp4", "/out/Title01_Ch02.mp4", "/out/Title02.mp4"]);
    assert_eq!(tasks[1].chapter, Some(2));
    let single = d.create_rip_tasks("/out", Some(vec![2]), false);
    assert_eq!(single.len(), 1);
    assert_eq!(single[0].output_path, "/out/Movie.mp4");
    let chapters = d.create_rip_tasks("/out", Some(vec![1]), true);
    assert_eq!(chapters[0].output_path, "/out/Chapter01.mp4");
    assert_eq!(d.find_main_feature().unwrap().number, 2);
}

#[test]
fn rip_arguments_list_tracks_and_chapter() {
    let mut d = Dvd::new("/dev/sr0".to_string(), Some("/media/dvd".to_string()), Config::default());
    let mut t = title(4, 100, 1);
    t.audio_tracks = vec![
        (1, AudioTrack { number: 1, language: "English".to_string(), codec: "ac3".to_string(), channels: 6, iso639_2: "eng".to_string() }),
        (3, AudioTrack { number: 3, language: "French".to_string(), codec: "ac3".to_string(), channels: 2, iso639_2: "fra".to_string() }),
    ];
    t.subtitle_tracks = vec![(2, SubtitleTrack { number: 2, language: "English".to_string() })];
    let task = RipTask { title: t, chapter: Some(1), output_path: "/out/x.mp4".to_string() };
    let args = d.rip_arguments(&task).unwrap();
    assert_eq!(
        args,
        vec![
            "--title", "4", "--preset", "Production Standard", "--encoder", "MP4", "--audio", "1,3", "--aencoder",
            "faac,faac", "--chapters", "1", "--subtitle", "2", "--markers", "--optimize", "--input", "/media/dvd",
            "--output", "/out/x.mp4",
        ]
    );
    d.mount_point = None;
    match d.rip_arguments(&task) {
        Err(AppError::MountFailed(m)) => assert_eq!(m, "DVD not mounted"),
        _ => panic!("expected a mount error"),
    }
}

#[test]
fn track_numbers_must_be_distinct() {
    let mut t = title(1, 100, 1);
    assert!(t.has_distinct_track_numbers());
    t.subtitle_tracks = vec![
        (2, SubtitleTrack { number: 2, language: "English".to_string() }),
        (5, SubtitleTrack { number: 5, language: "German".to_string() }),
    ];
    assert!(t.has_distinct_track_numbers());
    t.subtitle_tracks.push((2, SubtitleTrack { number: 2, language: "Again".to_string() }));
    assert!(!t.has_distinct_track_numbers());
    assert!(parse_title_details(1, "  + duration: 01:00:00\n  + size: 720x480, pixel aspect: 8/9, display aspect: 1.33, 29.970 fps")
        .map(|t| t.has_distinct_track_numbers())
        .unwrap_or(true));
}
