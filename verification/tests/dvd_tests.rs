use copy_dvd::config::Config;
use copy_dvd::dvd::detection::verify_dvd_path;
use copy_dvd::dvd::ripping::{eject_outcome, rip_outcome};
use copy_dvd::dvd::scanning::{json_title_set_text, parse_handbrake_json_titles, ScanOutcome};
use copy_dvd::dvd::types::{Chapter, Dvd, DvdSize, RipTask, Title};
use copy_dvd::error::AppError;
use copy_dvd::json::JsonValue;
use copy_dvd::platform::TargetOs;

fn title(number: usize, duration: u64) -> Title {
    Title {
        number,
        duration,
        size: DvdSize { width: 720, height: 480 },
        chapters: vec![Chapter { number: 1, duration }],
        description: Some(format!("Title {}", number)),
    }
}

fn disc() -> Dvd {
    let mut d = Dvd::new("/dev/sr0".to_string(), Config::default()).unwrap();
    d.titles = vec![title(1, 1000), title(2, 5000), title(3, 5000), title(4, 200)];
    d
}

fn obj(entries: Vec<(&str, JsonValue)>) -> JsonValue {
    JsonValue::Object(entries.into_iter().map(|(k, v)| (k.to_string(), v)).collect())
}

#[test]
fn main_feature_is_the_last_longest_title() {
    let d = disc();
    assert_eq!(d.find_main_feature().unwrap().number, 3);
    let empty = Dvd::new("/dev/sr0".to_string(), Config::default()).unwrap();
    assert!(empty.find_main_feature().is_none());
}

#[test]
fn rip_tasks_follow_the_selection() {
    let d = disc();
    let all = d.create_rip_tasks("/out", None, false);
    assert_eq!(all.len(), 4);
    assert_eq!(all[1].output_path, "/out/title_2.mkv");
    let some = d.create_rip_tasks("/out/", Some(vec![4, 1]), true);
    let numbers: Vec<usize> = some.iter().map(|t| t.title.number).collect();
    assert_eq!(numbers, vec![1, 4]);
    assert_eq!(some[0].output_path, "/out/title_1.mkv");
    assert!(some[0].chapter_split);
    assert!(d.create_rip_tasks("/out", Some(vec![9]), false).is_empty());
}

#[test]
fn rip_and_eject_commands() {
    let d = disc();
    let task = RipTask { title: title(2, 5000), output_path: "/out/title_2.mkv".to_string(), chapter_split: false };
    let (program, args) = d.rip_command(&task);
    assert_eq!(program, "HandBrakeCLI");
    assert_eq!(
        args,
        vec!["-i", "/dev/sr0", "-t", "2", "-o", "/out/title_2.mkv", "--preset", "Fast 1080p30", "-e", "MP4", "-q", "20"]
    );
    let (_, a) = d.rip_command_with(&task, "HQ 720p30 Surround", 18);
    assert_eq!(a[7], "HQ 720p30 Surround");
    assert_eq!(a[11], "18");
    let (p, a) = d.eject_command(TargetOs::MacOs).unwrap();
    assert_eq!(p, "diskutil");
    assert_eq!(a, vec!["eject", "/dev/sr0"]);
    let (p, a) = d.eject_command(TargetOs::Linux).unwrap();
    assert_eq!(p, "eject");
    assert_eq!(a, vec!["/dev/sr0"]);
    assert!(d.eject_command(TargetOs::Windows).is_none());
    let (p, a) = d.scan_command();
    assert_eq!(p, "HandBrakeCLI");
    assert_eq!(a, vec!["-i", "/dev/sr0", "--scan", "--json"]);
}

#[test]
fn dvd_paths_need_a_video_ts_folder() {
    assert!(verify_dvd_path("/media/disc", true).is_ok());
    match verify_dvd_path("/media/disc", false) {
        Err(AppError::DvdNotFound(p)) => assert_eq!(p, "/media/disc"),
        _ => panic!("expected DvdNotFound"),
    }
}

#[test]
fn titles_are_read_from_scan_json() {
    let chapter = |ms: u64| obj(vec![("Duration", obj(vec![("Milliseconds", JsonValue::UInt(ms))]))]);
    let t1 = obj(vec![
        ("Duration", obj(vec![("Milliseconds", JsonValue::UInt(90000))])),
        ("Geometry", obj(vec![("Width", JsonValue::UInt(720)), ("Height", JsonValue::UInt(576))])),
        ("ChapterList", JsonValue::Array(vec![chapter(30000), chapter(60000)])),
        ("Name", JsonValue::Str("Main".to_string())),
    ]);
    let t2 = obj(vec![]);
    let titles = parse_handbrake_json_titles(&vec![t1, t2]).unwrap();
    assert_eq!(titles.len(), 2);
    assert_eq!(titles[0].number, 1);
    assert_eq!(titles[0].duration, 90000);
    assert_eq!(titles[0].size.width, 720);
    assert_eq!(titles[0].size.height, 576);
    assert_eq!(titles[0].chapters.len(), 2);
    assert_eq!(titles[0].chapters[1].number, 2);
    assert_eq!(titles[0].chapters[1].duration, 60000);
    assert_eq!(titles[0].description, Some("Main".to_string()));
    assert_eq!(titles[1].number, 2);
    assert_eq!(titles[1].duration, 0);
    assert!(titles[1].chapters.is_empty());
    assert!(titles[1].description.is_none());
}

#[test]
fn title_set_block_is_found() {
    let out = "progress...\nJSON Title Set: {\"TitleList\": []}\n";
    assert_eq!(json_title_set_text(out), Some("{\"TitleList\": []}".to_string()));
    assert_eq!(json_title_set_text("nothing here"), None);
}

#[test]
fn scan_outcomes_set_titles_or_explain() {
    let mut d = disc();
    let none = ScanOutcome {
        success: false,
        status_text: "exit status: 1".to_string(),
        stderr: "No title found".to_string(),
        stdout_json: None,
        title_set_json: None,
    };
    assert!(d.scan_titles(none).is_ok());
    assert!(d.titles.is_empty());

    let mut d = disc();
    let failed = ScanOutcome {
        success: false,
        status_text: "exit status: 2".to_string(),
        stderr: "boom".to_string(),
        stdout_json: None,
        title_set_json: None,
    };
    match d.scan_titles(failed) {
        Err(AppError::HandbrakeError(m)) => assert_eq!(m, "HandBrakeCLI scan failed with status exit status: 2: boom"),
        _ => panic!("expected a HandBrake error"),
    }
    assert_eq!(d.titles.len(), 4);

    let unreadable = ScanOutcome {
        success: true,
        status_text: "exit status: 0".to_string(),
        stderr: String::new(),
        stdout_json: None,
        title_set_json: None,
    };
    match d.scan_titles(unreadable) {
        Err(AppError::HandbrakeError(m)) => assert_eq!(m, "Failed to parse HandBrakeCLI scan JSON output"),
        _ => panic!("expected a parse error"),
    }

    let ok = ScanOutcome {
        success: true,
        status_text: "exit status: 0".to_string(),
        stderr: String::new(),
        stdout_json: None,
        title_set_json: Some(obj(vec![("TitleList", JsonValue::Array(vec![obj(vec![])]))])),
    };
    assert!(d.scan_titles(ok).is_ok());
    assert_eq!(d.titles.len(), 1);
}

#[test]
fn rip_and_eject_outcomes() {
    assert!(rip_outcome(3, true, "exit status: 0", "").is_ok());
    match rip_outcome(3, false, "exit status: 1", "oops") {
        Err(AppError::HandbrakeError(m)) => assert_eq!(m, "HandBrakeCLI failed for title 3 with status exit status: 1: oops"),
        _ => panic!("expected a HandBrake error"),
    }
    match eject_outcome(TargetOs::MacOs, false) {
        Err(AppError::DvdError(m)) => assert_eq!(m, "diskutil eject failed"),
        _ => panic!("expected a DVD error"),
    }
    match eject_outcome(TargetOs::Linux, false) {
        Err(AppError::DvdError(m)) => assert_eq!(m, "eject command failed"),
        _ => panic!("expected a DVD error"),
    }
    assert!(eject_outcome(TargetOs::Windows, false).is_ok());
}
