use copy_dvd::cli::Args;
use copy_dvd::config::Config;
use copy_dvd::dvd::types::{DvdSize, RipTask, Title};
use copy_dvd::error::AppError;
use copy_dvd::gui::components::exit_confirmation::has_active_ripping_tasks;
use copy_dvd::platform::TargetOs;
use copy_dvd::config::ServerConfig;
use copy_dvd::session::runner::{chosen_upload_method, movie_name, plan_rip, upload_server};
use copy_dvd::upload::UploadMethod;
use copy_dvd::session::startup::{auto_detect_dvd, dvd_candidates};
use copy_dvd::session::state::{AppState, AppStatus};

fn task(n: usize) -> RipTask {
    RipTask {
        title: Title { number: n, duration: 1, size: DvdSize { width: 1, height: 1 }, chapters: vec![], description: None },
        output_path: format!("/out/title_{}.mkv", n),
        chapter_split: false,
    }
}

fn args() -> Args {
    Args {
        input: None,
        output: None,
        main_feature: false,
        titles: None,
        chapter_split: None,
        threads: None,
        scan: false,
        eject: false,
        encoder: "x264".to_string(),
        cli_mode: true,
        upload: false,
        quality: None,
        preset: None,
        server: None,
        username: None,
        remote_path: None,
        method: None,
    }
}

#[test]
fn ripping_counts_up_to_completion() {
    let mut s = AppState::new(Config::default());
    assert_eq!(s.status, AppStatus::Idle);
    s.start_scanning();
    assert!(has_active_ripping_tasks(&s));
    assert!(s.begin_ripping(vec![task(1), task(2)]));
    assert_eq!(s.status, AppStatus::Ripping { completed: 0, total: 2 });
    s.handle_task_result(0, Ok(()));
    assert_eq!(s.status, AppStatus::Ripping { completed: 1, total: 2 });
    s.handle_task_result(1, Ok(()));
    assert_eq!(s.status, AppStatus::Completed);
    assert!(!has_active_ripping_tasks(&s));
    s.handle_task_result(2, Ok(()));
    assert_eq!(s.status, AppStatus::Completed);
}

#[test]
fn a_failed_task_ends_the_run_with_its_message() {
    let mut s = AppState::new(Config::default());
    s.begin_ripping(vec![task(1), task(2)]);
    s.handle_task_result(1, Err(AppError::CommandFailed("exit 1".to_string())));
    assert_eq!(s.status, AppStatus::Error("Task 1 failed: Failed to execute command: exit 1".to_string()));
    s.settle(2);
    assert_eq!(s.status, AppStatus::Error("Task 1 failed: Failed to execute command: exit 1".to_string()));
}

#[test]
fn no_tasks_complete_at_once() {
    let mut s = AppState::new(Config::default());
    assert!(!s.begin_ripping(vec![]));
    assert_eq!(s.status, AppStatus::Completed);
    let mut idle = AppState::new(Config::default());
    idle.settle(0);
    assert_eq!(idle.status, AppStatus::Completed);
    let mut failed = AppState::new(Config::default());
    failed.fail(&AppError::DvdNotFound("auto-detected DVD".to_string()));
    assert_eq!(failed.status, AppStatus::Error("DVD not found at path: auto-detected DVD".to_string()));
}

#[test]
fn plans_follow_arguments_then_configuration() {
    let mut config = Config::default();
    config.output_dir = "/videos".to_string();
    config.thread_count = 3;
    let p = plan_rip(&args(), &config, Some(5));
    assert_eq!(p.output_dir, "/videos");
    assert_eq!(p.selected_titles, None);
    assert!(!p.chapter_split);
    assert_eq!(p.threads, 3);

    let mut a = args();
    a.main_feature = true;
    a.output = Some("/tmp/out".to_string());
    a.threads = Some(8);
    a.chapter_split = Some(true);
    let p = plan_rip(&a, &config, Some(5));
    assert_eq!(p.selected_titles, Some(vec![5]));
    assert_eq!(p.output_dir, "/tmp/out");
    assert_eq!(p.threads, 8);
    assert!(p.chapter_split);
    assert_eq!(plan_rip(&a, &config, None).selected_titles, None);

    let mut b = args();
    b.titles = Some(vec![2, 3]);
    assert_eq!(plan_rip(&b, &config, Some(5)).selected_titles, Some(vec![2, 3]));
    b.titles = Some(vec![]);
    assert_eq!(plan_rip(&b, &config, Some(5)).selected_titles, None);
}

#[test]
fn movie_names_and_disc_detection() {
    assert_eq!(movie_name(Some("Heat".to_string())), "Heat");
    assert_eq!(movie_name(None), "DVD_Rip");
    assert_eq!(dvd_candidates(TargetOs::Linux), vec!["/dev/sr0", "/dev/cdrom"]);
    let w = dvd_candidates(TargetOs::Windows);
    assert_eq!(w.len(), 23);
    assert_eq!(w[0], "D:\\");
    assert_eq!(w[22], "Z:\\");
    assert!(dvd_candidates(TargetOs::MacOs).is_empty());
    let found = vec![("/dev/sr0".to_string(), false), ("/dev/cdrom".to_string(), true)];
    assert_eq!(auto_detect_dvd(&found).unwrap(), "/dev/cdrom");
    match auto_detect_dvd(&vec![("/dev/sr0".to_string(), false)]) {
        Err(AppError::DvdNotFound(p)) => assert_eq!(p, "auto-detected DVD"),
        _ => panic!("expected DvdNotFound"),
    }
}

#[test]
fn plan_takes_preset_and_quality() {
    let c = Config::default();
    let p = plan_rip(&args(), &c, None);
    assert_eq!(p.preset, "Fast 1080p30");
    assert_eq!(p.quality, 20);
    let mut a = args();
    a.preset = Some("HQ 1080p30 Surround".to_string());
    a.quality = Some(18);
    let p = plan_rip(&a, &c, None);
    assert_eq!(p.preset, "HQ 1080p30 Surround");
    assert_eq!(p.quality, 18);
}

#[test]
fn upload_server_from_options_and_configuration() {
    assert!(upload_server(&args(), &None).is_none());
    let configured = Some(ServerConfig {
        host: "nas".to_string(),
        username: "me".to_string(),
        password: Some("pw".to_string()),
        path: "/media".to_string(),
    });
    let s = upload_server(&args(), &configured).unwrap();
    assert_eq!((s.host.as_str(), s.username.as_str(), s.path.as_str()), ("nas", "me", "/media"));
    let mut a = args();
    a.server = Some("example.com".to_string());
    a.remote_path = Some("/movies".to_string());
    let s = upload_server(&a, &configured).unwrap();
    assert_eq!((s.host.as_str(), s.username.as_str(), s.path.as_str()), ("example.com", "me", "/movies"));
    assert_eq!(s.password, Some("pw".to_string()));
    a.username = Some("myuser".to_string());
    let s = upload_server(&a, &None).unwrap();
    assert_eq!((s.host.as_str(), s.username.as_str(), s.path.as_str()), ("example.com", "myuser", "/movies"));
    assert_eq!(s.password, None);
}

#[test]
fn upload_method_given_or_found() {
    assert_eq!(chosen_upload_method(Some(UploadMethod::Sftp), true, true, true), UploadMethod::Sftp);
    assert_eq!(chosen_upload_method(None, true, true, true), UploadMethod::Rsync);
    assert_eq!(chosen_upload_method(None, false, true, true), UploadMethod::Scp);
    assert_eq!(UploadMethod::from_name("scp"), Some(UploadMethod::Scp));
    assert_eq!(UploadMethod::from_name("rsync"), Some(UploadMethod::Rsync));
    assert_eq!(UploadMethod::from_name("sftp"), Some(UploadMethod::Sftp));
    assert_eq!(UploadMethod::from_name("ftp"), None);
}
