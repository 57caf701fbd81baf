use copy_dvd::config::{Config, ServerConfig};
use copy_dvd::dvd::types::{DvdSize, Title};
use copy_dvd::session::state::AppStatus;
use copy_dvd::single_window::{poll_step, polls, tick_message, Command, DvdRipperGui, Message, PollState};

fn title(n: usize) -> Title {
    Title { number: n, duration: 1, size: DvdSize { width: 1, height: 1 }, chapters: vec![], description: None }
}

fn window() -> (DvdRipperGui, Config) {
    let mut config = Config::default();
    config.output_dir = "/videos".to_string();
    config.thread_count = 4;
    (DvdRipperGui::new(&config), config)
}

#[test]
fn window_opens_from_the_configuration() {
    let (g, _) = window();
    assert_eq!(g.output_path, "/videos");
    assert_eq!(g.thread_count_input, "4");
    assert_eq!(g.status_message, "Ready to scan DVD");
    assert!(!g.upload_to_server);
    assert_eq!(g.title(), "DVD Ripper");
}

#[test]
fn scanning_needs_a_path() {
    let (mut g, c) = window();
    match g.update(Message::ScanDvd, &c) {
        Command::Fail(m) => assert_eq!(m, "Please select a DVD path first"),
        _ => panic!("expected a failure"),
    }
    g.update(Message::InputPathChanged("/dev/sr0".to_string()), &c);
    match g.update(Message::ScanDvd, &c) {
        Command::Scan { input_path } => assert_eq!(input_path, "/dev/sr0"),
        _ => panic!("expected a scan"),
    }
    assert!(g.is_scanning);
    assert!(polls(&g));
    g.update(Message::ScanComplete(vec![title(1), title(2)]), &c);
    assert_eq!(g.status_message, "Found 2 titles");
    assert!(g.scan_complete && !g.is_scanning);
}

#[test]
fn selecting_titles_and_ripping() {
    let (mut g, c) = window();
    match g.update(Message::StartRipping, &c) {
        Command::Fail(m) => assert_eq!(m, "Please select at least one title to rip"),
        _ => panic!("expected a failure"),
    }
    g.update(Message::TitleSelected(2, true), &c);
    g.update(Message::TitleSelected(2, true), &c);
    g.update(Message::TitleSelected(5, true), &c);
    assert_eq!(g.selected_titles, vec![2, 5]);
    g.update(Message::TitleSelected(2, false), &c);
    assert_eq!(g.selected_titles, vec![5]);
    match g.update(Message::StartRipping, &c) {
        Command::Rip { output_path, selected_titles, chapter_split, upload } => {
            assert_eq!(output_path, "/videos");
            assert_eq!(selected_titles, Some(vec![5]));
            assert!(!chapter_split && !upload);
        }
        _ => panic!("expected a rip"),
    }
    assert!(g.is_ripping);
    g.update(Message::ToggleMainFeature(true), &c);
    assert!(g.selected_titles.is_empty());
    match g.update(Message::StartRipping, &c) {
        Command::Rip { selected_titles, .. } => assert_eq!(selected_titles, None),
        _ => panic!("expected a rip"),
    }
    g.update(Message::OutputPathChanged(String::new()), &c);
    match g.update(Message::StartRipping, &c) {
        Command::Fail(m) => assert_eq!(m, "Please select an output directory first"),
        _ => panic!("expected a failure"),
    }
}

#[test]
fn reports_change_the_status_line() {
    let (mut g, c) = window();
    g.update(Message::UploadProgress(42), &c);
    assert_eq!(g.status_message, "Uploading: 42%");
    g.update(Message::Error("disc gone".to_string()), &c);
    assert_eq!(g.status_message, "Error: disc gone");
    assert_eq!(g.error_message, Some("disc gone".to_string()));
    g.update(Message::DismissError, &c);
    assert!(g.error_message.is_none());
    g.update(Message::RipComplete, &c);
    assert_eq!(g.status_message, "Ripping completed");
    assert!(matches!(g.update(Message::Tick, &c), Command::Poll));
    g.update(Message::ToggleConfigPanel, &c);
    assert!(g.show_config_panel);
}

#[test]
fn saving_checks_threads_and_server() {
    let (mut g, c) = window();
    g.update(Message::ThreadCountChanged("0".to_string()), &c);
    assert!(matches!(g.update(Message::SaveConfig, &c), Command::Noop));
    assert_eq!(g.error_message, Some("Invalid thread count '0'. Please enter a positive number.".to_string()));
    g.update(Message::ThreadCountChanged("6".to_string()), &c);
    g.update(Message::HandbrakePathChanged("/opt/hb".to_string()), &c);
    g.update(Message::ToggleUpload(true), &c);
    g.update(Message::ServerHostChanged("nas".to_string()), &c);
    match g.update(Message::SaveConfig, &c) {
        Command::Save(saved) => {
            assert_eq!(saved.thread_count, 6);
            assert_eq!(saved.handbrake_path, Some("/opt/hb".to_string()));
            assert!(saved.server.is_none());
        }
        _ => panic!("expected a save"),
    }
    assert_eq!(g.error_message, Some("Server host, username, and path are required for upload.".to_string()));
    g.update(Message::ServerUsernameChanged("me".to_string()), &c);
    g.update(Message::ServerPathChanged("/srv".to_string()), &c);
    match g.update(Message::SaveConfig, &c) {
        Command::Save(saved) => {
            let s: ServerConfig = saved.server.unwrap();
            assert_eq!(s.host, "nas");
            assert!(s.password.is_none());
            assert_eq!(saved.output_dir, "/videos");
        }
        _ => panic!("expected a save"),
    }
}

#[test]
fn polling_reports_progress() {
    match tick_message(&AppStatus::Ripping { completed: 1, total: 4 }) {
        Some(Message::RipProgress(p)) => assert_eq!(p, 25),
        _ => panic!("expected progress"),
    }
    match tick_message(&AppStatus::Scanning) {
        Some(Message::StatusUpdate(m)) => assert_eq!(m, "Scanning..."),
        _ => panic!("expected a status"),
    }
    assert!(tick_message(&AppStatus::Idle).is_none());
    let (m, s) = poll_step(PollState::Initial, &AppStatus::Idle);
    assert!(matches!(m, Message::Tick));
    assert_eq!(s, PollState::Polling);
    let (m, s) = poll_step(PollState::Polling, &AppStatus::Completed);
    assert!(matches!(m, Message::StatusUpdate(ref t) if t == "All tasks completed."));
    assert_eq!(s, PollState::Finished);
    let (_, s) = poll_step(PollState::Polling, &AppStatus::Error("x".to_string()));
    assert_eq!(s, PollState::Polling);
    let (m, s) = poll_step(PollState::Finished, &AppStatus::Scanning);
    assert!(matches!(m, Message::Noop));
    assert_eq!(s, PollState::Finished);
}

#[test]
fn progress_past_the_plan_is_reported() {
    match tick_message(&AppStatus::Ripping { completed: 3, total: 2 }) {
        Some(Message::RipProgress(p)) => assert_eq!(p, 150),
        _ => panic!("progress expected"),
    }
    match tick_message(&AppStatus::Ripping { completed: usize::MAX, total: 1 }) {
        Some(Message::RipProgress(p)) => assert_eq!(p, u32::MAX),
        _ => panic!("progress expected"),
    }
}
