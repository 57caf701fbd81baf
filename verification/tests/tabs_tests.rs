use copy_dvd::gui::tabs::updates::summary_fits;
use copy_dvd::error::AppError;
use copy_dvd::gui::components::exit_confirmation::{handbrake_busy, ExitConfirmationDialog};
use copy_dvd::gui::state::ui_state::{HandBrakeOperationStatus, Tab, UiState};
use copy_dvd::gui::tabs::handbrake::{
    begin_download_from_tab, downloading_report, failed_report, needs_download, ready_report, started_report, Operation,
};
use copy_dvd::gui::tabs::updates::{history_error, is_version_newer, markdown_line, MarkdownLine, UpdatesTab, UpdatesTabResult};
use copy_dvd::gui::{handbrake_notice_visible, retry_label, HandBrakeStatus};
use copy_dvd::updater::{UpdateProgress, UpdateStatus};

#[test]
fn updates_tab_checks_hourly() {
    let mut t = UpdatesTab::new();
    assert!(t.auto_check_enabled);
    assert!(t.should_auto_check(0));
    assert!(t.begin_check(10_000));
    assert!(!t.begin_check(20_000));
    assert_eq!(t.last_check_ms, Some(10_000));
    assert!(!t.should_auto_check(10_000 + 3_600_999));
    assert!(t.should_auto_check(10_000 + 3_601_000));
    assert!(t.should_auto_check(5_000));
    t.take_result(UpdatesTabResult::Status(UpdateStatus::UpToDate));
    assert!(!t.checking_for_updates);
    assert!(matches!(t.update_status, Some(UpdateStatus::UpToDate)));
    t.take_result(history_error("offline"));
    assert_eq!(t.error_message, Some("Failed to load releases: offline".to_string()));
    t.begin_update();
    assert!(matches!(t.download_progress, Some(UpdateProgress::Checking)));
    t.take_progress(UpdateProgress::Complete);
    assert!(matches!(t.download_progress, Some(UpdateProgress::Complete)));
}

#[test]
fn versions_compare_without_their_v() {
    assert!(is_version_newer("v1.2.0", "1.1.9"));
    assert!(!is_version_newer("v1.2.0", "v1.2.0"));
    assert!(!is_version_newer("1.0.0", "2.0.0"));
    assert!(!is_version_newer("banana", "1.0.0"));
    assert!(is_version_newer("1.0.0", "1.0.0-beta.1"));
}

#[test]
fn release_note_lines() {
    assert!(matches!(markdown_line("  ## What's new "), MarkdownLine::Heading(ref t) if t == "What's new"));
    assert!(matches!(markdown_line("### Fixes"), MarkdownLine::Subheading(ref t) if t == "Fixes"));
    assert!(matches!(markdown_line("- - item"), MarkdownLine::Bullet(ref t) if t == "item"));
    assert!(matches!(markdown_line("* star"), MarkdownLine::Bullet(ref t) if t == "star"));
    assert!(matches!(markdown_line("plain"), MarkdownLine::Text(ref t) if t == "plain"));
    assert!(matches!(markdown_line("   "), MarkdownLine::Blank));
}

#[test]
fn handbrake_tab_reports() {
    let r = started_report(Operation::Verify);
    assert!(matches!(r.status, HandBrakeOperationStatus::VerifyingInstallation));
    assert_eq!(r.notice.body, "Verifying HandBrake installation...");
    let r = started_report(Operation::Download);
    assert_eq!(r.notice.body, "Checking HandBrake status...");
    let r = downloading_report();
    assert!(matches!(r.status, HandBrakeOperationStatus::Downloading { percent: 0 }));
    let r = ready_report(Operation::Check, Some("1.9.2".to_string()));
    assert_eq!(r.notice.body, "HandBrake 1.9.2 ready");
    assert_eq!(r.version, Some("1.9.2".to_string()));
    let r = ready_report(Operation::Verify, None);
    assert_eq!(r.notice.body, "HandBrake verified successfully");
    let r = failed_report(Operation::Download, &AppError::HandbrakeError("no network".to_string()));
    assert_eq!(r.notice.body, "HandBrake download failed: HandBrake error: no network");
    assert_eq!(r.notice.title, "CopyDVD - Error");
    assert!(needs_download(false, true));
    assert!(needs_download(true, false));
    assert!(!needs_download(true, true));
    let mut u = UiState::new();
    assert!(!begin_download_from_tab(&mut u));
    assert!(matches!(u.handbrake_status, HandBrakeOperationStatus::CheckingStatus));
    assert!(begin_download_from_tab(&mut u));
    assert!(matches!(u.handbrake_status, HandBrakeOperationStatus::Idle));
}

#[test]
fn exit_is_held_while_work_runs() {
    let mut d = ExitConfirmationDialog::default();
    assert!(!d.close_requested(false, false, false, false));
    assert!(!d.show);
    assert!(d.close_requested(false, false, true, false));
    assert!(d.show);
    d.confirmed = true;
    assert!(!d.close_requested(true, false, false, false));
    assert!(handbrake_busy(&HandBrakeOperationStatus::Extracting));
    assert!(!handbrake_busy(&HandBrakeOperationStatus::Idle));
    assert!(!handbrake_busy(&HandBrakeOperationStatus::ClearingCache));
}

#[test]
fn handbrake_notice_and_retry() {
    let verified = Some(HandBrakeStatus::Verified("/bin/hb".to_string()));
    assert!(handbrake_notice_visible(&verified, Tab::HandBrake, None, 0));
    assert!(handbrake_notice_visible(&verified, Tab::Main, Some(100), 99));
    assert!(!handbrake_notice_visible(&verified, Tab::Main, Some(100), 100));
    assert!(handbrake_notice_visible(&Some(HandBrakeStatus::Verifying), Tab::Config, None, 0));
    assert!(!handbrake_notice_visible(&None, Tab::HandBrake, None, 0));
    assert_eq!(retry_label("x. Automatic security fixes were attempted. y"), "Retry After Auto-Fix");
    assert_eq!(retry_label("other"), "Retry HandBrake Verification");
}

#[test]
fn editor_export_import_and_defaults() {
    let mut u = UiState::new();
    u.input_path = "/dev/sr0".to_string();
    u.config_temp.custom_args = "--x".to_string();
    let e = u.export_config("0.1.0");
    assert_eq!(e.input_path, "/dev/sr0");
    assert_eq!(e.custom_args, "--x");
    assert_eq!(e.version, "0.1.0");
    let mut v = UiState::new();
    v.apply_imported_config(e);
    assert_eq!(v.input_path, "/dev/sr0");
    assert_eq!(v.config_temp.custom_args, "--x");
    assert_eq!(v.apply_optimal_settings(8), 6);
    assert_eq!(v.config_temp.thread_count, "6");
    assert_eq!(v.config_temp.video_codec, "H.264");
    v.reset_to_defaults("/home/me/Videos".to_string());
    assert_eq!(v.input_path, "");
    assert_eq!(v.output_path, "/home/me/Videos");
    assert_eq!(v.config_temp.thread_count, "0");
}

#[test]
fn release_summary_takes_first_meaningful_line() {
    let t = UpdatesTab::new();
    assert_eq!(t.extract_summary("## v1.2.0\n\n- Fixed the disc eject on macOS\n- Other"), "Fixed the disc eject on macOS");
    assert_eq!(t.extract_summary("# Title here and long\n- short\nPlain text line here"), "Plain text line here");
    assert_eq!(t.extract_summary("* - nested bullet text"), "- nested bullet text");
    assert_eq!(t.extract_summary("- - double dash bullet"), "double dash bullet");
    assert_eq!(t.extract_summary(""), "No description available");
    assert_eq!(t.extract_summary("short\n- tiny\n### heading that is long"), "No description available");
}

#[test]
fn release_summary_is_cut_after_77_bytes() {
    let t = UpdatesTab::new();
    let long = "x".repeat(100);
    let cut = t.extract_summary(&long);
    assert_eq!(cut, format!("{}...", "x".repeat(77)));
    let exact = "y".repeat(80);
    assert_eq!(t.extract_summary(&exact), exact);
    let wide = format!("{}{}", "é".repeat(38), "z".repeat(50));
    assert_eq!(t.extract_summary(&wide), format!("{}z...", "é".repeat(38)));
}

#[test]
fn summary_cut_inside_a_character_is_told() {
    assert!(summary_fits(&"x".repeat(100)));
    assert!(summary_fits("short notes only"));
    assert!(!summary_fits(&"é".repeat(45)));
    assert!(summary_fits(&format!("{}{}", "é".repeat(38), "z".repeat(50))));
}
