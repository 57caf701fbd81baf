use copy_dvd::config::{Config, ServerConfig};
use copy_dvd::dvd::types::{DvdSize, Title};
use copy_dvd::error::AppError;
use copy_dvd::gui::components::exit_confirmation::{ExitChoice, ExitConfirmationDialog, ExitPrompt};
use copy_dvd::gui::components::status::TaskStatus;
use copy_dvd::session::state::AppStatus;
use copy_dvd::gui::components::toast::{
    add_error_toast, add_info_toast, add_success_toast, add_warning_toast, remove_expired_toasts, toast_appearance,
};
use copy_dvd::gui::notifications::update_notifications::UpdateNotificationManager;
use copy_dvd::gui::notifications::{notify_error, notify_info, notify_success, notify_warning, OSNotifications};
use copy_dvd::gui::state::ui_state::{
    format_cache_size, ConfigTemp, HandBrakeOperationStatus, Tab, ToastNotification, ToastType, UiState, UpdateStatus,
};
use copy_dvd::gui::theme::{workflow_status, ButtonVariant, ModernTheme, StatusType};
use copy_dvd::gui::utils::file_browser::{
    get_dvd_display_name, is_dvd_file_name, linux_optical_paths, looks_like_optical_volume, validate_path,
};
use copy_dvd::gui::utils::updates::UpdateCheckResult;
use copy_dvd::gui::{
    describes_optical_drive, detected_drive_choice, linux_device_paths, linux_mount_bases, lists_drive_letter, macos_device_paths,
    mounted_dvd_volume, optimal_thread_count, physical_dvd_drive, rank_drives, reports_cdrom_drive,
    verification_notice_until, windows_dvd_drive, DvdDriveInfo, DvdDriveType, HandBrakeStatus,
};
use copy_dvd::updater::{Release, UpdateProgress};

fn title(n: usize) -> Title {
    Title { number: n, duration: 1, size: DvdSize { width: 1, height: 1 }, chapters: vec![], description: None }
}

fn drive(path: &str, t: DvdDriveType, video: bool) -> DvdDriveInfo {
    DvdDriveInfo { path: path.to_string(), drive_type: t, label: path.to_string(), has_video_ts: video }
}

#[test]
fn tabs_have_names_and_icons() {
    let all = Tab::all();
    assert_eq!(all, vec![Tab::Main, Tab::Config, Tab::Server, Tab::HandBrake, Tab::About]);
    let names: Vec<&str> = all.iter().map(|t| t.name()).collect();
    assert_eq!(names, vec!["Main", "Config", "Server", "HandBrake", "About"]);
    assert_eq!(Tab::HandBrake.icon(), "wrench");
    assert_eq!(Tab::Main.icon(), "play");
}

#[test]
fn title_selection() {
    let mut u = UiState::new();
    assert_eq!(u.status_message, "Ready");
    assert_eq!(u.active_tab, Tab::Main);
    u.update_titles(vec![title(1), title(2), title(3)]);
    assert_eq!(u.selected_titles, vec![false, false, false]);
    u.toggle_title(1);
    assert_eq!(u.selected_title_count(), 1);
    u.toggle_title(1);
    assert_eq!(u.selected_title_count(), 0);
    u.toggle_title(7);
    assert_eq!(u.selected_titles, vec![false, false, false]);
    u.select_all_titles();
    assert_eq!(u.selected_title_count(), 3);
    u.update_titles(vec![title(4), title(5), title(6)]);
    assert_eq!(u.selected_title_count(), 3);
    u.deselect_all_titles();
    assert_eq!(u.selected_title_count(), 0);
}

#[test]
fn messages_and_config_editor() {
    let mut u = UiState::new();
    u.set_error("bad".to_string());
    assert_eq!(u.error_message, "bad");
    u.clear_error();
    assert_eq!(u.error_message, "");
    u.set_status("busy".to_string());
    assert_eq!(u.status_message, "busy");

    let t = ConfigTemp::default();
    assert_eq!(t.video_codec, "H.264");
    assert_eq!(t.thread_count, "0");
    assert_eq!(t.naming_pattern, "{title} - {date}");

    let mut c = Config::default();
    c.thread_count = 6;
    c.handbrake_path = Some("/opt/hb".to_string());
    c.server = Some(ServerConfig { host: "h".to_string(), username: "u".to_string(), password: None, path: "/p".to_string() });
    u.load_config_temp(&c);
    assert_eq!(u.config_temp.thread_count, "6");
    assert_eq!(u.config_temp.max_cache_size_mb, "100");
    assert_eq!(u.config_temp.handbrake_path, "/opt/hb");
    assert_eq!(u.config_temp.server_password, "");
    assert_eq!(u.output_path, c.output_dir);

    u.config_temp.thread_count = "12".to_string();
    u.config_temp.max_cache_size_mb = "lots".to_string();
    u.chapter_split = true;
    let mut target = Config::default();
    u.apply_to_config(&mut target);
    assert_eq!(target.thread_count, 12);
    assert_eq!(target.handbrake_management.max_cache_size_mb, 100);
    assert!(target.chapter_split);
    assert_eq!(target.handbrake_path, Some("/opt/hb".to_string()));
    u.config_temp.thread_count = "many".to_string();
    u.apply_to_config(&mut target);
    assert!(target.thread_count >= 1);

    let s = u.editor_server_config();
    assert_eq!(s.host, "h");
    assert!(s.password.is_none());
    assert!(u.connection_test_input().is_ok());
    u.clear_server_settings();
    assert_eq!(u.connection_test_input(), Err("Please enter a server host"));
    u.config_temp.server_host = "h".to_string();
    assert_eq!(u.connection_test_input(), Err("Please enter a username"));
}

#[test]
fn handbrake_operations_report_outcomes() {
    let mut u = UiState::new();
    u.begin_download();
    assert!(matches!(u.handbrake_status, HandBrakeOperationStatus::Downloading { percent: 0 }));
    assert!(u.finish_download(Ok(())).is_ok());
    assert_eq!(u.status_message, "HandBrake downloaded successfully");
    let e = u.finish_verify(Err(AppError::HandbrakeError("gone".to_string()))).unwrap_err();
    assert_eq!(e, "HandBrake error: gone");
    assert_eq!(u.error_message, "HandBrake verification failed: HandBrake error: gone");
    assert!(matches!(u.handbrake_status, HandBrakeOperationStatus::Error(ref m) if m == "HandBrake error: gone"));
    assert_eq!(u.finish_verify(Ok("/bin/hb".to_string())), Ok("/bin/hb".to_string()));
    u.begin_clear_cache();
    assert!(matches!(u.handbrake_status, HandBrakeOperationStatus::ClearingCache));
    assert!(u.finish_clear_cache(Err(AppError::Unknown("x".to_string()))).is_err());
    assert_eq!(u.error_message, "Failed to clear cache: Unknown error: x");
    u.record_cache_info(Ok(("/cache".to_string(), 1572864)));
    assert_eq!(u.config_temp.cache_info, Some(("/cache".to_string(), "1.5 MB".to_string())));
    u.record_handbrake_update(HandBrakeOperationStatus::Idle, Some("1.9.2".to_string()), 1000);
    assert_eq!(u.handbrake_verification_visible_until_ms, Some(6000));
    u.record_update_result(UpdateCheckResult::UpToDate);
    assert!(matches!(u.update_status, UpdateStatus::UpToDate));
    assert!(!u.checking_updates);
}

#[test]
fn cache_sizes_round_to_tenths() {
    assert_eq!(format_cache_size(0), "0.0 MB");
    assert_eq!(format_cache_size(1048576), "1.0 MB");
    assert_eq!(format_cache_size(104857), "0.1 MB");
    assert_eq!(format_cache_size(52428), "0.0 MB");
    assert_eq!(format_cache_size(157286400), "150.0 MB");
}

#[test]
fn cache_sizes_match_float_formatting() {
    let mut sizes: Vec<u64> = vec![
        262144,
        786432,
        1310720,
        1835008,
        5_000_000_000,
        123_456_789_012,
        (1u64 << 53) - 1,
        1u64 << 53,
        (1u64 << 53) + 1,
        (1u64 << 53) + 3,
        (1u64 << 60) + 12345,
        u64::MAX,
        u64::MAX - 1024,
        u64::MAX - 2048,
        0x8000_0000_0000_0400,
        0x8000_0000_0000_0c00,
    ];
    let mut x: u64 = 0x9E37_79B9_7F4A_7C15;
    let mut j = 0;
    while j < 3000 {
        x ^= x << 13;
        x ^= x >> 7;
        x ^= x << 17;
        sizes.push(x);
        sizes.push(x >> (j % 64));
        j += 1;
    }
    let mut k: u64 = 0;
    while k < 4000 {
        sizes.push(k * 52429);
        sizes.push(k * 104857 + 52428);
        k += 1;
    }
    for s in sizes {
        let expected = format!("{:.1} MB", s as f64 / 1024.0 / 1024.0);
        assert_eq!(format_cache_size(s), expected, "size {}", s);
    }
}

#[test]
fn toasts_expire_after_their_time() {
    let t = ToastNotification::new("hi".to_string(), ToastType::Success, 1000);
    assert_eq!(t.duration_ms, 3000);
    assert!(!t.is_expired(4000));
    assert!(t.is_expired(4001));
    let mut toasts = Vec::new();
    add_success_toast(&mut toasts, "a".to_string(), 0);
    add_info_toast(&mut toasts, "b".to_string(), 0);
    add_warning_toast(&mut toasts, "c".to_string(), 0);
    add_error_toast(&mut toasts, "d".to_string(), 0);
    assert_eq!(toasts.len(), 4);
    assert_eq!(toasts[1].duration_ms, 2000);
    remove_expired_toasts(&mut toasts, 3500);
    let left: Vec<&str> = toasts.iter().map(|t| t.message.as_str()).collect();
    assert_eq!(left, vec!["c", "d"]);
}

#[test]
fn notifications_have_titles_and_times() {
    let n = notify_success("done");
    assert_eq!((n.title.as_str(), n.body.as_str(), n.timeout_ms), ("CopyDVD", "done", 5000));
    let n = notify_error("bad");
    assert_eq!((n.title.as_str(), n.timeout_ms), ("CopyDVD - Error", 8000));
    let n = notify_warning("hm");
    assert_eq!((n.title.as_str(), n.timeout_ms), ("CopyDVD - Warning", 6000));
    let n = notify_info("fyi");
    assert_eq!((n.title.as_str(), n.timeout_ms), ("CopyDVD", 4000));
    assert_eq!(OSNotifications::warning("T", "m").timeout_ms, 6000);
}

#[test]
fn update_toasts_do_not_repeat() {
    let latest = Release {
        tag_name: "v2.0.0".to_string(),
        name: String::new(),
        body: String::new(),
        published_at: String::new(),
        prerelease: false,
        draft: false,
        assets: vec![],
    };
    let available = copy_dvd::updater::UpdateStatus::UpdateAvailable {
        current: "1.0.0".to_string(),
        latest,
        changelog: String::new(),
    };
    let mut m = UpdateNotificationManager::new();
    let first = m.check_and_notify(Some(available.clone()), None, None, 1_000_000);
    assert_eq!(first, vec![("Update Available: v2.0.0. Click Updates tab to install.".to_string(), ToastType::Info)]);
    assert!(m.check_and_notify(Some(available), None, None, 1_000_500).is_empty());

    let err = copy_dvd::updater::UpdateStatus::Error("x".to_string());
    assert!(m.check_and_notify(Some(err.clone()), None, None, 1_200_000).is_empty());
    let later = m.check_and_notify(Some(err), None, None, 1_301_000);
    assert_eq!(later[0].1, ToastType::Error);

    let mut fresh = UpdateNotificationManager::new();
    let up = fresh.check_and_notify(Some(copy_dvd::updater::UpdateStatus::UpToDate), Some(10_000), None, 20_000);
    assert_eq!(up, vec![("You're running the latest version of Copy DVD.".to_string(), ToastType::Success)]);
    let done = fresh.check_and_notify(None, None, Some(UpdateProgress::Failed("disk full".to_string())), 30_000);
    assert_eq!(done, vec![("Update installation failed: disk full".to_string(), ToastType::Error)]);
    fresh.reset_notifications();
    assert!(fresh.last_notification_ms.is_none());
    assert_eq!(fresh.show_restart_prompt().1, ToastType::Info);
}

#[test]
fn exit_dialog_flow() {
    let mut d = ExitConfirmationDialog::default();
    d.request_exit();
    assert!(d.show && !d.is_confirmed());
    assert!(!d.answer(ExitChoice::Stay));
    assert!(!d.show && !d.is_confirmed());
    d.request_exit();
    assert!(d.answer(ExitChoice::Leave));
    assert!(d.is_confirmed());
    d.reset();
    assert!(!d.is_confirmed());
    assert_eq!(ExitConfirmationDialog::prompt(true, true, true, true), ExitPrompt::ActiveTasks);
    assert_eq!(ExitConfirmationDialog::prompt(false, true, false, true), ExitPrompt::UpdateOperations);
    assert_eq!(ExitConfirmationDialog::prompt(false, true, false, false), ExitPrompt::PendingUpdate);
    assert_eq!(ExitConfirmationDialog::prompt(false, false, false, false), ExitPrompt::Plain);
}

#[test]
fn drives_are_ranked_stably() {
    let ranked = rank_drives(vec![
        drive("/dev/sr0", DvdDriveType::PhysicalDrive, false),
        drive("/media/a", DvdDriveType::MountedVolume, false),
        drive("/media/b", DvdDriveType::MountedVolume, true),
        drive("/media/c", DvdDriveType::MountedVolume, true),
    ])
    .unwrap();
    let order: Vec<&str> = ranked.drives.iter().map(|d| d.path.as_str()).collect();
    assert_eq!(order, vec!["/media/b", "/media/c", "/media/a", "/dev/sr0"]);
    assert_eq!(ranked.selected_index, 0);
    assert!(rank_drives(vec![]).is_none());
}

#[test]
fn small_interface_rules() {
    assert_eq!(optimal_thread_count(1), 1);
    assert_eq!(optimal_thread_count(4), 3);
    assert_eq!(optimal_thread_count(16), 14);
    assert_eq!(verification_notice_until(&HandBrakeStatus::Verified("/x".to_string()), 100, None), Some(5100));
    assert_eq!(verification_notice_until(&HandBrakeStatus::Verifying, 100, Some(7)), Some(7));
    assert_eq!(TaskStatus::Running.label(), ("Running", true));
    assert_eq!(TaskStatus::Cancelled.label(), ("Cancelled", false));
    assert_eq!(ButtonVariant::Warning.colors(), (ModernTheme::WARNING, ModernTheme::BACKGROUND_PRIMARY, ModernTheme::WARNING));
    assert_eq!(StatusType::Error.appearance(), (0xEF4444, "cross"));
    assert_eq!(get_dvd_display_name("/Volumes/MOVIE"), "MOVIE");
    assert_eq!(get_dvd_display_name("/"), "/");
    assert!(is_dvd_file_name("VTS_01_1.VOB"));
    assert!(!is_dvd_file_name("notes.txt"));
    assert_eq!(validate_path("", false, false, None), Err("Path cannot be empty".to_string()));
    assert_eq!(validate_path("/x", false, false, None), Err("Path does not exist".to_string()));
    assert_eq!(validate_path("/x", true, false, None), Err("Path must be a directory".to_string()));
    assert_eq!(validate_path("/x", true, true, Some("denied".to_string())), Err("Cannot access directory: denied".to_string()));
    assert_eq!(validate_path("/x", true, true, None), Ok(()));
}

#[test]
fn detected_drives_are_described() {
    let v = mounted_dvd_volume("/media/MOVIE".to_string(), "MOVIE".to_string());
    assert_eq!(v.drive_type, DvdDriveType::MountedVolume);
    assert!(v.has_video_ts);
    assert_eq!(v.label, "MOVIE");
    let d = physical_dvd_drive("/dev/sr0");
    assert_eq!(d.label, "DVD Drive (/dev/sr0)");
    assert_eq!(d.path, "/dev/sr0");
    assert_eq!(d.drive_type, DvdDriveType::PhysicalDrive);
    assert!(!d.has_video_ts);
    let w = windows_dvd_drive('E', true);
    assert_eq!(w.path, "E:\\");
    assert_eq!(w.label, "DVD Drive (E)");
    assert_eq!(w.drive_type, DvdDriveType::MountedVolume);
    let w = windows_dvd_drive('F', false);
    assert_eq!(w.drive_type, DvdDriveType::PhysicalDrive);
    assert!(!w.has_video_ts);
}

#[test]
fn probe_outputs_are_read() {
    assert!(describes_optical_drive("Device / Media Name: DVD-RW"));
    assert!(describes_optical_drive("Protocol: CD"));
    assert!(!describes_optical_drive("Solid State: Yes"));
    assert!(lists_drive_letter("Drives: C:\\ D:\\ E:\\", 'D'));
    assert!(!lists_drive_letter("Drives: C:\\", 'D'));
    assert!(reports_cdrom_drive("\r\nDriveType=5\r\n"));
    assert!(!reports_cdrom_drive("DriveType=3"));
    assert_eq!(linux_device_paths(), vec!["/dev/dvd", "/dev/cdrom", "/dev/sr0", "/dev/sr1", "/dev/sr2"]);
    assert_eq!(linux_mount_bases(), vec!["/media", "/mnt", "/run/media"]);
    assert_eq!(macos_device_paths().len(), 4);
    assert_eq!(linux_optical_paths()[0], "/dev/sr0");
    assert_eq!(linux_optical_paths().len(), 8);
}

#[test]
fn volume_names_that_look_optical() {
    assert!(looks_like_optical_volume("MY_DVD"));
    assert!(looks_like_optical_volume("Audio CD"));
    assert!(looks_like_optical_volume("Movies"));
    assert!(!looks_like_optical_volume("abc"));
    assert!(!looks_like_optical_volume(".hidden"));
    assert!(looks_like_optical_volume(".dvd"));
    assert!(looks_like_optical_volume("éé"));
}

#[test]
fn toasts_look_by_type() {
    assert_eq!(toast_appearance(ToastType::Success), (0x22c55e, 0x16a34a, "\u{2713}", "Success"));
    assert_eq!(toast_appearance(ToastType::Error), (0xef4444, 0xdc2626, "\u{2715}", "Error"));
    assert_eq!(toast_appearance(ToastType::Warning).3, "Warning");
    assert_eq!(toast_appearance(ToastType::Info).2, "\u{24d8}");
}

#[test]
fn detection_notice_names_the_chosen_drive() {
    let one = rank_drives(vec![physical_dvd_drive("/dev/sr0")]).unwrap();
    let (path, notice, success) = detected_drive_choice(&one);
    assert_eq!(path, "/dev/sr0");
    assert_eq!(notice, "Found DVD: DVD Drive (/dev/sr0) (/dev/sr0)");
    assert!(success);
    let two = rank_drives(vec![
        physical_dvd_drive("/dev/sr0"),
        mounted_dvd_volume("/media/MOVIE".to_string(), "MOVIE".to_string()),
    ])
    .unwrap();
    let (path, notice, success) = detected_drive_choice(&two);
    assert_eq!(path, "/media/MOVIE");
    assert_eq!(notice, "Found 2 DVD drive(s). Selected: MOVIE (/media/MOVIE)");
    assert!(!success);
}

#[test]
fn workflow_status_lines() {
    assert_eq!(workflow_status(&AppStatus::Idle), ("Ready to scan DVD".to_string(), StatusType::Info));
    assert_eq!(workflow_status(&AppStatus::Scanning), ("Scanning DVD...".to_string(), StatusType::Warning));
    assert_eq!(
        workflow_status(&AppStatus::Ripping { completed: 2, total: 5 }),
        ("Ripping... 2 of 5".to_string(), StatusType::Success)
    );
    assert_eq!(workflow_status(&AppStatus::Error("x".to_string())).0, "Error: x");
    assert_eq!(workflow_status(&AppStatus::Completed), ("Processing...".to_string(), StatusType::Info));
}

#[test]
fn optimal_settings_fill_the_editor() {
    let mut u = UiState::new();
    let before_codec_default = u.config_temp.quality;
    assert_eq!(before_codec_default, 20);
    let threads = u.apply_optimal_settings(8);
    assert_eq!(threads, 6);
    assert_eq!(u.config_temp.thread_count, "6");
    assert_eq!(u.config_temp.quality, 22);
    assert_eq!(u.config_temp.handbrake_preset, "Fast 1080p30");
    assert_eq!(u.config_temp.video_codec, "H.264");
    assert_eq!(u.config_temp.encode_algo, "MP4");
}
