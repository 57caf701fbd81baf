use copy_dvd::error::AppError;
use copy_dvd::handbrake_auto_fix::{FixAction, MacOSAutoFix};
use copy_dvd::handbrake_manager::{
    cache_size, cli_candidates, cli_not_found, dmg_mount_point, get_platform_info, is_binary_entry, is_handbrake_app,
    missing_from_archive, owner_executable_mode, package_kind, quarantine_removed, quarantine_script, run_failure,
    package_manager_installs, system_names, version_info, HandBrakeManager, Lookup, LookupAction, PackageKind, HANDBRAKE_BASE_URL, HANDBRAKE_VERSION,
};
use copy_dvd::platform::{TargetArch, TargetOs};

fn handbrake_message(e: AppError) -> String {
    match e {
        AppError::HandbrakeError(m) => m,
        _ => panic!("expected a HandBrake error"),
    }
}

#[test]
fn downloads_per_platform() {
    let w = get_platform_info(TargetOs::Windows, TargetArch::X86_64).unwrap();
    assert_eq!(w.download_url, "https://github.com/HandBrake/HandBrake/releases/download/1.9.2/HandBrakeCLI-1.9.2-win-x86_64.zip");
    assert_eq!(w.binary_name, "HandBrake.exe");
    assert!(w.expected_sha256.is_none());
    let a = get_platform_info(TargetOs::Windows, TargetArch::Aarch64).unwrap();
    assert!(a.download_url.ends_with("HandBrakeCLI-1.9.2-win-aarch64.zip"));
    let m = get_platform_info(TargetOs::MacOs, TargetArch::Aarch64).unwrap();
    assert_eq!(m.download_url, "https://github.com/HandBrake/HandBrake/releases/download/1.9.2/HandBrakeCLI-1.9.2.dmg");
    assert_eq!(m.binary_name, "HandBrakeCLI");
    let l = handbrake_message(get_platform_info(TargetOs::Linux, TargetArch::X86_64).unwrap_err());
    assert!(l.starts_with("Automatic download not available for Linux. Please install"));
    assert!(l.ends_with("Arch: sudo pacman -S handbrake-cli"));
    let l2 = handbrake_message(get_platform_info(TargetOs::Linux, TargetArch::Aarch64).unwrap_err());
    assert!(l2.starts_with("Automatic download not available for Linux ARM64."));
    let o = handbrake_message(get_platform_info(TargetOs::Other, TargetArch::X86_64).unwrap_err());
    assert_eq!(o, "Unsupported platform for automatic HandBrake download");
    assert_eq!(HANDBRAKE_VERSION, "1.9.2");
    assert_eq!(HANDBRAKE_BASE_URL, "https://github.com/HandBrake/HandBrake/releases/download");
}

#[test]
fn system_lookup_names() {
    assert_eq!(system_names(TargetOs::MacOs), vec!["HandBrakeCLI", "HandBrake", "handbrake"]);
    assert_eq!(system_names(TargetOs::Linux), vec!["HandBrakeCLI", "HandBrake", "handbrake"]);
    assert_eq!(system_names(TargetOs::Windows), vec!["HandBrakeCLI", "HandBrake", "handbrake"]);
}

#[test]
fn manager_remembers_and_forgets_paths() {
    let mut m = HandBrakeManager::new("/cache/handbrake".to_string());
    assert_eq!(m.cached_binary_path(TargetOs::MacOs, TargetArch::X86_64).unwrap(), "/cache/handbrake/HandBrakeCLI");
    assert!(m.remembered_path(true).is_none());
    assert_eq!(m.remember("/usr/bin/HandBrakeCLI".to_string()), "/usr/bin/HandBrakeCLI");
    assert_eq!(m.remembered_path(true), Some("/usr/bin/HandBrakeCLI".to_string()));
    assert!(m.remembered_path(false).is_none());
    assert!(m.binary_path.is_none());
    let e = m.accept_download("/cache/handbrake/HandBrakeCLI".to_string(), false).unwrap_err();
    assert_eq!(
        handbrake_message(e),
        "Failed to download HandBrake - binary not found at expected path: /cache/handbrake/HandBrakeCLI"
    );
    assert_eq!(m.accept_download("/cache/x".to_string(), true).unwrap(), "/cache/x");
    assert_eq!(m.binary_path, Some("/cache/x".to_string()));
}

#[test]
fn packages_and_archive_entries() {
    assert_eq!(package_kind(TargetOs::MacOs).unwrap(), PackageKind::DiskImage);
    assert_eq!(package_kind(TargetOs::Windows).unwrap(), PackageKind::Zip);
    assert_eq!(
        handbrake_message(package_kind(TargetOs::Linux).unwrap_err()),
        "Automatic HandBrake download not supported on this platform. Please install HandBrake manually."
    );
    assert!(is_binary_entry("HandBrake-1.9.2/HandBrake.exe", "HandBrake.exe"));
    assert!(is_binary_entry("bin/HandBrakeCLI", "HandBrakeCLI"));
    assert!(!is_binary_entry("README.txt", "HandBrake.exe"));
    assert_eq!(
        handbrake_message(missing_from_archive("HandBrake.exe")),
        "HandBrake executable not found in downloaded archive. Looking for: HandBrake.exe"
    );
}

#[test]
fn disk_image_mount_point_and_bundle() {
    let out = "/dev/disk4          \tGUID_partition_scheme\n/dev/disk4s1        \tApple_HFS  /Volumes/HandBrake\n";
    assert_eq!(dmg_mount_point(out).unwrap(), "/Volumes/HandBrake");
    assert_eq!(handbrake_message(dmg_mount_point("nothing\n").unwrap_err()), "Could not determine mount point");
    assert!(is_handbrake_app("HandBrake.app"));
    assert!(is_handbrake_app("My HANDBRAKE copy.app"));
    assert!(!is_handbrake_app("HandBrake.dmg"));
    let c = cli_candidates("/Volumes/HandBrake/HandBrake.app");
    assert_eq!(
        c,
        vec![
            "/Volumes/HandBrake/HandBrake.app/Contents/MacOS/HandBrakeCLI",
            "/Volumes/HandBrake/HandBrake.app/Contents/Resources/HandBrakeCLI",
            "/Volumes/HandBrake/HandBrake.app/HandBrakeCLI",
            "/Volumes/HandBrake/HandBrake.app/Contents/MacOS/HandBrake",
        ]
    );
    let tried = vec!["/a".to_string(), "/b".to_string()];
    assert_eq!(
        handbrake_message(cli_not_found("/app", &tried)),
        "HandBrakeCLI not found in any expected locations within /app. Tried: /a, /b"
    );
}

#[test]
fn version_text_and_failures() {
    assert_eq!(version_info("  HandBrake 1.9.2\n", "noise"), "HandBrake 1.9.2");
    assert_eq!(version_info(" \n", "  HandBrake 1.8.0 \n"), "HandBrake 1.8.0");
    assert_eq!(
        handbrake_message(run_failure("exit status: 3", false, TargetOs::Linux, "\"/x\"", "bad")),
        "HandBrake failed to execute properly. Exit code: exit status: 3, stderr: bad"
    );
    assert_eq!(
        handbrake_message(run_failure("signal: 9 (SIGKILL)", true, TargetOs::Linux, "\"/x\"", "")),
        "HandBrake was terminated by the system (signal: 9 (SIGKILL)). stderr: "
    );
    let mac = handbrake_message(run_failure("signal: 9 (SIGKILL)", true, TargetOs::MacOs, "\"/x\"", "err"));
    assert!(mac.starts_with("HandBrake was terminated by macOS Gatekeeper (signal: 9 (SIGKILL))."));
    assert!(mac.contains("manually run this command:\n\"/x\" --version\n"));
    assert!(mac.ends_with("stderr: err"));
}

#[test]
fn quarantine_handling() {
    assert_eq!(
        quarantine_script("/bin/hb"),
        "do shell script \"xattr -d com.apple.quarantine '/bin/hb'\" with administrator privileges"
    );
    assert!(quarantine_removed(true, ""));
    assert!(!quarantine_removed(false, "User canceled."));
    assert!(quarantine_removed(false, "xattr: No such xattr: com.apple.quarantine"));
    assert!(!quarantine_removed(false, "other"));
    assert_eq!(owner_executable_mode(0o644), 0o744);
    assert_eq!(cache_size(&vec![1, 2, 3]), 6);
    assert_eq!(cache_size(&vec![]), 0);
}

#[test]
fn automatic_fixes() {
    assert_eq!(MacOSAutoFix::attempt_all_fixes(false, Ok(false), false).unwrap(), false);
    assert_eq!(MacOSAutoFix::attempt_all_fixes(true, Ok(false), false).unwrap(), true);
    assert_eq!(MacOSAutoFix::attempt_all_fixes(false, Ok(true), false).unwrap(), true);
    assert_eq!(MacOSAutoFix::attempt_all_fixes(false, Ok(false), true).unwrap(), true);
    assert!(MacOSAutoFix::attempt_all_fixes(true, Err(AppError::HandbrakeError("no".to_string())), true).is_err());
    assert_eq!(
        MacOSAutoFix::quarantine_attributes(),
        vec!["com.apple.quarantine", "com.apple.metadata:kMDItemWhereFroms", "com.apple.metadata:kMDItemDownloadedDate"]
    );
    assert_eq!(MacOSAutoFix::executable_mode(0o600), (0o755, true));
    assert_eq!(MacOSAutoFix::executable_mode(0o755), (0o755, false));
    let cmds = MacOSAutoFix::security_preference_commands();
    assert_eq!(cmds[1].0, "open");
    assert_eq!(cmds[2].1, vec!["-a", "System Settings"]);
    assert!(MacOSAutoFix::listing_has_quarantine("com.apple.quarantine: 0081;"));
    assert!(!MacOSAutoFix::listing_has_quarantine(""));
}

#[test]
fn lookup_tries_path_then_cache_then_download() {
    let mut m = HandBrakeManager::new("/cache/handbrake".to_string());
    let (s, a) = m.start_lookup(TargetOs::Windows, TargetArch::X86_64);
    assert_eq!(s, Lookup::SearchPath(0));
    assert!(matches!(a, LookupAction::SearchPath(ref n) if n == "HandBrakeCLI"));
    let (s, a) = m.on_search_path(0, None, TargetOs::Windows, TargetArch::X86_64);
    assert_eq!(s, Lookup::SearchPath(1));
    assert!(matches!(a, LookupAction::SearchPath(ref n) if n == "HandBrake"));
    let (_, a) = m.on_search_path(1, None, TargetOs::Windows, TargetArch::X86_64);
    assert!(matches!(a, LookupAction::SearchPath(ref n) if n == "handbrake"));
    let (s, a) = m.on_search_path(2, None, TargetOs::Windows, TargetArch::X86_64);
    assert_eq!(s, Lookup::Cached);
    assert!(matches!(a, LookupAction::CheckExists(ref c) if c == "/cache/handbrake/HandBrake.exe"));
    let (s, a) = m.on_cached(false, TargetOs::Windows, TargetArch::X86_64);
    assert_eq!(s, Lookup::PackageManager);
    assert!(matches!(a, LookupAction::InstallWithPackageManager(TargetOs::Windows)));
    let (s, a) = m.on_package_manager(None, TargetOs::Windows, TargetArch::X86_64);
    assert_eq!(s, Lookup::Downloading);
    assert!(matches!(a, LookupAction::Download));
    let (s, a) = m.on_download(Ok(()), TargetOs::Windows, TargetArch::X86_64);
    assert_eq!(s, Lookup::Downloaded);
    assert!(matches!(a, LookupAction::CheckExists(_)));
    assert_eq!(m.accept_download("/cache/handbrake/HandBrake.exe".to_string(), true).unwrap(), "/cache/handbrake/HandBrake.exe");
    assert_eq!(m.binary_path, Some("/cache/handbrake/HandBrake.exe".to_string()));
    let (s, _) = m.start_lookup(TargetOs::Windows, TargetArch::X86_64);
    assert_eq!(s, Lookup::Remembered);
}

#[test]
fn lookup_stops_at_the_search_path_or_the_platform() {
    let mut m = HandBrakeManager::new("/c".to_string());
    let (_, a) = m.on_search_path(0, Some("/usr/bin/HandBrakeCLI".to_string()), TargetOs::Linux, TargetArch::X86_64);
    assert!(matches!(a, LookupAction::Done(Ok(ref p)) if p == "/usr/bin/HandBrakeCLI"));
    assert_eq!(m.binary_path, Some("/usr/bin/HandBrakeCLI".to_string()));
    let (_, a) = m.on_remembered(false, TargetOs::Linux, TargetArch::X86_64);
    assert!(m.binary_path.is_none());
    assert!(matches!(a, LookupAction::SearchPath(_)));
    let (s, a) = m.on_search_path(2, None, TargetOs::Linux, TargetArch::X86_64);
    assert_eq!(s, Lookup::PackageManager);
    assert!(matches!(a, LookupAction::InstallWithPackageManager(TargetOs::Linux)));
    let (_, a) = m.on_package_manager(None, TargetOs::Linux, TargetArch::X86_64);
    match a {
        LookupAction::Done(Err(AppError::HandbrakeError(msg))) => assert!(msg.starts_with("Automatic download not available for Linux.")),
        _ => panic!("Linux has no download"),
    }
    let (_, a) = m.on_download(Err(AppError::HandbrakeError("net".to_string())), TargetOs::MacOs, TargetArch::Aarch64);
    assert!(matches!(a, LookupAction::Done(Err(AppError::HandbrakeError(ref e))) if e == "net"));
}

#[test]
fn package_manager_installs_what_it_found() {
    let mut m = HandBrakeManager::new("/c".to_string());
    let (_, a) = m.on_package_manager(Some("/opt/homebrew/bin/HandBrakeCLI".to_string()), TargetOs::MacOs, TargetArch::Aarch64);
    assert!(matches!(a, LookupAction::Done(Ok(ref p)) if p == "/opt/homebrew/bin/HandBrakeCLI"));
    assert_eq!(m.binary_path, Some("/opt/homebrew/bin/HandBrakeCLI".to_string()));
    let mac = package_manager_installs(TargetOs::MacOs);
    assert_eq!(mac[0], ("brew".to_string(), vec!["install".to_string(), "handbrake".to_string()]));
    assert_eq!(mac[1].1[0], "port");
    assert_eq!(package_manager_installs(TargetOs::Windows)[0].0, "choco");
    let linux = package_manager_installs(TargetOs::Linux);
    assert_eq!(linux.len(), 6);
    assert_eq!(linux[0].1, vec!["apt", "install", "-y", "handbrake-cli"]);
    assert!(package_manager_installs(TargetOs::Other).is_empty());
}

#[test]
fn cache_directory_ends_with_the_project() {
    if let Ok(d) = copy_dvd::handbrake_manager::get_cache_dir() {
        assert!(d.ends_with("handbrake"));
        assert!(d.contains("copydvd"));
    }
}

#[test]
fn fixes_run_step_by_step() {
    let (applied, a) = MacOSAutoFix::start_fixes();
    assert!(!applied && matches!(a, FixAction::RemoveQuarantine));
    let (applied, a) = MacOSAutoFix::after_quarantine(applied, false);
    assert!(!applied && matches!(a, FixAction::SetPermissions));
    let (_, a) = MacOSAutoFix::after_permissions(applied, Err(AppError::HandbrakeError("denied".to_string())));
    assert!(matches!(a, FixAction::Done(Err(AppError::HandbrakeError(ref m))) if m == "denied"));
    let (applied, a) = MacOSAutoFix::after_permissions(false, Ok(true));
    assert!(applied && matches!(a, FixAction::OpenPreferences));
    let (_, a) = MacOSAutoFix::after_preferences(false, false);
    assert!(matches!(a, FixAction::Done(Ok(false))));
    let (_, a) = MacOSAutoFix::after_preferences(applied, false);
    assert!(matches!(a, FixAction::Done(Ok(true))));
}
