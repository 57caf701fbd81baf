use copy_dvd::platform::{TargetArch, TargetOs};
use copy_dvd::updater::{
    download_path_from,
    failed_check, install_method, stable_releases, windows_update_script, Asset, GitHubAsset, GitHubRelease,
    InstallMethod, Release, UpdateStatus, Updater, DOWNLOAD_TIMEOUT_SECS, GITHUB_API_RELEASES,
    UPDATE_CHECK_TIMEOUT_SECS,
};

fn release(tag: &str, name: &str, body: &str, date: &str, assets: Vec<Asset>) -> Release {
    Release {
        tag_name: tag.to_string(),
        name: name.to_string(),
        body: body.to_string(),
        published_at: date.to_string(),
        prerelease: false,
        draft: false,
        assets,
    }
}

fn asset(name: &str, url: &str, size: u64, content_type: &str) -> Asset {
    Asset {
        name: name.to_string(),
        download_url: url.to_string(),
        size,
        content_type: content_type.to_string(),
    }
}

#[test]
fn test_platform_filter_detection() {
    let windows = Updater::new("0.1.0", TargetOs::Windows, TargetArch::X86_64);
    assert!(windows.platform_filter().contains("windows"));
    let macos = Updater::new("0.1.0", TargetOs::MacOs, TargetArch::Aarch64);
    assert!(macos.platform_filter().contains("apple-darwin"));
    let linux = Updater::new("0.1.0", TargetOs::Linux, TargetArch::X86_64);
    assert!(linux.platform_filter().contains("linux-gnu"));
    assert!(!linux.platform_filter().is_empty());
}

#[test]
fn test_version_comparison() {
    let updater = Updater::new("0.1.0", TargetOs::Linux, TargetArch::X86_64);
    let releases = vec![
        release("v1.0.0", "Version 1.0.0", "Initial release", "2024-01-01T00:00:00Z", vec![]),
        release("v1.1.0", "Version 1.1.0", "Bug fixes", "2024-02-01T00:00:00Z", vec![]),
    ];
    let status = updater.compare_versions(releases);
    match status {
        UpdateStatus::UpdateAvailable { latest, .. } => {
            assert_eq!(latest.tag_name, "v1.1.0");
        }
        UpdateStatus::UpToDate => {}
        UpdateStatus::Error(_) => {
            panic!("Should not have error in version comparison");
        }
    }
}

#[test]
fn test_installer_patterns() {
    let windows = Updater::new("0.1.0", TargetOs::Windows, TargetArch::X86_64);
    assert!(windows.get_installer_patterns().contains(&".msi".to_string()));
    assert!(windows.get_binary_patterns().iter().any(|p| p.contains("pc-windows-msvc")));

    let macos = Updater::new("0.1.0", TargetOs::MacOs, TargetArch::X86_64);
    assert!(macos.get_installer_patterns().contains(&".app.zip".to_string()));
    assert!(macos.get_binary_patterns().iter().any(|p| p.contains("apple-darwin")));

    let linux = Updater::new("0.1.0", TargetOs::Linux, TargetArch::X86_64);
    assert!(!linux.get_installer_patterns().is_empty());
    assert!(linux.get_binary_patterns().iter().any(|p| p.contains("unknown-linux-gnu")));
}

#[test]
fn test_download_path_generation() {
    let updater = Updater::new("0.1.0", TargetOs::Linux, TargetArch::X86_64);
    let filename = "test-update.exe";
    let path = updater.get_download_path(filename);
    assert!(path.is_ok());

    let path = path.unwrap();
    assert!(path.ends_with("copydvd_update_test-update.exe"));
    assert!(std::path::Path::new(&path).is_absolute());
}

#[test]
fn test_asset_filtering() {
    let release = Release {
        tag_name: "v1.0.0".to_string(),
        name: "Test Release".to_string(),
        body: "Test release".to_string(),
        published_at: "2024-01-01T00:00:00Z".to_string(),
        prerelease: false,
        draft: false,
        assets: vec![
            asset("copydvd-x86_64-pc-windows-msvc.exe", "https://example.com/windows.exe", 1024, "application/octet-stream"),
            asset("copydvd-x86_64-apple-darwin", "https://example.com/macos-x86", 1024, "application/octet-stream"),
            asset("copydvd-aarch64-apple-darwin", "https://example.com/macos-arm", 1024, "application/octet-stream"),
            asset("copydvd-x86_64-unknown-linux-gnu", "https://example.com/linux-x86", 1024, "application/octet-stream"),
            asset("CopyDVD-x86_64-pc-windows-msvc.msi", "https://example.com/installer.msi", 2048, "application/octet-stream"),
            asset("CopyDVD-x86_64-apple-darwin.app.zip", "https://example.com/macos-app.zip", 3072, "application/zip"),
            asset("CopyDVD-aarch64-apple-darwin.app.zip", "https://example.com/macos-arm-app.zip", 3072, "application/zip"),
            asset("copydvd-x86_64-unknown-linux-gnu.deb", "https://example.com/linux.deb", 2048, "application/octet-stream"),
        ],
    };

    let windows = Updater::new("0.1.0", TargetOs::Windows, TargetArch::X86_64);
    let result = windows.find_compatible_asset(&release);
    assert!(result.is_ok());
    let a = result.unwrap();
    assert!(a.name.ends_with(".msi") || a.name.contains("pc-windows-msvc"));

    let macos = Updater::new("0.1.0", TargetOs::MacOs, TargetArch::X86_64);
    let result = macos.find_compatible_asset(&release);
    assert!(result.is_ok());
    let a = result.unwrap();
    assert!(a.name.ends_with(".app.zip") || a.name.contains("apple-darwin"));

    let linux = Updater::new("0.1.0", TargetOs::Linux, TargetArch::X86_64);
    let result = linux.find_compatible_asset(&release);
    assert!(result.is_ok());
    let a = result.unwrap();
    assert!(a.name.contains("unknown-linux-gnu"));
}

#[test]
fn test_github_api_url_formation() {
    assert_eq!(GITHUB_API_RELEASES, "https://api.github.com/repos/sleepyyui/copydvd/releases");
}

#[test]
fn test_update_check_timeout() {
    assert!(UPDATE_CHECK_TIMEOUT_SECS >= 5);
    assert!(UPDATE_CHECK_TIMEOUT_SECS <= 30);
    assert!(DOWNLOAD_TIMEOUT_SECS >= 60);
}

#[test]
fn test_current_version_parsing() {
    let updater = Updater::new("0.1.0", TargetOs::Linux, TargetArch::X86_64);
    let version_str = updater.get_current_version();
    assert!(!version_str.is_empty());
    assert!(version_str.contains('.') || version_str.chars().any(|c| c.is_numeric()));
}

#[test]
fn newest_release_wins_and_changelog_lists_newer_ones() {
    let updater = Updater::new("1.0.0", TargetOs::Linux, TargetArch::X86_64);
    let releases = vec![
        release("v1.0.0", "Version 1.0.0", "Initial release", "2024-01-01T00:00:00Z", vec![]),
        release("v1.2.0", "Version 1.2.0", "Features", "2024-03-01T00:00:00Z", vec![]),
        release("v1.1.0", "Version 1.1.0", "Bug fixes", "2024-02-01T00:00:00Z", vec![]),
    ];
    match updater.compare_versions(releases) {
        UpdateStatus::UpdateAvailable { current, latest, changelog } => {
            assert_eq!(current, "1.0.0");
            assert_eq!(latest.tag_name, "v1.2.0");
            assert!(changelog.starts_with("## Version 1.2.0\nReleased: 2024-03-01T00:00:00Z\n\nFeatures\n\n---\n\n"));
            let first = changelog.find("Version 1.2.0").unwrap();
            let second = changelog.find("Version 1.1.0").unwrap();
            assert!(first < second);
            assert!(!changelog.contains("Initial release"));
        }
        _ => panic!("an update is available"),
    }
}

#[test]
fn same_version_is_up_to_date() {
    let updater = Updater::new("1.1.0", TargetOs::Linux, TargetArch::X86_64);
    let releases = vec![release("v1.1.0", "Version 1.1.0", "Bug fixes", "2024-02-01T00:00:00Z", vec![])];
    assert!(matches!(updater.compare_versions(releases), UpdateStatus::UpToDate));
}

#[test]
fn no_compatible_asset_is_an_error() {
    let updater = Updater::new("0.1.0", TargetOs::Linux, TargetArch::X86_64);
    let r = release("v1.0.0", "x", "y", "z", vec![asset("notes.txt", "https://example.com/n", 1, "text/plain")]);
    assert!(updater.find_compatible_asset(&r).is_err());
}

#[test]
fn drafts_and_prereleases_are_dropped() {
    let gh = |tag: &str, draft: bool, pre: bool| GitHubRelease {
        tag_name: tag.to_string(),
        name: tag.to_string(),
        body: String::new(),
        published_at: String::new(),
        prerelease: pre,
        draft,
        assets: vec![GitHubAsset {
            name: "a.deb".to_string(),
            browser_download_url: "https://example.com/a.deb".to_string(),
            size: 7,
            content_type: "application/octet-stream".to_string(),
        }],
    };
    let out = stable_releases(vec![gh("v1", false, false), gh("v2", true, false), gh("v3", false, true), gh("v4", false, false)]);
    let tags: Vec<&str> = out.iter().map(|r| r.tag_name.as_str()).collect();
    assert_eq!(tags, vec!["v1", "v4"]);
    assert_eq!(out[0].assets[0].download_url, "https://example.com/a.deb");
    assert_eq!(out[0].assets[0].size, 7);
}

#[test]
fn failed_checks_explain_themselves() {
    match failed_check(Some("network down".to_string())) {
        UpdateStatus::Error(m) => assert_eq!(m, "Failed to check for updates: network down"),
        _ => panic!("an error"),
    }
    match failed_check(None) {
        UpdateStatus::Error(m) => assert_eq!(m, "Update check timed out"),
        _ => panic!("an error"),
    }
}

#[test]
fn installers_are_chosen_by_file_ending() {
    assert_eq!(install_method(TargetOs::Windows, "a.msi"), InstallMethod::WindowsMsi);
    assert_eq!(install_method(TargetOs::Windows, "a.exe"), InstallMethod::WindowsExe);
    assert_eq!(install_method(TargetOs::MacOs, "CopyDVD.app.zip"), InstallMethod::MacApp);
    assert_eq!(install_method(TargetOs::Linux, "a.deb"), InstallMethod::LinuxDeb);
    assert_eq!(install_method(TargetOs::Linux, "a.rpm"), InstallMethod::LinuxRpm);
    assert_eq!(install_method(TargetOs::Linux, "a.appimage"), InstallMethod::LinuxAppImage);
    assert_eq!(install_method(TargetOs::Linux, "a.AppImage"), InstallMethod::ReplaceBinary);
    assert_eq!(install_method(TargetOs::MacOs, "a.deb"), InstallMethod::ReplaceBinary);
}

#[test]
fn windows_script_swaps_the_executable() {
    let s = windows_update_script("C:\\app\\copydvd.exe", "C:\\app\\copydvd.backup", "C:\\tmp\\new.exe");
    assert_eq!(
        s,
        "@echo off\necho Updating Copy DVD...\ntimeout /t 2 /nobreak >nul\nmove \"C:\\app\\copydvd.exe\" \"C:\\app\\copydvd.backup\"\nmove \"C:\\tmp\\new.exe\" \"C:\\app\\copydvd.exe\"\nstart \"\" \"C:\\app\\copydvd.exe\"\ndel \"%~f0\"\n"
    );
}

#[test]
fn newest_release_follows_semver_order() {
    let updater = Updater::new("1.0.0", TargetOs::Linux, TargetArch::X86_64);
    let releases = vec![
        release("v2.0.0-rc.1", "RC", "candidate", "d1", vec![]),
        release("v2.0.0", "Final", "final", "d2", vec![]),
        release("v2.0.0-beta", "Beta", "beta", "d3", vec![]),
    ];
    match updater.compare_versions(releases) {
        UpdateStatus::UpdateAvailable { latest, changelog, .. } => {
            assert_eq!(latest.tag_name, "v2.0.0");
            let f = changelog.find("## Final").unwrap();
            let r = changelog.find("## RC").unwrap();
            let b = changelog.find("## Beta").unwrap();
            assert!(f < r && r < b);
        }
        _ => panic!("an update is available"),
    }
}

#[test]
fn prerelease_of_the_running_version_is_older() {
    let updater = Updater::new("1.1.0-beta.2", TargetOs::Linux, TargetArch::X86_64);
    let releases = vec![
        release("v1.0.0", "Version 1.0.0", "Initial release", "2024-01-01T00:00:00Z", vec![]),
        release("v1.1.0", "Version 1.1.0", "Bug fixes", "2024-02-01T00:00:00Z", vec![]),
    ];
    match updater.compare_versions(releases) {
        UpdateStatus::UpdateAvailable { latest, current, .. } => {
            assert_eq!(latest.tag_name, "v1.1.0");
            assert_eq!(current, "1.1.0-beta.2");
        }
        _ => panic!("1.1.0 is newer than its beta"),
    }
}

#[test]
fn equal_newest_versions_keep_the_first() {
    let updater = Updater::new("1.0.0", TargetOs::Linux, TargetArch::X86_64);
    let releases = vec![
        release("1.2.0", "first", "", "", vec![]),
        release("v1.2.0", "second", "", "", vec![]),
    ];
    match updater.compare_versions(releases) {
        UpdateStatus::UpdateAvailable { latest, changelog, .. } => {
            assert_eq!(latest.name, "first");
            assert!(changelog.find("## first").unwrap() < changelog.find("## second").unwrap());
        }
        _ => panic!("an update is available"),
    }
}

#[test]
fn download_path_prefers_the_download_directory() {
    assert_eq!(
        download_path_from(Some("/home/a/Dl".to_string()), Some("/home/a".to_string()), "x.deb").unwrap(),
        "/home/a/Dl/copydvd_update_x.deb"
    );
    assert_eq!(download_path_from(None, Some("/home/a".to_string()), "x.deb").unwrap(), "/home/a/Downloads/copydvd_update_x.deb");
    assert_eq!(download_path_from(None, None, "x.deb").unwrap_err(), "Could not determine download directory");
}
