use copy_dvd::config::{config_file_path, default_config_from, default_video_codec, Config, HandBrakeManagementConfig, ServerConfig};
use std::path::Path;

#[test]
fn test_config_default() {
    let config = Config::default();

    assert!(config.handbrake_path.is_none());
    assert!(Path::new(&config.output_dir).ends_with("outs"));
    assert_eq!(config.encode_algo, "MP4");
    assert_eq!(config.video_codec, "x264");
    assert!(!config.chapter_split);
    assert!(config.server.is_none());
    assert!(config.eject_after_rip);
    assert!(config.thread_count >= 1);
    assert!(config.handbrake_management.auto_download);
    assert!(config.handbrake_management.prefer_system);
    assert_eq!(config.handbrake_management.max_cache_size_mb, 100);
    assert!(config.handbrake_management.verify_on_startup);
}

#[test]
fn management_defaults_are_the_documented_ones() {
    let m = HandBrakeManagementConfig::default();
    assert!(m.auto_download);
    assert!(m.prefer_system);
    assert_eq!(m.max_cache_size_mb, 100);
    assert!(m.verify_on_startup);
    assert!(!Config::default().optimal_settings_calculated);
}

#[test]
fn default_codec_is_x264() {
    assert_eq!(default_video_codec(), "x264");
}

#[test]
fn config_file_is_config_json() {
    if let Ok(p) = config_file_path() {
        assert!(p.ends_with("config.json"));
    }
}

#[test]
fn duplicate_keeps_every_field() {
    let mut c = Config::default();
    c.handbrake_path = Some("/usr/bin/HandBrakeCLI".to_string());
    c.server = Some(ServerConfig {
        host: "example.com".to_string(),
        username: "testuser".to_string(),
        password: Some("testpass".to_string()),
        path: "/remote/path".to_string(),
    });
    let d = c.duplicate();
    assert_eq!(d.handbrake_path, c.handbrake_path);
    assert_eq!(d.output_dir, c.output_dir);
    assert_eq!(d.thread_count, c.thread_count);
    let s = d.server.unwrap();
    assert_eq!(s.host, "example.com");
    assert_eq!(s.password, Some("testpass".to_string()));
}

#[test]
fn default_configuration_from_the_machine() {
    let c = default_config_from(Some("/home/a/.config".to_string()), 8);
    assert_eq!(c.output_dir, "/home/a/.config/dvd_ripper/outs");
    assert_eq!(c.thread_count, 8);
    let c = default_config_from(None, 0);
    assert_eq!(c.output_dir, "./outs");
    assert_eq!(c.thread_count, 1);
    assert!(Config::default().thread_count >= 1);
}
