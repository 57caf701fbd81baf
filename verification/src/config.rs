//! Application configuration and its defaults.

use vstd::prelude::*;
use crate::error::AppError;
use crate::paths::{join_path, joined};
use crate::text::owned;

verus! {

/// Application configuration
#[derive(Debug)]
pub struct Config {
    /// Path to HandBrake executable
    pub handbrake_path: Option<String>,
    /// Default output directory
    pub output_dir: String,
    /// Default output format (MP4, MKV, AVI)
    pub encode_algo: String,
    /// Default video codec (x264, x265, etc.)
    pub video_codec: String,
    /// Whether to split chapters into separate files
    pub chapter_split: bool,
    /// Server settings for uploads
    pub server: Option<ServerConfig>,
    /// Whether to eject disc after ripping
    pub eject_after_rip: bool,
    /// Number of simultaneous ripping threads
    pub thread_count: usize,
    /// HandBrake management settings
    pub handbrake_management: HandBrakeManagementConfig,
    /// Whether optimal settings have been calculated (first run flag)
    pub optimal_settings_calculated: bool,
}

/// Server configuration for uploads
#[derive(Debug)]
pub struct ServerConfig {
    pub host: String,
    pub username: String,
    pub password: Option<String>,
    pub path: String,
}

/// HandBrake management configuration
#[derive(Debug, Clone, Copy)]
pub struct HandBrakeManagementConfig {
    /// Whether to automatically download HandBrake if not found
    pub auto_download: bool,
    /// Whether to prefer system HandBrake over managed version
    pub prefer_system: bool,
    /// Maximum cache size in MB (0 = unlimited)
    pub max_cache_size_mb: u64,
    /// Whether to verify HandBrake on startup
    pub verify_on_startup: bool,
}

impl ServerConfig {
    /// A field-by-field copy.
    pub fn duplicate(&self) -> (r: ServerConfig)
        ensures
            r == *self,
    {
        ServerConfig {
            host: self.host.clone(),
            username: self.username.clone(),
            password: match &self.password {
                Some(p) => Some(p.clone()),
                None => None,
            },
            path: self.path.clone(),
        }
    }
}

impl Config {
    /// A field-by-field copy.
    pub fn duplicate(&self) -> (r: Config)
        ensures
            r == *self,
    {
        Config {
            handbrake_path: match &self.handbrake_path {
                Some(p) => Some(p.clone()),
                None => None,
            },
            output_dir: self.output_dir.clone(),
            encode_algo: self.encode_algo.clone(),
            video_codec: self.video_codec.clone(),
            chapter_split: self.chapter_split,
            server: match &self.server {
                Some(s) => Some(s.duplicate()),
                None => None,
            },
            eject_after_rip: self.eject_after_rip,
            thread_count: self.thread_count,
            handbrake_management: self.handbrake_management,
            optimal_settings_calculated: self.optimal_settings_calculated,
        }
    }
}

/// The HandBrake management defaults: download and verify automatically,
/// prefer the system's HandBrake, cache up to 100 MB.
pub open spec fn default_management() -> HandBrakeManagementConfig {
    HandBrakeManagementConfig {
        auto_download: true,
        prefer_system: true,
        max_cache_size_mb: 100,
        verify_on_startup: true,
    }
}

impl Default for HandBrakeManagementConfig {
    fn default() -> (r: Self)
        ensures
            r == default_management(),
    {
        HandBrakeManagementConfig {
            auto_download: true,
            prefer_system: true,
            max_cache_size_mb: 100,
            verify_on_startup: true,
        }
    }
}

/// The configuration used until one is saved: output into `dvd_ripper/outs`
/// in the user's configuration directory (or `./outs` when there is none), MP4
/// with x264, no chapter splitting, no server, eject after ripping, one thread
/// per processor (at least one).
pub open spec fn is_default_config(c: Config) -> bool {
    &&& c.handbrake_path is None
    &&& (c.output_dir@ == "./outs"@ || exists|base: Seq<char>| c.output_dir@ == joined(app_config_dir(base), "outs"@))
    &&& c.encode_algo@ == "MP4"@
    &&& c.video_codec@ == "x264"@
    &&& !c.chapter_split
    &&& c.server is None
    &&& c.eject_after_rip
    &&& c.thread_count >= 1
    &&& c.handbrake_management == default_management()
    &&& !c.optimal_settings_calculated
}

/// The default configuration for a machine whose user configuration
/// directory is `user_config` (if known) and which has `cpus` processors:
/// `is_default_config`, with the output directory `default_output_dir_from`
/// gives and one thread per processor (at least one).
pub open spec fn default_config_for(c: Config, user_config: Option<Seq<char>>, cpus: usize) -> bool {
    &&& is_default_config(c)
    &&& c.output_dir@ == match user_config {
        Some(u) => joined(app_config_dir(u), "outs"@),
        None => "./outs"@,
    }
    &&& c.thread_count == if cpus >= 1 {
        cpus
    } else {
        1
    }
}

/// The default configuration, given the user's configuration directory (if
/// known) and the number of processors.
pub fn default_config_from(user_config: Option<String>, cpus: usize) -> (r: Config)
    ensures
        default_config_for(r, match user_config {
            Some(u) => Some(u@),
            None => None,
        }, cpus),
{
    let output_dir = default_output_dir_from(user_config);
    Config {
        handbrake_path: None,
        output_dir,
        encode_algo: owned("MP4"),
        video_codec: default_video_codec(),
        chapter_split: false,
        server: None,
        eject_after_rip: true,
        thread_count: if cpus >= 1 {
            cpus
        } else {
            1
        },
        handbrake_management: HandBrakeManagementConfig::default(),
        optimal_settings_calculated: false,
    }
}

impl Default for Config {
    /// `default_config_from` for what `dirs::config_dir` and `num_cpus::get`
    /// report.
    fn default() -> (r: Self)
        ensures
            is_default_config(r),
    {
        default_config_from(user_config_dir(), available_cpus())
    }
}

/// The codec assumed when a stored configuration names none.
pub fn default_video_codec() -> (r: String)
    ensures
        r@ == "x264"@,
{
    owned("x264")
}

/// `dirs::config_dir`: the user's configuration directory (`$XDG_CONFIG_HOME`
/// or `~/.config` on Linux, `~/Library/Application Support` on macOS,
/// `%APPDATA%` on Windows). It depends on the machine and the environment, so
/// nothing is stated of it.
#[verifier::external_body]
fn user_config_dir() -> (r: Option<String>) {
    dirs::config_dir().map(|p| p.to_string_lossy().to_string())
}

/// The program's own directory inside the user's configuration directory.
pub open spec fn app_config_dir(user_config: Seq<char>) -> Seq<char> {
    joined(user_config, "dvd_ripper"@)
}

/// Where ripped files go by default, given the user's configuration
/// directory if there is one: `outs` in the program's directory, else
/// `./outs`.
pub fn default_output_dir_from(user_config: Option<String>) -> (r: String)
    ensures
        user_config matches Some(u) ==> r@ == joined(app_config_dir(u@), "outs"@),
        user_config is None ==> r@ == "./outs"@,
{
    match user_config {
        Some(u) => {
            let d = join_path(u.as_str(), "dvd_ripper");
            join_path(d.as_str(), "outs")
        },
        None => owned("./outs"),
    }
}

/// `num_cpus::get`: the processors available to the process. The number
/// depends on the machine; the crate documents that it is at least one.
#[verifier::external_body]
pub(crate) fn available_cpus() -> (r: usize)
    ensures
        r >= 1,
{
    num_cpus::get()
}

/// The path of the configuration file, given the user's configuration
/// directory if there is one: `dvd_ripper/config.json` inside it.
pub fn config_file_path_from(user_config: Option<String>) -> (r: Result<String, AppError>)
    ensures
        user_config matches Some(u) ==> (r matches Ok(p) && p@ == joined(app_config_dir(u@), "config.json"@)),
        user_config is None ==> (r matches Err(AppError::ConfigError(m)) && m@
            == "Failed to determine config directory"@),
{
    match user_config {
        Some(u) => {
            let d = join_path(u.as_str(), "dvd_ripper");
            Ok(join_path(d.as_str(), "config.json"))
        },
        None => Err(AppError::ConfigError(owned("Failed to determine config directory"))),
    }
}

/// The path of the configuration file: `dvd_ripper/config.json` in the
/// user's configuration directory, as `config_file_path_from` gives it for
/// what `dirs::config_dir` reports.
pub fn config_file_path() -> (r: Result<String, AppError>)
    ensures
        r matches Ok(p) ==> exists|base: Seq<char>| p@ == joined(app_config_dir(base), "config.json"@),
        r matches Err(e) ==> (e matches AppError::ConfigError(m) && m@
            == "Failed to determine config directory"@),
{
    config_file_path_from(user_config_dir())
}

} // verus!
