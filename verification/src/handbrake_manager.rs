//! Finding, fetching and checking the HandBrake command-line tool: which
//! package a platform downloads, where the binary is cached, how the archive
//! and the disk image are searched, and what the checks report.

use vstd::prelude::*;
use crate::error::AppError;
use crate::paths::{join_path, joined};
use crate::platform::{TargetArch, TargetOs};
use crate::text::{
    chars_of, contains_chars, contains_seq, decimal_digits, ends_with, has_prefix, has_suffix, join,
    lines_chars, lines_of, owned, push_decimal, push_str, starts_with, str_equal, string_from_chars,
    string_views, split_words, to_lowercase, trim, trim_chars, unicode_lowercase, views, words,
};

verus! {

/// The HandBrake release that is downloaded.
pub const HANDBRAKE_VERSION: &'static str = "1.9.2";

/// Where HandBrake releases are downloaded from.
pub const HANDBRAKE_BASE_URL: &'static str = "https://github.com/HandBrake/HandBrake/releases/download";

/// The stage a HandBrake installation is in, for progress reports.
#[derive(Debug, Clone, Copy, PartialEq, Eq, Structural)]
pub enum HandBrakePhase {
    Downloading,
    Extracting,
    Installing,
    Verifying,
}

/// What a platform downloads and which binary it keeps.
#[derive(Debug)]
pub struct PlatformInfo {
    pub download_url: String,
    pub binary_name: String,
    pub expected_sha256: Option<String>,
}

/// The package manager advice given on Linux.
pub open spec fn linux_install_advice() -> Seq<char> {
    "Please install HandBrake using your package manager:\nUbuntu/Debian: sudo apt install handbrake-cli\nFedora: sudo dnf install handbrake-cli\nArch: sudo pacman -S handbrake-cli"@
}

/// The download for a platform, as (URL, binary name), or the message given
/// where there is none.
pub open spec fn spec_platform_info(os: TargetOs, arch: TargetArch) -> Result<(Seq<char>, Seq<char>), Seq<char>> {
    let base = "https://github.com/HandBrake/HandBrake/releases/download/1.9.2/HandBrakeCLI-1.9.2"@;
    match (os, arch) {
        (TargetOs::Windows, TargetArch::X86_64) => Ok((base + "-win-x86_64.zip"@, "HandBrake.exe"@)),
        (TargetOs::Windows, TargetArch::Aarch64) => Ok((base + "-win-aarch64.zip"@, "HandBrake.exe"@)),
        (TargetOs::MacOs, _) => Ok((base + ".dmg"@, "HandBrakeCLI"@)),
        (TargetOs::Linux, TargetArch::X86_64) => Err(
            "Automatic download not available for Linux. "@ + linux_install_advice(),
        ),
        (TargetOs::Linux, TargetArch::Aarch64) => Err(
            "Automatic download not available for Linux ARM64. "@ + linux_install_advice(),
        ),
        _ => Err("Unsupported platform for automatic HandBrake download"@),
    }
}

fn url_for(suffix: &str) -> (r: String)
    ensures
        r@ == "https://github.com/HandBrake/HandBrake/releases/download/1.9.2/HandBrakeCLI-1.9.2"@ + suffix@,
{
    let mut u = owned(HANDBRAKE_BASE_URL);
    push_str(&mut u, "/");
    push_str(&mut u, HANDBRAKE_VERSION);
    push_str(&mut u, "/HandBrakeCLI-");
    push_str(&mut u, HANDBRAKE_VERSION);
    push_str(&mut u, suffix);
    proof {
        reveal_strlit("https://github.com/HandBrake/HandBrake/releases/download");
        reveal_strlit("1.9.2");
        reveal_strlit("/");
        reveal_strlit("/HandBrakeCLI-");
        reveal_strlit("https://github.com/HandBrake/HandBrake/releases/download/1.9.2/HandBrakeCLI-1.9.2");
        assert(u@ =~= "https://github.com/HandBrake/HandBrake/releases/download/1.9.2/HandBrakeCLI-1.9.2"@ + suffix@);
    }
    u
}

fn linux_message(prefix: &str) -> (r: String)
    ensures
        r@ == prefix@ + linux_install_advice(),
{
    let mut m = owned(prefix);
    push_str(
        &mut m,
        "Please install HandBrake using your package manager:\nUbuntu/Debian: sudo apt install handbrake-cli\nFedora: sudo dnf install handbrake-cli\nArch: sudo pacman -S handbrake-cli",
    );
    m
}

/// The HandBrake download for a platform, from the `HandBrakeCLI-1.9.2`
/// release assets: a zip holding `HandBrake.exe` on Windows, the disk image
/// holding `HandBrakeCLI` on macOS; on Linux, advice
/// to use the package manager; elsewhere, that the platform is unsupported.
/// No checksum is published with any of them.
pub fn get_platform_info(os: TargetOs, arch: TargetArch) -> (r: Result<PlatformInfo, AppError>)
    ensures
        spec_platform_info(os, arch) matches Ok(p) ==> (r matches Ok(info) && info.download_url@ == p.0
            && info.binary_name@ == p.1 && info.expected_sha256 is None),
        spec_platform_info(os, arch) matches Err(m) ==> (r matches Err(AppError::HandbrakeError(e)) && e@ == m),
{
    match (os, arch) {
        (TargetOs::Windows, TargetArch::X86_64) => Ok(PlatformInfo {
            download_url: url_for("-win-x86_64.zip"),
            binary_name: owned("HandBrake.exe"),
            expected_sha256: None,
        }),
        (TargetOs::Windows, TargetArch::Aarch64) => Ok(PlatformInfo {
            download_url: url_for("-win-aarch64.zip"),
            binary_name: owned("HandBrake.exe"),
            expected_sha256: None,
        }),
        (TargetOs::MacOs, _) => Ok(PlatformInfo {
            download_url: url_for(".dmg"),
            binary_name: owned("HandBrakeCLI"),
            expected_sha256: None,
        }),
        (TargetOs::Linux, TargetArch::X86_64) => Err(
            AppError::HandbrakeError(linux_message("Automatic download not available for Linux. ")),
        ),
        (TargetOs::Linux, TargetArch::Aarch64) => Err(
            AppError::HandbrakeError(linux_message("Automatic download not available for Linux ARM64. ")),
        ),
        _ => Err(AppError::HandbrakeError(owned("Unsupported platform for automatic HandBrake download"))),
    }
}

/// A name made of lowercase ASCII letters and digits only, which
/// `directories` uses as it is.
pub open spec fn plain_name(s: Seq<char>) -> bool {
    s.len() > 0 && forall|i: int| 0 <= i < s.len() ==> ('a' <= #[trigger] s[i] <= 'z') || ('0' <= s[i] <= '9')
}

/// How a project's cache directory ends, as `directories` builds it: on Linux
/// and other Unix systems with the application's name, on macOS with
/// `qualifier.organization.application`, on Windows with
/// `organization\application\cache`.
pub open spec fn project_cache_suffixes(q: Seq<char>, o: Seq<char>, a: Seq<char>) -> Seq<Seq<char>> {
    seq!["/"@ + a, "/"@ + q + "."@ + o + "."@ + a, "\\"@ + o + "\\"@ + a + "\\cache"@]
}

/// `d` ends with one of `suffixes`.
pub open spec fn ends_in_one_of(d: Seq<char>, suffixes: Seq<Seq<char>>) -> bool {
    exists|i: int| 0 <= i < suffixes.len() && ends_with(d, #[trigger] suffixes[i])
}

/// `directories::ProjectDirs::from(qualifier, organization, application)`
/// and its `cache_dir`. Where the directory is rooted depends on the platform
/// and the environment; what the crate appends is fixed by the names
/// (`lin.rs`, `mac.rs`, `win.rs`), and for plain names it is one of
/// `project_cache_suffixes`. Which of them the running platform uses is not
/// stated.
#[verifier::external_body]
fn project_cache_dir(qualifier: &str, organization: &str, application: &str) -> (r: Option<String>)
    requires
        plain_name(qualifier@),
        plain_name(organization@),
        plain_name(application@),
    ensures
        r matches Some(d) ==> ends_in_one_of(d@, project_cache_suffixes(qualifier@, organization@, application@)),
{
    directories::ProjectDirs::from(qualifier, organization, application).map(
        |dirs| dirs.cache_dir().to_string_lossy().to_string(),
    )
}

/// Where downloaded HandBrake binaries are kept, given the application's cache
/// directory if there is one: `handbrake` inside it.
pub fn cache_dir_from(app_cache: Option<String>) -> (r: Result<String, AppError>)
    ensures
        app_cache matches Some(c) ==> (r matches Ok(p) && p@ == joined(c@, "handbrake"@)),
        app_cache is None ==> (r matches Err(AppError::HandbrakeError(m)) && m@
            == "Failed to determine cache directory"@),
{
    match app_cache {
        Some(d) => Ok(join_path(d.as_str(), "handbrake")),
        None => Err(AppError::HandbrakeError(owned("Failed to determine cache directory"))),
    }
}

/// Where downloaded HandBrake binaries are kept: `handbrake` in the cache
/// directory of the application `com` / `sleepyyui` / `copydvd`.
pub fn get_cache_dir() -> (r: Result<String, AppError>)
    ensures
        r matches Ok(p) ==> exists|d: Seq<char>|
            ends_in_one_of(d, project_cache_suffixes("com"@, "sleepyyui"@, "copydvd"@)) && p@ == joined(
                d,
                "handbrake"@,
            ),
        r matches Err(e) ==> (e matches AppError::HandbrakeError(m) && m@ == "Failed to determine cache directory"@),
{
    proof {
        reveal_strlit("com");
        reveal_strlit("sleepyyui");
        reveal_strlit("copydvd");
    }
    let d = project_cache_dir("com", "sleepyyui", "copydvd");
    let ghost dv = match d {
        Some(ref s) => s@,
        None => Seq::empty(),
    };
    let r = cache_dir_from(d);
    proof {
        if let Ok(ref p) = r {
            assert(ends_in_one_of(dv, project_cache_suffixes("com"@, "sleepyyui"@, "copydvd"@))
                && p@ == joined(dv, "handbrake"@));
        }
    }
    r
}

/// The names HandBrake is looked up by on the search path, the command-line
/// tool `HandBrakeCLI` first, on every platform.
pub open spec fn spec_system_names(os: TargetOs) -> Seq<Seq<char>> {
    seq!["HandBrakeCLI"@, "HandBrake"@, "handbrake"@]
}

/// The names to look HandBrake up by on the search path.
pub fn system_names(os: TargetOs) -> (r: Vec<String>)
    ensures
        string_views(r@) == spec_system_names(os),
{
    let mut v: Vec<String> = Vec::new();
    v.push(owned("HandBrakeCLI"));
    v.push(owned("HandBrake"));
    v.push(owned("handbrake"));
    assert(string_views(v@) =~= spec_system_names(os));
    v
}

/// Finds HandBrake and remembers where it was found. The binary path, once
/// known, is kept until it is found missing.
#[derive(Debug)]
pub struct HandBrakeManager {
    pub cache_dir: String,
    pub binary_path: Option<String>,
}

/// The outcome of checking a HandBrake run: the version text, or why it failed.
pub open spec fn spec_version_info(stdout: Seq<char>, stderr: Seq<char>) -> Seq<char> {
    if trim(stdout).len() > 0 {
        trim(stdout)
    } else {
        trim(stderr)
    }
}

impl HandBrakeManager {
    /// A manager keeping its downloads in `cache_dir`, with no binary known yet.
    pub fn new(cache_dir: String) -> (r: HandBrakeManager)
        ensures
            r.cache_dir == cache_dir,
            r.binary_path is None,
    {
        HandBrakeManager { cache_dir, binary_path: None }
    }

    /// Where the binary for a platform is cached.
    pub fn cached_binary_path(&self, os: TargetOs, arch: TargetArch) -> (r: Result<String, AppError>)
        ensures
            spec_platform_info(os, arch) matches Ok(p) ==> (r matches Ok(path) && path@ == joined(self.cache_dir@, p.1)),
            spec_platform_info(os, arch) matches Err(m) ==> (r matches Err(AppError::HandbrakeError(e)) && e@ == m),
    {
        let info = get_platform_info(os, arch)?;
        Ok(join_path(self.cache_dir.as_str(), info.binary_name.as_str()))
    }

    /// The remembered binary, if the file is still there (`exists` says
    /// whether it is); a missing one is forgotten.
    pub fn remembered_path(&mut self, exists: bool) -> (r: Option<String>)
        ensures
            final(self).cache_dir == old(self).cache_dir,
            exists ==> (old(self).binary_path matches Some(p) ==> (r == Some(p) && final(self).binary_path == Some(p))),
            old(self).binary_path is None || !exists ==> (r is None && final(self).binary_path is None),
    {
        match &self.binary_path {
            Some(p) => {
                if exists {
                    return Some(p.clone());
                }
            },
            None => {},
        }
        self.binary_path = None;
        None
    }

    /// Remembers where HandBrake was found and hands the path back.
    pub fn remember(&mut self, path: String) -> (r: String)
        ensures
            final(self).cache_dir == old(self).cache_dir,
            final(self).binary_path == Some(path),
            r == path,
    {
        self.binary_path = Some(path.clone());
        path
    }

    /// After a download, the binary must be at its cached place; it is then
    /// remembered.
    pub fn accept_download(&mut self, binary_path: String, exists: bool) -> (r: Result<String, AppError>)
        ensures
            final(self).cache_dir == old(self).cache_dir,
            exists ==> (r == Ok::<String, AppError>(binary_path) && final(self).binary_path == Some(binary_path)),
            !exists ==> (r matches Err(AppError::HandbrakeError(m))
                && m@ == "Failed to download HandBrake - binary not found at expected path: "@ + binary_path@
                && final(self).binary_path == old(self).binary_path),
    {
        if exists {
            Ok(self.remember(binary_path))
        } else {
            let mut m = owned("Failed to download HandBrake - binary not found at expected path: ");
            push_str(&mut m, binary_path.as_str());
            Err(AppError::HandbrakeError(m))
        }
    }
}

/// Where a lookup of HandBrake stands: what the caller was last asked to
/// find out. The lookup tries the remembered binary, then each name on the
/// search path, then a binary downloaded earlier, then an installation
/// through the system's package manager, and finally downloads one.
#[derive(Debug, Clone, Copy, PartialEq, Eq, Structural)]
pub enum Lookup {
    /// Whether the remembered binary still exists.
    Remembered,
    /// Where the `k`-th search-path name leads.
    SearchPath(usize),
    /// Whether a binary downloaded earlier is in the cache.
    Cached,
    /// Where a package manager installed HandBrake, if one did.
    PackageManager,
    /// How the download went.
    Downloading,
    /// Whether the download left the binary in the cache.
    Downloaded,
}

/// What the caller does next for a lookup.
#[derive(Debug)]
pub enum LookupAction {
    /// Find out whether this file exists.
    CheckExists(String),
    /// Look this name up on the search path.
    SearchPath(String),
    /// Install HandBrake with the system's package manager (the commands of
    /// `package_manager_installs`, in order, until one succeeds) and report
    /// where the binary is.
    InstallWithPackageManager(TargetOs),
    /// Download HandBrake into the cache.
    Download,
    /// The lookup is over: the binary's path, or why there is none.
    Done(Result<String, AppError>),
}

/// The step after the search-path names before `k` were not found: the
/// `k`-th name, or once all were tried, the cached binary for the platform
/// (or, where the platform has no download and so no cache, the package
/// manager).
pub open spec fn continues_from(k: int, cache_dir: Seq<char>, os: TargetOs, arch: TargetArch, r: (Lookup, LookupAction)) -> bool {
    if k < spec_system_names(os).len() {
        &&& r.0 == Lookup::SearchPath(k as usize)
        &&& r.1 matches LookupAction::SearchPath(n) && n@ == spec_system_names(os)[k]
    } else {
        match spec_platform_info(os, arch) {
            Ok(p) => {
                &&& r.0 == Lookup::Cached
                &&& r.1 matches LookupAction::CheckExists(c) && c@ == joined(cache_dir, p.1)
            },
            Err(m) => {
                &&& r.0 == Lookup::PackageManager
                &&& r.1 == LookupAction::InstallWithPackageManager(os)
            },
        }
    }
}

/// The package-manager installations tried on each system, in order, as
/// (program, arguments): Homebrew then MacPorts on macOS, Chocolatey on
/// Windows; on Linux apt, dnf, yum, pacman, zypper and apk with the
/// `handbrake-cli` package.
pub open spec fn spec_package_manager_installs(os: TargetOs) -> Seq<(Seq<char>, Seq<Seq<char>>)> {
    match os {
        TargetOs::MacOs => seq![
            ("brew"@, seq!["install"@, "handbrake"@]),
            ("sudo"@, seq!["port"@, "install"@, "HandBrake"@]),
        ],
        TargetOs::Windows => seq![("choco"@, seq!["install"@, "handbrake"@, "-y"@])],
        TargetOs::Linux => seq![
            ("sudo"@, seq!["apt"@, "install"@, "-y"@, "handbrake-cli"@]),
            ("sudo"@, seq!["dnf"@, "install"@, "-y"@, "handbrake-cli"@]),
            ("sudo"@, seq!["yum"@, "install"@, "-y"@, "handbrake-cli"@]),
            ("sudo"@, seq!["pacman"@, "-S"@, "--noconfirm"@, "handbrake-cli"@]),
            ("sudo"@, seq!["zypper"@, "install"@, "-y"@, "handbrake-cli"@]),
            ("sudo"@, seq!["apk"@, "add"@, "handbrake-cli"@]),
        ],
        TargetOs::Other => Seq::empty(),
    }
}

/// The commands as plain values.
pub open spec fn command_views(v: Seq<(String, Vec<String>)>) -> Seq<(Seq<char>, Seq<Seq<char>>)> {
    Seq::new(v.len(), |i: int| (v[i].0@, string_views(v[i].1@)))
}

fn command2(program: &str, a: &str, b: &str) -> (r: (String, Vec<String>))
    ensures
        r.0@ == program@,
        string_views(r.1@) == seq![a@, b@],
{
    let mut v: Vec<String> = Vec::new();
    v.push(owned(a));
    v.push(owned(b));
    assert(string_views(v@) =~= seq![a@, b@]);
    (owned(program), v)
}

fn command3(program: &str, a: &str, b: &str, c: &str) -> (r: (String, Vec<String>))
    ensures
        r.0@ == program@,
        string_views(r.1@) == seq![a@, b@, c@],
{
    let mut v: Vec<String> = Vec::new();
    v.push(owned(a));
    v.push(owned(b));
    v.push(owned(c));
    assert(string_views(v@) =~= seq![a@, b@, c@]);
    (owned(program), v)
}

fn command4(program: &str, a: &str, b: &str, c: &str, d: &str) -> (r: (String, Vec<String>))
    ensures
        r.0@ == program@,
        string_views(r.1@) == seq![a@, b@, c@, d@],
{
    let mut v: Vec<String> = Vec::new();
    v.push(owned(a));
    v.push(owned(b));
    v.push(owned(c));
    v.push(owned(d));
    assert(string_views(v@) =~= seq![a@, b@, c@, d@]);
    (owned(program), v)
}

/// The package-manager installations tried on `os`, in order.
pub fn package_manager_installs(os: TargetOs) -> (r: Vec<(String, Vec<String>)>)
    ensures
        command_views(r@) == spec_package_manager_installs(os),
{
    let mut v: Vec<(String, Vec<String>)> = Vec::new();
    match os {
        TargetOs::MacOs => {
            v.push(command2("brew", "install", "handbrake"));
            v.push(command3("sudo", "port", "install", "HandBrake"));
        },
        TargetOs::Windows => {
            v.push(command3("choco", "install", "handbrake", "-y"));
        },
        TargetOs::Linux => {
            v.push(command4("sudo", "apt", "install", "-y", "handbrake-cli"));
            v.push(command4("sudo", "dnf", "install", "-y", "handbrake-cli"));
            v.push(command4("sudo", "yum", "install", "-y", "handbrake-cli"));
            v.push(command4("sudo", "pacman", "-S", "--noconfirm", "handbrake-cli"));
            v.push(command4("sudo", "zypper", "install", "-y", "handbrake-cli"));
            v.push(command3("sudo", "apk", "add", "handbrake-cli"));
        },
        TargetOs::Other => {},
    }
    assert(command_views(v@) =~= spec_package_manager_installs(os));
    v
}

impl HandBrakeManager {
    fn continue_from(&self, k: usize, os: TargetOs, arch: TargetArch) -> (r: (Lookup, LookupAction))
        ensures
            continues_from(k as int, self.cache_dir@, os, arch, r),
    {
        let names = system_names(os);
        if k < names.len() {
            assert(string_views(names@)[k as int] == names@[k as int]@);
            return (Lookup::SearchPath(k), LookupAction::SearchPath(names[k].clone()));
        }
        match self.cached_binary_path(os, arch) {
            Ok(c) => (Lookup::Cached, LookupAction::CheckExists(c)),
            Err(_) => (Lookup::PackageManager, LookupAction::InstallWithPackageManager(os)),
        }
    }

    /// Starts a lookup: with a remembered binary, whether it still exists;
    /// otherwise the first search-path name.
    pub fn start_lookup(&self, os: TargetOs, arch: TargetArch) -> (r: (Lookup, LookupAction))
        ensures
            self.binary_path matches Some(p) ==> {
                &&& r.0 == Lookup::Remembered
                &&& r.1 matches LookupAction::CheckExists(c) && c == p
            },
            self.binary_path is None ==> continues_from(0, self.cache_dir@, os, arch, r),
    {
        match &self.binary_path {
            Some(p) => (Lookup::Remembered, LookupAction::CheckExists(p.clone())),
            None => self.continue_from(0, os, arch),
        }
    }

    /// The remembered binary exists or not: it is the answer, or it is
    /// forgotten and the search path is tried.
    pub fn on_remembered(&mut self, exists: bool, os: TargetOs, arch: TargetArch) -> (r: (Lookup, LookupAction))
        ensures
            final(self).cache_dir == old(self).cache_dir,
            exists && old(self).binary_path is Some ==> {
                &&& final(self).binary_path == old(self).binary_path
                &&& r.1 matches LookupAction::Done(Ok(p)) && Some(p) == old(self).binary_path
            },
            !(exists && old(self).binary_path is Some) ==> (final(self).binary_path is None && continues_from(
                0,
                old(self).cache_dir@,
                os,
                arch,
                r,
            )),
    {
        match self.remembered_path(exists) {
            Some(p) => (Lookup::Remembered, LookupAction::Done(Ok(p))),
            None => self.continue_from(0, os, arch),
        }
    }

    /// The `k`-th search-path name led to `found`, or nowhere: a binary found
    /// is remembered and is the answer; otherwise the next name is tried.
    pub fn on_search_path(&mut self, k: usize, found: Option<String>, os: TargetOs, arch: TargetArch) -> (r: (
        Lookup,
        LookupAction,
    ))
        ensures
            final(self).cache_dir == old(self).cache_dir,
            found matches Some(p) ==> {
                &&& final(self).binary_path == Some(p)
                &&& r.1 matches LookupAction::Done(Ok(q)) && q == p
            },
            found is None ==> (final(self).binary_path == old(self).binary_path && (k < usize::MAX ==> continues_from(
                k + 1,
                old(self).cache_dir@,
                os,
                arch,
                r,
            ))),
    {
        match found {
            Some(p) => {
                let q = self.remember(p);
                (Lookup::SearchPath(k), LookupAction::Done(Ok(q)))
            },
            None => {
                if k >= 3 {
                    self.continue_from(3, os, arch)
                } else {
                    self.continue_from(k + 1, os, arch)
                }
            },
        }
    }

    /// A binary downloaded earlier is in the cache or not: it is remembered
    /// and is the answer, or the package manager is tried.
    pub fn on_cached(&mut self, exists: bool, os: TargetOs, arch: TargetArch) -> (r: (Lookup, LookupAction))
        ensures
            final(self).cache_dir == old(self).cache_dir,
            !exists ==> {
                &&& r.0 == Lookup::PackageManager
                &&& r.1 == LookupAction::InstallWithPackageManager(os)
                &&& final(self).binary_path == old(self).binary_path
            },
            exists ==> match spec_platform_info(os, arch) {
                Ok(p) => r.1 matches LookupAction::Done(Ok(c)) && c@ == joined(old(self).cache_dir@, p.1)
                    && final(self).binary_path == Some(c),
                Err(m) => r.1 matches LookupAction::Done(Err(AppError::HandbrakeError(e))) && e@ == m
                    && final(self).binary_path == old(self).binary_path,
            },
    {
        if !exists {
            return (Lookup::PackageManager, LookupAction::InstallWithPackageManager(os));
        }
        match self.cached_binary_path(os, arch) {
            Ok(c) => {
                let q = self.remember(c);
                (Lookup::Cached, LookupAction::Done(Ok(q)))
            },
            Err(e) => (Lookup::Cached, LookupAction::Done(Err(e))),
        }
    }

    /// The package manager installed HandBrake at `installed`, or could not:
    /// an installed binary is remembered and is the answer; otherwise the
    /// download follows, or where the platform has none, its message is the
    /// answer.
    pub fn on_package_manager(&mut self, installed: Option<String>, os: TargetOs, arch: TargetArch) -> (r: (
        Lookup,
        LookupAction,
    ))
        ensures
            final(self).cache_dir == old(self).cache_dir,
            installed matches Some(p) ==> {
                &&& final(self).binary_path == Some(p)
                &&& r.1 matches LookupAction::Done(Ok(q)) && q == p
            },
            installed is None ==> final(self).binary_path == old(self).binary_path,
            installed is None ==> match spec_platform_info(os, arch) {
                Ok(_) => r.0 == Lookup::Downloading && r.1 is Download,
                Err(m) => r.1 matches LookupAction::Done(Err(AppError::HandbrakeError(e))) && e@ == m,
            },
    {
        match installed {
            Some(p) => {
                let q = self.remember(p);
                (Lookup::PackageManager, LookupAction::Done(Ok(q)))
            },
            None => match get_platform_info(os, arch) {
                Ok(_) => (Lookup::Downloading, LookupAction::Download),
                Err(e) => (Lookup::PackageManager, LookupAction::Done(Err(e))),
            },
        }
    }

    /// The download finished: its error is the answer; otherwise whether it
    /// left the binary in the cache is asked.
    pub fn on_download(&self, result: Result<(), AppError>, os: TargetOs, arch: TargetArch) -> (r: (
        Lookup,
        LookupAction,
    ))
        ensures
            result matches Err(e) ==> r.1 matches LookupAction::Done(Err(f)) && f == e,
            result is Ok ==> match spec_platform_info(os, arch) {
                Ok(p) => {
                    &&& r.0 == Lookup::Downloaded
                    &&& r.1 matches LookupAction::CheckExists(c) && c@ == joined(self.cache_dir@, p.1)
                },
                Err(m) => r.1 matches LookupAction::Done(Err(AppError::HandbrakeError(e))) && e@ == m,
            },
    {
        match result {
            Err(e) => (Lookup::Downloading, LookupAction::Done(Err(e))),
            Ok(()) => match self.cached_binary_path(os, arch) {
                Ok(c) => (Lookup::Downloaded, LookupAction::CheckExists(c)),
                Err(e) => (Lookup::Downloaded, LookupAction::Done(Err(e))),
            },
        }
    }
}

/// The kind of package a platform's download comes in.
#[derive(Debug, Clone, Copy, PartialEq, Eq, Structural)]
pub enum PackageKind {
    DiskImage,
    Zip,
}

/// How a downloaded package is opened: a disk image on macOS, a zip archive on
/// Windows; elsewhere nothing is downloaded.
pub fn package_kind(os: TargetOs) -> (r: Result<PackageKind, AppError>)
    ensures
        os == TargetOs::MacOs ==> r == Ok::<PackageKind, AppError>(PackageKind::DiskImage),
        os == TargetOs::Windows ==> r == Ok::<PackageKind, AppError>(PackageKind::Zip),
        os != TargetOs::MacOs && os != TargetOs::Windows ==> (r matches Err(AppError::HandbrakeError(m))
            && m@ == "Automatic HandBrake download not supported on this platform. Please install HandBrake manually."@),
{
    match os {
        TargetOs::MacOs => Ok(PackageKind::DiskImage),
        TargetOs::Windows => Ok(PackageKind::Zip),
        _ => Err(AppError::HandbrakeError(owned(
            "Automatic HandBrake download not supported on this platform. Please install HandBrake manually.",
        ))),
    }
}

/// An entry of the zip archive is the HandBrake binary when its name ends in
/// `HandBrake.exe` or in the platform's binary name.
pub fn is_binary_entry(file_name: &str, binary_name: &str) -> (r: bool)
    ensures
        r == (ends_with(file_name@, "HandBrake.exe"@) || ends_with(file_name@, binary_name@)),
{
    let f = chars_of(file_name);
    let exe = chars_of("HandBrake.exe");
    let b = chars_of(binary_name);
    has_suffix(f.as_slice(), exe.as_slice()) || has_suffix(f.as_slice(), b.as_slice())
}

/// The error when no entry of the archive is the binary.
pub fn missing_from_archive(binary_name: &str) -> (r: AppError)
    ensures
        r matches AppError::HandbrakeError(m) && m@
            == "HandBrake executable not found in downloaded archive. Looking for: "@ + binary_name@,
{
    let mut m = owned("HandBrake executable not found in downloaded archive. Looking for: ");
    push_str(&mut m, binary_name);
    AppError::HandbrakeError(m)
}

/// The mount point `hdiutil attach` reports, from line `i` on: the third field
/// of the first line with at least three fields whose first field starts with
/// `/dev/disk`.
pub open spec fn attach_match(lines: Seq<Seq<char>>, i: int) -> Option<Seq<char>>
    decreases lines.len() - i,
{
    if i < 0 || i >= lines.len() {
        None
    } else {
        let f = words(lines[i]);
        if f.len() >= 3 && starts_with(f[0], "/dev/disk"@) {
            Some(f[2])
        } else {
            attach_match(lines, i + 1)
        }
    }
}

/// Reads where the disk image was mounted from the output of `hdiutil attach`.
pub fn dmg_mount_point(mount_info: &str) -> (r: Result<String, AppError>)
    ensures
        attach_match(lines_of(mount_info@), 0) matches Some(m) ==> (r matches Ok(p) && p@ == m),
        attach_match(lines_of(mount_info@), 0) is None ==> (r matches Err(AppError::HandbrakeError(m))
            && m@ == "Could not determine mount point"@),
{
    let text = chars_of(mount_info);
    let lines = lines_chars(text.as_slice());
    let disk = chars_of("/dev/disk");
    let ghost ls = lines_of(mount_info@);
    let mut i: usize = 0;
    while i < lines.len()
        invariant
            views(lines@) == ls,
            ls == lines_of(mount_info@),
            disk@ == "/dev/disk"@,
            attach_match(ls, 0) == attach_match(ls, i as int),
        decreases lines@.len() - i,
    {
        let fields = split_words(lines[i].as_slice());
        proof {
            assert(ls[i as int] == lines@[i as int]@);
        }
        if fields.len() >= 3 && has_prefix(fields[0].as_slice(), disk.as_slice()) {
            proof {
                assert(views(fields@)[0] == fields@[0]@);
                assert(views(fields@)[2] == fields@[2]@);
            }
            return Ok(string_from_chars(fields[2].as_slice()));
        }
        proof {
            if views(fields@).len() >= 3 {
                assert(views(fields@)[0] == fields@[0]@);
            }
        }
        i = i + 1;
    }
    Err(AppError::HandbrakeError(owned("Could not determine mount point")))
}

/// A directory entry of the mounted image is the HandBrake application when
/// its lowercase name contains `handbrake` and its name ends in `.app`.
pub fn is_handbrake_app(name: &str) -> (r: bool)
    ensures
        r == (contains_seq(unicode_lowercase(name@), "handbrake"@) && ends_with(name@, ".app"@)),
{
    let lower = to_lowercase(name);
    let l = chars_of(lower.as_str());
    let hb = chars_of("handbrake");
    let n = chars_of(name);
    let app = chars_of(".app");
    contains_chars(l.as_slice(), hb.as_slice()) && has_suffix(n.as_slice(), app.as_slice())
}

/// The places inside the application bundle where the command-line tool is
/// looked for, in order.
pub open spec fn spec_cli_candidates(app_path: Seq<char>) -> Seq<Seq<char>> {
    seq![
        joined(app_path, "Contents/MacOS/HandBrakeCLI"@),
        joined(app_path, "Contents/Resources/HandBrakeCLI"@),
        joined(app_path, "HandBrakeCLI"@),
        joined(app_path, "Contents/MacOS/HandBrake"@),
    ]
}

/// The places inside the application bundle where the tool is looked for.
pub fn cli_candidates(app_path: &str) -> (r: Vec<String>)
    ensures
        string_views(r@) == spec_cli_candidates(app_path@),
{
    let mut v: Vec<String> = Vec::new();
    v.push(join_path(app_path, "Contents/MacOS/HandBrakeCLI"));
    v.push(join_path(app_path, "Contents/Resources/HandBrakeCLI"));
    v.push(join_path(app_path, "HandBrakeCLI"));
    v.push(join_path(app_path, "Contents/MacOS/HandBrake"));
    assert(string_views(v@) =~= spec_cli_candidates(app_path@));
    v
}

/// The error when the tool is in none of the places looked at.
pub fn cli_not_found(app_path: &str, tried: &Vec<String>) -> (r: AppError)
    ensures
        r matches AppError::HandbrakeError(m) && m@ == "HandBrakeCLI not found in any expected locations within "@
            + app_path@ + ". Tried: "@ + join(string_views(tried@), ", "@),
{
    let mut parts: Vec<Vec<char>> = Vec::new();
    let mut k: usize = 0;
    while k < tried.len()
        invariant
            k <= tried@.len(),
            parts@.len() == k,
            forall|j: int| 0 <= j < k ==> (#[trigger] parts@[j])@ == tried@[j]@,
        decreases tried@.len() - k,
    {
        parts.push(chars_of(tried[k].as_str()));
        k = k + 1;
    }
    assert(views(parts@) =~= string_views(tried@));
    let sep = chars_of(", ");
    let listed = crate::text::join_chars(&parts, sep.as_slice());
    let mut m = owned("HandBrakeCLI not found in any expected locations within ");
    push_str(&mut m, app_path);
    push_str(&mut m, ". Tried: ");
    push_str(&mut m, listed.as_str());
    AppError::HandbrakeError(m)
}

/// The version text of a successful `--version` run: standard output, trimmed,
/// or the trimmed error output when standard output is blank (HandBrakeCLI
/// often reports its version there).
pub fn version_info(stdout: &str, stderr: &str) -> (r: String)
    ensures
        r@ == spec_version_info(stdout@, stderr@),
{
    let o = chars_of(stdout);
    let t = trim_chars(o.as_slice());
    if t.len() > 0 {
        string_from_chars(t.as_slice())
    } else {
        let e = chars_of(stderr);
        let te = trim_chars(e.as_slice());
        string_from_chars(te.as_slice())
    }
}

/// Why a `--version` run that did not succeed failed. `status` is the exit
/// status as the system prints it; `signalled` says that the process was
/// ended by a signal; `binary_debug` is the binary's path as `{:?}` prints it.
pub open spec fn spec_run_failure(
    status: Seq<char>,
    signalled: bool,
    os: TargetOs,
    binary_debug: Seq<char>,
    stderr: Seq<char>,
) -> Seq<char> {
    if !signalled {
        "HandBrake failed to execute properly. Exit code: "@ + status + ", stderr: "@ + stderr
    } else if os == TargetOs::MacOs {
        "HandBrake was terminated by macOS Gatekeeper ("@ + status + gatekeeper_advice_head() + binary_debug
            + gatekeeper_advice_tail() + stderr
    } else {
        "HandBrake was terminated by the system ("@ + status + "). stderr: "@ + stderr
    }
}

/// The first part of the advice given when macOS blocks the binary, up to the
/// command the user should run.
pub open spec fn gatekeeper_advice_head() -> Seq<char> {
    "). Automatic security fixes were attempted.\n\n⚠️  ACTION REQUIRED: macOS is still blocking this unsigned binary.\n\nThe application automatically tried to fix this, but manual intervention may be needed:\n\n1. Try running the application again (sometimes it takes a moment)\n2. If still blocked, manually run this command:\n"@
}

/// The rest of that advice, after the command.
pub open spec fn gatekeeper_advice_tail() -> Seq<char> {
    " --version\n3. Then go to System Settings > Privacy & Security\n4. Look for 'HandBrakeCLI was blocked' message\n5. Click 'Allow Anyway' next to the message\n6. Try running the application again\n\nThe app tried these automatic fixes:\n- Removed quarantine attributes\n- Attempted to open Security preferences\n- Set appropriate file permissions\n\nstderr: "@
}

/// The error for a `--version` run that did not succeed.
pub fn run_failure(status: &str, signalled: bool, os: TargetOs, binary_debug: &str, stderr: &str) -> (r: AppError)
    ensures
        r matches AppError::HandbrakeError(m) && m@ == spec_run_failure(status@, signalled, os, binary_debug@, stderr@),
{
    let mut m;
    if !signalled {
        m = owned("HandBrake failed to execute properly. Exit code: ");
        push_str(&mut m, status);
        push_str(&mut m, ", stderr: ");
    } else if os == TargetOs::MacOs {
        m = owned("HandBrake was terminated by macOS Gatekeeper (");
        push_str(&mut m, status);
        push_str(
            &mut m,
            "). Automatic security fixes were attempted.\n\n⚠️  ACTION REQUIRED: macOS is still blocking this unsigned binary.\n\nThe application automatically tried to fix this, but manual intervention may be needed:\n\n1. Try running the application again (sometimes it takes a moment)\n2. If still blocked, manually run this command:\n",
        );
        push_str(&mut m, binary_debug);
        push_str(
            &mut m,
            " --version\n3. Then go to System Settings > Privacy & Security\n4. Look for 'HandBrakeCLI was blocked' message\n5. Click 'Allow Anyway' next to the message\n6. Try running the application again\n\nThe app tried these automatic fixes:\n- Removed quarantine attributes\n- Attempted to open Security preferences\n- Set appropriate file permissions\n\nstderr: ",
        );
    } else {
        m = owned("HandBrake was terminated by the system (");
        push_str(&mut m, status);
        push_str(&mut m, "). stderr: ");
    }
    push_str(&mut m, stderr);
    AppError::HandbrakeError(m)
}

/// The script that asks for the administrator password to remove the
/// quarantine attribute from the binary.
pub fn quarantine_script(binary_path: &str) -> (r: String)
    ensures
        r@ == "do shell script \"xattr -d com.apple.quarantine '"@ + binary_path@
            + "'\" with administrator privileges"@,
{
    let mut s = owned("do shell script \"xattr -d com.apple.quarantine '");
    push_str(&mut s, binary_path);
    push_str(&mut s, "'\" with administrator privileges");
    s
}

/// Whether the quarantine attribute is gone after the elevated removal ran: it
/// is when the script succeeded or reported the attribute missing, and not when
/// the user cancelled or anything else went wrong.
pub fn quarantine_removed(success: bool, stderr: &str) -> (r: bool)
    ensures
        r == (success || (!contains_seq(stderr@, "User canceled"@)
            && contains_seq(stderr@, "No such xattr: com.apple.quarantine"@))),
{
    if success {
        return true;
    }
    let e = chars_of(stderr);
    let cancel = chars_of("User canceled");
    if contains_chars(e.as_slice(), cancel.as_slice()) {
        return false;
    }
    let missing = chars_of("No such xattr: com.apple.quarantine");
    contains_chars(e.as_slice(), missing.as_slice())
}

/// The permission bits with read, write and execute added for the owner.
pub fn owner_executable_mode(mode: u32) -> (r: u32)
    ensures
        r == mode | 0o700u32,
{
    mode | 0o700u32
}

/// The total size of the files in the cache, given each file's size.
pub open spec fn total_size(sizes: Seq<u64>) -> int
    decreases sizes.len(),
{
    if sizes.len() == 0 {
        0
    } else {
        total_size(sizes.drop_last()) + sizes.last()
    }
}

/// Adds up the sizes of the files in the cache.
pub fn cache_size(sizes: &Vec<u64>) -> (r: u64)
    requires
        total_size(sizes@) <= u64::MAX,
    ensures
        r == total_size(sizes@),
{
    let mut total: u64 = 0;
    let mut k: usize = 0;
    while k < sizes.len()
        invariant
            k <= sizes@.len(),
            total == total_size(sizes@.take(k as int)),
            total_size(sizes@) <= u64::MAX,
        decreases sizes@.len() - k,
    {
        assert(sizes@.take(k + 1).drop_last() =~= sizes@.take(k as int));
        proof {
            lemma_total_size_prefix(sizes@, k + 1);
        }
        total = total + sizes[k];
        k = k + 1;
    }
    assert(sizes@.take(sizes@.len() as int) =~= sizes@);
    total
}

proof fn lemma_total_size_prefix(s: Seq<u64>, k: int)
    requires
        0 <= k <= s.len(),
    ensures
        total_size(s.take(k)) <= total_size(s),
    decreases s.len() - k,
{
    if k < s.len() {
        lemma_total_size_prefix(s, k + 1);
        assert(s.take(k + 1).drop_last() =~= s.take(k));
    } else {
        assert(s.take(k) =~= s);
    }
}

/// The number of entries `zip::ZipArchive::new` finds in the bytes, or none
/// when it cannot read them as an archive.
pub uninterp spec fn zip_entry_count_of(archive: Seq<u8>) -> Option<nat>;

/// The name of entry `i` as `ZipArchive::by_index(i)` opens it, or none when
/// the archive or the entry cannot be opened.
pub uninterp spec fn zip_entry_name_of(archive: Seq<u8>, i: nat) -> Option<Seq<char>>;

/// The bytes read from entry `i` to its end, or none when opening or reading
/// (decompressing) it fails.
pub uninterp spec fn zip_entry_data_of(archive: Seq<u8>, i: nat) -> Option<Seq<u8>>;

/// `zip::ZipArchive::new` over the bytes, then `len`: the entry count is the
/// crate's reading of the bytes alone.
#[verifier::external_body]
fn zip_entry_count(archive: &[u8]) -> (r: Option<usize>)
    ensures
        r matches Some(n) ==> zip_entry_count_of(archive@) == Some(n as nat),
        r is None ==> zip_entry_count_of(archive@) is None,
{
    zip::ZipArchive::new(std::io::Cursor::new(archive)).ok().map(|a| a.len())
}

/// `ZipArchive::by_index(index)` and `ZipFile::name`: the entry's name as the
/// crate reads it from the bytes.
#[verifier::external_body]
fn zip_entry_name(archive: &[u8], index: usize) -> (r: Option<String>)
    ensures
        r matches Some(n) ==> zip_entry_name_of(archive@, index as nat) == Some(n@),
        r is None ==> zip_entry_name_of(archive@, index as nat) is None,
{
    let mut a = zip::ZipArchive::new(std::io::Cursor::new(archive)).ok()?;
    let f = a.by_index(index).ok()?;
    Some(f.name().to_string())
}

/// `ZipArchive::by_index(index)` read to its end: the entry's contents as the
/// crate decompresses them from the bytes.
#[verifier::external_body]
fn zip_entry_data(archive: &[u8], index: usize) -> (r: Option<Vec<u8>>)
    ensures
        r matches Some(d) ==> zip_entry_data_of(archive@, index as nat) == Some(d@),
        r is None ==> zip_entry_data_of(archive@, index as nat) is None,
{
    let mut a = zip::ZipArchive::new(std::io::Cursor::new(archive)).ok()?;
    let mut f = a.by_index(index).ok()?;
    let mut v: Vec<u8> = Vec::new();
    std::io::Read::read_to_end(&mut f, &mut v).ok()?;
    Some(v)
}

/// Which archive entry holds the binary, given the entries' names in order
/// (none for an entry that cannot be opened), from entry `i` on: the first
/// entry whose name marks it as the binary; an entry that cannot be opened
/// before that is an error, and so is finding none.
pub open spec fn entry_choice(names: Seq<Option<Seq<char>>>, binary_name: Seq<char>, i: int) -> Result<int, Seq<char>>
    decreases names.len() - i,
{
    if i < 0 || i >= names.len() {
        Err("HandBrake executable not found in downloaded archive. Looking for: "@ + binary_name)
    } else {
        match names[i] {
            None => Err("Failed to access file "@ + decimal_digits(i as nat) + " in archive"@),
            Some(n) => if ends_with(n, "HandBrake.exe"@) || ends_with(n, binary_name) {
                Ok(i)
            } else {
                entry_choice(names, binary_name, i + 1)
            },
        }
    }
}

/// The names of entries as plain values.
pub open spec fn name_views(names: Seq<Option<String>>) -> Seq<Option<Seq<char>>> {
    Seq::new(
        names.len(),
        |k: int|
            match names[k] {
                Some(s) => Some(s@),
                None => None,
            },
    )
}

/// Finds the archive entry that holds the binary.
pub fn binary_entry_index(names: &Vec<Option<String>>, binary_name: &str) -> (r: Result<usize, AppError>)
    ensures
        r matches Ok(i) ==> entry_choice(name_views(names@), binary_name@, 0) == Ok::<int, Seq<char>>(i as int),
        r matches Err(e) ==> (e matches AppError::HandbrakeError(m) && entry_choice(name_views(names@), binary_name@, 0)
            == Err::<int, Seq<char>>(m@)),
{
    let ghost nv = name_views(names@);
    let mut i: usize = 0;
    while i < names.len()
        invariant
            i <= names@.len(),
            nv == name_views(names@),
            entry_choice(nv, binary_name@, 0) == entry_choice(nv, binary_name@, i as int),
        decreases names@.len() - i,
    {
        match &names[i] {
            None => {
                let mut m = owned("Failed to access file ");
                push_decimal(&mut m, i as u64);
                push_str(&mut m, " in archive");
                return Err(AppError::HandbrakeError(m));
            },
            Some(n) => {
                assert(nv[i as int] == Some(n@));
                if is_binary_entry(n.as_str(), binary_name) {
                    return Ok(i);
                }
            },
        }
        i = i + 1;
    }
    Err(missing_from_archive(binary_name))
}

/// What extracting the binary from a downloaded zip gives: the entry's bytes,
/// or the message of what failed.
pub open spec fn spec_extract_from_zip(archive: Seq<u8>, binary_name: Seq<char>) -> Result<Seq<u8>, Seq<char>> {
    match zip_entry_count_of(archive) {
        None => Err("Failed to open ZIP archive"@),
        Some(n) => {
            let names = Seq::new(n, |k: int| zip_entry_name_of(archive, k as nat));
            match entry_choice(names, binary_name, 0) {
                Err(m) => Err(m),
                Ok(i) => match zip_entry_data_of(archive, i as nat) {
                    Some(d) => Ok(d),
                    None => Err("Failed to extract HandBrake executable"@),
                },
            }
        },
    }
}

/// Takes the HandBrake binary out of a downloaded zip archive.
pub fn extract_from_zip(archive: &[u8], binary_name: &str) -> (r: Result<Vec<u8>, AppError>)
    ensures
        r matches Ok(d) ==> spec_extract_from_zip(archive@, binary_name@) == Ok::<Seq<u8>, Seq<char>>(d@),
        r matches Err(e) ==> (e matches AppError::HandbrakeError(m) && spec_extract_from_zip(archive@, binary_name@)
            == Err::<Seq<u8>, Seq<char>>(m@)),
{
    let n = match zip_entry_count(archive) {
        Some(n) => n,
        None => {
            return Err(AppError::HandbrakeError(owned("Failed to open ZIP archive")));
        },
    };
    let ghost all = Seq::new(n as nat, |k: int| zip_entry_name_of(archive@, k as nat));
    let mut names: Vec<Option<String>> = Vec::new();
    let mut k: usize = 0;
    while k < n
        invariant
            k <= n,
            zip_entry_count_of(archive@) == Some(n as nat),
            all == Seq::new(n as nat, |j: int| zip_entry_name_of(archive@, j as nat)),
            names@.len() == k,
            name_views(names@) == all.take(k as int),
        decreases n - k,
    {
        let name = zip_entry_name(archive, k);
        let ghost nv = match name {
            Some(ref s) => Some(s@),
            None => None,
        };
        assert(nv == zip_entry_name_of(archive@, k as nat));
        assert(all[k as int] == nv);
        let ghost before = names@;
        names.push(name);
        assert(name_views(names@)[k as int] == nv);
        assert forall|j: int| 0 <= j < k implies name_views(names@)[j] == name_views(before)[j] by {
            assert(names@[j] == before[j]);
        }
        assert(name_views(names@) =~= all.take(k + 1));
        k = k + 1;
    }
    assert(all.take(n as int) =~= all);
    let i = binary_entry_index(&names, binary_name)?;
    match zip_entry_data(archive, i) {
        Some(d) => Ok(d),
        None => Err(AppError::HandbrakeError(owned("Failed to extract HandBrake executable"))),
    }
}

/// The SHA-256 digest of the bytes as lowercase hexadecimal, as `sha2`
/// computes it.
pub uninterp spec fn sha256_hex_of(data: Seq<u8>) -> Seq<char>;

/// `sha2::Sha256::digest` printed with `{:x}`: the digest depends on the
/// bytes alone.
#[verifier::external_body]
fn sha256_hex(data: &[u8]) -> (r: String)
    ensures
        r@ == sha256_hex_of(data@),
{
    format!("{:x}", <sha2::Sha256 as sha2::Digest>::digest(data))
}

/// Whether the downloaded bytes match the published checksum, given their
/// digest: with no checksum there is nothing to check.
pub fn checksum_outcome(expected: &Option<String>, actual_hex: &str) -> (r: Result<(), AppError>)
    ensures
        expected is None ==> r is Ok,
        expected matches Some(e) ==> (e@ == actual_hex@ ==> r is Ok),
        expected matches Some(e) ==> (e@ != actual_hex@ ==> (r matches Err(AppError::HandbrakeError(m)) && m@
            == "Checksum verification failed. Expected: "@ + e@ + ", Got: "@ + actual_hex@)),
{
    match expected {
        None => Ok(()),
        Some(e) => {
            if str_equal(e.as_str(), actual_hex) {
                Ok(())
            } else {
                let mut m = owned("Checksum verification failed. Expected: ");
                push_str(&mut m, e.as_str());
                push_str(&mut m, ", Got: ");
                push_str(&mut m, actual_hex);
                Err(AppError::HandbrakeError(m))
            }
        },
    }
}

/// Checks downloaded bytes against the published checksum, if there is one.
pub fn verify_checksum(expected: &Option<String>, data: &[u8]) -> (r: Result<(), AppError>)
    ensures
        expected is None ==> r is Ok,
        expected matches Some(e) ==> (e@ == sha256_hex_of(data@) <==> r is Ok),
        expected matches Some(e) ==> (e@ != sha256_hex_of(data@) ==> (r matches Err(AppError::HandbrakeError(m))
            && m@ == "Checksum verification failed. Expected: "@ + e@ + ", Got: "@ + sha256_hex_of(data@))),
{
    match expected {
        None => Ok(()),
        Some(_) => {
            let actual = sha256_hex(data);
            checksum_outcome(expected, actual.as_str())
        },
    }
}

} // verus!
