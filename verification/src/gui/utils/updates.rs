//! Update checks against the project's published releases: version comparison,
//! choice of download, changelog formatting and the check schedule.

use vstd::prelude::*;
use crate::platform::{TargetArch, TargetOs};
use crate::text::{
    chars_of, contains_chars, contains_seq, has_prefix, join, join_chars, lines_chars, lines_of,
    owned, parse_unsigned, push_chars, push_repeat, push_str, repeat_char, split_chars, split_on,
    starts_with, strip_leading, to_lowercase, trim, trim_chars, trim_start_char,
    trim_start_matches_char, unicode_lowercase, unsigned_from_str, views, char_test, slice_range,
    strip_trailing, whitespace_test, bullet_test, trim_start_bullets,
};

verus! {

/// GitHub release information
#[derive(Debug, Clone)]
pub struct GitHubRelease {
    pub tag_name: String,
    pub name: String,
    pub body: String,
    pub html_url: String,
    pub assets: Vec<GitHubAsset>,
    pub published_at: String,
    pub prerelease: bool,
    pub draft: bool,
}

/// GitHub release asset
#[derive(Debug, Clone)]
pub struct GitHubAsset {
    pub name: String,
    pub browser_download_url: String,
    pub size: u64,
    pub content_type: String,
}

/// Update check result
#[derive(Debug, Clone)]
pub enum UpdateCheckResult {
    UpToDate,
    UpdateAvailable { version: String, download_url: String, changelog: String },
    Error(String),
}

// ---------------------------------------------------------------------------
// Version comparison

/// The dot-separated parts that read as `u32` numbers; the others are skipped.
pub open spec fn numeric_parts(parts: Seq<Seq<char>>) -> Seq<u32>
    decreases parts.len(),
{
    if parts.len() == 0 {
        Seq::empty()
    } else {
        let rest = numeric_parts(parts.drop_last());
        match unsigned_from_str(parts.last(), u32::MAX as nat) {
            Some(v) => rest.push(v as u32),
            None => rest,
        }
    }
}

/// The numbers of a dotted version string.
pub open spec fn version_numbers(s: Seq<char>) -> Seq<u32> {
    numeric_parts(split_on(s, '.'))
}

/// The `i`-th number, zero past the end.
pub open spec fn part_or_zero(p: Seq<u32>, i: int) -> u32 {
    if 0 <= i < p.len() {
        p[i]
    } else {
        0
    }
}

/// The longer of the two lengths.
pub open spec fn longest(a: Seq<u32>, b: Seq<u32>) -> int {
    if a.len() >= b.len() {
        a.len() as int
    } else {
        b.len() as int
    }
}

/// Compared from position `i` on, `latest` is ahead of `current` at the first
/// position where they differ (missing numbers count as zero).
pub open spec fn ahead_from(current: Seq<u32>, latest: Seq<u32>, i: int) -> bool
    decreases longest(current, latest) - i,
{
    if i < 0 || i >= longest(current, latest) {
        false
    } else if part_or_zero(latest, i) > part_or_zero(current, i) {
        true
    } else if part_or_zero(latest, i) < part_or_zero(current, i) {
        false
    } else {
        ahead_from(current, latest, i + 1)
    }
}

/// The dotted version `latest` is newer than `current`.
pub open spec fn spec_is_newer_version(current: Seq<char>, latest: Seq<char>) -> bool {
    ahead_from(version_numbers(current), version_numbers(latest), 0)
}

fn parse_version_numbers(s: &str) -> (r: Vec<u32>)
    ensures
        r@ == version_numbers(s@),
{
    let cs = chars_of(s);
    let parts = split_chars(cs.as_slice(), '.');
    let mut out: Vec<u32> = Vec::new();
    let mut i: usize = 0;
    while i < parts.len()
        invariant
            i <= parts@.len(),
            views(parts@) == split_on(s@, '.'),
            out@ == numeric_parts(views(parts@).take(i as int)),
        decreases parts@.len() - i,
    {
        assert(views(parts@).take(i + 1).drop_last() =~= views(parts@).take(i as int));
        assert(views(parts@).take(i + 1).last() == parts@[i as int]@);
        match parse_unsigned(parts[i].as_slice(), u32::MAX as u64) {
            Some(v) => out.push(v as u32),
            None => {},
        }
        i = i + 1;
    }
    assert(views(parts@).take(parts@.len() as int) =~= views(parts@));
    out
}

/// Compares two dotted version strings number by number.
pub fn is_newer_version(current: &str, latest: &str) -> (r: bool)
    ensures
        r == spec_is_newer_version(current@, latest@),
{
    let c = parse_version_numbers(current);
    let l = parse_version_numbers(latest);
    let max_len = if c.len() >= l.len() { c.len() } else { l.len() };
    let mut i: usize = 0;
    while i < max_len
        invariant
            max_len == longest(c@, l@),
            i <= max_len,
            c@ == version_numbers(current@),
            l@ == version_numbers(latest@),
            ahead_from(c@, l@, 0) == ahead_from(c@, l@, i as int),
        decreases max_len - i,
    {
        let cp = if i < c.len() { c[i] } else { 0 };
        let lp = if i < l.len() { l[i] } else { 0 };
        if lp > cp {
            return true;
        } else if lp < cp {
            return false;
        }
        i = i + 1;
    }
    false
}

proof fn lemma_ahead_irreflexive(a: Seq<u32>, i: int)
    ensures
        !ahead_from(a, a, i),
    decreases longest(a, a) - i,
{
    if 0 <= i < longest(a, a) {
        lemma_ahead_irreflexive(a, i + 1);
    }
}

proof fn lemma_ahead_asymmetric(a: Seq<u32>, b: Seq<u32>, i: int)
    ensures
        !(ahead_from(a, b, i) && ahead_from(b, a, i)),
    decreases longest(a, b) - i,
{
    assert(longest(a, b) == longest(b, a));
    if 0 <= i < longest(a, b) {
        lemma_ahead_asymmetric(a, b, i + 1);
    }
}

proof fn lemma_ahead_transitive(a: Seq<u32>, b: Seq<u32>, c: Seq<u32>, i: int)
    requires
        i >= 0,
        ahead_from(a, b, i),
        ahead_from(b, c, i),
    ensures
        ahead_from(a, c, i),
    decreases longest(a, b) - i,
{
    let pa = part_or_zero(a, i);
    let pb = part_or_zero(b, i);
    let pc = part_or_zero(c, i);
    if pb == pa && pc == pb {
        lemma_ahead_transitive(a, b, c, i + 1);
        if i >= longest(a, c) {
            assert(!ahead_from(a, c, i + 1));
        }
    } else {
        assert(pc > pa);
        assert(i < c.len());
    }
}

/// No version is newer than itself, of two versions at most one is newer
/// than the other, and a version newer than one newer than `a` is newer than
/// `a`: "newer" is a strict order.
pub proof fn lemma_newer_version_is_strict(a: Seq<char>, b: Seq<char>, c: Seq<char>)
    ensures
        !spec_is_newer_version(a, a),
        !(spec_is_newer_version(a, b) && spec_is_newer_version(b, a)),
        spec_is_newer_version(a, b) && spec_is_newer_version(b, c) ==> spec_is_newer_version(a, c),
{
    lemma_ahead_irreflexive(version_numbers(a), 0);
    lemma_ahead_asymmetric(version_numbers(a), version_numbers(b), 0);
    if spec_is_newer_version(a, b) && spec_is_newer_version(b, c) {
        lemma_ahead_transitive(version_numbers(a), version_numbers(b), version_numbers(c), 0);
    }
}

// ---------------------------------------------------------------------------
// Choice of download

/// The lowercased asset name fits the operating system.
pub open spec fn name_fits_os(name: Seq<char>, os: TargetOs) -> bool {
    match os {
        TargetOs::Windows => contains_seq(name, "windows"@) || contains_seq(name, "win"@)
            || crate::text::ends_with(name, ".exe"@),
        TargetOs::MacOs => contains_seq(name, "macos"@) || contains_seq(name, "darwin"@)
            || contains_seq(name, "osx"@),
        TargetOs::Linux => contains_seq(name, "linux"@) || contains_seq(name, "gnu"@),
        TargetOs::Other => false,
    }
}

/// The lowercased asset name fits the architecture.
pub open spec fn name_fits_arch(name: Seq<char>, arch: TargetArch) -> bool {
    match arch {
        TargetArch::X86_64 => contains_seq(name, "x64"@) || contains_seq(name, "x86_64"@)
            || contains_seq(name, "amd64"@),
        TargetArch::Aarch64 => contains_seq(name, "arm64"@) || contains_seq(name, "aarch64"@),
        TargetArch::Other => true,
    }
}

/// The asset is a download for this platform.
pub open spec fn asset_fits(asset: GitHubAsset, os: TargetOs, arch: TargetArch) -> bool {
    name_fits_os(unicode_lowercase(asset.name@), os) && name_fits_arch(
        unicode_lowercase(asset.name@),
        arch,
    )
}

fn contains_lit(s: &[char], lit: &str) -> (r: bool)
    ensures
        r == contains_seq(s@, lit@),
{
    let p = chars_of(lit);
    contains_chars(s, p.as_slice())
}

fn fits_os(name: &[char], os: TargetOs) -> (r: bool)
    ensures
        r == name_fits_os(name@, os),
{
    match os {
        TargetOs::Windows => {
            let exe = chars_of(".exe");
            contains_lit(name, "windows") || contains_lit(name, "win")
                || crate::text::has_suffix(name, exe.as_slice())
        },
        TargetOs::MacOs => contains_lit(name, "macos") || contains_lit(name, "darwin")
            || contains_lit(name, "osx"),
        TargetOs::Linux => contains_lit(name, "linux") || contains_lit(name, "gnu"),
        TargetOs::Other => false,
    }
}

fn fits_arch(name: &[char], arch: TargetArch) -> (r: bool)
    ensures
        r == name_fits_arch(name@, arch),
{
    match arch {
        TargetArch::X86_64 => contains_lit(name, "x64") || contains_lit(name, "x86_64")
            || contains_lit(name, "amd64"),
        TargetArch::Aarch64 => contains_lit(name, "arm64") || contains_lit(name, "aarch64"),
        TargetArch::Other => true,
    }
}

/// The download URL of the first asset made for this platform.
pub fn find_download_url_for_platform(assets: &[GitHubAsset], os: TargetOs, arch: TargetArch) -> (r:
    Option<String>)
    ensures
        r matches Some(url) ==> exists|i: int|
            0 <= i < assets@.len() && asset_fits(#[trigger] assets@[i], os, arch)
                && url@ == assets@[i].browser_download_url@ && forall|j: int|
                0 <= j < i ==> !asset_fits(#[trigger] assets@[j], os, arch),
        r is None ==> forall|i: int| 0 <= i < assets@.len() ==> !asset_fits(#[trigger] assets@[i], os, arch),
{
    let mut i: usize = 0;
    while i < assets.len()
        invariant
            i <= assets@.len(),
            forall|j: int| 0 <= j < i ==> !asset_fits(#[trigger] assets@[j], os, arch),
        decreases assets@.len() - i,
    {
        let lower = to_lowercase(assets[i].name.as_str());
        let name = chars_of(lower.as_str());
        if fits_os(name.as_slice(), os) && fits_arch(name.as_slice(), arch) {
            let url = owned(assets[i].browser_download_url.as_str());
            assert(asset_fits(assets@[i as int], os, arch));
            return Some(url);
        }
        i = i + 1;
    }
    None
}

/// Decides what the latest release means for the running version `current`.
pub fn evaluate_latest_release(
    release: &GitHubRelease,
    current: &str,
    os: TargetOs,
    arch: TargetArch,
) -> (r: UpdateCheckResult)
    ensures
        r is UpToDate || r is UpdateAvailable,
        release.draft || release.prerelease ==> r is UpToDate,
        r is UpToDate <==> (release.draft || release.prerelease || !spec_is_newer_version(
            current@,
            trim_start_char(release.tag_name@, 'v'),
        )),
        r matches UpdateCheckResult::UpdateAvailable { version, download_url, changelog } ==> {
            &&& version@ == trim_start_char(release.tag_name@, 'v')
            &&& changelog@ == release.body@
            &&& (exists|i: int|
                0 <= i < release.assets@.len() && asset_fits(#[trigger] release.assets@[i], os, arch)
                    && download_url@ == release.assets@[i].browser_download_url@)
                || (download_url@ == release.html_url@ && forall|i: int|
                0 <= i < release.assets@.len() ==> !asset_fits(#[trigger] release.assets@[i], os, arch))
        },
{
    if release.draft || release.prerelease {
        return UpdateCheckResult::UpToDate;
    }
    let tag = chars_of(release.tag_name.as_str());
    let latest = trim_start_matches_char(tag.as_slice(), 'v');
    let latest_s = crate::text::string_from_chars(latest.as_slice());
    if is_newer_version(current, latest_s.as_str()) {
        let download_url = match find_download_url_for_platform(release.assets.as_slice(), os, arch) {
            Some(u) => u,
            None => release.html_url.clone(),
        };
        UpdateCheckResult::UpdateAvailable {
            version: latest_s,
            download_url,
            changelog: release.body.clone(),
        }
    } else {
        UpdateCheckResult::UpToDate
    }
}

// ---------------------------------------------------------------------------
// Changelog display

/// How one changelog line is shown: headings underlined, list items given a
/// bullet, everything trimmed.
pub open spec fn changelog_line(line: Seq<char>) -> Seq<char> {
    let t = trim(line);
    if starts_with(t, "##"@) {
        "\n"@ + trim(trim_start_char(t, '#')) + "\n"@ + repeat_char('=', 40)
    } else if starts_with(t, "#"@) {
        "\n"@ + trim(trim_start_char(t, '#')) + "\n"@ + repeat_char('-', 30)
    } else if starts_with(t, "- "@) || starts_with(t, "* "@) {
        "  \u{2022} "@ + trim(strip_leading(t, bullet_test()))
    } else {
        t
    }
}

/// The whole changelog as displayed: each line converted, joined by newlines.
pub open spec fn spec_format_changelog(changelog: Seq<char>) -> Seq<char> {
    let lines = lines_of(changelog);
    join(Seq::new(lines.len(), |i: int| changelog_line(lines[i])), "\n"@)
}

fn prefix_lit(s: &[char], lit: &str) -> (r: bool)
    ensures
        r == starts_with(s@, lit@),
{
    let p = chars_of(lit);
    has_prefix(s, p.as_slice())
}

fn format_changelog_line(line: &[char]) -> (r: Vec<char>)
    ensures
        r@ == changelog_line(line@),
{
    let t = trim_chars(line);
    let mut out = String::new();
    if prefix_lit(t.as_slice(), "##") || prefix_lit(t.as_slice(), "#") {
        let heading = prefix_lit(t.as_slice(), "##");
        let stripped = trim_start_matches_char(t.as_slice(), '#');
        let title = trim_chars(stripped.as_slice());
        push_str(&mut out, "\n");
        push_chars(&mut out, title.as_slice());
        push_str(&mut out, "\n");
        if heading {
            push_repeat(&mut out, '=', 40);
        } else {
            push_repeat(&mut out, '-', 30);
        }
    } else if prefix_lit(t.as_slice(), "- ") || prefix_lit(t.as_slice(), "* ") {
        let stripped = trim_start_bullets(t.as_slice());
        let item = trim_chars(stripped.as_slice());
        push_str(&mut out, "  \u{2022} ");
        push_chars(&mut out, item.as_slice());
    } else {
        push_chars(&mut out, t.as_slice());
    }
    chars_of(out.as_str())
}

/// Converts a markdown changelog into plain display text.
pub fn format_changelog(changelog: &str) -> (r: String)
    ensures
        r@ == spec_format_changelog(changelog@),
{
    let cs = chars_of(changelog);
    let lines = lines_chars(cs.as_slice());
    let mut out: Vec<Vec<char>> = Vec::new();
    let mut i: usize = 0;
    while i < lines.len()
        invariant
            i <= lines@.len(),
            views(lines@) == lines_of(changelog@),
            views(out@) =~= Seq::new(i as nat, |k: int| changelog_line(views(lines@)[k])),
        decreases lines@.len() - i,
    {
        let ghost before = views(out@);
        let converted = format_changelog_line(lines[i].as_slice());
        out.push(converted);
        assert(views(out@) =~= before.push(changelog_line(views(lines@)[i as int])));
        i = i + 1;
    }
    let sep = chars_of("\n");
    join_chars(&out, sep.as_slice())
}

// ---------------------------------------------------------------------------
// Check schedule

/// Configuration for update checking
#[derive(Debug, Clone)]
pub struct UpdateConfig {
    pub auto_check_enabled: bool,
    pub last_check_time: Option<u64>,
}

impl UpdateConfig {
    /// Checking enabled, never checked.
    pub fn new() -> (r: UpdateConfig)
        ensures
            r.auto_check_enabled,
            r.last_check_time is None,
    {
        UpdateConfig { auto_check_enabled: true, last_check_time: None }
    }
}

/// Milliseconds in the interval between automatic checks (a day).
pub open spec fn check_interval_ms() -> int {
    86_400_000int
}

/// Whether automatic update checking is enabled, given the stored
/// configuration as it was loaded (enabled when it could not be read).
pub fn should_check_for_updates(loaded: &Result<UpdateConfig, String>) -> (r: bool)
    ensures
        r == (match loaded {
            Ok(c) => c.auto_check_enabled,
            Err(_) => true,
        }),
{
    match loaded {
        Ok(config) => config.auto_check_enabled,
        Err(_) => true,
    }
}

/// Whether automatic update checking is enabled (the value shown in settings).
pub fn get_auto_update_enabled(loaded: &Result<UpdateConfig, String>) -> (r: bool)
    ensures
        r == (match loaded {
            Ok(c) => c.auto_check_enabled,
            Err(_) => true,
        }),
{
    should_check_for_updates(loaded)
}

/// The time of the last check, in whole seconds since the Unix epoch.
pub fn get_last_update_check(loaded: &Result<UpdateConfig, String>) -> (r: Option<u64>)
    ensures
        r == (match loaded {
            Ok(c) => c.last_check_time,
            Err(_) => None,
        }),
{
    match loaded {
        Ok(config) => config.last_check_time,
        Err(_) => None,
    }
}

/// Whether a check is due at `now_ms` (milliseconds since the Unix epoch):
/// checking is enabled, and either no check was recorded, the recorded time
/// lies in the future, or a day has passed since it.
pub open spec fn spec_check_due(loaded: Result<UpdateConfig, String>, now_ms: nat) -> bool {
    let enabled = match loaded {
        Ok(c) => c.auto_check_enabled,
        Err(_) => true,
    };
    let last = match loaded {
        Ok(c) => c.last_check_time,
        Err(_) => None,
    };
    enabled && match last {
        None => true,
        Some(t) => now_ms < t * 1000 || now_ms - t * 1000 >= check_interval_ms(),
    }
}

/// Whether enough time has passed since the last update check.
pub fn should_check_for_updates_now(loaded: &Result<UpdateConfig, String>, now_ms: u64) -> (r: bool)
    ensures
        r == spec_check_due(*loaded, now_ms as nat),
{
    if !should_check_for_updates(loaded) {
        return false;
    }
    match get_last_update_check(loaded) {
        Some(last) => {
            let last_ms: u128 = (last as u128) * 1000;
            let now: u128 = now_ms as u128;
            now < last_ms || now - last_ms >= 86_400_000
        },
        None => true,
    }
}

/// The configuration to store after a check made at `now_secs`.
pub fn set_last_update_check(loaded: Result<UpdateConfig, String>, now_secs: u64) -> (r: UpdateConfig)
    ensures
        r.last_check_time == Some(now_secs),
        r.auto_check_enabled == (match loaded {
            Ok(c) => c.auto_check_enabled,
            Err(_) => true,
        }),
{
    let mut config = match loaded {
        Ok(c) => c,
        Err(_) => UpdateConfig::new(),
    };
    config.last_check_time = Some(now_secs);
    config
}

/// The configuration to store once automatic checking is switched on or off.
pub fn set_auto_update_enabled(loaded: Result<UpdateConfig, String>, enabled: bool) -> (r: UpdateConfig)
    ensures
        r.auto_check_enabled == enabled,
        r.last_check_time == (match loaded {
            Ok(c) => c.last_check_time,
            Err(_) => None,
        }),
{
    let mut config = match loaded {
        Ok(c) => c,
        Err(_) => UpdateConfig::new(),
    };
    config.auto_check_enabled = enabled;
    config
}

/// Switching automatic checks off makes no check due, whatever the time.
pub proof fn lemma_disabled_never_due(config: UpdateConfig, now_ms: nat)
    requires
        !config.auto_check_enabled,
    ensures
        !spec_check_due(Ok(config), now_ms),
{
}

/// Right after a check is recorded, no further check is due for a day.
pub proof fn lemma_recorded_check_not_due(loaded: Result<UpdateConfig, String>, now_secs: nat, later_ms: nat)
    requires
        now_secs <= u64::MAX,
        now_secs * 1000 <= later_ms < now_secs * 1000 + check_interval_ms(),
    ensures
        !spec_check_due(
            Ok(UpdateConfig {
                auto_check_enabled: match loaded {
                    Ok(c) => c.auto_check_enabled,
                    Err(_) => true,
                },
                last_check_time: Some(now_secs as u64),
            }),
            later_ms,
        ),
{
}

} // verus!
