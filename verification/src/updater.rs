//! Self-update support: the releases published for the project, the choice of
//! the newest one, its changelog, and the asset to download for this platform.

use vstd::prelude::*;
use crate::platform::{TargetArch, TargetOs};
use crate::text::{
    chars_of, contains_chars, contains_seq, ends_with, occurs_at, has_suffix, owned, push_str, string_from_chars,
    trim_start_char, trim_start_matches_char, views, string_views,
};
use crate::paths::{join_path, joined};
use crate::version::{
    release_numbers_greater, same_release_numbers, semver_greater, semver_parse, SemVer,
    VersionParts, zero_version,
};

verus! {

/// The project's release list on GitHub.
pub const GITHUB_API_RELEASES: &'static str = "https://api.github.com/repos/sleepyyui/copydvd/releases";

/// Seconds an update check may take.
pub const UPDATE_CHECK_TIMEOUT_SECS: u64 = 10;

/// Seconds a download may take.
pub const DOWNLOAD_TIMEOUT_SECS: u64 = 300;

/// A published release.
#[derive(Debug, Clone)]
pub struct Release {
    pub tag_name: String,
    pub name: String,
    pub body: String,
    pub published_at: String,
    pub prerelease: bool,
    pub draft: bool,
    pub assets: Vec<Asset>,
}

/// A file attached to a release.
#[derive(Debug, Clone)]
pub struct Asset {
    pub name: String,
    pub download_url: String,
    pub size: u64,
    pub content_type: String,
}

/// A release as the GitHub API describes it.
#[derive(Debug, Clone)]
pub struct GitHubRelease {
    pub tag_name: String,
    pub name: String,
    pub body: String,
    pub published_at: String,
    pub prerelease: bool,
    pub draft: bool,
    pub assets: Vec<GitHubAsset>,
}

/// A release asset as the GitHub API describes it.
#[derive(Debug, Clone)]
pub struct GitHubAsset {
    pub name: String,
    pub browser_download_url: String,
    pub size: u64,
    pub content_type: String,
}

/// The asset a GitHub asset description stands for.
pub open spec fn asset_of(gh: GitHubAsset) -> Asset {
    Asset {
        name: gh.name,
        download_url: gh.browser_download_url,
        size: gh.size,
        content_type: gh.content_type,
    }
}

impl From<GitHubAsset> for Asset {
    fn from(gh: GitHubAsset) -> (r: Self) {
        Asset {
            name: gh.name,
            download_url: gh.browser_download_url,
            size: gh.size,
            content_type: gh.content_type,
        }
    }
}

impl vstd::std_specs::convert::FromSpecImpl<GitHubAsset> for Asset {
    open spec fn obeys_from_spec() -> bool {
        true
    }

    open spec fn from_spec(gh: GitHubAsset) -> Asset {
        asset_of(gh)
    }
}

impl From<GitHubRelease> for Release {
    fn from(gh: GitHubRelease) -> (r: Self)
        ensures
            r.tag_name == gh.tag_name,
            r.name == gh.name,
            r.body == gh.body,
            r.published_at == gh.published_at,
            r.prerelease == gh.prerelease,
            r.draft == gh.draft,
            r.assets@ == Seq::new(gh.assets@.len(), |k: int| asset_of(gh.assets@[k])),
    {
        let mut assets: Vec<Asset> = Vec::new();
        let mut rest = gh.assets;
        let ghost all = rest@;
        let n = rest.len();
        let mut i: usize = 0;
        while i < n
            invariant
                n == all.len(),
                i <= n,
                rest@ == all.skip(i as int),
                assets@ == Seq::new(i as nat, |k: int| asset_of(all[k])),
            decreases n - i,
        {
            let a = rest.remove(0);
            assert(all.skip(i as int)[0] == all[i as int]);
            assert(rest@ =~= all.skip(i + 1));
            assets.push(Asset::from(a));
            assert(assets@ =~= Seq::new((i + 1) as nat, |k: int| asset_of(all[k])));
            i = i + 1;
        }
        Release {
            tag_name: gh.tag_name,
            name: gh.name,
            body: gh.body,
            published_at: gh.published_at,
            prerelease: gh.prerelease,
            draft: gh.draft,
            assets,
        }
    }
}

impl vstd::std_specs::convert::FromSpecImpl<GitHubRelease> for Release {
    /// The conversion is stated on `from` itself: a release's asset vector has
    /// no spec-level constructor to name here.
    open spec fn obeys_from_spec() -> bool {
        false
    }

    open spec fn from_spec(gh: GitHubRelease) -> Release {
        arbitrary()
    }
}

/// The outcome of an update check.
#[derive(Debug, Clone)]
pub enum UpdateStatus {
    UpToDate,
    UpdateAvailable { current: String, latest: Release, changelog: String },
    Error(String),
}

/// How far an update installation has got; download progress is in percent.
#[derive(Debug, Clone)]
pub enum UpdateProgress {
    Checking,
    Downloading { percent: u32 },
    Installing,
    Complete,
    Failed(String),
}

/// The version a release's tag names (a leading `v` ignored).
pub open spec fn release_version(r: Release) -> Option<VersionParts> {
    semver_parse(trim_start_char(r.tag_name@, 'v'))
}

/// The release's tag names a version above `current`.
pub open spec fn is_newer_release(r: Release, current: VersionParts) -> bool {
    match release_version(r) {
        Some(v) => semver_greater(v, current),
        None => false,
    }
}

/// The positions, in list order, of the releases newer than `current` among
/// the first `n`.
pub open spec fn newer_positions(rs: Seq<Release>, current: VersionParts, n: nat) -> Seq<usize>
    decreases n,
{
    if n == 0 {
        Seq::empty()
    } else {
        let p = newer_positions(rs, current, (n - 1) as nat);
        if is_newer_release(rs[n - 1], current) {
            p.push((n - 1) as usize)
        } else {
            p
        }
    }
}

/// The version of the running program (a leading `v` ignored); `0.0.0` when it
/// does not parse.
pub open spec fn current_version_parts(s: Seq<char>) -> VersionParts {
    match semver_parse(trim_start_char(s, 'v')) {
        Some(v) => v,
        None => zero_version(),
    }
}

/// The positions of the releases newer than the running version are
/// increasing, each below `n`, and every newer release among the first `n` is
/// among them.
pub proof fn lemma_newer_positions(rs: Seq<Release>, current: VersionParts, n: nat)
    requires
        n <= rs.len(),
        n <= usize::MAX,
    ensures
        forall|k: int| 0 <= k < newer_positions(rs, current, n).len()
            ==> #[trigger] newer_positions(rs, current, n)[k] < n
            && is_newer_release(rs[newer_positions(rs, current, n)[k] as int], current),
        forall|a: int, b: int| 0 <= a < b < newer_positions(rs, current, n).len()
            ==> #[trigger] newer_positions(rs, current, n)[a] < #[trigger] newer_positions(rs, current, n)[b],
        forall|i: int| 0 <= i < n && is_newer_release(#[trigger] rs[i], current)
            ==> newer_positions(rs, current, n).contains(i as usize),
    decreases n,
{
    if n > 0 {
        lemma_newer_positions(rs, current, (n - 1) as nat);
        let p = newer_positions(rs, current, (n - 1) as nat);
        let q = newer_positions(rs, current, n);
        if is_newer_release(rs[n - 1], current) {
            assert(q == p.push((n - 1) as usize));
            assert forall|k: int| 0 <= k < q.len() implies #[trigger] q[k] < n
                && is_newer_release(rs[q[k] as int], current) by {
                if k < p.len() {
                    assert(q[k] == p[k]);
                }
            }
            assert forall|a: int, b: int| 0 <= a < b < q.len() implies #[trigger] q[a] < #[trigger] q[b] by {
                assert(q[a] == p[a]);
                if b < p.len() {
                    assert(q[b] == p[b]);
                }
            }
        } else {
            assert(q == p);
        }
        assert forall|i: int| 0 <= i < n && is_newer_release(#[trigger] rs[i], current)
            implies q.contains(i as usize) by {
            if i < n - 1 {
                let k = choose|k: int| 0 <= k < p.len() && p[k] == i as usize;
                if is_newer_release(rs[n - 1], current) {
                    assert(q[k] == i as usize);
                } else {
                    assert(q[k] == i as usize);
                }
            } else {
                assert(q.last() == i as usize);
            }
        }
    }
}

/// Parses a release tag as a version, a leading `v` ignored.
fn tag_version(tag: &str) -> (r: Option<SemVer>)
    ensures
        r matches Some(v) ==> semver_parse(trim_start_char(tag@, 'v')) == Some(v@),
        r is None ==> semver_parse(trim_start_char(tag@, 'v')) is None,
{
    let cs = chars_of(tag);
    let t = trim_start_matches_char(cs.as_slice(), 'v');
    let s = string_from_chars(t.as_slice());
    SemVer::parse(s.as_str())
}

/// The positions and versions of the releases newer than `current`, in list order.
fn collect_newer(releases: &Vec<Release>, current: &SemVer) -> (r: (Vec<usize>, Vec<SemVer>))
    ensures
        r.0@ == newer_positions(releases@, current@, releases@.len()),
        r.1@.len() == r.0@.len(),
        forall|k: int| 0 <= k < r.0@.len() ==> release_version(releases@[#[trigger] r.0@[k] as int])
            == Some(r.1@[k]@),
{
    let mut pos: Vec<usize> = Vec::new();
    let mut vers: Vec<SemVer> = Vec::new();
    let mut i: usize = 0;
    while i < releases.len()
        invariant
            i <= releases@.len(),
            pos@ == newer_positions(releases@, current@, i as nat),
            vers@.len() == pos@.len(),
            forall|k: int| 0 <= k < pos@.len() ==> release_version(releases@[#[trigger] pos@[k] as int])
                == Some(vers@[k]@),
        decreases releases@.len() - i,
    {
        match tag_version(releases[i].tag_name.as_str()) {
            Some(v) => {
                if v.greater_than(current) {
                    pos.push(i);
                    vers.push(v);
                }
            },
            None => {},
        }
        i = i + 1;
    }
    (pos, vers)
}

/// The versions held by a vector.
pub open spec fn version_views(v: Seq<SemVer>) -> Seq<VersionParts> {
    Seq::new(v.len(), |k: int| v[k]@)
}

/// `a` is `b` or comes after it in semver order.
pub open spec fn at_least(a: VersionParts, b: VersionParts) -> bool {
    semver_greater(a, b) || a == b
}

/// The position, among `vs`, of the newest version in semver order: every
/// version is at most it, and every one before it is below it (the first of
/// equal maxima).
fn select_newest(vs: &Vec<SemVer>) -> (r: usize)
    requires
        vs@.len() > 0,
    ensures
        r < vs@.len(),
        forall|k: int| 0 <= k < vs@.len() ==> at_least(vs@[r as int]@, #[trigger] vs@[k]@),
        forall|k: int| 0 <= k < r ==> semver_greater(vs@[r as int]@, #[trigger] vs@[k]@),
{
    let mut best: usize = 0;
    let mut i: usize = 1;
    while i < vs.len()
        invariant
            1 <= i <= vs@.len(),
            best < i,
            forall|k: int| 0 <= k < i ==> at_least(vs@[best as int]@, #[trigger] vs@[k]@),
            forall|k: int| 0 <= k < best ==> semver_greater(vs@[best as int]@, #[trigger] vs@[k]@),
        decreases vs@.len() - i,
    {
        let g = vs[i].greater_than(&vs[best]);
        if g {
            proof {
                assert forall|k: int| 0 <= k < i + 1 implies at_least(vs@[i as int]@, #[trigger] vs@[k]@) by {
                    if k < i {
                        assert(at_least(vs@[best as int]@, vs@[k]@));
                    }
                }
                assert forall|k: int| 0 <= k < i implies semver_greater(vs@[i as int]@, #[trigger] vs@[k]@) by {
                    assert(at_least(vs@[best as int]@, vs@[k]@));
                }
            }
            best = i;
        }
        i = i + 1;
    }
    best
}

/// Versions ordered newest first in semver order: no entry is below a later
/// one, and equal versions keep their original order.
pub open spec fn sorted_newest_first(vs: Seq<VersionParts>, ord: Seq<usize>) -> bool {
    &&& forall|a: int, b: int| 0 <= a < b < ord.len() ==> at_least(
        vs[#[trigger] ord[a] as int],
        vs[#[trigger] ord[b] as int],
    )
    &&& forall|a: int, b: int|
        0 <= a < b < ord.len() && vs[#[trigger] ord[a] as int] == vs[#[trigger] ord[b] as int] ==> ord[a] < ord[b]
}

/// `ord` lists each of the positions `0..n` once.
pub open spec fn is_arrangement(ord: Seq<usize>, n: nat) -> bool {
    &&& ord.len() == n
    &&& forall|k: int| 0 <= k < ord.len() ==> #[trigger] ord[k] < n
    &&& forall|a: int, b: int| 0 <= a < b < ord.len() ==> #[trigger] ord[a] != #[trigger] ord[b]
}

proof fn lemma_insert_keeps_order(vs: Seq<VersionParts>, ord: Seq<usize>, x: usize, p: int)
    requires
        is_arrangement(ord, x as nat),
        sorted_newest_first(vs, ord),
        x < vs.len(),
        forall|k: int| 0 <= k < ord.len() ==> #[trigger] ord[k] < vs.len(),
        0 <= p <= ord.len(),
        forall|q: int| 0 <= q < p ==> at_least(#[trigger] vs[ord[q] as int], vs[x as int]),
        p < ord.len() ==> semver_greater(vs[x as int], vs[ord[p] as int]),
        p < ord.len() ==> !semver_greater(vs[ord[p] as int], vs[x as int]),
        p < ord.len() ==> vs[x as int] != vs[ord[p] as int],
        p < ord.len() ==> forall|c: VersionParts|
            semver_greater(vs[ord[p] as int], c) ==> #[trigger] semver_greater(vs[x as int], c),
    ensures
        is_arrangement(ord.insert(p, x), (x + 1) as nat),
        sorted_newest_first(vs, ord.insert(p, x)),
{
    let t = ord.insert(p, x);
    assert forall|k: int| 0 <= k < t.len() implies #[trigger] t[k] < x + 1 by {
        if k < p {
            assert(t[k] == ord[k]);
        } else if k > p {
            assert(t[k] == ord[k - 1]);
        }
    }
    assert forall|a: int, b: int| 0 <= a < b < t.len() implies #[trigger] t[a] != #[trigger] t[b] by {
        if a != p && b != p {
            let oa = if a < p { a } else { a - 1 };
            let ob = if b < p { b } else { b - 1 };
            assert(t[a] == ord[oa]);
            assert(t[b] == ord[ob]);
        } else if a == p {
            assert(t[b] == ord[b - 1]);
        } else {
            assert(t[a] == ord[a]);
        }
    }
    assert forall|a: int, b: int| 0 <= a < b < t.len() implies at_least(
        vs[#[trigger] t[a] as int],
        vs[#[trigger] t[b] as int],
    ) && (vs[t[a] as int] == vs[t[b] as int] ==> t[a] < t[b]) by {
        if a != p && b != p {
            let oa = if a < p { a } else { a - 1 };
            let ob = if b < p { b } else { b - 1 };
            assert(t[a] == ord[oa]);
            assert(t[b] == ord[ob]);
        } else if a == p {
            assert(t[a] == x);
            assert(t[b] == ord[b - 1]);
            let y = vs[ord[b - 1] as int];
            if b - 1 > p {
                assert(at_least(vs[ord[p] as int], y));
                if semver_greater(vs[ord[p] as int], y) {
                    assert(semver_greater(vs[x as int], y));
                }
            }
            assert(semver_greater(vs[x as int], y));
            if vs[x as int] == y {
                if b - 1 > p {
                    assert(at_least(vs[ord[p] as int], vs[x as int]));
                }
                assert(false);
            }
        } else {
            assert(t[a] == ord[a]);
            assert(t[b] == x);
            assert(ord[a] < x);
        }
    }
}

/// Orders the positions of `vs` newest first, keeping equal versions in order.
fn order_newest_first(vs: &Vec<SemVer>) -> (r: Vec<usize>)
    ensures
        is_arrangement(r@, vs@.len()),
        sorted_newest_first(version_views(vs@), r@),
{
    let ghost views = version_views(vs@);
    let mut ord: Vec<usize> = Vec::new();
    let mut x: usize = 0;
    while x < vs.len()
        invariant
            x <= vs@.len(),
            views == version_views(vs@),
            is_arrangement(ord@, x as nat),
            sorted_newest_first(views, ord@),
        decreases vs@.len() - x,
    {
        let mut p: usize = 0;
        loop
            invariant
                x < vs@.len(),
                p <= ord@.len(),
                views == version_views(vs@),
                is_arrangement(ord@, x as nat),
                forall|q: int| 0 <= q < p ==> at_least(#[trigger] views[ord@[q] as int], views[x as int]),
            ensures
                p <= ord@.len(),
                forall|q: int| 0 <= q < p ==> at_least(#[trigger] views[ord@[q] as int], views[x as int]),
                p < ord@.len() ==> semver_greater(views[x as int], views[ord@[p as int] as int]),
                p < ord@.len() ==> !semver_greater(views[ord@[p as int] as int], views[x as int]),
                p < ord@.len() ==> views[x as int] != views[ord@[p as int] as int],
                p < ord@.len() ==> forall|c: VersionParts|
                    semver_greater(views[ord@[p as int] as int], c) ==> #[trigger] semver_greater(views[x as int], c),
            decreases ord@.len() - p,
        {
            if p >= ord.len() {
                break;
            }
            let g = vs[x].greater_than(&vs[ord[p]]);
            assert(views[ord@[p as int] as int] == vs@[ord@[p as int] as int]@);
            assert(views[x as int] == vs@[x as int]@);
            if g {
                break;
            }
            p = p + 1;
        }
        proof {
            lemma_insert_keeps_order(views, ord@, x, p as int);
        }
        ord.insert(p, x);
        x = x + 1;
    }
    ord
}

/// One release's entry in the changelog.
pub open spec fn changelog_section(r: Release) -> Seq<char> {
    "## "@ + r.name@ + "\nReleased: "@ + r.published_at@ + "\n\n"@ + r.body@ + "\n\n---\n\n"@
}

/// The entries of the releases at the positions `order`, in that order.
pub open spec fn changelog_of(rs: Seq<Release>, order: Seq<usize>) -> Seq<char>
    decreases order.len(),
{
    if order.len() == 0 {
        Seq::empty()
    } else {
        changelog_of(rs, order.drop_last()) + changelog_section(rs[order.last() as int])
    }
}

/// The version a newer release's tag names.
pub open spec fn version_at(rs: Seq<Release>, i: usize) -> VersionParts {
    release_version(rs[i as int])->0
}

/// `order` lists the positions of the releases newer than `current`, newest first.
pub open spec fn lists_newer_newest_first(rs: Seq<Release>, current: VersionParts, order: Seq<usize>) -> bool {
    let newer = newer_positions(rs, current, rs.len());
    let vs = Seq::new(newer.len(), |k: int| version_at(rs, newer[k]));
    exists|ord: Seq<usize>|
        is_arrangement(ord, newer.len()) && sorted_newest_first(vs, ord) && order == Seq::new(
            ord.len(),
            |k: int| newer[ord[k] as int],
        )
}

/// The changelog the update check shows: `None` when the running version does
/// not parse; otherwise the entries of all newer releases, newest first.
pub open spec fn changelog_matches(rs: Seq<Release>, current: Seq<char>, text: Option<Seq<char>>) -> bool {
    match semver_parse(trim_start_char(current, 'v')) {
        None => text is None,
        Some(cur) => text matches Some(t) && exists|order: Seq<usize>|
            lists_newer_newest_first(rs, cur, order) && t == changelog_of(rs, order),
    }
}

fn push_section(out: &mut String, r: &Release)
    ensures
        final(out)@ == old(out)@ + changelog_section(*r),
{
    push_str(out, "## ");
    push_str(out, r.name.as_str());
    push_str(out, "\nReleased: ");
    push_str(out, r.published_at.as_str());
    push_str(out, "\n\n");
    push_str(out, r.body.as_str());
    push_str(out, "\n\n---\n\n");
    assert(final(out)@ =~= old(out)@ + changelog_section(*r));
}

/// The platform tag that release binaries carry for each target (on Windows
/// the MSVC target's `pc-windows-msvc`, which binary names carry).
pub open spec fn spec_platform_filter(os: TargetOs, arch: TargetArch) -> Seq<char> {
    match os {
        TargetOs::Windows => "pc-windows-msvc"@,
        TargetOs::MacOs => match arch {
            TargetArch::X86_64 => "x86_64-apple-darwin"@,
            TargetArch::Aarch64 => "aarch64-apple-darwin"@,
            TargetArch::Other => "unknown"@,
        },
        TargetOs::Linux => "x86_64-unknown-linux-gnu"@,
        TargetOs::Other => "unknown"@,
    }
}

/// The platform filter names the processor it is built for: on macOS the
/// Apple Silicon filter mentions `aarch64` and not `x86_64`, the Intel one
/// `x86_64` and not `aarch64`; and the targets with release binaries of
/// their own (Windows, Intel macOS, Apple Silicon macOS, Linux) have pairwise
/// different filters.
pub proof fn lemma_platform_filter_names_the_target()
    ensures
        contains_seq(spec_platform_filter(TargetOs::MacOs, TargetArch::Aarch64), "aarch64"@),
        !contains_seq(spec_platform_filter(TargetOs::MacOs, TargetArch::Aarch64), "x86_64"@),
        contains_seq(spec_platform_filter(TargetOs::MacOs, TargetArch::X86_64), "x86_64"@),
        !contains_seq(spec_platform_filter(TargetOs::MacOs, TargetArch::X86_64), "aarch64"@),
        spec_platform_filter(TargetOs::MacOs, TargetArch::Aarch64) != spec_platform_filter(
            TargetOs::MacOs,
            TargetArch::X86_64,
        ),
        spec_platform_filter(TargetOs::Windows, TargetArch::X86_64) != spec_platform_filter(
            TargetOs::MacOs,
            TargetArch::X86_64,
        ),
        spec_platform_filter(TargetOs::Windows, TargetArch::X86_64) != spec_platform_filter(
            TargetOs::MacOs,
            TargetArch::Aarch64,
        ),
        spec_platform_filter(TargetOs::Linux, TargetArch::X86_64) != spec_platform_filter(
            TargetOs::MacOs,
            TargetArch::X86_64,
        ),
        spec_platform_filter(TargetOs::Linux, TargetArch::X86_64) != spec_platform_filter(
            TargetOs::MacOs,
            TargetArch::Aarch64,
        ),
        spec_platform_filter(TargetOs::Linux, TargetArch::X86_64) != spec_platform_filter(
            TargetOs::Windows,
            TargetArch::X86_64,
        ),
{
    let arm = spec_platform_filter(TargetOs::MacOs, TargetArch::Aarch64);
    let intel = spec_platform_filter(TargetOs::MacOs, TargetArch::X86_64);
    let win = spec_platform_filter(TargetOs::Windows, TargetArch::X86_64);
    let lin = spec_platform_filter(TargetOs::Linux, TargetArch::X86_64);
    reveal_strlit("aarch64-apple-darwin");
    reveal_strlit("x86_64-apple-darwin");
    reveal_strlit("pc-windows-msvc");
    reveal_strlit("x86_64-unknown-linux-gnu");
    reveal_strlit("aarch64");
    reveal_strlit("x86_64");
    assert(occurs_at(arm, "aarch64"@, 0)) by {
        assert(arm.subrange(0, 7) =~= "aarch64"@);
    }
    assert(occurs_at(intel, "x86_64"@, 0)) by {
        assert(intel.subrange(0, 6) =~= "x86_64"@);
    }
    assert forall|i: int| !occurs_at(arm, "x86_64"@, i) by {
        if occurs_at(arm, "x86_64"@, i) {
            assert(arm.subrange(i, i + 6)[0] == 'x');
            assert(arm[i] == 'x');
        }
    }
    assert forall|i: int| !occurs_at(intel, "aarch64"@, i) by {
        if occurs_at(intel, "aarch64"@, i) {
            assert(intel.subrange(i, i + 7)[0] == 'a');
            assert(intel.subrange(i, i + 7)[1] == 'a');
            assert(intel[i] == 'a' && intel[i + 1] == 'a');
        }
    }
    assert(arm[0] != intel[0]);
    assert(win[0] != intel[0] && win[0] != arm[0]);
    assert(lin.len() != intel.len() && lin.len() != arm.len() && lin.len() != win.len());
}

/// Checks for and installs newer releases of the program.
#[derive(Debug)]
pub struct Updater {
    current_version: String,
    repo_owner: String,
    repo_name: String,
    platform_filter: String,
    os: TargetOs,
}

impl Updater {
    /// The version the updater compares releases with.
    pub closed spec fn current(&self) -> Seq<char> {
        self.current_version@
    }

    /// The platform tag of the release binaries for this target.
    pub closed spec fn filter(&self) -> Seq<char> {
        self.platform_filter@
    }

    /// The operating system the updater installs for.
    pub closed spec fn target_os(&self) -> TargetOs {
        self.os
    }

    /// An updater for a program at `current_version` running on `os`/`arch`.
    pub fn new(current_version: &str, os: TargetOs, arch: TargetArch) -> (r: Updater)
        ensures
            r.current() == current_version@,
            r.filter() == spec_platform_filter(os, arch),
            r.target_os() == os,
    {
        Updater {
            current_version: owned(current_version),
            repo_owner: owned("dvd-ripper"),
            repo_name: owned("copydvd"),
            platform_filter: Self::get_platform_filter(os, arch),
            os,
        }
    }

    /// The platform tag release binaries carry for this target.
    pub fn get_platform_filter(os: TargetOs, arch: TargetArch) -> (r: String)
        ensures
            r@ == spec_platform_filter(os, arch),
    {
        match os {
            TargetOs::Windows => owned("pc-windows-msvc"),
            TargetOs::MacOs => match arch {
                TargetArch::X86_64 => owned("x86_64-apple-darwin"),
                TargetArch::Aarch64 => owned("aarch64-apple-darwin"),
                TargetArch::Other => owned("unknown"),
            },
            TargetOs::Linux => owned("x86_64-unknown-linux-gnu"),
            TargetOs::Other => owned("unknown"),
        }
    }

    /// The version of the running program.
    pub fn get_current_version(&self) -> (r: &str)
        ensures
            r@ == self.current(),
    {
        self.current_version.as_str()
    }

    /// The platform tag release binaries carry for this target.
    pub fn platform_filter(&self) -> (r: &str)
        ensures
            r@ == self.filter(),
    {
        self.platform_filter.as_str()
    }

    /// The changelog of every release newer than the running version, newest
    /// first; `None` when the running version does not parse.
    pub fn generate_changelog(&self, releases: &Vec<Release>) -> (r: Option<String>)
        ensures
            changelog_matches(releases@, self.current(), match r {
                Some(t) => Some(t@),
                None => None,
            }),
    {
        let current = match tag_version(self.current_version.as_str()) {
            Some(v) => v,
            None => {
                return None;
            },
        };
        let (pos, vers) = collect_newer(releases, &current);
        let ord = order_newest_first(&vers);
        let ghost newer = newer_positions(releases@, current@, releases@.len());
        let ghost vs = Seq::new(newer.len(), |k: int| version_at(releases@, newer[k]));
        let ghost n = releases.len();
        proof {
            assert(releases@.len() == n);
            lemma_newer_positions(releases@, current@, releases@.len());
            assert(vs =~= version_views(vers@)) by {
                assert forall|k: int| 0 <= k < vs.len() implies vs[k] == version_views(vers@)[k] by {
                    assert(release_version(releases@[pos@[k] as int]) == Some(vers@[k]@));
                }
            }
        }
        let ghost order = Seq::new(ord@.len(), |k: int| newer[ord@[k] as int]);
        let mut text = String::new();
        let mut i: usize = 0;
        while i < ord.len()
            invariant
                i <= ord@.len(),
                pos@ == newer,
                is_arrangement(ord@, pos@.len()),
                order == Seq::new(ord@.len(), |k: int| newer[ord@[k] as int]),
                forall|k: int| 0 <= k < pos@.len() ==> #[trigger] pos@[k] < releases@.len(),
                text@ == changelog_of(releases@, order.take(i as int)),
            decreases ord@.len() - i,
        {
            let at = pos[ord[i]];
            push_section(&mut text, &releases[at]);
            assert(order.take(i + 1).drop_last() =~= order.take(i as int));
            i = i + 1;
        }
        assert(order.take(ord@.len() as int) =~= order);
        assert(lists_newer_newest_first(releases@, current@, order));
        Some(text)
    }

    /// Looks through the published releases for versions above the running
    /// one: up to date when there are none; otherwise the newest of them, with
    /// the changelog of all of them.
    pub fn compare_versions(&self, releases: Vec<Release>) -> (r: UpdateStatus)
        ensures
            !(r is Error),
            newer_positions(releases@, current_version_parts(self.current()), releases@.len()).len() == 0
                <==> r is UpToDate,
            r matches UpdateStatus::UpdateAvailable { current, latest, changelog } ==> {
                let newer = newer_positions(
                    releases@,
                    current_version_parts(self.current()),
                    releases@.len(),
                );
                &&& current@ == self.current()
                &&& exists|k: int|
                    0 <= k < newer.len() && latest == releases@[#[trigger] newer[k] as int]
                        && newest_among(releases@, newer, k)
                &&& exists|t: Option<Seq<char>>|
                    changelog_matches(releases@, self.current(), t) && changelog@ == match t {
                        Some(x) => x,
                        None => Seq::<char>::empty(),
                    }
            },
    {
        let current = match tag_version(self.current_version.as_str()) {
            Some(v) => v,
            None => SemVer::zero(),
        };
        assert(current@ == current_version_parts(self.current()));
        let (pos, vers) = collect_newer(&releases, &current);
        if pos.len() == 0 {
            return UpdateStatus::UpToDate;
        }
        let ghost newer = pos@;
        let ghost n = releases.len();
        proof {
            assert(releases@.len() == n);
            lemma_newer_positions(releases@, current@, releases@.len());
        }
        let best = select_newest(&vers);
        let generated = self.generate_changelog(&releases);
        let ghost t = match generated {
            Some(ref x) => Some(x@),
            None => None::<Seq<char>>,
        };
        let changelog = match generated {
            Some(x) => x,
            None => String::new(),
        };
        let at = pos[best];
        let ghost before = releases@;
        let mut releases = releases;
        let latest = releases.remove(at);
        proof {
            let vs = Seq::new(newer.len(), |k: int| version_at(before, newer[k]));
            assert(vs =~= version_views(vers@)) by {
                assert forall|k: int| 0 <= k < vs.len() implies vs[k] == version_views(vers@)[k] by {
                    assert(release_version(before[pos@[k] as int]) == Some(vers@[k]@));
                }
            }
            assert(latest == before[newer[best as int] as int]);
            assert(newest_among(before, newer, best as int));
        }
        UpdateStatus::UpdateAvailable {
            current: self.current_version.clone(),
            latest,
            changelog,
        }
    }
}

/// Among the newer releases at `newer`, the one at `newer[k]` is the newest
/// in semver order: every other is at most it, and those before it are below
/// it (the first of equal maxima).
pub open spec fn newest_among(rs: Seq<Release>, newer: Seq<usize>, k: int) -> bool {
    let vs = Seq::new(newer.len(), |j: int| version_at(rs, newer[j]));
    &&& forall|j: int| 0 <= j < newer.len() ==> at_least(vs[k], #[trigger] vs[j])
    &&& forall|j: int| 0 <= j < k ==> semver_greater(vs[k], #[trigger] vs[j])
}

/// The installer file endings tried first on each operating system.
pub open spec fn installer_patterns(os: TargetOs) -> Seq<Seq<char>> {
    match os {
        TargetOs::Windows => seq![".msi"@],
        TargetOs::MacOs => seq![".app.zip"@],
        TargetOs::Linux => seq![".deb"@, ".rpm"@, ".appimage"@],
        TargetOs::Other => Seq::empty(),
    }
}

/// The position of the first asset whose name contains `pattern`.
pub open spec fn first_asset_with(assets: Seq<Asset>, pattern: Seq<char>) -> Option<int> {
    if exists|i: int| 0 <= i < assets.len() && contains_seq(#[trigger] assets[i].name@, pattern) {
        Some(choose|i: int|
            0 <= i < assets.len() && contains_seq(#[trigger] assets[i].name@, pattern) && forall|j: int|
                0 <= j < i ==> !contains_seq(#[trigger] assets[j].name@, pattern))
    } else {
        None
    }
}

/// The asset chosen for the first pattern, in order, that some asset matches.
pub open spec fn asset_for_patterns(assets: Seq<Asset>, patterns: Seq<Seq<char>>) -> Option<int>
    decreases patterns.len(),
{
    if patterns.len() == 0 {
        None
    } else {
        match first_asset_with(assets, patterns[0]) {
            Some(i) => Some(i),
            None => asset_for_patterns(assets, patterns.drop_first()),
        }
    }
}

fn find_asset_with(assets: &Vec<Asset>, pattern: &[char]) -> (r: Option<usize>)
    ensures
        r matches Some(i) ==> first_asset_with(assets@, pattern@) == Some(i as int) && i < assets@.len(),
        r is None ==> first_asset_with(assets@, pattern@) is None,
{
    let mut i: usize = 0;
    while i < assets.len()
        invariant
            i <= assets@.len(),
            forall|j: int| 0 <= j < i ==> !contains_seq(#[trigger] assets@[j].name@, pattern@),
        decreases assets@.len() - i,
    {
        let name = chars_of(assets[i].name.as_str());
        if contains_chars(name.as_slice(), pattern) {
            proof {
                let w = choose|k: int|
                    0 <= k < assets@.len() && contains_seq(#[trigger] assets@[k].name@, pattern@) && forall|j: int|
                        0 <= j < k ==> !contains_seq(#[trigger] assets@[j].name@, pattern@);
                assert(0 <= i < assets@.len() && contains_seq(assets@[i as int].name@, pattern@) && forall|j: int|
                        0 <= j < i ==> !contains_seq(#[trigger] assets@[j].name@, pattern@));
                if w < i {
                } else if w > i {
                    assert(!contains_seq(assets@[i as int].name@, pattern@));
                }
            }
            return Some(i);
        }
        i = i + 1;
    }
    None
}

impl Updater {
    /// Installer file endings to look for, in order of preference.
    pub fn get_installer_patterns(&self) -> (r: Vec<String>)
        ensures
            string_views(r@) == installer_patterns(self.target_os()),
    {
        let mut v: Vec<String> = Vec::new();
        match self.os {
            TargetOs::Windows => {
                v.push(owned(".msi"));
            },
            TargetOs::MacOs => {
                v.push(owned(".app.zip"));
            },
            TargetOs::Linux => {
                v.push(owned(".deb"));
                v.push(owned(".rpm"));
                v.push(owned(".appimage"));
            },
            TargetOs::Other => {},
        }
        assert(string_views(v@) =~= installer_patterns(self.target_os()));
        v
    }

    /// Binary name fragments to fall back on: the platform tag.
    pub fn get_binary_patterns(&self) -> (r: Vec<String>)
        ensures
            string_views(r@) == seq![self.filter()],
    {
        let mut v: Vec<String> = Vec::new();
        v.push(self.platform_filter.clone());
        assert(string_views(v@) =~= seq![self.filter()]);
        v
    }

    /// The asset to install from a release: an installer for this system if
    /// there is one, else the bare binary for this platform.
    pub fn find_compatible_asset<'a>(&self, release: &'a Release) -> (r: Result<&'a Asset, String>)
        ensures
            r matches Ok(a) ==> exists|i: int|
                asset_for_patterns(
                    release.assets@,
                    installer_patterns(self.target_os()) + seq![self.filter()],
                ) == Some(i) && *a == #[trigger] release.assets@[i],
            r matches Err(e) ==> asset_for_patterns(
                release.assets@,
                installer_patterns(self.target_os()) + seq![self.filter()],
            ) is None && e@ == "No compatible asset found for platform: "@ + self.filter(),
    {
        let installers = self.get_installer_patterns();
        let binaries = self.get_binary_patterns();
        let mut patterns: Vec<String> = installers;
        patterns.push(binaries[0].clone());
        let ghost all = installer_patterns(self.target_os()) + seq![self.filter()];
        assert(string_views(patterns@) =~= all);
        assert(all.skip(0) =~= all);
        let mut k: usize = 0;
        while k < patterns.len()
            invariant
                k <= patterns@.len(),
                all == installer_patterns(self.target_os()) + seq![self.filter()],
                string_views(patterns@) == all,
                asset_for_patterns(release.assets@, all) == asset_for_patterns(
                    release.assets@,
                    all.skip(k as int),
                ),
            decreases patterns@.len() - k,
        {
            let pat = chars_of(patterns[k].as_str());
            assert(all.skip(k as int)[0] == patterns@[k as int]@);
            assert(all.skip(k as int).drop_first() =~= all.skip(k + 1));
            match find_asset_with(&release.assets, pat.as_slice()) {
                Some(i) => {
                    assert(asset_for_patterns(release.assets@, all.skip(k as int)) == Some(i as int));
                    let found = &release.assets[i];
                    assert(asset_for_patterns(release.assets@, all) == Some(i as int)
                        && *found == release.assets@[i as int]);
                    return Ok(found);
                },
                None => {},
            }
            k = k + 1;
        }
        assert(all.skip(k as int).len() == 0);
        let mut e = owned("No compatible asset found for platform: ");
        push_str(&mut e, self.platform_filter.as_str());
        Err(e)
    }

    /// Where a downloaded update is saved: the user's download directory (or
    /// `Downloads` in the home directory, asked for only when there is no
    /// download directory), file named after the asset; as
    /// `download_path_from` gives it for what `dirs` reports.
    pub fn get_download_path(&self, filename: &str) -> (r: Result<String, String>)
        ensures
            r matches Err(e) ==> e@ == "Could not determine download directory"@,
            r matches Ok(p) ==> exists|dir: Seq<char>| p@ == joined(dir, "copydvd_update_"@ + filename@),
    {
        match download_dir() {
            Some(d) => download_path_from(Some(d), None, filename),
            None => download_path_from(None, home_dir(), filename),
        }
    }
}

/// Where a downloaded update is saved, given the user's download directory
/// and home directory if known: `copydvd_update_<filename>` in the download
/// directory, else in `Downloads` under the home directory.
pub fn download_path_from(download: Option<String>, home: Option<String>, filename: &str) -> (r: Result<
    String,
    String,
>)
    ensures
        download matches Some(d) ==> (r matches Ok(p) && p@ == joined(d@, "copydvd_update_"@ + filename@)),
        download is None ==> (home matches Some(h) ==> (r matches Ok(p) && p@ == joined(
            joined(h@, "Downloads"@),
            "copydvd_update_"@ + filename@,
        ))),
        download is None && home is None ==> (r matches Err(e) && e@ == "Could not determine download directory"@),
{
    let dir = match download {
        Some(d) => d,
        None => match home {
            Some(h) => join_path(h.as_str(), "Downloads"),
            None => {
                return Err(owned("Could not determine download directory"));
            },
        },
    };
    let mut name = owned("copydvd_update_");
    push_str(&mut name, filename);
    Ok(join_path(dir.as_str(), name.as_str()))
}

/// `dirs::download_dir`: the user's download directory, which depends on the
/// machine and the environment, so nothing is stated of it.
#[verifier::external_body]
fn download_dir() -> (r: Option<String>) {
    dirs::download_dir().map(|p| p.to_string_lossy().to_string())
}

/// `dirs::home_dir`: the user's home directory, which depends on the machine
/// and the environment, so nothing is stated of it.
#[verifier::external_body]
fn home_dir() -> (r: Option<String>) {
    dirs::home_dir().map(|p| p.to_string_lossy().to_string())
}

/// A release as published: the same texts and flags, and its assets taken
/// one for one.
pub open spec fn publishes(r: Release, gh: GitHubRelease) -> bool {
    &&& r.tag_name == gh.tag_name
    &&& r.name == gh.name
    &&& r.body == gh.body
    &&& r.published_at == gh.published_at
    &&& r.prerelease == gh.prerelease
    &&& r.draft == gh.draft
    &&& r.assets@ == Seq::new(gh.assets@.len(), |k: int| asset_of(gh.assets@[k]))
}

/// The positions of the releases that are neither drafts nor prereleases,
/// among the first `n`.
pub open spec fn stable_positions(gh: Seq<GitHubRelease>, n: nat) -> Seq<int>
    decreases n,
{
    if n == 0 {
        Seq::empty()
    } else {
        let rest = stable_positions(gh, (n - 1) as nat);
        let g = gh[n - 1];
        if !g.draft && !g.prerelease {
            rest.push(n - 1)
        } else {
            rest
        }
    }
}

/// The published releases of an API listing: those that are neither drafts
/// nor prereleases, in their order.
pub fn stable_releases(github_releases: Vec<GitHubRelease>) -> (r: Vec<Release>)
    ensures
        r@.len() == stable_positions(github_releases@, github_releases@.len()).len(),
        forall|k: int| 0 <= k < r@.len() ==> publishes(
            #[trigger] r@[k],
            github_releases@[stable_positions(github_releases@, github_releases@.len())[k]],
        ),
{
    let ghost all = github_releases@;
    let mut rest = github_releases;
    let mut out: Vec<Release> = Vec::new();
    let n = rest.len();
    let mut i: usize = 0;
    while i < n
        invariant
            n == all.len(),
            i <= n,
            rest@ == all.skip(i as int),
            out@.len() == stable_positions(all, i as nat).len(),
            forall|k: int| 0 <= k < out@.len() ==> publishes(#[trigger] out@[k], all[stable_positions(all, i as nat)[k]]),
        decreases n - i,
    {
        let g = rest.remove(0);
        assert(all.skip(i as int)[0] == all[i as int]);
        assert(rest@ =~= all.skip(i + 1));
        if !g.draft && !g.prerelease {
            let ghost before = out@;
            out.push(Release::from(g));
            assert forall|k: int| 0 <= k < out@.len() implies publishes(
                #[trigger] out@[k],
                all[stable_positions(all, (i + 1) as nat)[k]],
            ) by {
                if k < before.len() {
                    assert(out@[k] == before[k]);
                }
            }
        }
        i = i + 1;
    }
    out
}

/// The status of a check that could not compare versions: the request's
/// failure, or (with no reason) the time limit running out.
pub fn failed_check(reason: Option<String>) -> (r: UpdateStatus)
    ensures
        reason matches Some(e) ==> (r matches UpdateStatus::Error(m) && m@ == "Failed to check for updates: "@ + e@),
        reason is None ==> (r matches UpdateStatus::Error(m) && m@ == "Update check timed out"@),
{
    match reason {
        Some(e) => {
            let mut m = owned("Failed to check for updates: ");
            push_str(&mut m, e.as_str());
            UpdateStatus::Error(m)
        },
        None => UpdateStatus::Error(owned("Update check timed out")),
    }
}

/// How a downloaded update is installed.
#[derive(Debug, Clone, Copy, PartialEq, Eq, Structural)]
pub enum InstallMethod {
    WindowsMsi,
    WindowsExe,
    MacApp,
    LinuxDeb,
    LinuxRpm,
    LinuxAppImage,
    ReplaceBinary,
}

/// The installer for a downloaded file: by its ending, among those the
/// system knows; otherwise the running binary is replaced.
pub open spec fn spec_install_method(os: TargetOs, filename: Seq<char>) -> InstallMethod {
    match os {
        TargetOs::Windows => if ends_with(filename, ".msi"@) {
            InstallMethod::WindowsMsi
        } else if ends_with(filename, ".exe"@) {
            InstallMethod::WindowsExe
        } else {
            InstallMethod::ReplaceBinary
        },
        TargetOs::MacOs => if ends_with(filename, ".app.zip"@) {
            InstallMethod::MacApp
        } else {
            InstallMethod::ReplaceBinary
        },
        TargetOs::Linux => if ends_with(filename, ".deb"@) {
            InstallMethod::LinuxDeb
        } else if ends_with(filename, ".rpm"@) {
            InstallMethod::LinuxRpm
        } else if ends_with(filename, ".appimage"@) {
            InstallMethod::LinuxAppImage
        } else {
            InstallMethod::ReplaceBinary
        },
        TargetOs::Other => InstallMethod::ReplaceBinary,
    }
}

fn name_ends_with(name: &[char], suffix: &str) -> (r: bool)
    ensures
        r == ends_with(name@, suffix@),
{
    let s = chars_of(suffix);
    has_suffix(name, s.as_slice())
}

/// Chooses how a downloaded update is installed.
pub fn install_method(os: TargetOs, filename: &str) -> (r: InstallMethod)
    ensures
        r == spec_install_method(os, filename@),
{
    let f = chars_of(filename);
    match os {
        TargetOs::Windows => if name_ends_with(f.as_slice(), ".msi") {
            InstallMethod::WindowsMsi
        } else if name_ends_with(f.as_slice(), ".exe") {
            InstallMethod::WindowsExe
        } else {
            InstallMethod::ReplaceBinary
        },
        TargetOs::MacOs => if name_ends_with(f.as_slice(), ".app.zip") {
            InstallMethod::MacApp
        } else {
            InstallMethod::ReplaceBinary
        },
        TargetOs::Linux => if name_ends_with(f.as_slice(), ".deb") {
            InstallMethod::LinuxDeb
        } else if name_ends_with(f.as_slice(), ".rpm") {
            InstallMethod::LinuxRpm
        } else if name_ends_with(f.as_slice(), ".appimage") {
            InstallMethod::LinuxAppImage
        } else {
            InstallMethod::ReplaceBinary
        },
        TargetOs::Other => InstallMethod::ReplaceBinary,
    }
}

/// The batch script that swaps in a new Windows executable once the program
/// has exited: wait, move the running executable to its backup, move the new
/// one in its place, start it, and delete the script.
pub open spec fn spec_update_script(current_exe: Seq<char>, backup: Seq<char>, new_exe: Seq<char>) -> Seq<char> {
    "@echo off\necho Updating Copy DVD...\ntimeout /t 2 /nobreak >nul\nmove \""@ + current_exe + "\" \""@ + backup
        + "\"\nmove \""@ + new_exe + "\" \""@ + current_exe + "\"\nstart \"\" \""@ + current_exe
        + "\"\ndel \"%~f0\"\n"@
}

/// Writes the Windows update script.
pub fn windows_update_script(current_exe: &str, backup: &str, new_exe: &str) -> (r: String)
    ensures
        r@ == spec_update_script(current_exe@, backup@, new_exe@),
{
    let mut s = owned("@echo off\necho Updating Copy DVD...\ntimeout /t 2 /nobreak >nul\nmove \"");
    push_str(&mut s, current_exe);
    push_str(&mut s, "\" \"");
    push_str(&mut s, backup);
    push_str(&mut s, "\"\nmove \"");
    push_str(&mut s, new_exe);
    push_str(&mut s, "\" \"");
    push_str(&mut s, current_exe);
    push_str(&mut s, "\"\nstart \"\" \"");
    push_str(&mut s, current_exe);
    push_str(&mut s, "\"\ndel \"%~f0\"\n");
    s
}

} // verus!
