//! Semantic versions, read and ordered by the `semver` crate.

use vstd::prelude::*;

verus! {

#[verifier::external_type_specification]
#[verifier::external_body]
pub struct ExSemverVersion(semver::Version);

/// What the library reads of a version: major, minor, patch, pre-release and
/// build metadata.
pub type VersionParts = (u64, u64, u64, Seq<char>, Seq<char>);

/// A parsed semantic version.
pub struct SemVer {
    major: u64,
    minor: u64,
    patch: u64,
    pre: String,
    build: String,
    inner: semver::Version,
}

impl View for SemVer {
    type V = VersionParts;

    closed spec fn view(&self) -> VersionParts {
        (self.major, self.minor, self.patch, self.pre@, self.build@)
    }
}

/// What `semver::Version::parse` makes of a text: `None` where it reports an
/// error, else the parts of the version.
pub uninterp spec fn semver_parse(text: Seq<char>) -> Option<VersionParts>;

/// `a > b` in the total order `semver::Version` implements.
pub uninterp spec fn semver_greater(a: VersionParts, b: VersionParts) -> bool;

/// The release numbers `(major, minor, patch)` of `a` come after those of `b`.
pub open spec fn release_numbers_greater(a: VersionParts, b: VersionParts) -> bool {
    a.0 > b.0 || (a.0 == b.0 && a.1 > b.1) || (a.0 == b.0 && a.1 == b.1 && a.2 > b.2)
}

/// The release numbers of `a` and `b` are the same.
pub open spec fn same_release_numbers(a: VersionParts, b: VersionParts) -> bool {
    a.0 == b.0 && a.1 == b.1 && a.2 == b.2
}

/// Version `0.0.0`.
pub open spec fn zero_version() -> VersionParts {
    (0, 0, 0, Seq::empty(), Seq::empty())
}

impl SemVer {
    /// `semver::Version::parse`: the result is the crate's reading of the text,
    /// which depends on the text alone.
    #[verifier::external_body]
    pub fn parse(text: &str) -> (r: Option<SemVer>)
        ensures
            r matches Some(v) ==> semver_parse(text@) == Some(v@),
            r is None ==> semver_parse(text@) is None,
    {
        match semver::Version::parse(text) {
            Ok(v) => Some(SemVer {
                major: v.major,
                minor: v.minor,
                patch: v.patch,
                pre: v.pre.as_str().to_string(),
                build: v.build.as_str().to_string(),
                inner: v,
            }),
            Err(_) => None,
        }
    }

    /// `semver::Version::new(0, 0, 0)`, which has empty pre-release and build
    /// metadata.
    #[verifier::external_body]
    pub fn zero() -> (r: SemVer)
        ensures
            r@ == zero_version(),
    {
        SemVer {
            major: 0,
            minor: 0,
            patch: 0,
            pre: String::new(),
            build: String::new(),
            inner: semver::Version::new(0, 0, 0),
        }
    }

    /// `self > other` for `semver::Version`. The crate derives `Ord` on
    /// (major, minor, patch, pre-release, build metadata), and its orders on
    /// pre-release and build metadata are total and agree with equality of
    /// their text; so `>` is a strict total order on the parts: equal versions
    /// are not greater than each other, of two different versions one is
    /// greater, and the order is asymmetric and transitive (stated here for
    /// the two versions compared and any third). Release numbers that differ
    /// decide first. How pre-release and build metadata order versions with
    /// the same numbers is left to the name.
    #[verifier::external_body]
    pub fn greater_than(&self, other: &SemVer) -> (r: bool)
        ensures
            r == semver_greater(self@, other@),
            !same_release_numbers(self@, other@) ==> r == release_numbers_greater(self@, other@),
            self@ == other@ ==> !r,
            !r && self@ != other@ ==> semver_greater(other@, self@),
            r ==> !semver_greater(other@, self@),
            forall|c: VersionParts| r && semver_greater(other@, c) ==> semver_greater(self@, c),
            forall|c: VersionParts| r && semver_greater(c, self@) ==> semver_greater(c, other@),
    {
        self.inner > other.inner
    }
}

} // verus!
