//! Semantic versions and their order.
//!
//! Version texts are parsed by the `semver` crate. The order is decided here
//! from the three numbers; where they are equal it falls to the pre-release
//! tags and then to the build metadata, which `semver` compares.

use vstd::prelude::*;

verus! {

/// The error that `semver` gives for a text that is no version.
#[verifier::external_type_specification]
#[verifier::external_body]
pub struct ExSemverError(semver::Error);

/// A semantic version: three numbers, a pre-release tag that is empty for a
/// release, and build metadata that is empty where none is given.
#[derive(Debug, PartialEq, Eq)]
pub struct Version {
    pub major: u64,
    pub minor: u64,
    pub patch: u64,
    pub pre: String,
    pub build: String,
}

/// A version as plain values.
pub struct VersionView {
    pub major: u64,
    pub minor: u64,
    pub patch: u64,
    pub pre: Seq<char>,
    pub build: Seq<char>,
}

impl View for Version {
    type V = VersionView;

    open spec fn view(&self) -> VersionView {
        VersionView {
            major: self.major,
            minor: self.minor,
            patch: self.patch,
            pre: self.pre@,
            build: self.build@,
        }
    }
}

/// What `semver::Version::parse` makes of a text: the version it stands
/// for, or nothing where it stands for none.
pub uninterp spec fn semver_parsed(text: Seq<char>) -> Option<VersionView>;

/// Whether `semver` orders the pre-release tag `a` after the tag `b`.
pub uninterp spec fn prerelease_follows(a: Seq<char>, b: Seq<char>) -> bool;

/// Whether `semver` orders the build metadata `a` after the metadata `b`.
pub uninterp spec fn build_follows(a: Seq<char>, b: Seq<char>) -> bool;

/// Whether the pre-release tag `a` ranks above the different tag `b`: the
/// empty tag, which marks a release, ranks above every other, and two tags
/// of pre-releases rank as `semver` orders them.
pub open spec fn tag_outranks(a: Seq<char>, b: Seq<char>) -> bool {
    if b.len() == 0 {
        false
    } else if a.len() == 0 {
        true
    } else {
        prerelease_follows(a, b)
    }
}

/// Whether version `a` is newer than version `b`: by the major number, then
/// the minor, then the patch; among versions of the same three numbers by
/// the pre-release tag, where a release is newer than any pre-release; and
/// among versions that differ in nothing else by the build metadata.
pub open spec fn newer(a: VersionView, b: VersionView) -> bool {
    if a.major != b.major {
        a.major > b.major
    } else if a.minor != b.minor {
        a.minor > b.minor
    } else if a.patch != b.patch {
        a.patch > b.patch
    } else if a.pre != b.pre {
        tag_outranks(a.pre, b.pre)
    } else {
        a.build != b.build && build_follows(a.build, b.build)
    }
}

/// Whether two versions have the same major, minor and patch numbers.
pub open spec fn same_numbers(a: VersionView, b: VersionView) -> bool {
    a.major == b.major && a.minor == b.minor && a.patch == b.patch
}

/// Parses a version text with `semver::Version::parse` and hands its parts
/// over as plain values.
///
/// Trusted: the outcome is a function of the text alone, named
/// `semver_parsed`; the error is the crate's own.
#[verifier::external_body]
fn semver_parse(text: &str) -> (outcome: Result<Version, semver::Error>)
    ensures
        match outcome {
            Ok(version) => semver_parsed(text@) == Some(version@),
            Err(_) => semver_parsed(text@) is None,
        },
{
    match semver::Version::parse(text) {
        Ok(parsed) => Ok(
            Version {
                major: parsed.major,
                minor: parsed.minor,
                patch: parsed.patch,
                pre: parsed.pre.as_str().to_string(),
                build: parsed.build.as_str().to_string(),
            },
        ),
        Err(error) => Err(error),
    }
}

/// Compares two pre-release tags with the order of `semver::Prerelease`.
/// Each text is read with `semver::Prerelease::new`; a text that is no tag
/// counts as lower than any that is.
///
/// Trusted: the answer is a function of the two texts alone, named
/// `prerelease_follows`.
#[verifier::external_body]
fn prerelease_after(a: &str, b: &str) -> (after: bool)
    ensures
        after == prerelease_follows(a@, b@),
{
    semver::Prerelease::new(a).ok() > semver::Prerelease::new(b).ok()
}

/// Compares two build metadata texts with the order of
/// `semver::BuildMetadata`. Each text is read with
/// `semver::BuildMetadata::new`; a text that is no metadata counts as lower
/// than any that is.
///
/// Trusted: the answer is a function of the two texts alone, named
/// `build_follows`.
#[verifier::external_body]
fn build_after(a: &str, b: &str) -> (after: bool)
    ensures
        after == build_follows(a@, b@),
{
    semver::BuildMetadata::new(a).ok() > semver::BuildMetadata::new(b).ok()
}

impl Version {
    /// The version that `text` stands for, or `None` where it stands for
    /// none.
    pub fn parse(text: &str) -> (version: Option<Version>)
        ensures
            match version {
                Some(v) => semver_parsed(text@) == Some(v@),
                None => semver_parsed(text@) is None,
            },
    {
        match semver_parse(text) {
            Ok(version) => Some(version),
            Err(_) => None,
        }
    }

    /// The release `major.minor.patch`.
    pub fn release(major: u64, minor: u64, patch: u64) -> (version: Version)
        ensures
            version@ == (VersionView {
                major,
                minor,
                patch,
                pre: Seq::<char>::empty(),
                build: Seq::<char>::empty(),
            }),
    {
        Version { major, minor, patch, pre: String::new(), build: String::new() }
    }

    /// Whether this version is a pre-release.
    pub fn is_prerelease(&self) -> (tagged: bool)
        ensures
            tagged == (self@.pre.len() > 0),
    {
        !self.pre.as_str().is_empty()
    }

    /// A copy of this version.
    pub fn duplicate(&self) -> (copy: Version)
        ensures
            copy@ == self@,
    {
        Version {
            major: self.major,
            minor: self.minor,
            patch: self.patch,
            pre: self.pre.clone(),
            build: self.build.clone(),
        }
    }

    /// Whether this version is newer than `other`.
    pub fn is_newer_than(&self, other: &Version) -> (answer: bool)
        ensures
            answer == newer(self@, other@),
    {
        if self.major != other.major {
            self.major > other.major
        } else if self.minor != other.minor {
            self.minor > other.minor
        } else if self.patch != other.patch {
            self.patch > other.patch
        } else if !(self.pre == other.pre) {
            if other.pre.as_str().is_empty() {
                false
            } else if self.pre.as_str().is_empty() {
                true
            } else {
                prerelease_after(self.pre.as_str(), other.pre.as_str())
            }
        } else if self.build == other.build {
            false
        } else {
            build_after(self.build.as_str(), other.build.as_str())
        }
    }
}

/// The three numbers decide first, the major number before the minor and
/// the minor before the patch, whatever the tags and the metadata are.
pub proof fn lemma_numbers_decide(a: VersionView, b: VersionView)
    ensures
        a.major > b.major ==> newer(a, b) && !newer(b, a),
        a.major == b.major && a.minor > b.minor ==> newer(a, b) && !newer(b, a),
        a.major == b.major && a.minor == b.minor && a.patch > b.patch ==> newer(a, b) && !newer(
            b,
            a,
        ),
{
}

/// Among versions of the same three numbers a release is newer than every
/// pre-release, and no pre-release is newer than the release.
pub proof fn lemma_release_outranks_prerelease(release: VersionView, pre: VersionView)
    requires
        same_numbers(release, pre),
        release.pre.len() == 0,
        pre.pre.len() > 0,
    ensures
        newer(release, pre),
        !newer(pre, release),
{
}

/// No version is newer than itself.
pub proof fn lemma_not_newer_than_itself(v: VersionView)
    ensures
        !newer(v, v),
{
}

/// Where the three numbers differ, exactly one of two versions is newer
/// than the other.
pub proof fn lemma_numbers_order_both_ways(a: VersionView, b: VersionView)
    requires
        !same_numbers(a, b),
    ensures
        newer(a, b) <==> !newer(b, a),
{
}

} // verus!
