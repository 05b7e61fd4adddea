//! Semantic versions: parsing through `semver`, equality and precedence.
use vstd::prelude::*;
use crate::text::{bytes_eq, copy_range, lacks, no_newline};

verus! {

/// A version as plain values: major, minor, patch, pre-release, build metadata.
pub type VersionModel = (u64, u64, u64, Seq<u8>, Seq<u8>);

/// What `semver::Version::parse` makes of `text`, read as UTF-8.
pub uninterp spec fn semver_parse(text: Seq<u8>) -> Option<VersionModel>;

/// Whether `semver::Prerelease` orders the pre-release `a` before `b`.
pub uninterp spec fn semver_pre_lt(a: Seq<u8>, b: Seq<u8>) -> bool;

/// The bytes that semver's grammar admits in a version string.
pub open spec fn is_version_byte(b: u8) -> bool {
    (48 <= b <= 57) || (65 <= b <= 90) || (97 <= b <= 122) || b == 45 || b == 46 || b == 43
}

pub open spec fn version_bytes_only(text: Seq<u8>) -> bool {
    forall|i: int| 0 <= i < text.len() ==> is_version_byte(#[trigger] text[i])
}

/// Precedence of semantic versioning: the three numbers in turn, then the
/// pre-release. Build metadata takes no part.
pub open spec fn precedes(a: VersionModel, b: VersionModel) -> bool {
    a.0 < b.0 || (a.0 == b.0 && (a.1 < b.1 || (a.1 == b.1 && (a.2 < b.2 || (a.2 == b.2
        && semver_pre_lt(a.3, b.3))))))
}

/// `a` is an older version than `b`: a different version of lower precedence.
pub open spec fn older_than(a: VersionModel, b: VersionModel) -> bool {
    a != b && precedes(a, b)
}

/// A parsed semantic version.
pub struct Version {
    pub major: u64,
    pub minor: u64,
    pub patch: u64,
    pub pre: Vec<u8>,
    pub build: Vec<u8>,
}

impl View for Version {
    type V = VersionModel;

    open spec fn view(&self) -> VersionModel {
        (self.major, self.minor, self.patch, self.pre@, self.build@)
    }
}

/// Relies on `semver::Version::parse` for the parts of a version string. On
/// success the whole text has been consumed by semver's grammar, which admits
/// only ASCII letters, digits, `-`, `.` and `+`.
#[verifier::external_body]
fn parse_semver(text: &[u8]) -> (r: Option<Version>)
    ensures
        match r {
            Some(v) => semver_parse(text@) == Some(v@),
            None => semver_parse(text@).is_none(),
        },
        r.is_some() ==> version_bytes_only(text@),
{
    match std::str::from_utf8(text) {
        Ok(s) => match semver::Version::parse(s) {
            Ok(v) => Some(
                Version {
                    major: v.major,
                    minor: v.minor,
                    patch: v.patch,
                    pre: v.pre.as_str().as_bytes().to_vec(),
                    build: v.build.as_str().as_bytes().to_vec(),
                },
            ),
            Err(_) => None,
        },
        Err(_) => None,
    }
}

/// Relies on the `Ord` of `semver::Prerelease` to order two pre-releases.
#[verifier::external_body]
fn prerelease_lt(a: &[u8], b: &[u8]) -> (r: bool)
    ensures
        r == semver_pre_lt(a@, b@),
{
    match (std::str::from_utf8(a), std::str::from_utf8(b)) {
        (Ok(a), Ok(b)) => match (semver::Prerelease::new(a), semver::Prerelease::new(b)) {
            (Ok(a), Ok(b)) => a < b,
            _ => false,
        },
        _ => false,
    }
}

impl Version {
    /// Parses `text` as a semantic version.
    pub fn parse(text: &[u8]) -> (r: Option<Version>)
        ensures
            match r {
                Some(v) => semver_parse(text@) == Some(v@),
                None => semver_parse(text@).is_none(),
            },
            r.is_some() ==> version_bytes_only(text@),
    {
        parse_semver(text)
    }

    /// Whether the two versions are identical, build metadata included.
    pub fn same_as(&self, other: &Version) -> (r: bool)
        ensures
            r == (self@ == other@),
    {
        self.major == other.major && self.minor == other.minor && self.patch == other.patch
            && bytes_eq(self.pre.as_slice(), other.pre.as_slice()) && bytes_eq(
            self.build.as_slice(),
            other.build.as_slice(),
        )
    }

    /// Whether this version has lower precedence than `other`.
    pub fn precedes(&self, other: &Version) -> (r: bool)
        ensures
            r == precedes(self@, other@),
    {
        if self.major != other.major {
            return self.major < other.major;
        }
        if self.minor != other.minor {
            return self.minor < other.minor;
        }
        if self.patch != other.patch {
            return self.patch < other.patch;
        }
        prerelease_lt(self.pre.as_slice(), other.pre.as_slice())
    }
}

/// The version of this tool: its text as it is stamped into scripts, and
/// what that text parses to.
pub struct ToolVersion {
    pub text: Vec<u8>,
    pub version: Version,
}

impl ToolVersion {
    pub open spec fn wf(&self) -> bool {
        semver_parse(self.text@) == Some(self.version@) && version_bytes_only(self.text@)
    }

    /// Reads the tool version from its text; `None` when it is no semantic version.
    pub fn parse(text: &[u8]) -> (r: Option<ToolVersion>)
        ensures
            r.is_some() == semver_parse(text@).is_some(),
            match r {
                Some(t) => t.wf() && t.text@ == text@,
                None => true,
            },
    {
        match Version::parse(text) {
            Some(version) => {
                let t = ToolVersion { text: copy_range(text, 0, text.len()), version };
                assert(text@.subrange(0, text@.len() as int) =~= text@);
                Some(t)
            },
            None => None,
        }
    }
}

/// A version string holds neither a newline nor a colon.
pub proof fn lemma_version_bytes_plain(text: Seq<u8>)
    requires
        version_bytes_only(text),
    ensures
        no_newline(text),
        lacks(text, 58),
{
    assert forall|i: int| 0 <= i < text.len() implies text[i] != 10 && text[i] != 58 by {
        assert(is_version_byte(text[i]));
    }
}

} // verus!
