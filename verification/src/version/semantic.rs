//! A semantic version, `MAJOR.MINOR.PATCH[-PRERELEASE][+BUILD]`, and the
//! precedence among versions. Build metadata takes no part in precedence.

use crate::text::{
    chars_of, copy_str, decimal_digits, format_decimal, push_chars, string_of,
};
use crate::version::identifiers::{IdentifierError, IdentifierView};
use crate::version::pre_release::{
    all_valid_identifiers, lemma_pre_lt_asymmetric, lemma_pre_lt_irreflexive,
    lemma_pre_lt_transitive, prerelease_lt, prerelease_of_text, prerelease_text, Prerelease,
};
use std::cmp::Ordering;
use vstd::prelude::*;
use vstd::std_specs::cmp::{PartialEqSpecImpl, PartialOrdSpecImpl};

verus! {

/// The build metadata of a version: a text that tools may read and that
/// takes no part in precedence.
#[derive(Debug, Hash)]
pub struct BuildMetadata {
    text: String,
}

impl View for BuildMetadata {
    type V = Seq<char>;

    closed spec fn view(&self) -> Seq<char> {
        self.text@
    }
}

impl Clone for BuildMetadata {
    fn clone(&self) -> (r: Self)
        ensures
            r@ == self@,
    {
        BuildMetadata { text: self.text.clone() }
    }
}

impl PartialEq for BuildMetadata {
    fn eq(&self, other: &Self) -> (r: bool) {
        self.text == other.text
    }
}

impl Eq for BuildMetadata {

}

impl PartialEqSpecImpl for BuildMetadata {
    open spec fn obeys_eq_spec() -> bool {
        true
    }

    open spec fn eq_spec(&self, other: &Self) -> bool {
        self@ == other@
    }
}

impl BuildMetadata {
    /// The build metadata of a version that has none.
    pub fn empty() -> (r: BuildMetadata)
        ensures
            r@ == Seq::<char>::empty(),
    {
        BuildMetadata { text: String::new() }
    }

    /// Build metadata with the given text.
    pub fn new(text: &str) -> (r: BuildMetadata)
        ensures
            r@ == text@,
    {
        BuildMetadata { text: copy_str(text) }
    }

    /// The text.
    pub fn as_str(&self) -> (s: &str)
        ensures
            s@ == self@,
    {
        self.text.as_str()
    }

    /// Whether the text is empty.
    pub fn is_empty(&self) -> (b: bool)
        ensures
            b == (self@.len() == 0),
    {
        let chars = chars_of(self.text.as_str());
        chars.len() == 0
    }
}

/// A semantic version.
#[derive(Debug, Hash)]
pub struct Version {
    pub major: u64,
    pub minor: u64,
    pub patch: u64,
    pub pre: Prerelease,
    pub build: BuildMetadata,
}

/// A version as a mathematical value.
pub struct VersionView {
    pub major: nat,
    pub minor: nat,
    pub patch: nat,
    pub pre: Seq<IdentifierView>,
    pub build: Seq<char>,
}

impl View for Version {
    type V = VersionView;

    open spec fn view(&self) -> VersionView {
        VersionView {
            major: self.major as nat,
            minor: self.minor as nat,
            patch: self.patch as nat,
            pre: self.pre@,
            build: self.build@,
        }
    }
}

/// A version whose numbers fit in 64 bits and whose identifiers are valid.
pub open spec fn valid_version(v: VersionView) -> bool {
    &&& v.major <= u64::MAX
    &&& v.minor <= u64::MAX
    &&& v.patch <= u64::MAX
    &&& all_valid_identifiers(v.pre)
}

/// Precedence among versions: `a` comes strictly before `b`. The three
/// numbers are compared in turn, then the prereleases; build metadata is
/// not looked at.
pub open spec fn version_lt(a: VersionView, b: VersionView) -> bool {
    if a.major != b.major {
        a.major < b.major
    } else if a.minor != b.minor {
        a.minor < b.minor
    } else if a.patch != b.patch {
        a.patch < b.patch
    } else {
        prerelease_lt(a.pre, b.pre)
    }
}

/// No version comes before itself.
pub proof fn lemma_version_lt_irreflexive(a: VersionView)
    ensures
        !version_lt(a, a),
{
    lemma_pre_lt_irreflexive(a.pre);
}

/// Of two versions at most one comes before the other.
pub proof fn lemma_version_lt_asymmetric(a: VersionView, b: VersionView)
    ensures
        !(version_lt(a, b) && version_lt(b, a)),
{
    lemma_pre_lt_asymmetric(a.pre, b.pre);
}

/// Precedence among versions is transitive.
pub proof fn lemma_version_lt_transitive(a: VersionView, b: VersionView, c: VersionView)
    requires
        version_lt(a, b),
        version_lt(b, c),
    ensures
        version_lt(a, c),
{
    if a.major == b.major && b.major == c.major && a.minor == b.minor && b.minor == c.minor
        && a.patch == b.patch && b.patch == c.patch && c.pre.len() > 0 {
        lemma_pre_lt_transitive(a.pre, b.pre, c.pre);
    }
}

/// Versions that differ in build metadata alone have the same precedence.
pub proof fn lemma_build_takes_no_part(a: VersionView, b: VersionView, build: Seq<char>)
    ensures
        version_lt(a, b) == version_lt(VersionView { build, ..a }, b),
        version_lt(a, b) == version_lt(a, VersionView { build, ..b }),
{
}

/// How a version is written.
pub open spec fn version_text(v: VersionView) -> Seq<char> {
    decimal_digits(v.major) + seq!['.'] + decimal_digits(v.minor) + seq!['.'] + decimal_digits(
        v.patch,
    ) + (if v.pre.len() > 0 {
        seq!['-'] + prerelease_text(v.pre)
    } else {
        Seq::<char>::empty()
    }) + (if v.build.len() > 0 {
        seq!['+'] + v.build
    } else {
        Seq::<char>::empty()
    })
}

impl Clone for Version {
    fn clone(&self) -> (r: Self)
        ensures
            r@ == self@,
    {
        Version {
            major: self.major,
            minor: self.minor,
            patch: self.patch,
            pre: self.pre.clone(),
            build: self.build.clone(),
        }
    }
}

impl PartialEq for Version {
    fn eq(&self, other: &Self) -> (r: bool) {
        self.major == other.major && self.minor == other.minor && self.patch == other.patch
            && self.pre == other.pre && self.build == other.build
    }
}

impl Eq for Version {

}

impl PartialEqSpecImpl for Version {
    open spec fn obeys_eq_spec() -> bool {
        true
    }

    open spec fn eq_spec(&self, other: &Self) -> bool {
        self@ == other@
    }
}

impl PartialOrd for Version {
    fn partial_cmp(&self, other: &Self) -> (r: Option<Ordering>) {
        if self.precedes(other) {
            Some(Ordering::Less)
        } else if other.precedes(self) {
            Some(Ordering::Greater)
        } else if self == other {
            Some(Ordering::Equal)
        } else {
            None
        }
    }
}

impl PartialOrdSpecImpl for Version {
    open spec fn obeys_partial_cmp_spec() -> bool {
        true
    }

    /// Two versions of the same precedence are equal where they are the same
    /// version, and not ordered where they differ, as in build metadata.
    open spec fn partial_cmp_spec(&self, other: &Self) -> Option<Ordering> {
        if version_lt(self@, other@) {
            Some(Ordering::Less)
        } else if version_lt(other@, self@) {
            Some(Ordering::Greater)
        } else if self@ == other@ {
            Some(Ordering::Equal)
        } else {
            None
        }
    }
}

/// The error that `semver` gives for a text that is no version.
#[verifier::external_type_specification]
#[verifier::external_body]
pub struct ExSemverError(semver::Error);

/// The parts of a version as they are read from its text, the prerelease
/// and the build metadata still as texts.
#[derive(Debug)]
pub struct VersionParts {
    pub major: u64,
    pub minor: u64,
    pub patch: u64,
    pub pre: String,
    pub build: String,
}

/// Why a text is no version.
#[derive(Debug)]
pub enum VersionParseError {
    /// The text does not follow the grammar of versions; the message says
    /// where.
    Syntax(String),
    /// A field of the prerelease is no identifier.
    Prerelease(IdentifierError),
}

/// What `semver::Version::parse` reads from a text: the three numbers, the
/// text of the prerelease and the text of the build metadata, or nothing
/// where the text is no version.
pub uninterp spec fn semver_parse(text: Seq<char>) -> Option<(u64, u64, u64, Seq<char>, Seq<char>)>;

/// Calls `semver::Version::parse` and hands out the fields of the version it
/// gives, the prerelease and the build metadata as the texts that their
/// `as_str` gives. The result is what [`semver_parse`] names.
#[verifier::external_body]
fn parse_semver(text: &str) -> (r: Result<VersionParts, semver::Error>)
    ensures
        r matches Ok(p) ==> semver_parse(text@) == Some((p.major, p.minor, p.patch, p.pre@, p.build@)),
        r is Err ==> semver_parse(text@) is None,
{
    match semver::Version::parse(text) {
        Ok(v) => Ok(
            VersionParts {
                major: v.major,
                minor: v.minor,
                patch: v.patch,
                pre: v.pre.as_str().to_string(),
                build: v.build.as_str().to_string(),
            },
        ),
        Err(e) => Err(e),
    }
}

/// The message of an error of `semver`, as its `Display` writes it.
#[verifier::external_body]
fn semver_error_message(error: &semver::Error) -> String {
    error.to_string()
}

/// The version that the parts of a version make.
pub open spec fn version_of_parts(
    major: u64,
    minor: u64,
    patch: u64,
    pre: Seq<char>,
    build: Seq<char>,
) -> Result<VersionView, IdentifierError> {
    match prerelease_of_text(pre) {
        Ok(ids) => Ok(
            VersionView {
                major: major as nat,
                minor: minor as nat,
                patch: patch as nat,
                pre: ids,
                build,
            },
        ),
        Err(e) => Err(e),
    }
}

impl Version {
    /// Makes a version of its parts. Fails where the text of the prerelease
    /// is neither empty nor dot-separated identifiers, with the error of the
    /// first field that is no identifier.
    pub fn from_parts(parts: &VersionParts) -> (r: Result<Version, IdentifierError>)
        ensures
            r matches Ok(v) ==> version_of_parts(
                parts.major,
                parts.minor,
                parts.patch,
                parts.pre@,
                parts.build@,
            ) == Ok::<VersionView, IdentifierError>(v@),
            r matches Err(e) ==> version_of_parts(
                parts.major,
                parts.minor,
                parts.patch,
                parts.pre@,
                parts.build@,
            ) == Err::<VersionView, IdentifierError>(e),
    {
        match Prerelease::new(parts.pre.as_str()) {
            Ok(pre) => Ok(
                Version {
                    major: parts.major,
                    minor: parts.minor,
                    patch: parts.patch,
                    pre,
                    build: BuildMetadata::new(parts.build.as_str()),
                },
            ),
            Err(e) => Err(e),
        }
    }

    /// Reads a version from its text, `MAJOR.MINOR.PATCH[-PRERELEASE][+BUILD]`.
    /// The text is read by `semver`; the version is then made of the parts
    /// read, as [`Version::from_parts`] makes it.
    pub fn parse(text: &str) -> (r: Result<Version, VersionParseError>)
        ensures
            semver_parse(text@) is None ==> r matches Err(VersionParseError::Syntax(_)),
            semver_parse(text@) matches Some(p) ==> match version_of_parts(p.0, p.1, p.2, p.3, p.4) {
                Ok(v) => r matches Ok(got) && got@ == v,
                Err(e) => r matches Err(VersionParseError::Prerelease(got)) && got == e,
            },
    {
        match parse_semver(text) {
            Ok(parts) => match Version::from_parts(&parts) {
                Ok(v) => Ok(v),
                Err(e) => Err(VersionParseError::Prerelease(e)),
            },
            Err(e) => Err(VersionParseError::Syntax(semver_error_message(&e))),
        }
    }

    /// Create `Version` with an empty pre-release and build metadata.
    pub fn new(major: u64, minor: u64, patch: u64) -> (v: Version)
        ensures
            v@ == (VersionView {
                major: major as nat,
                minor: minor as nat,
                patch: patch as nat,
                pre: Seq::<IdentifierView>::empty(),
                build: Seq::<char>::empty(),
            }),
    {
        Version { major, minor, patch, pre: Prerelease::empty(), build: BuildMetadata::empty() }
    }

    /// Whether `self` comes strictly before `other` in precedence.
    pub fn precedes(&self, other: &Self) -> (b: bool)
        ensures
            b == version_lt(self@, other@),
    {
        if self.major != other.major {
            self.major < other.major
        } else if self.minor != other.minor {
            self.minor < other.minor
        } else if self.patch != other.patch {
            self.patch < other.patch
        } else {
            self.pre.precedes(&other.pre)
        }
    }

    /// The version as it is written.
    pub fn to_string(&self) -> (s: String)
        ensures
            s@ == version_text(self@),
    {
        let mut out: Vec<char> = format_decimal(self.major);
        out.push('.');
        push_chars(&mut out, &format_decimal(self.minor));
        out.push('.');
        push_chars(&mut out, &format_decimal(self.patch));
        if !self.pre.is_empty() {
            out.push('-');
            let pre = self.pre.to_string();
            push_chars(&mut out, &chars_of(pre.as_str()));
        }
        if !self.build.is_empty() {
            out.push('+');
            push_chars(&mut out, &chars_of(self.build.as_str()));
        }
        assert(out@ == version_text(self@));
        string_of(&out)
    }
}

} // verus!
