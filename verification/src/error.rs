//! The errors of the version algebra and of manifest discovery, as plain
//! values: a kind and the context that a report needs.

use crate::cli::action::{action_text, Action};
use crate::text::{chars_of, copy_str, push_chars, string_of};
use crate::version::semantic::Version;
use vstd::prelude::*;

verus! {

/// The manifest of the workspace could not be found.
#[derive(Debug)]
pub struct ManifestNotFoundError {
    pub help: Option<&'static str>,
    pub source_code: Option<String>,
    pub msg: String,
    pub label: Option<(usize, usize)>,
    pub label_msg: &'static str,
}

/// Why a version could not be bumped.
#[derive(Debug, Clone, Copy, PartialEq, Eq, Structural)]
pub enum VersionErrorKind {
    /// A minor or major bump was asked of a version with a prerelease, and
    /// the bump was not forced.
    PrereleaseNotEmpty,
    /// A prerelease bump was asked of a version without prerelease.
    PrereleaseNotSet,
    /// A prerelease bump was asked of a version whose last prerelease field
    /// is not numeric.
    PrereleaseNotNumeric,
    /// The new version does not come after the old one, and the bump was not
    /// forced.
    NotGreater,
    /// The action is no bump.
    InvalidAction,
    /// The number that the bump advances has no room to go up by one.
    Overflow,
}

#[derive(Debug)]
pub struct VersionError {
    pub kind: VersionErrorKind,
    pub old_version: Version,
    pub bump: Action,
    pub msg: String,
    pub help: Option<String>,
    /// The place of the offending characters in the text of the prerelease:
    /// where they start, and how many they are.
    pub label: Option<(usize, usize)>,
    pub label_msg: String,
}

/// The message of each kind of error.
pub open spec fn version_error_message(kind: VersionErrorKind) -> Seq<char> {
    match kind {
        VersionErrorKind::PrereleaseNotEmpty => "Pre-release is not empty."@,
        VersionErrorKind::PrereleaseNotSet => "Prerelease not set."@,
        VersionErrorKind::PrereleaseNotNumeric => "Prerelease does not end in a number."@,
        VersionErrorKind::NotGreater => "New version is not larger than old version"@,
        VersionErrorKind::InvalidAction => "Invalid Action"@,
        VersionErrorKind::Overflow => "Version number is too large to bump"@,
    }
}

/// The advice that goes with a bump that a prerelease blocks.
pub open spec fn prerelease_not_empty_help(bump: Action) -> Seq<char> {
    "To version bump by "@ + action_text(bump)
        + ", pre-release needs to be empty. Use '--force-version' to skip this check."@
}

impl VersionError {
    /// Whether the error is of the given kind, about the given version and
    /// bump, with the message of its kind.
    pub open spec fn describes(
        &self,
        kind: VersionErrorKind,
        old_version: &Version,
        bump: Action,
    ) -> bool {
        &&& self.kind == kind
        &&& self.old_version@ == old_version@
        &&& self.bump == bump
        &&& self.msg@ == version_error_message(kind)
    }

    /// An error of the given kind with the message of its kind and nothing
    /// else.
    pub fn new(kind: VersionErrorKind, old_version: &Version, bump: Action) -> (e: Self)
        ensures
            e.describes(kind, old_version, bump),
            e.help is None,
            e.label is None,
            e.label_msg@.len() == 0,
    {
        let msg = match kind {
            VersionErrorKind::PrereleaseNotEmpty => copy_str("Pre-release is not empty."),
            VersionErrorKind::PrereleaseNotSet => copy_str("Prerelease not set."),
            VersionErrorKind::PrereleaseNotNumeric => copy_str(
                "Prerelease does not end in a number.",
            ),
            VersionErrorKind::NotGreater => copy_str("New version is not larger than old version"),
            VersionErrorKind::InvalidAction => copy_str("Invalid Action"),
            VersionErrorKind::Overflow => copy_str("Version number is too large to bump"),
        };
        Self {
            kind,
            old_version: old_version.clone(),
            bump,
            msg,
            help: None,
            label: None,
            label_msg: String::new(),
        }
    }

    /// The error of a minor or major bump that a prerelease blocks.
    pub fn prerelease_not_empty(old_version: &Version, bump: Action) -> (e: Self)
        ensures
            e.describes(VersionErrorKind::PrereleaseNotEmpty, old_version, bump),
            e.help matches Some(h) && h@ == prerelease_not_empty_help(bump),
            e.label is None,
            e.label_msg@.len() == 0,
    {
        let mut help = chars_of("To version bump by ");
        let name = bump.to_string();
        push_chars(&mut help, &chars_of(name.as_str()));
        push_chars(
            &mut help,
            &chars_of(
                ", pre-release needs to be empty. Use '--force-version' to skip this check.",
            ),
        );
        let mut e = VersionError::new(VersionErrorKind::PrereleaseNotEmpty, old_version, bump);
        e.help = Some(string_of(&help));
        e
    }

    /// The error of a prerelease bump on a version without prerelease.
    pub fn prerelease_not_set(old_version: &Version) -> (e: Self)
        ensures
            e.describes(VersionErrorKind::PrereleaseNotSet, old_version, Action::Pre),
            e.help matches Some(h) && h@
                == "Set the pre-release either with the pre-release flag `--pre` or using the `set` action."@,
            e.label is None,
    {
        let mut e = VersionError::new(VersionErrorKind::PrereleaseNotSet, old_version, Action::Pre);
        e.help = Some(
            copy_str(
                "Set the pre-release either with the pre-release flag `--pre` or using the `set` action.",
            ),
        );
        e
    }

    /// The error of a prerelease bump on a version whose last prerelease
    /// field is no number. `start` and `length` give the place of that field
    /// in the text of the prerelease.
    pub fn prerelease_not_numeric(old_version: &Version, start: usize, length: usize) -> (e: Self)
        ensures
            e.describes(VersionErrorKind::PrereleaseNotNumeric, old_version, Action::Pre),
            e.help matches Some(h) && h@
                == "Must only be a number in the last field of the prerelease."@,
            e.label == Some((start, length)),
            e.label_msg@ == "Invalid incrementable segment"@,
    {
        let mut e = VersionError::new(
            VersionErrorKind::PrereleaseNotNumeric,
            old_version,
            Action::Pre,
        );
        e.help = Some(copy_str("Must only be a number in the last field of the prerelease."));
        e.label = Some((start, length));
        e.label_msg = copy_str("Invalid incrementable segment");
        e
    }
}

} // verus!
