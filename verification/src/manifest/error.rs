//! What can go wrong with a version in a manifest.

use crate::manifest::version_location::VersionLocation;
use crate::text::copy_str;
use crate::version::semantic::VersionParseError;
use vstd::prelude::*;

verus! {

/// The kinds of item that a document holds.
#[derive(Debug, PartialEq, Eq, Clone, Copy, Structural)]
pub enum ItemType {
    NoItem,
    Value,
    Table,
    ArrayOfTables,
}

impl ItemType {
    /// The name of the kind.
    pub fn to_string(&self) -> (s: String)
        ensures
            s@ == match *self {
                ItemType::NoItem => "None"@,
                ItemType::Value => "Value"@,
                ItemType::Table => "Table"@,
                ItemType::ArrayOfTables => "Array Of Tables"@,
            },
    {
        match self {
            ItemType::NoItem => copy_str("None"),
            ItemType::Value => copy_str("Value"),
            ItemType::Table => copy_str("Table"),
            ItemType::ArrayOfTables => copy_str("Array Of Tables"),
        }
    }
}

#[derive(Debug, PartialEq, Eq, Clone, Copy, Structural)]
pub enum VersionLocationErrorKind {
    /// Version is set by workspace.
    SetByWorkspace,
    /// Version not located in the location.
    NotFound(VersionLocation),
    /// No package defined in toml file.
    PackageNotFound,
    /// No workspace defined in toml file.
    WorkspaceNotFound,
    /// Invalid item type.
    ItemInvalid(ItemType),
    /// The text found is no version.
    SemverError,
}

#[derive(Debug)]
pub struct VersionlocationError {
    kind: VersionLocationErrorKind,
    path: String,
    context: String,
    source: Option<VersionParseError>,
}

impl VersionLocationErrorKind {
    /// The error of this kind for the manifest at `path`.
    pub fn to_error(self, path: &str, context: Option<&str>) -> (e: VersionlocationError)
        ensures
            e.spec_kind() == self,
            e.spec_path() == path@,
            e.spec_context() == match context {
                Some(c) => c@,
                None => Seq::<char>::empty(),
            },
    {
        VersionlocationError {
            kind: self,
            path: copy_str(path),
            context: match context {
                Some(c) => copy_str(c),
                None => String::new(),
            },
            source: None,
        }
    }
}

impl VersionlocationError {
    pub closed spec fn spec_kind(&self) -> VersionLocationErrorKind {
        self.kind
    }

    pub closed spec fn spec_path(&self) -> Seq<char> {
        self.path@
    }

    pub closed spec fn spec_context(&self) -> Seq<char> {
        self.context@
    }

    pub closed spec fn spec_source(&self) -> Option<VersionParseError> {
        self.source
    }

    pub fn new(kind: VersionLocationErrorKind, path: String, context: String) -> (e: Self)
        ensures
            e.spec_kind() == kind,
            e.spec_path() == path@,
            e.spec_context() == context@,
            e.spec_source() is None,
    {
        Self { kind, path, context, source: None }
    }

    /// The error of a text that is no version, with what the parser said.
    pub fn semver(source: VersionParseError, path: &str, context: &str) -> (e: Self)
        ensures
            e.spec_kind() == VersionLocationErrorKind::SemverError,
            e.spec_path() == path@,
            e.spec_context() == context@,
            e.spec_source() == Some(source),
    {
        Self {
            kind: VersionLocationErrorKind::SemverError,
            path: copy_str(path),
            context: copy_str(context),
            source: Some(source),
        }
    }

    pub fn path(&self) -> (p: &String)
        ensures
            p@ == self.spec_path(),
    {
        &self.path
    }

    pub fn kind(&self) -> (k: &VersionLocationErrorKind)
        ensures
            *k == self.spec_kind(),
    {
        &self.kind
    }

    /// What the parser said, where the text found is no version.
    pub fn source(&self) -> (s: &Option<VersionParseError>)
        ensures
            *s == self.spec_source(),
    {
        &self.source
    }

    /// The context of the error.
    pub fn to_string(&self) -> (s: String)
        ensures
            s@ == self.spec_context(),
    {
        self.context.clone()
    }
}

#[derive(Debug)]
pub enum CargoFileErrorKind {
    NoRootPackage,
    NoWorkspaceVersion,
    NoPackageVersion,
    /// No workspace or root package version is present.
    NoPackageOrWorkspaceVersion,
    /// This package version is set by the workspace.
    SetByWorkspace,
    /// Cargo file error with Version Location.
    LocationError(VersionlocationError),
}

#[derive(Debug)]
pub struct CargoFileError {
    kind: CargoFileErrorKind,
    path: String,
}

impl CargoFileErrorKind {
    pub fn to_error(self, path: &str) -> (e: CargoFileError)
        ensures
            e.spec_kind() == self,
            e.spec_path() == path@,
    {
        CargoFileError { kind: self, path: copy_str(path) }
    }
}

impl CargoFileError {
    pub closed spec fn spec_kind(&self) -> CargoFileErrorKind {
        self.kind
    }

    pub closed spec fn spec_path(&self) -> Seq<char> {
        self.path@
    }

    pub fn kind(&self) -> (k: &CargoFileErrorKind)
        ensures
            *k == self.spec_kind(),
    {
        &self.kind
    }

    /// The path of the manifest.
    pub fn path(&self) -> (p: &String)
        ensures
            p@ == self.spec_path(),
    {
        &self.path
    }
}

} // verus!
