//! Where a version stands in a manifest, and reading and writing it there.

use crate::manifest::document::{InheritFlag, ManifestDocument, Section, VersionEntry};
use crate::manifest::error::{ItemType, VersionLocationErrorKind, VersionlocationError};
use crate::manifest::toml_file::{CargoFile, ReadToml};
use crate::text::copy_str;
use crate::version::identifiers::IdentifierError;
use crate::version::semantic::{semver_parse, version_of_parts, version_text, Version, VersionView};
use vstd::prelude::*;

verus! {

#[derive(Debug, Clone, Copy, PartialEq, Eq, Hash, Structural)]
pub enum VersionType {
    /// The version is declared on the package itself.
    Package,
    /// The package says that it uses the version of the workspace.
    SetByWorkspace,
    /// The version is the one that the workspace declares.
    WorkspacePackage,
}

#[derive(Debug, Clone, Copy, PartialEq, Eq, Hash, Structural)]
pub enum VersionLocation {
    /// `package.version`
    Package,
    /// `workspace.package.version`
    WorkspacePackage,
}

/// The text found at a location, or why there is none.
pub open spec fn located_text(doc: ManifestDocument, location: VersionLocation) -> Result<
    Seq<char>,
    VersionLocationErrorKind,
> {
    match location {
        VersionLocation::Package => match doc.package {
            Section::Missing => Err(VersionLocationErrorKind::PackageNotFound),
            Section::Invalid(kind) => Err(VersionLocationErrorKind::ItemInvalid(kind)),
            Section::Table(entry) => match entry {
                VersionEntry::Missing => Err(VersionLocationErrorKind::NotFound(location)),
                VersionEntry::Text(text) => Ok(text@),
                VersionEntry::OtherValue => Err(
                    VersionLocationErrorKind::ItemInvalid(ItemType::Value),
                ),
                VersionEntry::Inherited(flag) => match flag {
                    InheritFlag::Missing => Err(
                        VersionLocationErrorKind::ItemInvalid(ItemType::Table),
                    ),
                    InheritFlag::NotBool => Err(
                        VersionLocationErrorKind::ItemInvalid(ItemType::Value),
                    ),
                    InheritFlag::Flag(_) => Err(VersionLocationErrorKind::SetByWorkspace),
                },
                VersionEntry::Invalid(kind) => Err(VersionLocationErrorKind::ItemInvalid(kind)),
            },
        },
        VersionLocation::WorkspacePackage => match doc.workspace {
            Section::Missing => Err(VersionLocationErrorKind::WorkspaceNotFound),
            Section::Invalid(kind) => Err(VersionLocationErrorKind::ItemInvalid(kind)),
            Section::Table(package) => match package {
                Section::Missing => Err(VersionLocationErrorKind::PackageNotFound),
                Section::Invalid(kind) => Err(VersionLocationErrorKind::ItemInvalid(kind)),
                Section::Table(entry) => match entry {
                    VersionEntry::Missing => Err(VersionLocationErrorKind::NotFound(location)),
                    VersionEntry::Text(text) => Ok(text@),
                    VersionEntry::OtherValue => Err(
                        VersionLocationErrorKind::ItemInvalid(ItemType::Value),
                    ),
                    VersionEntry::Inherited(_) => Err(
                        VersionLocationErrorKind::ItemInvalid(ItemType::Table),
                    ),
                    VersionEntry::Invalid(kind) => Err(
                        VersionLocationErrorKind::ItemInvalid(kind),
                    ),
                },
            },
        },
    }
}

/// The version found at a location: the text found there, read as
/// [`Version::parse`] reads it.
pub open spec fn located_version(doc: ManifestDocument, location: VersionLocation) -> Result<
    VersionView,
    VersionLocationErrorKind,
> {
    match located_text(doc, location) {
        Err(kind) => Err(kind),
        Ok(text) => match semver_parse(text) {
            None => Err(VersionLocationErrorKind::SemverError),
            Some(p) => match version_of_parts(p.0, p.1, p.2, p.3, p.4) {
                Ok(v) => Ok(v),
                Err(_) => Err(VersionLocationErrorKind::SemverError),
            },
        },
    }
}

/// What is found at a location where a version is to be written: the entry
/// that a value can take the place of, or why there is none.
pub open spec fn located_entry(doc: ManifestDocument, location: VersionLocation) -> Result<
    VersionEntry,
    VersionLocationErrorKind,
> {
    let table = match location {
        VersionLocation::Package => match doc.package {
            Section::Missing => Err(VersionLocationErrorKind::PackageNotFound),
            Section::Invalid(kind) => Err(VersionLocationErrorKind::ItemInvalid(kind)),
            Section::Table(entry) => Ok(entry),
        },
        VersionLocation::WorkspacePackage => match doc.workspace {
            Section::Missing => Err(VersionLocationErrorKind::WorkspaceNotFound),
            Section::Invalid(kind) => Err(VersionLocationErrorKind::ItemInvalid(kind)),
            Section::Table(package) => match package {
                Section::Missing => Err(VersionLocationErrorKind::PackageNotFound),
                Section::Invalid(kind) => Err(VersionLocationErrorKind::ItemInvalid(kind)),
                Section::Table(entry) => Ok(entry),
            },
        },
    };
    match table {
        Err(e) => Err(e),
        Ok(entry) => match entry {
            VersionEntry::Missing => Err(VersionLocationErrorKind::NotFound(location)),
            VersionEntry::Text(_) | VersionEntry::OtherValue => Ok(entry),
            VersionEntry::Inherited(_) => Err(
                VersionLocationErrorKind::ItemInvalid(ItemType::Table),
            ),
            VersionEntry::Invalid(kind) => Err(VersionLocationErrorKind::ItemInvalid(kind)),
        },
    }
}

/// Whether a value can be written at a location.
pub open spec fn writable(doc: ManifestDocument, location: VersionLocation) -> bool {
    located_entry(doc, location) is Ok
}

/// Whether `after` is `before` with `text` written at the location and
/// everything else as it was.
pub open spec fn written(
    before: ManifestDocument,
    location: VersionLocation,
    text: Seq<char>,
    after: ManifestDocument,
) -> bool {
    match location {
        VersionLocation::Package => {
            &&& after.workspace == before.workspace
            &&& after.package matches Section::Table(VersionEntry::Text(t))
            &&& t@ == text
        },
        VersionLocation::WorkspacePackage => {
            &&& after.package == before.package
            &&& after.workspace matches Section::Table(Section::Table(VersionEntry::Text(t)))
            &&& t@ == text
        },
    }
}

/// A text that was written at a location is what is found there.
pub proof fn lemma_written_is_located(
    before: ManifestDocument,
    location: VersionLocation,
    text: Seq<char>,
    after: ManifestDocument,
)
    requires
        written(before, location, text, after),
    ensures
        located_text(after, location) == Ok::<Seq<char>, VersionLocationErrorKind>(text),
        writable(after, location),
{
}

impl VersionLocation {
    /// The location as it is written: the keys with a dot between them.
    pub fn to_string(&self) -> (s: String)
        ensures
            s@ == match *self {
                VersionLocation::Package => "package.version"@,
                VersionLocation::WorkspacePackage => "workspace.package.version"@,
            },
    {
        match self {
            VersionLocation::Package => copy_str("package.version"),
            VersionLocation::WorkspacePackage => copy_str("workspace.package.version"),
        }
    }

    /// The text that stands at the location, or the fault that there is none.
    pub fn get_text<'a>(&self, document: &'a ManifestDocument) -> (r: Result<
        &'a String,
        VersionLocationErrorKind,
    >)
        ensures
            r matches Ok(t) ==> located_text(*document, *self) == Ok::<
                Seq<char>,
                VersionLocationErrorKind,
            >(t@),
            r matches Err(k) ==> located_text(*document, *self) == Err::<
                Seq<char>,
                VersionLocationErrorKind,
            >(k),
    {
        let entry = match self {
            VersionLocation::Package => match &document.package {
                Section::Missing => {
                    return Err(VersionLocationErrorKind::PackageNotFound);
                },
                Section::Invalid(kind) => {
                    return Err(VersionLocationErrorKind::ItemInvalid(*kind));
                },
                Section::Table(entry) => entry,
            },
            VersionLocation::WorkspacePackage => match &document.workspace {
                Section::Missing => {
                    return Err(VersionLocationErrorKind::WorkspaceNotFound);
                },
                Section::Invalid(kind) => {
                    return Err(VersionLocationErrorKind::ItemInvalid(*kind));
                },
                Section::Table(package) => match package {
                    Section::Missing => {
                        return Err(VersionLocationErrorKind::PackageNotFound);
                    },
                    Section::Invalid(kind) => {
                        return Err(VersionLocationErrorKind::ItemInvalid(*kind));
                    },
                    Section::Table(entry) => entry,
                },
            },
        };
        match entry {
            VersionEntry::Missing => Err(VersionLocationErrorKind::NotFound(*self)),
            VersionEntry::Text(text) => Ok(text),
            VersionEntry::OtherValue => Err(VersionLocationErrorKind::ItemInvalid(ItemType::Value)),
            VersionEntry::Inherited(flag) => match self {
                VersionLocation::WorkspacePackage => Err(
                    VersionLocationErrorKind::ItemInvalid(ItemType::Table),
                ),
                VersionLocation::Package => match flag {
                    InheritFlag::Missing => Err(
                        VersionLocationErrorKind::ItemInvalid(ItemType::Table),
                    ),
                    InheritFlag::NotBool => Err(
                        VersionLocationErrorKind::ItemInvalid(ItemType::Value),
                    ),
                    InheritFlag::Flag(_) => Err(VersionLocationErrorKind::SetByWorkspace),
                },
            },
            VersionEntry::Invalid(kind) => Err(VersionLocationErrorKind::ItemInvalid(*kind)),
        }
    }

    /// Reads the version at the location. The text found there is read as
    /// [`Version::parse`] reads it.
    pub fn get_version(&self, cargo_toml: &CargoFile<ReadToml>) -> (r: Result<
        Version,
        VersionlocationError,
    >)
        ensures
            match located_version(cargo_toml.spec_document(), *self) {
                Ok(v) => r matches Ok(got) && got@ == v,
                Err(kind) => r matches Err(e) && e.spec_kind() == kind && e.spec_path()
                    == cargo_toml.spec_path(),
            },
    {
        let document = cargo_toml.document();
        match self.get_text(&document) {
            Err(kind) => Err(kind.to_error(cargo_toml.path(), None)),
            Ok(text) => match Version::parse(text.as_str()) {
                Ok(version) => Ok(version),
                Err(e) => Err(
                    VersionlocationError::semver(e, cargo_toml.path(), "Invalid semver"),
                ),
            },
        }
    }

    /// Writes the version at the location, where a value stands already.
    /// Nothing else of the document changes, and on failure nothing changes.
    pub fn set_version(&self, cargo_toml: &mut CargoFile<ReadToml>, version: &Version) -> (r: Result<
        (),
        VersionlocationError,
    >)
        ensures
            final(cargo_toml).spec_path() == old(cargo_toml).spec_path(),
            match located_entry(old(cargo_toml).spec_document(), *self) {
                Ok(_) => r is Ok && written(
                    old(cargo_toml).spec_document(),
                    *self,
                    version_text(version@),
                    final(cargo_toml).spec_document(),
                ),
                Err(kind) => r matches Err(e) && e.spec_kind() == kind && e.spec_path() == old(
                    cargo_toml,
                ).spec_path() && final(cargo_toml).spec_document() == old(
                    cargo_toml,
                ).spec_document(),
            },
    {
        let document = cargo_toml.document();
        let text = version.to_string();
        let fault = match self {
            VersionLocation::Package => match &document.package {
                Section::Missing => Some(VersionLocationErrorKind::PackageNotFound),
                Section::Invalid(kind) => Some(VersionLocationErrorKind::ItemInvalid(*kind)),
                Section::Table(entry) => entry_fault(entry, *self),
            },
            VersionLocation::WorkspacePackage => match &document.workspace {
                Section::Missing => Some(VersionLocationErrorKind::WorkspaceNotFound),
                Section::Invalid(kind) => Some(VersionLocationErrorKind::ItemInvalid(*kind)),
                Section::Table(package) => match package {
                    Section::Missing => Some(VersionLocationErrorKind::PackageNotFound),
                    Section::Invalid(kind) => Some(VersionLocationErrorKind::ItemInvalid(*kind)),
                    Section::Table(entry) => entry_fault(entry, *self),
                },
            },
        };
        match fault {
            Some(kind) => Err(kind.to_error(cargo_toml.path(), None)),
            None => {
                let ManifestDocument { package, workspace } = document;
                let new = match self {
                    VersionLocation::Package => ManifestDocument {
                        package: Section::Table(VersionEntry::Text(text)),
                        workspace,
                    },
                    VersionLocation::WorkspacePackage => ManifestDocument {
                        package,
                        workspace: Section::Table(Section::Table(VersionEntry::Text(text))),
                    },
                };
                cargo_toml.set_document(new);
                Ok(())
            },
        }
    }
}

/// Why no value can take the place of an entry, if that is so.
fn entry_fault(entry: &VersionEntry, location: VersionLocation) -> (r: Option<
    VersionLocationErrorKind,
>)
    ensures
        r == match *entry {
            VersionEntry::Missing => Some(VersionLocationErrorKind::NotFound(location)),
            VersionEntry::Text(_) | VersionEntry::OtherValue => None,
            VersionEntry::Inherited(_) => Some(
                VersionLocationErrorKind::ItemInvalid(ItemType::Table),
            ),
            VersionEntry::Invalid(kind) => Some(VersionLocationErrorKind::ItemInvalid(kind)),
        },
{
    match entry {
        VersionEntry::Missing => Some(VersionLocationErrorKind::NotFound(location)),
        VersionEntry::Text(_) | VersionEntry::OtherValue => None,
        VersionEntry::Inherited(_) => Some(VersionLocationErrorKind::ItemInvalid(ItemType::Table)),
        VersionEntry::Invalid(kind) => Some(VersionLocationErrorKind::ItemInvalid(*kind)),
    }
}

/// A version that was written at a location is the version that is read
/// there, provided that `semver` reads the text of the version as that
/// version.
pub proof fn lemma_set_then_get(
    before: ManifestDocument,
    location: VersionLocation,
    version: VersionView,
    after: ManifestDocument,
    parts: (u64, u64, u64, Seq<char>, Seq<char>),
)
    requires
        written(before, location, version_text(version), after),
        semver_parse(version_text(version)) == Some(parts),
        version_of_parts(parts.0, parts.1, parts.2, parts.3, parts.4) == Ok::<
            VersionView,
            IdentifierError,
        >(version),
    ensures
        located_version(after, location) == Ok::<VersionView, VersionLocationErrorKind>(version),
{
}

} // verus!
