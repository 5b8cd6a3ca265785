//! A manifest file: its path and, once it has been read, what it says about
//! versions. Reading and writing the file itself is left to the caller.

use crate::manifest::document::ManifestDocument;
use crate::manifest::document::Section;
use crate::manifest::error::{CargoFileError, CargoFileErrorKind, VersionLocationErrorKind};
use crate::manifest::version_location::{
    located_entry, located_text, located_version, writable, written, VersionLocation,
};
use crate::text::copy_str;
use crate::version::semantic::{version_text, Version};
use std::marker::PhantomData;
use vstd::prelude::*;

verus! {

/// Indicator that the cargo file has been read.
#[derive(Debug, Clone, Copy, Hash, PartialEq, Eq)]
pub struct ReadToml;

/// Limits what can be done until the file has been read.
#[derive(Debug, Clone, Copy)]
pub struct UnreadToml;

#[derive(Debug)]
pub struct CargoFile<State> {
    path: String,
    contents: Option<ManifestDocument>,
    __state: PhantomData<State>,
}

impl<State> Clone for CargoFile<State> {
    fn clone(&self) -> (r: Self)
        ensures
            r == *self,
    {
        CargoFile {
            path: self.path.clone(),
            contents: match &self.contents {
                Some(d) => Some(d.clone()),
                None => None,
            },
            __state: PhantomData,
        }
    }
}

impl<S> CargoFile<S> {
    /// The path of the file.
    pub closed spec fn spec_path(&self) -> Seq<char> {
        self.path@
    }

    /// What the file says about versions, if it has been read.
    pub closed spec fn spec_contents(&self) -> Option<ManifestDocument> {
        self.contents
    }

    /// What the file says about versions; a file that has not been read says
    /// nothing.
    pub open spec fn spec_document(&self) -> ManifestDocument {
        match self.spec_contents() {
            Some(d) => d,
            None => ManifestDocument { package: Section::Missing, workspace: Section::Missing },
        }
    }

    pub fn path(&self) -> (p: &str)
        ensures
            p@ == self.spec_path(),
    {
        self.path.as_str()
    }
}

impl CargoFile<UnreadToml> {
    /// The file at `path`, with what was read from it.
    pub fn new(path: String, contents: ManifestDocument) -> (f: CargoFile<ReadToml>)
        ensures
            f.spec_path() == path@,
            f.spec_contents() == Some(contents),
    {
        Self::new_lazy(path).read_file(contents)
    }

    /// The file at `path`, not read yet.
    pub fn new_lazy(path: String) -> (f: CargoFile<UnreadToml>)
        ensures
            f.spec_path() == path@,
            f.spec_contents() is None,
    {
        Self { path, contents: None, __state: PhantomData }
    }

    /// The file, now with what was read from it.
    pub fn read_file(self, contents: ManifestDocument) -> (f: CargoFile<ReadToml>)
        ensures
            f.spec_path() == self.spec_path(),
            f.spec_contents() == Some(contents),
    {
        let CargoFile { path, .. } = self;
        CargoFile { path, contents: Some(contents), __state: PhantomData }
    }
}

impl CargoFile<ReadToml> {
    pub fn contents(&self) -> (c: Option<&ManifestDocument>)
        ensures
            match c {
                Some(d) => self.spec_contents() == Some(*d),
                None => self.spec_contents() is None,
            },
    {
        self.contents.as_ref()
    }

    /// What the file says about versions.
    pub fn document(&self) -> (d: ManifestDocument)
        ensures
            d == self.spec_document(),
    {
        match &self.contents {
            Some(d) => d.clone(),
            None => ManifestDocument::empty(),
        }
    }

    /// Makes the file say `document`.
    pub fn set_document(&mut self, document: ManifestDocument)
        ensures
            final(self).spec_path() == old(self).spec_path(),
            final(self).spec_contents() == Some(document),
    {
        self.contents = Some(document);
    }

    pub fn get_package_version(&self) -> (r: Option<Version>)
        ensures
            match located_version(self.spec_document(), VersionLocation::Package) {
                Ok(v) => r matches Some(got) && got@ == v,
                Err(_) => r is None,
            },
    {
        match VersionLocation::Package.get_version(self) {
            Ok(v) => Some(v),
            Err(_) => None,
        }
    }

    pub fn get_workspace_version(&self) -> (r: Option<Version>)
        ensures
            match located_version(self.spec_document(), VersionLocation::WorkspacePackage) {
                Ok(v) => r matches Some(got) && got@ == v,
                Err(_) => r is None,
            },
    {
        match VersionLocation::WorkspacePackage.get_version(self) {
            Ok(v) => Some(v),
            Err(_) => None,
        }
    }

    pub fn set_package_version(&mut self, new_version: &Version) -> (r: Result<(), CargoFileError>)
        ensures
            final(self).spec_path() == old(self).spec_path(),
            match located_entry(old(self).spec_document(), VersionLocation::Package) {
                Ok(_) => r is Ok && written(
                    old(self).spec_document(),
                    VersionLocation::Package,
                    version_text(new_version@),
                    final(self).spec_document(),
                ),
                Err(kind) => r matches Err(e) && e.spec_kind() matches CargoFileErrorKind::LocationError(
                    inner,
                ) && inner.spec_kind() == kind && final(self).spec_document() == old(
                    self,
                ).spec_document(),
            },
    {
        match VersionLocation::Package.set_version(self, new_version) {
            Ok(()) => Ok(()),
            Err(e) => {
                let path = e.path().clone();
                Err(CargoFileErrorKind::LocationError(e).to_error(path.as_str()))
            },
        }
    }

    pub fn set_workspace_version(&mut self, new_version: &Version) -> (r: Result<
        (),
        CargoFileError,
    >)
        ensures
            final(self).spec_path() == old(self).spec_path(),
            match located_entry(old(self).spec_document(), VersionLocation::WorkspacePackage) {
                Ok(_) => r is Ok && written(
                    old(self).spec_document(),
                    VersionLocation::WorkspacePackage,
                    version_text(new_version@),
                    final(self).spec_document(),
                ),
                Err(kind) => r matches Err(e) && e.spec_kind() matches CargoFileErrorKind::LocationError(
                    inner,
                ) && inner.spec_kind() == kind && final(self).spec_document() == old(
                    self,
                ).spec_document(),
            },
    {
        match VersionLocation::WorkspacePackage.set_version(self, new_version) {
            Ok(()) => Ok(()),
            Err(e) => {
                let path = e.path().clone();
                Err(CargoFileErrorKind::LocationError(e).to_error(path.as_str()))
            },
        }
    }

    /// Writes the version wherever the file holds one: at the location of
    /// the package and at that of the workspace. Succeeds where at least one
    /// of the two was written; an item of the wrong kind at either location
    /// is an error.
    pub fn set_version(&mut self, new_version: Version) -> (r: Result<(), CargoFileError>)
        ensures
            final(self).spec_path() == old(self).spec_path(),
            r is Ok <==> set_version_fault(old(self).spec_document()) is None,
            r matches Err(e) ==> set_version_fault(old(self).spec_document()) == Some(
                fault_of(e.spec_kind()),
            ),
            writable(old(self).spec_document(), VersionLocation::Package) ==> located_text(
                final(self).spec_document(),
                VersionLocation::Package,
            ) == Ok::<Seq<char>, VersionLocationErrorKind>(version_text(new_version@)),
            writable(old(self).spec_document(), VersionLocation::WorkspacePackage)
                ==> located_text(final(self).spec_document(), VersionLocation::WorkspacePackage)
                == Ok::<Seq<char>, VersionLocationErrorKind>(version_text(new_version@)),
    {
        let cargo_path = copy_str(self.path());
        let pack_err = VersionLocation::Package.set_version(self, &new_version);
        let ws_err = VersionLocation::WorkspacePackage.set_version(self, &new_version);
        match pack_err {
            Ok(()) => {
                return Ok(());
            },
            Err(cargo_file_err) => match cargo_file_err.kind() {
                VersionLocationErrorKind::ItemInvalid(_) | VersionLocationErrorKind::SemverError => {
                    return Err(
                        CargoFileErrorKind::LocationError(cargo_file_err).to_error(
                            cargo_path.as_str(),
                        ),
                    );
                },
                _ => {},
            },
        }
        match ws_err {
            Ok(()) => Ok(()),
            Err(ver_loc_error) => match ver_loc_error.kind() {
                VersionLocationErrorKind::ItemInvalid(_) | VersionLocationErrorKind::SemverError => Err(
                    CargoFileErrorKind::LocationError(ver_loc_error).to_error(cargo_path.as_str()),
                ),
                _ => Err(
                    CargoFileErrorKind::NoPackageOrWorkspaceVersion.to_error(cargo_path.as_str()),
                ),
            },
        }
    }
}

/// Why a version cannot be written to a file.
pub enum SetVersionFault {
    /// Neither location holds a version.
    NoPackageOrWorkspaceVersion,
    /// A location holds an item of the wrong kind.
    Location(VersionLocationErrorKind),
    /// Any other kind of error, which writing a version does not give.
    Other,
}

/// The fault that an error stands for.
pub open spec fn fault_of(kind: CargoFileErrorKind) -> SetVersionFault {
    match kind {
        CargoFileErrorKind::NoPackageOrWorkspaceVersion => SetVersionFault::NoPackageOrWorkspaceVersion,
        CargoFileErrorKind::LocationError(e) => SetVersionFault::Location(e.spec_kind()),
        _ => SetVersionFault::Other,
    }
}

/// Why a version cannot be written to a document, if that is so.
pub open spec fn set_version_fault(doc: ManifestDocument) -> Option<SetVersionFault> {
    match located_entry(doc, VersionLocation::Package) {
        Ok(_) => None,
        Err(VersionLocationErrorKind::ItemInvalid(kind)) => Some(
            SetVersionFault::Location(VersionLocationErrorKind::ItemInvalid(kind)),
        ),
        Err(_) => match located_entry(doc, VersionLocation::WorkspacePackage) {
            Ok(_) => None,
            Err(VersionLocationErrorKind::ItemInvalid(kind)) => Some(
                SetVersionFault::Location(VersionLocationErrorKind::ItemInvalid(kind)),
            ),
            Err(_) => Some(SetVersionFault::NoPackageOrWorkspaceVersion),
        },
    }
}

} // verus!
