use crate::cli::action::Action;
use crate::manifest::document::ManifestDocument;
use crate::manifest::error::{
    CargoFileError, CargoFileErrorKind, VersionLocationErrorKind, VersionlocationError,
};
use crate::packages::PackageError;
use crate::manifest::toml_file::{set_version_fault, CargoFile, ReadToml};
use crate::manifest::version_location::{
    located_text, located_version, writable, VersionLocation, VersionType,
};
use crate::packages::PackageName;
use crate::text::{copy_str, str_eq};
use crate::version::extensions::{
    checked_bump_result, option_build_view, option_prerelease_view,
};
use crate::version::pre_release::Prerelease;
use crate::version::semantic::{version_text, BuildMetadata, Version, VersionView};
use vstd::prelude::*;
use vstd::std_specs::cmp::PartialEqSpecImpl;

verus! {

#[derive(Debug)]
pub struct Package<CargoFileState> {
    name: PackageName,
    version_type: VersionType,
    version: Version,
    manifest_path: String,
    cargo_file: CargoFile<CargoFileState>,
}

/// A package as a mathematical value.
pub struct PackageView {
    pub name: Seq<char>,
    pub version_type: VersionType,
    pub version: VersionView,
    pub manifest_path: Seq<char>,
}

impl<CargoFileState> View for Package<CargoFileState> {
    type V = PackageView;

    closed spec fn view(&self) -> PackageView {
        PackageView {
            name: self.name@,
            version_type: self.version_type,
            version: self.version@,
            manifest_path: self.manifest_path@,
        }
    }
}

impl<CargoFileState> Clone for Package<CargoFileState> {
    fn clone(&self) -> (r: Self)
        ensures
            r@ == self@,
            r.spec_cargo_file() == self.spec_cargo_file(),
    {
        Package {
            name: self.name.clone(),
            version_type: self.version_type,
            version: self.version.clone(),
            manifest_path: self.manifest_path.clone(),
            cargo_file: self.cargo_file.clone(),
        }
    }
}

impl<CargoFileState> PartialEq for Package<CargoFileState> {
    fn eq(&self, other: &Self) -> (r: bool) {
        self.name == other.name && str_eq(
            self.manifest_path.as_str(),
            other.manifest_path.as_str(),
        )
    }
}

impl<CargoFileState> Eq for Package<CargoFileState> {

}

impl<CargoFileState> PartialEqSpecImpl for Package<CargoFileState> {
    open spec fn obeys_eq_spec() -> bool {
        true
    }

    /// Two packages are the same package where they agree on name and
    /// manifest.
    open spec fn eq_spec(&self, other: &Self) -> bool {
        self@.name == other@.name && self@.manifest_path == other@.manifest_path
    }
}

/// How the version of a package is declared, from what its manifest says:
/// on the package itself, by the workspace, or, where the manifest has no
/// package but a workspace with a version, as the version of the workspace.
pub open spec fn version_type_of(doc: ManifestDocument) -> Result<
    VersionType,
    VersionLocationErrorKind,
> {
    match located_text(doc, VersionLocation::Package) {
        Ok(_) => Ok(VersionType::Package),
        Err(VersionLocationErrorKind::SetByWorkspace) => Ok(VersionType::SetByWorkspace),
        Err(_) => match located_text(doc, VersionLocation::WorkspacePackage) {
            Ok(_) => Ok(VersionType::WorkspacePackage),
            Err(kind) => Err(kind),
        },
    }
}

impl<CargoFileState> Package<CargoFileState> {
    /// The manifest file of the package.
    pub closed spec fn spec_cargo_file(&self) -> CargoFile<CargoFileState> {
        self.cargo_file
    }

    pub fn name(&self) -> (n: &PackageName)
        ensures
            n@ == self@.name,
    {
        &self.name
    }

    pub fn version(&self) -> (v: &Version)
        ensures
            v@ == self@.version,
    {
        &self.version
    }

    /// A copy of the version.
    pub fn version_owned(&self) -> (v: Version)
        ensures
            v@ == self@.version,
    {
        self.version.clone()
    }

    pub fn manifest_path(&self) -> (p: &String)
        ensures
            p@ == self@.manifest_path,
    {
        &self.manifest_path
    }

    /// A copy of the path of the manifest.
    pub fn manifest_path_owned(&self) -> (p: String)
        ensures
            p@ == self@.manifest_path,
    {
        self.manifest_path.clone()
    }

    pub fn cargo_file(&self) -> (f: &CargoFile<CargoFileState>)
        ensures
            *f == self.spec_cargo_file(),
    {
        &self.cargo_file
    }

    pub fn version_type(&self) -> (t: VersionType)
        ensures
            t == self@.version_type,
    {
        self.version_type
    }
}

impl Package<ReadToml> {
    /// A package of the workspace, with its manifest as it was read. How the
    /// version is declared is told from the manifest; this fails where the
    /// manifest holds a version neither for the package nor for the
    /// workspace.
    pub fn new(name: PackageName, version: Version, cargo_file: CargoFile<ReadToml>) -> (r: Result<
        Package<ReadToml>,
        VersionlocationError,
    >)
        ensures
            match version_type_of(cargo_file.spec_document()) {
                Ok(t) => r matches Ok(p) && p@ == (PackageView {
                    name: name@,
                    version_type: t,
                    version: version@,
                    manifest_path: cargo_file.spec_path(),
                }) && p.spec_cargo_file() == cargo_file,
                Err(kind) => r matches Err(e) && e.spec_kind() == kind,
            },
    {
        let version_type = match Package::set_version_type(&cargo_file) {
            Ok(t) => t,
            Err(e) => {
                return Err(e);
            },
        };
        Ok(
            Package {
                name,
                version_type,
                version,
                manifest_path: copy_str(cargo_file.path()),
                cargo_file,
            },
        )
    }

    /// Tells from a manifest how the version is declared.
    pub fn set_version_type(cargo_file: &CargoFile<ReadToml>) -> (r: Result<
        VersionType,
        VersionlocationError,
    >)
        ensures
            match version_type_of(cargo_file.spec_document()) {
                Ok(t) => r == Ok::<VersionType, VersionlocationError>(t),
                Err(kind) => r matches Err(e) && e.spec_kind() == kind,
            },
    {
        let document = cargo_file.document();
        match VersionLocation::Package.get_text(&document) {
            Ok(_) => {
                return Ok(VersionType::Package);
            },
            Err(VersionLocationErrorKind::SetByWorkspace) => {
                return Ok(VersionType::SetByWorkspace);
            },
            Err(_) => {},
        }
        match VersionLocation::WorkspacePackage.get_text(&document) {
            Ok(_) => Ok(VersionType::WorkspacePackage),
            Err(kind) => Err(kind.to_error(cargo_file.path(), None)),
        }
    }

    /// Gives the package the version, and writes it to what the manifest
    /// says, wherever the manifest holds a version. On failure the package
    /// is left as it was.
    pub fn set_version(&mut self, version: Version) -> (r: Result<Version, CargoFileError>)
        ensures
            r is Ok <==> set_version_fault(old(self).spec_cargo_file().spec_document()) is None,
            r is Ok ==> forall|location: VersionLocation| #[trigger]
                writable(old(self).spec_cargo_file().spec_document(), location) ==> located_text(
                    final(self).spec_cargo_file().spec_document(),
                    location,
                ) == Ok::<Seq<char>, VersionLocationErrorKind>(version_text(version@)),
            r matches Ok(v) ==> v@ == version@ && final(self)@ == (PackageView {
                version: version@,
                ..old(self)@
            }),
            r is Err ==> final(self)@ == old(self)@ && final(self).spec_cargo_file() == old(
                self,
            ).spec_cargo_file(),
            final(self).spec_cargo_file().spec_path() == old(self).spec_cargo_file().spec_path(),
    {
        let mut cargo_file = self.cargo_file.clone();
        match cargo_file.set_version(version.clone()) {
            Ok(()) => {
                self.cargo_file = cargo_file;
                self.version = version;
                Ok(self.version.clone())
            },
            Err(e) => Err(e),
        }
    }

    /// Bumps the version of the package as [`Version::checked_bump`] bumps
    /// it, and writes the new version to what the manifest says. On failure
    /// the package is left as it was.
    pub fn bump_version(
        &mut self,
        action: Action,
        pre: Option<Prerelease>,
        build: Option<BuildMetadata>,
        force: bool,
    ) -> (r: Result<Version, PackageError>)
        ensures
            match checked_bump_result(
                old(self)@.version,
                action,
                option_prerelease_view(pre),
                option_build_view(build),
                force,
            ) {
                Err(kind) => r matches Err(PackageError::Version(e)) && e.kind == kind,
                Ok(v) => if set_version_fault(old(self).spec_cargo_file().spec_document())
                    is None {
                    r matches Ok(got) && got@ == v && final(self)@ == (PackageView {
                        version: v,
                        ..old(self)@
                    })
                } else {
                    r matches Err(PackageError::Manifest(_))
                },
            },
            r is Err ==> final(self)@ == old(self)@ && final(self).spec_cargo_file() == old(
                self,
            ).spec_cargo_file(),
    {
        let mut new_version = self.version.clone();
        match new_version.checked_bump(action, pre, build, force) {
            Err(e) => Err(PackageError::Version(e)),
            Ok(_) => match self.set_version(new_version) {
                Ok(v) => Ok(v),
                Err(e) => Err(PackageError::Manifest(e)),
            },
        }
    }

    /// Whether the manifest of the package may be written: not where the
    /// package inherits its version, which is written through the manifest
    /// of the workspace. Gives the location at which the version stands.
    pub fn write_cargo_file(&self) -> (r: Result<VersionLocation, CargoFileError>)
        ensures
            match self@.version_type {
                VersionType::SetByWorkspace => r matches Err(e) && e.spec_kind()
                    is SetByWorkspace,
                VersionType::Package => r == Ok::<VersionLocation, CargoFileError>(
                    VersionLocation::Package,
                ),
                VersionType::WorkspacePackage => r == Ok::<VersionLocation, CargoFileError>(
                    VersionLocation::WorkspacePackage,
                ),
            },
    {
        match self.version_type {
            VersionType::SetByWorkspace => Err(
                CargoFileErrorKind::SetByWorkspace.to_error(self.manifest_path.as_str()),
            ),
            VersionType::Package => Ok(VersionLocation::Package),
            VersionType::WorkspacePackage => Ok(VersionLocation::WorkspacePackage),
        }
    }

    /// The entry that stands for the version that the workspace declares,
    /// from the manifest of the workspace. Fails where that manifest
    /// declares no version.
    pub fn workspace_package(cargo_file: CargoFile<ReadToml>) -> (r: Result<
        Package<ReadToml>,
        VersionlocationError,
    >)
        ensures
            match located_version(cargo_file.spec_document(), VersionLocation::WorkspacePackage) {
                Ok(v) => r matches Ok(p) && p@ == (PackageView {
                    name: "workspace.package"@,
                    version_type: VersionType::WorkspacePackage,
                    version: v,
                    manifest_path: cargo_file.spec_path(),
                }) && p.spec_cargo_file() == cargo_file,
                Err(kind) => r matches Err(e) && e.spec_kind() == kind,
            },
    {
        let version = match VersionLocation::WorkspacePackage.get_version(&cargo_file) {
            Ok(v) => v,
            Err(e) => {
                return Err(e);
            },
        };
        Ok(
            Package {
                name: PackageName::workspace_package(),
                version_type: VersionType::WorkspacePackage,
                version,
                manifest_path: copy_str(cargo_file.path()),
                cargo_file,
            },
        )
    }
}

} // verus!
