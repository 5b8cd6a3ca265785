use crate::error::VersionError;
use crate::manifest::error::CargoFileError;
use crate::packages::PackageName;
use vstd::prelude::*;

verus! {

#[derive(Debug)]
pub enum PackageError {
    /// Package not found in the workspace.
    PackageNameNotFound(PackageName),
    /// Package name not provided.
    PackageNameNotProvided,
    /// No version stands for the whole workspace.
    NoRootVersion,
    /// The workspace declares no version of its own.
    NoWorkspacePackage,
    /// The manifest of the package does not take the version.
    Manifest(CargoFileError),
    /// The version of the package could not be bumped.
    Version(VersionError),
}

} // verus!
