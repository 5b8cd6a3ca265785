//! The manifest of a package, as far as versions go: where a version stands
//! in it, how it is read from there and how it is written there.

pub mod document;
pub mod error;
pub mod toml_file;
pub mod version_location;

pub use document::{InheritFlag, ManifestDocument, Section, VersionEntry};
pub use error::{
    CargoFileError, CargoFileErrorKind, ItemType, VersionLocationErrorKind, VersionlocationError,
};
pub use toml_file::{CargoFile, ReadToml, UnreadToml};
pub use version_location::{VersionLocation, VersionType};
