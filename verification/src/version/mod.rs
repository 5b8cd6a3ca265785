//! The version algebra: identifiers, prereleases, versions and their bumps,
//! after [Semantic Versioning 2.0.0](https://semver.org/spec/v2.0.0.html).

pub mod semantic;
pub mod extensions;
pub mod identifiers;
pub mod pre_release;

pub use extensions::{Bumpable, Incrementable, Setable};
pub use identifiers::{Identifier, IdentifierError, IdentifierKind, IdentifierView};
pub use semantic::{BuildMetadata, Version, VersionView};
pub use pre_release::{Pre, PreBumpable, PreError, PreStatic, Prerelease};
