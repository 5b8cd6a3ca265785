//! The packages of a workspace: their names, their versions, and which of
//! them a release is about.

mod package_name;
pub use package_name::PackageName;

mod package;
pub use package::{Package, PackageView};

#[allow(clippy::module_inception)]
mod packages;
pub use packages::{
    common_version, find_package, has_package, lemma_find_package, lemma_set_then_get_version,
    merged_packages, named_package, names_contain, names_distinct, names_view, package_names, packages_view,
    resolve_root_version, with_package_version, ManifestWrite, Packages, PackagesView,
};

mod display;
pub use display::{member_line, member_lines, names_text, sorted_by_name, tree_text};

mod error;
pub use error::PackageError;
