//! What a manifest says about versions, as plain values. A manifest is a
//! document of tables; the version of the package stands under
//! `package.version`, the version that the workspace declares under
//! `workspace.package.version`. Nothing else of the document is held here.

use crate::manifest::error::ItemType;
use vstd::prelude::*;

verus! {

/// What stands under `workspace` in the table that `package.version` is
/// where the version is inherited: `version.workspace = true`.
#[derive(Debug, Clone, Copy, PartialEq, Eq, Structural)]
pub enum InheritFlag {
    /// The table has no key `workspace`.
    Missing,
    /// The key holds a boolean.
    Flag(bool),
    /// The key holds something else.
    NotBool,
}

/// What stands where a version is looked for.
#[derive(Debug)]
pub enum VersionEntry {
    /// There is no key `version`.
    Missing,
    /// A string.
    Text(String),
    /// A value that is no string.
    OtherValue,
    /// A table, which is how a package says that it inherits its version.
    Inherited(InheritFlag),
    /// An item that is neither a value nor a table.
    Invalid(ItemType),
}

impl Clone for VersionEntry {
    fn clone(&self) -> (r: Self)
        ensures
            r == *self,
    {
        match self {
            VersionEntry::Missing => VersionEntry::Missing,
            VersionEntry::Text(t) => VersionEntry::Text(t.clone()),
            VersionEntry::OtherValue => VersionEntry::OtherValue,
            VersionEntry::Inherited(f) => VersionEntry::Inherited(*f),
            VersionEntry::Invalid(i) => VersionEntry::Invalid(*i),
        }
    }
}

impl VersionEntry {
    /// The kind of item that the entry is.
    pub open spec fn item_type(&self) -> ItemType {
        match self {
            VersionEntry::Missing => ItemType::NoItem,
            VersionEntry::Text(_) => ItemType::Value,
            VersionEntry::OtherValue => ItemType::Value,
            VersionEntry::Inherited(_) => ItemType::Table,
            VersionEntry::Invalid(i) => *i,
        }
    }
}

/// What stands where a table is looked for.
#[derive(Debug)]
pub enum Section<T> {
    /// There is no such key.
    Missing,
    /// The key holds an item of the given kind, which is no table.
    Invalid(ItemType),
    /// The key holds a table, of which this is what matters.
    Table(T),
}

/// What a manifest says about versions.
#[derive(Debug)]
pub struct ManifestDocument {
    /// `package`, and in it `version`.
    pub package: Section<VersionEntry>,
    /// `workspace`, in it `package`, and in that `version`.
    pub workspace: Section<Section<VersionEntry>>,
}

impl Clone for ManifestDocument {
    fn clone(&self) -> (r: Self)
        ensures
            r == *self,
    {
        ManifestDocument {
            package: match &self.package {
                Section::Missing => Section::Missing,
                Section::Invalid(i) => Section::Invalid(*i),
                Section::Table(e) => Section::Table(e.clone()),
            },
            workspace: match &self.workspace {
                Section::Missing => Section::Missing,
                Section::Invalid(i) => Section::Invalid(*i),
                Section::Table(p) => Section::Table(
                    match p {
                        Section::Missing => Section::Missing,
                        Section::Invalid(i) => Section::Invalid(*i),
                        Section::Table(e) => Section::Table(e.clone()),
                    },
                ),
            },
        }
    }
}

impl ManifestDocument {
    /// The manifest that says nothing about versions.
    pub fn empty() -> (d: Self)
        ensures
            d.package is Missing,
            d.workspace is Missing,
    {
        ManifestDocument { package: Section::Missing, workspace: Section::Missing }
    }
}

} // verus!
