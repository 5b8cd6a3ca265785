use cargo_uv::manifest::{InheritFlag, ManifestDocument, Section, VersionEntry};
use cargo_uv::version::Version;
use cargo_uv::{
    CargoFile, CargoFileErrorKind, ItemType, VersionLocation, VersionLocationErrorKind, VersionType,
};

fn text(v: &str) -> VersionEntry {
    VersionEntry::Text(v.to_string())
}

fn file(package: Section<VersionEntry>, workspace: Section<Section<VersionEntry>>) -> CargoFile<cargo_uv::ReadToml> {
    CargoFile::new("ws/Cargo.toml".to_string(), ManifestDocument { package, workspace })
}

#[test]
fn get_package_version() {
    let f = file(Section::Table(text("1.2.3-rc.1")), Section::Missing);
    assert_eq!(
        VersionLocation::Package.get_version(&f).unwrap(),
        Version::parse("1.2.3-rc.1").unwrap()
    );
    assert_eq!(f.get_package_version(), Some(Version::new(1, 2, 3)).map(|_| Version::parse("1.2.3-rc.1").unwrap()));
    assert_eq!(f.get_workspace_version(), None);
    assert_eq!(f.path(), "ws/Cargo.toml");
    let e = VersionLocation::WorkspacePackage.get_version(&f).unwrap_err();
    assert_eq!(*e.kind(), VersionLocationErrorKind::WorkspaceNotFound);
    assert_eq!(e.path(), "ws/Cargo.toml");
}

#[test]
fn get_version_faults() {
    let cases: Vec<(Section<VersionEntry>, VersionLocationErrorKind)> = vec![
        (Section::Missing, VersionLocationErrorKind::PackageNotFound),
        (Section::Invalid(ItemType::Value), VersionLocationErrorKind::ItemInvalid(ItemType::Value)),
        (
            Section::Table(VersionEntry::Missing),
            VersionLocationErrorKind::NotFound(VersionLocation::Package),
        ),
        (
            Section::Table(VersionEntry::OtherValue),
            VersionLocationErrorKind::ItemInvalid(ItemType::Value),
        ),
        (
            Section::Table(VersionEntry::Inherited(InheritFlag::Flag(true))),
            VersionLocationErrorKind::SetByWorkspace,
        ),
        (
            Section::Table(VersionEntry::Inherited(InheritFlag::Flag(false))),
            VersionLocationErrorKind::SetByWorkspace,
        ),
        (
            Section::Table(VersionEntry::Inherited(InheritFlag::Missing)),
            VersionLocationErrorKind::ItemInvalid(ItemType::Table),
        ),
        (
            Section::Table(VersionEntry::Inherited(InheritFlag::NotBool)),
            VersionLocationErrorKind::ItemInvalid(ItemType::Value),
        ),
        (
            Section::Table(VersionEntry::Invalid(ItemType::ArrayOfTables)),
            VersionLocationErrorKind::ItemInvalid(ItemType::ArrayOfTables),
        ),
        (Section::Table(text("not a version")), VersionLocationErrorKind::SemverError),
    ];
    for (package, kind) in cases {
        let f = file(package, Section::Missing);
        let e = VersionLocation::Package.get_version(&f).unwrap_err();
        assert_eq!(*e.kind(), kind);
    }
    let f = file(Section::Missing, Section::Table(Section::Missing));
    assert_eq!(
        *VersionLocation::WorkspacePackage.get_version(&f).unwrap_err().kind(),
        VersionLocationErrorKind::PackageNotFound
    );
    let f = file(
        Section::Missing,
        Section::Table(Section::Table(VersionEntry::Inherited(InheritFlag::Flag(true)))),
    );
    assert_eq!(
        *VersionLocation::WorkspacePackage.get_version(&f).unwrap_err().kind(),
        VersionLocationErrorKind::ItemInvalid(ItemType::Table)
    );
}

#[test]
fn set_version_then_get_version() {
    for written in ["0.0.1", "2.0.0-alpha.7", "3.1.4+build.9", "1.0.0-rc.1+x-y"] {
        let v = Version::parse(written).unwrap();
        let mut f = file(Section::Table(text("0.1.0")), Section::Table(Section::Table(text("9.9.9"))));
        VersionLocation::Package.set_version(&mut f, &v).unwrap();
        assert_eq!(VersionLocation::Package.get_version(&f).unwrap(), v);
        assert_eq!(
            VersionLocation::WorkspacePackage.get_version(&f).unwrap(),
            Version::new(9, 9, 9)
        );
        VersionLocation::WorkspacePackage.set_version(&mut f, &v).unwrap();
        assert_eq!(VersionLocation::WorkspacePackage.get_version(&f).unwrap(), v);
        assert_eq!(VersionLocation::Package.get_version(&f).unwrap(), v);
    }
}

#[test]
fn set_version_faults_change_nothing() {
    let mut f = file(
        Section::Table(VersionEntry::Inherited(InheritFlag::Flag(true))),
        Section::Missing,
    );
    let e = VersionLocation::Package.set_version(&mut f, &Version::new(1, 0, 0)).unwrap_err();
    assert_eq!(*e.kind(), VersionLocationErrorKind::ItemInvalid(ItemType::Table));
    assert!(matches!(
        f.contents().unwrap().package,
        Section::Table(VersionEntry::Inherited(InheritFlag::Flag(true)))
    ));
    let e = VersionLocation::WorkspacePackage
        .set_version(&mut f, &Version::new(1, 0, 0))
        .unwrap_err();
    assert_eq!(*e.kind(), VersionLocationErrorKind::WorkspaceNotFound);
    let mut g = file(Section::Table(VersionEntry::Missing), Section::Missing);
    assert_eq!(
        *VersionLocation::Package.set_version(&mut g, &Version::new(1, 0, 0)).unwrap_err().kind(),
        VersionLocationErrorKind::NotFound(VersionLocation::Package)
    );
    // a value that is no string is replaced
    let mut h = file(Section::Table(VersionEntry::OtherValue), Section::Missing);
    VersionLocation::Package.set_version(&mut h, &Version::new(1, 0, 0)).unwrap();
    assert_eq!(h.get_package_version(), Some(Version::new(1, 0, 0)));
}

#[test]
fn cargo_file_set_version() {
    let v = Version::new(7, 0, 0);
    let mut both = file(Section::Table(text("0.1.0")), Section::Table(Section::Table(text("0.2.0"))));
    both.set_version(v.clone()).unwrap();
    assert_eq!(both.get_package_version(), Some(v.clone()));
    assert_eq!(both.get_workspace_version(), Some(v.clone()));

    let mut only_ws = file(Section::Missing, Section::Table(Section::Table(text("0.2.0"))));
    only_ws.set_version(v.clone()).unwrap();
    assert_eq!(only_ws.get_workspace_version(), Some(v.clone()));

    let mut neither = file(Section::Missing, Section::Missing);
    let e = neither.set_version(v.clone()).unwrap_err();
    assert!(matches!(e.kind(), CargoFileErrorKind::NoPackageOrWorkspaceVersion));
    assert_eq!(e.path(), "ws/Cargo.toml");

    let mut inherited = file(
        Section::Table(VersionEntry::Inherited(InheritFlag::Flag(true))),
        Section::Missing,
    );
    let e = inherited.set_version(v.clone()).unwrap_err();
    assert!(matches!(e.kind(), CargoFileErrorKind::LocationError(_)));

    let mut p = file(Section::Table(text("0.1.0")), Section::Missing);
    p.set_package_version(&v).unwrap();
    assert_eq!(p.get_package_version(), Some(v.clone()));
    assert!(p.set_workspace_version(&v).is_err());
}

#[test]
fn unread_file_says_nothing() {
    let lazy = CargoFile::new_lazy("Cargo.toml".to_string());
    assert_eq!(lazy.path(), "Cargo.toml");
    let read = lazy.read_file(ManifestDocument::empty());
    assert_eq!(
        *VersionLocation::Package.get_version(&read).unwrap_err().kind(),
        VersionLocationErrorKind::PackageNotFound
    );
}

#[test]
fn names_of_locations_and_items() {
    assert_eq!(VersionLocation::Package.to_string(), "package.version");
    assert_eq!(VersionLocation::WorkspacePackage.to_string(), "workspace.package.version");
    assert_eq!(ItemType::ArrayOfTables.to_string(), "Array Of Tables");
    assert_eq!(ItemType::NoItem.to_string(), "None");
    assert_eq!(ItemType::Value.to_string(), "Value");
    assert_eq!(ItemType::Table.to_string(), "Table");
    assert_ne!(VersionType::Package, VersionType::SetByWorkspace);
}
