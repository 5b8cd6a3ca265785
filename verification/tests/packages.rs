use cargo_uv::cli::{PackagesCli, PackagesCliModifier, Workspace};
use cargo_uv::manifest::{InheritFlag, ManifestDocument, Section, VersionEntry};
use cargo_uv::version::Version;
use cargo_uv::{
    Action, CargoFile, Package, PackageError, PackageName, Packages, ReadToml, VersionErrorKind,
    VersionLocation, VersionType,
};

fn own(name: &str, version: &str) -> Package<ReadToml> {
    let file = CargoFile::new(
        format!("/ws/{name}/Cargo.toml"),
        ManifestDocument {
            package: Section::Table(VersionEntry::Text(version.to_string())),
            workspace: Section::Missing,
        },
    );
    Package::new(PackageName::new(name), Version::parse(version).unwrap(), file).unwrap()
}

fn inherited(name: &str, version: &str) -> Package<ReadToml> {
    let file = CargoFile::new(
        format!("/ws/{name}/Cargo.toml"),
        ManifestDocument {
            package: Section::Table(VersionEntry::Inherited(InheritFlag::Flag(true))),
            workspace: Section::Missing,
        },
    );
    Package::new(PackageName::new(name), Version::parse(version).unwrap(), file).unwrap()
}

fn workspace_entry(version: &str) -> Package<ReadToml> {
    Package::workspace_package(CargoFile::new(
        "/ws/Cargo.toml".to_string(),
        ManifestDocument {
            package: Section::Missing,
            workspace: Section::Table(Section::Table(VersionEntry::Text(version.to_string()))),
        },
    ))
    .unwrap()
}

fn packages(
    list: Vec<Package<ReadToml>>,
    root: Option<&str>,
    defaults: &[&str],
    ws: Option<Package<ReadToml>>,
) -> Packages {
    Packages::new(
        "/ws".to_string(),
        "/ws/Cargo.toml".to_string(),
        "/ws/Cargo.lock".to_string(),
        list,
        root.map(PackageName::new),
        defaults.iter().map(|n| PackageName::new(n)).collect(),
        ws,
    )
}

fn names(list: &[&Package<ReadToml>]) -> Vec<String> {
    list.iter().map(|p| p.name().to_string()).collect()
}

fn flags(workspace: bool, default_members: bool, package: &[&str], exclude: &[&str]) -> Workspace {
    Workspace {
        package: package.iter().map(|s| s.to_string()).collect(),
        exclude: exclude.iter().map(|s| s.to_string()).collect(),
        workspace,
        workspace_package: false,
        default_members,
    }
}

#[test]
fn package_name() {
    assert!(PackageName::workspace_package().is_workspace_package());
    assert!(!PackageName::new("a").is_workspace_package());
    assert_eq!(PackageName::workspace_package().as_str(), "workspace.package");
    assert!(PackageName::default().is_empty());
    assert_eq!(PackageName::from("x".to_string()), PackageName::new("x"));
}

#[test]
fn version_type_is_told_from_the_manifest() {
    assert_eq!(own("a", "1.0.0").version_type(), VersionType::Package);
    assert_eq!(inherited("a", "1.0.0").version_type(), VersionType::SetByWorkspace);
    assert_eq!(workspace_entry("1.0.0").version_type(), VersionType::WorkspacePackage);
    assert_eq!(workspace_entry("1.0.0").name(), &PackageName::workspace_package());
    assert_eq!(workspace_entry("1.2.0").version(), &Version::new(1, 2, 0));
    let empty = CargoFile::new("x".to_string(), ManifestDocument::empty());
    assert!(Package::new(PackageName::new("a"), Version::new(1, 0, 0), empty.clone()).is_err());
    assert!(Package::workspace_package(empty).is_err());
    assert_eq!(own("a", "1.0.0").manifest_path(), "/ws/a/Cargo.toml");
    assert_eq!(own("a", "1.0.0"), own("a", "2.0.0"));
}

#[test]
fn package_set_version_then_version() {
    let mut p = own("a", "1.0.0");
    let v = Version::parse("2.0.0-rc.1").unwrap();
    assert_eq!(p.set_version(v.clone()).unwrap(), v);
    assert_eq!(p.version(), &v);
    assert_eq!(p.cargo_file().get_package_version(), Some(v.clone()));
    let mut i = inherited("b", "1.0.0");
    assert!(i.set_version(v.clone()).is_err());
    assert_eq!(i.version(), &Version::new(1, 0, 0));
    assert_eq!(own("a", "1.0.0").write_cargo_file().unwrap(), VersionLocation::Package);
    assert!(i.write_cargo_file().is_err());
    assert_eq!(
        workspace_entry("1.0.0").write_cargo_file().unwrap(),
        VersionLocation::WorkspacePackage
    );
}

#[test]
fn packages_set_version_then_get() {
    let mut w = packages(
        vec![own("a", "1.0.0"), own("b", "1.0.0")],
        Some("a"),
        &[],
        Some(workspace_entry("0.5.0")),
    );
    let v = Version::new(3, 0, 0);
    assert_eq!(w.set_package_version(&PackageName::new("b"), v.clone()).unwrap(), v);
    assert_eq!(w.get_package(&PackageName::new("b")).unwrap().version(), &v);
    assert_eq!(
        w.get_package(&PackageName::new("a")).unwrap().version(),
        &Version::new(1, 0, 0)
    );
    assert_eq!(w.workspace_package().unwrap().version(), &Version::new(0, 5, 0));
    assert!(matches!(
        w.set_package_version(&PackageName::new("zz"), v.clone()),
        Err(PackageError::PackageNameNotFound(_))
    ));
    w.set_workspace_package_version(v.clone()).unwrap();
    assert_eq!(w.workspace_package().unwrap().version(), &v);
    w.set_package_version(&PackageName::workspace_package(), Version::new(4, 0, 0)).unwrap();
    assert_eq!(w.workspace_package().unwrap().version(), &Version::new(4, 0, 0));
    let mut none = packages(vec![own("a", "1.0.0")], None, &[], None);
    assert!(matches!(
        none.set_workspace_package_version(v),
        Err(PackageError::NoWorkspacePackage)
    ));
    let write = w.write_cargo_file(&PackageName::new("b")).unwrap();
    assert_eq!(write.path, "/ws/b/Cargo.toml");
    assert_eq!(write.location, VersionLocation::Package);
    assert_eq!(write.version, Version::new(3, 0, 0));
    assert!(w.write_cargo_file(&PackageName::new("zz")).is_err());
}

#[test]
fn root_version_precedence() {
    // the root package comes first
    let w = packages(
        vec![own("a", "1.0.0"), own("b", "2.0.0")],
        Some("b"),
        &[],
        Some(workspace_entry("3.0.0")),
    );
    assert_eq!(w.root_version().unwrap(), Version::new(2, 0, 0));
    assert_eq!(w.get_root_package_version(), Some(Version::new(2, 0, 0)));
    // then the version of the workspace
    let w = packages(
        vec![own("a", "1.0.0"), own("b", "2.0.0")],
        None,
        &[],
        Some(workspace_entry("3.0.0")),
    );
    assert_eq!(w.root_version().unwrap(), Version::new(3, 0, 0));
    // then the one version that all packages share
    let w = packages(vec![own("a", "1.0.0"), own("b", "1.0.0")], None, &[], None);
    assert_eq!(w.root_version().unwrap(), Version::new(1, 0, 0));
    // else none
    let w = packages(vec![own("a", "1.0.0"), own("b", "2.0.0")], None, &[], None);
    assert!(matches!(w.root_version(), Err(PackageError::NoRootVersion)));
    let w = packages(vec![], None, &[], None);
    assert!(matches!(w.root_version(), Err(PackageError::NoRootVersion)));
}

#[test]
fn root_package_name() {
    let mut w = packages(vec![own("a", "1.0.0")], Some("zz"), &["a"], None);
    assert_eq!(w.root_package_name_unchecked(), None);
    assert!(matches!(
        w.try_set_root_package_name(&PackageName::new("")),
        Err(PackageError::PackageNameNotProvided)
    ));
    assert!(matches!(
        w.try_set_root_package_name(&PackageName::new("b")),
        Err(PackageError::PackageNameNotFound(_))
    ));
    assert_eq!(w.set_root_package_name(&PackageName::new("a")), Some(&PackageName::new("a")));
    assert_eq!(w.get_root_package().unwrap().name(), &PackageName::new("a"));
    assert_eq!(w.get_root_package_owned().unwrap().name(), &PackageName::new("a"));
    assert_eq!(
        w.get_package(&PackageName::workspace_package()).unwrap().name(),
        &PackageName::new("a")
    );
    w.drop_root_package_name();
    assert!(w.get_root_package().is_none());
    assert_eq!(w.root_directory(), "/ws");
    assert_eq!(w.root_manifest_path(), "/ws/Cargo.toml");
    assert_eq!(w.root_cargo_lock_path(), "/ws/Cargo.lock");
    assert_eq!(w.workspace_default_members(), vec![&PackageName::new("a")]);
    assert_eq!(w.workspace_members(), vec![&PackageName::new("a")]);
    assert_eq!(w.package_set().len(), 1);
    assert!(w.get_package_owned(&PackageName::new("a")).is_some());
}

#[test]
fn later_package_of_one_name_stays() {
    let w = packages(vec![own("a", "1.0.0"), own("b", "1.0.0"), own("a", "2.0.0")], None, &[], None);
    assert_eq!(w.packages().len(), 2);
    assert_eq!(w.packages()[0].version(), &Version::new(2, 0, 0));
    assert_eq!(w.packages()[1].name(), &PackageName::new("b"));
}

#[test]
fn selection_modes() {
    let w = packages(
        vec![own("a", "1.0.0"), own("b", "1.0.0"), own("c", "1.0.0")],
        Some("a"),
        &["b", "c"],
        None,
    );
    let pick = |f: Workspace| {
        let (i, e) = f.partition_packages(&w);
        (names(&i), names(&e))
    };
    // the root package alone
    assert_eq!(pick(flags(false, false, &[], &[])), (vec!["a".into()], vec!["b".into(), "c".into()]));
    // all
    assert_eq!(
        pick(flags(true, false, &[], &[])),
        (vec!["a".into(), "b".into(), "c".into()], vec![])
    );
    // the default members
    assert_eq!(pick(flags(false, true, &[], &[])), (vec!["b".into(), "c".into()], vec!["a".into()]));
    // includes add to what is chosen
    assert_eq!(pick(flags(false, false, &["c"], &[])), (vec!["a".into(), "c".into()], vec!["b".into()]));
    // excludes win over includes and over what is chosen
    assert_eq!(
        pick(flags(true, false, &["b"], &["b"])),
        (vec!["a".into(), "c".into()], vec!["b".into()])
    );
    assert_eq!(pick(flags(false, false, &["c"], &["a", "c"])), (vec![], vec!["a".into(), "b".into(), "c".into()]));
    assert_eq!(pick(flags(false, true, &["a"], &["c"])), (vec!["a".into(), "b".into()], vec!["c".into()]));
}

#[test]
fn selection_is_a_partition() {
    let w = packages(
        vec![own("a", "1.0.0"), own("b", "1.0.0"), own("c", "1.0.0"), own("d", "1.0.0")],
        Some("c"),
        &["a", "d"],
        None,
    );
    let all = ["a", "b", "c", "d"];
    for mode in 0..3 {
        for inc in 0..16u32 {
            for exc in 0..16u32 {
                let package: Vec<&str> = (0..4).filter(|i| inc >> i & 1 == 1).map(|i| all[i]).collect();
                let exclude: Vec<&str> = (0..4).filter(|i| exc >> i & 1 == 1).map(|i| all[i]).collect();
                let f = flags(mode == 1, mode == 2, &package, &exclude);
                let (i, e) = f.partition_packages_owned(&w);
                assert_eq!(i.len() + e.len(), 4);
                for name in all {
                    let in_i = i.iter().any(|p| p.name().as_str() == name);
                    let in_e = e.iter().any(|p| p.name().as_str() == name);
                    assert!(in_i != in_e);
                    if exclude.contains(&name) {
                        assert!(in_e);
                    }
                }
            }
        }
    }
}

#[test]
fn from_flags_and_modifier() {
    let none: Vec<String> = vec![];
    let some = vec!["a".to_string()];
    assert!(matches!(PackagesCli::from_flags(false, false, &none, &none), PackagesCli::RootPackage(_)));
    assert!(matches!(PackagesCli::from_flags(true, false, &none, &some), PackagesCli::All(_)));
    assert!(matches!(PackagesCli::from_flags(true, false, &some, &some), PackagesCli::All(_)));
    assert!(matches!(PackagesCli::from_flags(false, true, &none, &none), PackagesCli::DefaultMembers(_)));
    assert!(matches!(PackagesCli::from_flags(false, false, &some, &none), PackagesCli::RootPackage(_)));
    let a = PackageName::new("a");
    let base = vec![&a];
    let m = PackagesCliModifier::new(Some(&some), Some(&none));
    assert!(m.includes(&base, "a"));
    assert!(!m.includes(&base, "b"));
    assert!(!m.exclude("a"));
    let b = vec!["b".to_string()];
    let m = PackagesCliModifier::new(Some(&b), Some(&some));
    assert!(!m.includes(&base, "a"));
    assert!(m.includes(&base, "b"));
    assert!(m.exclude("a"));
    let sel = PackagesCli::from_flags(true, false, &some, &b);
    assert!(sel.as_ref().exclude("a"));
    assert!(Workspace::default().package.is_empty());
}

#[test]
fn display_tree() {
    let w = packages(
        vec![own("zeta", "1.0.0"), own("alpha", "0.2.0"), own("mid", "1.1.0-rc.1")],
        Some("mid"),
        &["alpha", "zeta"],
        None,
    );
    assert_eq!(
        w.display_tree(),
        "Workspace root: /ws\nRoot package: mid 1.1.0-rc.1\nDefault members: [\"alpha\", \"zeta\"]\n\nmid\n├─ alpha 0.2.0: ./alpha\n└─ zeta 1.0.0: ./zeta\n"
    );
    let w = packages(vec![own("b", "1.0.0"), own("a", "1.0.0")], None, &[], None);
    assert_eq!(
        w.display_tree(),
        "Workspace root: /ws\n\nMembers:\n├─ a 1.0.0: ./a\n└─ b 1.0.0: ./b\n"
    );
    let sorted: Vec<String> = w.sorted_packages().iter().map(|p| p.name().to_string()).collect();
    assert_eq!(sorted, vec!["a", "b"]);
}

#[test]
fn package_bump_version() {
    let mut p = own("a", "1.0.0");
    assert_eq!(p.bump_version(Action::Minor, None, None, false).unwrap(), Version::new(1, 1, 0));
    assert_eq!(p.version(), &Version::new(1, 1, 0));
    assert_eq!(p.cargo_file().get_package_version(), Some(Version::new(1, 1, 0)));
    match p.bump_version(Action::Pre, None, None, false) {
        Err(PackageError::Version(e)) => assert_eq!(e.kind, VersionErrorKind::PrereleaseNotSet),
        other => panic!("{other:?}"),
    }
    assert_eq!(p.version(), &Version::new(1, 1, 0));
    let mut i = inherited("b", "1.0.0");
    assert!(matches!(
        i.bump_version(Action::Patch, None, None, false),
        Err(PackageError::Manifest(_))
    ));
    assert_eq!(i.version(), &Version::new(1, 0, 0));
}
