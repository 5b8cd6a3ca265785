use crate::manifest::document::{ManifestDocument, Section};
use crate::manifest::toml_file::{set_version_fault, ReadToml};
use crate::manifest::version_location::{VersionLocation, VersionType};
use crate::packages::{Package, PackageError, PackageName, PackageView};
use crate::version::semantic::{Version, VersionView};
use vstd::prelude::*;

verus! {

/// The packages as mathematical values.
pub open spec fn packages_view(list: Seq<Package<ReadToml>>) -> Seq<PackageView> {
    list.map_values(|p: Package<ReadToml>| p@)
}

/// The names of packages, in order.
pub open spec fn package_names(list: Seq<PackageView>) -> Seq<Seq<char>> {
    list.map_values(|p: PackageView| p.name)
}

/// No two packages have the same name.
pub open spec fn names_distinct(list: Seq<PackageView>) -> bool {
    forall|i: int, j: int|
        0 <= i < list.len() && 0 <= j < list.len() && i != j ==> (#[trigger] list[i]).name != (
        #[trigger] list[j]).name
}

/// The place of the first package of the given name, or the length of the
/// list where there is none.
pub open spec fn find_package(list: Seq<PackageView>, name: Seq<char>) -> int
    decreases list.len(),
{
    if list.len() == 0 {
        0
    } else if list[0].name == name {
        0
    } else {
        1 + find_package(list.drop_first(), name)
    }
}

/// The place that [`find_package`] gives lies within the list or at its end;
/// no package before it has the name, and the package there, if any, has it.
pub proof fn lemma_find_package(list: Seq<PackageView>, name: Seq<char>)
    ensures
        0 <= find_package(list, name) <= list.len(),
        forall|j: int| 0 <= j < find_package(list, name) ==> (#[trigger] list[j]).name != name,
        find_package(list, name) < list.len() ==> list[find_package(list, name)].name == name,
        find_package(list, name) < list.len() <==> package_names(list).contains(name),
    decreases list.len(),
{
    if list.len() > 0 && list[0].name != name {
        let rest = list.drop_first();
        lemma_find_package(rest, name);
        assert forall|j: int| 0 <= j < find_package(list, name) implies (#[trigger] list[j]).name
            != name by {
            if j > 0 {
                assert(list[j] == rest[j - 1]);
            }
        }
        if find_package(rest, name) < rest.len() {
            assert(list[find_package(list, name)] == rest[find_package(rest, name)]);
            assert(package_names(list)[find_package(list, name)] == name);
        } else if package_names(list).contains(name) {
            let k = choose|k: int|
                0 <= k < package_names(list).len() && package_names(list)[k] == name;
            assert(package_names(rest)[k - 1] == name);
        }
    } else if list.len() > 0 {
        assert(package_names(list)[0] == name);
    }
}

/// The packages of a workspace that is given the packages of a list, in
/// order: a package of a new name becomes the last, a package of a name that
/// is there already takes the place of the package of that name.
pub open spec fn merged_packages(list: Seq<PackageView>) -> Seq<PackageView>
    decreases list.len(),
{
    if list.len() == 0 {
        Seq::<PackageView>::empty()
    } else {
        let before = merged_packages(list.drop_last());
        if find_package(before, list.last().name) < before.len() {
            before.update(find_package(before, list.last().name), list.last())
        } else {
            before.push(list.last())
        }
    }
}

/// The version that every package of the list has, if there is one: the
/// list is not empty and no package has another version than the first.
pub open spec fn common_version(list: Seq<PackageView>) -> Option<VersionView> {
    if list.len() > 0 && forall|i: int| 0 <= i < list.len() ==> (#[trigger] list[i]).version
        == list[0].version {
        Some(list[0].version)
    } else {
        None
    }
}

/// The workspace as a mathematical value.
pub struct PackagesView {
    pub root_directory: Seq<char>,
    pub root_package: Option<Seq<char>>,
    pub default_members: Seq<Seq<char>>,
    pub packages: Seq<PackageView>,
    pub workspace_package: Option<PackageView>,
}

/// The version that stands for the whole workspace, in strict precedence:
/// the version of the root package; else the version that the workspace
/// declares; else the one version that all packages share; else none.
pub open spec fn resolve_root_version(w: PackagesView) -> Option<VersionView> {
    if w.root_package is Some && find_package(w.packages, w.root_package->0) < w.packages.len() {
        Some(w.packages[find_package(w.packages, w.root_package->0)].version)
    } else if w.workspace_package is Some {
        Some(w.workspace_package->0.version)
    } else {
        common_version(w.packages)
    }
}

/// Whether the workspace has a package that the name stands for: the entry
/// of the workspace for the name of the workspace package, else the package
/// of that name.
pub open spec fn has_package(w: PackagesView, name: Seq<char>) -> bool {
    if name == "workspace.package"@ {
        w.workspace_package is Some
    } else {
        find_package(w.packages, name) < w.packages.len()
    }
}

/// The package that the name stands for.
pub open spec fn named_package(w: PackagesView, name: Seq<char>) -> PackageView {
    if name == "workspace.package"@ {
        w.workspace_package->0
    } else {
        w.packages[find_package(w.packages, name)]
    }
}

/// The workspace with the version given to the package that the name stands
/// for, and everything else as it was.
pub open spec fn with_package_version(
    w: PackagesView,
    name: Seq<char>,
    version: VersionView,
) -> PackagesView {
    if name == "workspace.package"@ {
        PackagesView {
            workspace_package: Some(PackageView { version, ..w.workspace_package->0 }),
            ..w
        }
    } else {
        PackagesView {
            packages: w.packages.update(
                find_package(w.packages, name),
                PackageView { version, ..w.packages[find_package(w.packages, name)] },
            ),
            ..w
        }
    }
}

/// A version that was given to a package is the version that the package
/// has, and no other package has another version than before.
pub proof fn lemma_set_then_get_version(w: PackagesView, name: Seq<char>, version: VersionView)
    requires
        has_package(w, name),
        names_distinct(w.packages),
    ensures
        has_package(with_package_version(w, name, version), name),
        named_package(with_package_version(w, name, version), name).version == version,
        forall|other: Seq<char>|
            other != name && has_package(w, other) ==> has_package(
                with_package_version(w, name, version),
                other,
            ) && #[trigger] named_package(with_package_version(w, name, version), other)
                == named_package(w, other),
{
    let after = with_package_version(w, name, version);
    if name != "workspace.package"@ {
        let at = find_package(w.packages, name);
        lemma_find_package(w.packages, name);
        assert forall|n: Seq<char>| find_package(after.packages, n) == find_package(
            w.packages,
            n,
        ) by {
            lemma_find_same_names(w.packages, after.packages, n);
        }
        assert forall|other: Seq<char>| other != name && has_package(w, other) implies has_package(
            after,
            other,
        ) && #[trigger] named_package(after, other) == named_package(w, other) by {
            lemma_find_package(w.packages, other);
        }
    }
}

/// Lists of packages with the same names in the same places hold each name
/// at the same place.
pub proof fn lemma_find_same_names(a: Seq<PackageView>, b: Seq<PackageView>, n: Seq<char>)
    requires
        a.len() == b.len(),
        forall|i: int| 0 <= i < a.len() ==> (#[trigger] a[i]).name == b[i].name,
    ensures
        find_package(a, n) == find_package(b, n),
    decreases a.len(),
{
    if a.len() > 0 {
        assert(a[0].name == b[0].name);
        assert forall|i: int| 0 <= i < a.drop_first().len() implies (#[trigger] a.drop_first()[i]).name
            == b.drop_first()[i].name by {
            assert(a.drop_first()[i] == a[i + 1]);
            assert(a[i + 1].name == b[i + 1].name);
        }
        lemma_find_same_names(a.drop_first(), b.drop_first(), n);
    }
}

/// What the task that writes a manifest has to write: the version, at the
/// location, in the manifest at the path.
#[derive(Debug)]
pub struct ManifestWrite {
    pub path: String,
    pub location: VersionLocation,
    pub version: Version,
}

#[derive(Debug)]
pub struct Packages {
    root_directory: String,
    root_cargo_toml: String,
    root_cargo_lock: String,
    /// Root package of the rust project.
    root_package: Option<PackageName>,
    /// Default members
    default_members: Vec<PackageName>,
    /// The packages in the rust project, no two of the same name.
    packages: Vec<Package<ReadToml>>,
    /// The workspace.package of the root Cargo.toml
    workspace_package: Option<Package<ReadToml>>,
}

/// The names of a list of package names.
pub open spec fn names_view(list: Seq<PackageName>) -> Seq<Seq<char>> {
    list.map_values(|n: PackageName| n@)
}

impl View for Packages {
    type V = PackagesView;

    closed spec fn view(&self) -> PackagesView {
        PackagesView {
            root_directory: self.root_directory@,
            root_package: match self.root_package {
                Some(n) => Some(n@),
                None => None,
            },
            default_members: names_view(self.default_members@),
            packages: packages_view(self.packages@),
            workspace_package: match self.workspace_package {
                Some(p) => Some(p@),
                None => None,
            },
        }
    }
}

/// A copy of a list of packages.
fn clone_packages(list: &Vec<Package<ReadToml>>) -> (r: Vec<Package<ReadToml>>)
    ensures
        packages_view(r@) == packages_view(list@),
        r.len() == list.len(),
        forall|i: int|
            0 <= i < list.len() ==> (#[trigger] r@[i]).spec_cargo_file()
                == list@[i].spec_cargo_file(),
{
    let mut r: Vec<Package<ReadToml>> = Vec::new();
    let mut i: usize = 0;
    while i < list.len()
        invariant
            i <= list.len(),
            r.len() == i,
            forall|j: int| 0 <= j < i ==> (#[trigger] r@[j])@ == list@[j]@,
            forall|j: int|
                0 <= j < i ==> (#[trigger] r@[j]).spec_cargo_file() == list@[j].spec_cargo_file(),
        decreases list.len() - i,
    {
        r.push(list[i].clone());
        i += 1;
    }
    assert(packages_view(r@) =~= packages_view(list@));
    r
}

/// A copy of a list of names.
fn clone_names(list: &Vec<PackageName>) -> (r: Vec<PackageName>)
    ensures
        r@ == list@,
{
    let mut r: Vec<PackageName> = Vec::new();
    let mut i: usize = 0;
    while i < list.len()
        invariant
            i <= list.len(),
            r@ == list@.take(i as int),
        decreases list.len() - i,
    {
        r.push(list[i].clone());
        assert(list@.take(i + 1) == list@.take(i as int).push(list@[i as int]));
        i += 1;
    }
    assert(list@.take(list.len() as int) == list@);
    r
}

/// Whether a list of names holds the name.
pub fn names_contain(list: &Vec<PackageName>, name: &str) -> (r: bool)
    ensures
        r == names_view(list@).contains(name@),
{
    let mut i: usize = 0;
    while i < list.len()
        invariant
            i <= list.len(),
            forall|j: int| 0 <= j < i ==> #[trigger] names_view(list@)[j] != name@,
        decreases list.len() - i,
    {
        if crate::text::str_eq(list[i].as_str(), name) {
            assert(names_view(list@)[i as int] == name@);
            return true;
        }
        i += 1;
    }
    false
}

impl Clone for Packages {
    fn clone(&self) -> (r: Self)
        ensures
            r@ == self@,
            r.spec_root_manifest_path() == self.spec_root_manifest_path(),
            r.spec_root_cargo_lock_path() == self.spec_root_cargo_lock_path(),
            forall|name: Seq<char>| r.manifest_of(name) == self.manifest_of(name),
    {
        proof {
            use_type_invariant(self);
        }
        let packages = clone_packages(&self.packages);
        let workspace_package = match &self.workspace_package {
            Some(p) => Some(p.clone()),
            None => None,
        };
        let r = Packages {
            root_directory: self.root_directory.clone(),
            root_cargo_toml: self.root_cargo_toml.clone(),
            root_cargo_lock: self.root_cargo_lock.clone(),
            root_package: match &self.root_package {
                Some(n) => Some(n.clone()),
                None => None,
            },
            default_members: clone_names(&self.default_members),
            packages,
            workspace_package,
        };
        assert forall|name: Seq<char>| r.manifest_of(name) == self.manifest_of(name) by {
            lemma_find_package(self@.packages, name);
        }
        r
    }
}

impl Packages {
    /// The invariant of a workspace: no two packages have the same name.
    #[verifier::type_invariant]
    pub open spec fn wf(&self) -> bool {
        names_distinct(self@.packages)
    }

    /// What the manifest of the package that the name stands for says about
    /// versions.
    pub closed spec fn manifest_of(&self, name: Seq<char>) -> ManifestDocument {
        if name == "workspace.package"@ {
            match self.workspace_package {
                Some(p) => p.spec_cargo_file().spec_document(),
                None => ManifestDocument { package: Section::Missing, workspace: Section::Missing },
            }
        } else if 0 <= find_package(self@.packages, name) < self.packages@.len() {
            self.packages@[find_package(
                self@.packages,
                name,
            )].spec_cargo_file().spec_document()
        } else {
            ManifestDocument { package: Section::Missing, workspace: Section::Missing }
        }
    }

    /// The path of the manifest of the workspace.
    pub closed spec fn spec_root_manifest_path(&self) -> Seq<char> {
        self.root_cargo_toml@
    }

    /// The path of the lockfile of the workspace.
    pub closed spec fn spec_root_cargo_lock_path(&self) -> Seq<char> {
        self.root_cargo_lock@
    }

    /// The place of the package of the given name among the packages.
    fn index_of(&self, name: &str) -> (r: Option<usize>)
        ensures
            match r {
                Some(i) => i == find_package(self@.packages, name@) && i < self@.packages.len()
                    && self.packages@[i as int]@.name == name@ && i < self.packages.len(),
                None => find_package(self@.packages, name@) >= self@.packages.len(),
            },
    {
        let ghost list = self@.packages;
        let mut i: usize = 0;
        proof {
            lemma_find_package(list, name@);
        }
        while i < self.packages.len()
            invariant
                i <= self.packages.len(),
                list == packages_view(self.packages@),
                list == self@.packages,
                forall|j: int| 0 <= j < i ==> (#[trigger] list[j]).name != name@,
                0 <= find_package(list, name@) <= list.len(),
                forall|j: int|
                    0 <= j < find_package(list, name@) ==> (#[trigger] list[j]).name != name@,
                find_package(list, name@) < list.len() ==> list[find_package(list, name@)].name
                    == name@,
            decreases self.packages.len() - i,
        {
            if crate::text::str_eq(self.packages[i].name().as_str(), name) {
                assert(list[i as int].name == name@);
                return Some(i);
            }
            i += 1;
        }
        None
    }

    /// The workspace rooted at `root_directory`, with the given packages,
    /// root package, default members and version of the workspace. Of two
    /// packages of one name, the later one stays, in the place of the
    /// earlier. The root package is kept where it names one of the
    /// packages.
    pub fn new(
        root_directory: String,
        root_cargo_toml: String,
        root_cargo_lock: String,
        packages: Vec<Package<ReadToml>>,
        root_package: Option<PackageName>,
        default_members: Vec<PackageName>,
        workspace_package: Option<Package<ReadToml>>,
    ) -> (r: Self)
        ensures
            r@.root_directory == root_directory@,
            r.spec_root_manifest_path() == root_cargo_toml@,
            r.spec_root_cargo_lock_path() == root_cargo_lock@,
            r@.default_members == names_view(default_members@),
            r@.workspace_package == match workspace_package {
                Some(p) => Some(p@),
                None => None,
            },
            r@.packages == merged_packages(packages_view(packages@)),
            names_distinct(r@.packages),
            forall|n: Seq<char>|
                package_names(r@.packages).contains(n) <==> package_names(
                    packages_view(packages@),
                ).contains(n),
            names_distinct(packages_view(packages@)) ==> r@.packages == packages_view(packages@),
            r@.root_package == match root_package {
                Some(n) => if n@.len() > 0 && package_names(r@.packages).contains(n@) {
                    Some(n@)
                } else {
                    None
                },
                None => None,
            },
    {
        let mut ret = Self {
            root_directory,
            root_cargo_toml,
            root_cargo_lock,
            root_package: None,
            default_members,
            packages: Vec::new(),
            workspace_package,
        };
        let mut list: Vec<Package<ReadToml>> = Vec::new();
        let mut i: usize = 0;
        let ghost given = packages_view(packages@);
        assert(given.take(0) == Seq::<PackageView>::empty());
        while i < packages.len()
            invariant
                i <= packages.len(),
                given == packages_view(packages@),
                packages_view(list@) == merged_packages(given.take(i as int)),
                names_distinct(packages_view(list@)),
                forall|n: Seq<char>|
                    package_names(packages_view(list@)).contains(n) <==> package_names(
                        given.take(i as int),
                    ).contains(n),
                names_distinct(given) ==> packages_view(list@) == given.take(i as int),
            decreases packages.len() - i,
        {
            let package = packages[i].clone();
            let ghost before = packages_view(list@);
            let ghost name = package@.name;
            proof {
                lemma_find_package(before, name);
                assert(given.take(i + 1) == given.take(i as int).push(given[i as int]));
                assert(given[i as int] == package@);
            }
            proof {
                assert(given.take(i + 1).drop_last() == given.take(i as int));
                assert(given.take(i + 1).last() == package@);
            }
            let at = find_in(&list, package.name().as_str());
            match at {
                Some(k) => {
                    proof {
                        assert(before[k as int].name == name);
                        if find_package(before, name) != k {
                            assert(before[find_package(before, name)].name == before[k as int].name);
                        }
                    }
                    list.set(k, package);
                    proof {
                        let now = packages_view(list@);
                        assert(now == before.update(k as int, package@));
                        assert forall|n: Seq<char>|
                            package_names(now).contains(n) <==> package_names(
                                given.take(i + 1),
                            ).contains(n) by {
                            lemma_names_update(before, k as int, package@, n);
                            lemma_names_push(given.take(i as int), package@, n);
                        }
                        if names_distinct(given) {
                            assert(given.take(i as int)[k as int].name == name);
                            assert(given[k as int].name == given[i as int].name);
                        }
                    }
                },
                None => {
                    list.push(package);
                    proof {
                        let now = packages_view(list@);
                        assert(now == before.push(package@));
                        assert forall|n: Seq<char>|
                            package_names(now).contains(n) <==> package_names(
                                given.take(i + 1),
                            ).contains(n) by {
                            lemma_names_push(before, package@, n);
                            lemma_names_push(given.take(i as int), package@, n);
                        }
                        assert forall|a: int, b: int|
                            0 <= a < now.len() && 0 <= b < now.len() && a != b implies (
                        #[trigger] now[a]).name != (#[trigger] now[b]).name by {
                            if a == before.len() {
                                assert(now[b] == before[b]);
                            } else if b == before.len() {
                                assert(now[a] == before[a]);
                            } else {
                                assert(now[a] == before[a]);
                                assert(now[b] == before[b]);
                            }
                        }
                    }
                },
            }
            i += 1;
        }
        assert(given.take(packages.len() as int) == given);
        ret.packages = list;
        if let Some(name) = root_package {
            let _ = ret.set_root_package_name(&name);
        }
        ret
    }

    pub fn drop_root_package_name(&mut self)
        ensures
            final(self)@ == (PackagesView { root_package: None, ..old(self)@ }),
            final(self).spec_root_manifest_path() == old(self).spec_root_manifest_path(),
            final(self).spec_root_cargo_lock_path() == old(self).spec_root_cargo_lock_path(),
    {
        proof {
            use_type_invariant(&*self);
        }
        self.root_package = None
    }

    /// The names of the packages that are default members.
    pub fn workspace_default_members(&self) -> (r: Vec<&PackageName>)
        ensures
            r@.map_values(|n: &PackageName| n@) == package_names(self@.packages).filter(
                |n: Seq<char>| self@.default_members.contains(n),
            ),
    {
        let ghost names = package_names(self@.packages);
        let ghost keep = |n: Seq<char>| self@.default_members.contains(n);
        let mut r: Vec<&PackageName> = Vec::new();
        let mut i: usize = 0;
        assert(names.take(0) == Seq::<Seq<char>>::empty());
        proof {
            reveal(Seq::filter);
        }
        assert(r@.map_values(|n: &PackageName| n@) == names.take(0).filter(keep));
        while i < self.packages.len()
            invariant
                i <= self.packages.len(),
                names == package_names(self@.packages),
                names.len() == self.packages.len(),
                forall|j: int| 0 <= j < names.len() ==> names[j] == self.packages@[j]@.name,
                keep == |n: Seq<char>| self@.default_members.contains(n),
                r@.map_values(|n: &PackageName| n@) == names.take(i as int).filter(keep),
            decreases self.packages.len() - i,
        {
            let name = self.packages[i].name();
            let ghost before = r@.map_values(|n: &PackageName| n@);
            proof {
                reveal(Seq::filter);
                assert(names.take(i + 1).drop_last() == names.take(i as int));
                assert(names.take(i + 1).last() == name@);
            }
            if names_contain(&self.default_members, name.as_str()) {
                r.push(name);
                assert(r@.map_values(|n: &PackageName| n@) == before.push(name@));
            }
            i += 1;
        }
        assert(names.take(self.packages.len() as int) == names);
        r
    }

    /// The names of all packages.
    pub fn workspace_members(&self) -> (r: Vec<&PackageName>)
        ensures
            r@.map_values(|n: &PackageName| n@) == package_names(self@.packages),
    {
        let ghost names = package_names(self@.packages);
        let mut r: Vec<&PackageName> = Vec::new();
        let mut i: usize = 0;
        while i < self.packages.len()
            invariant
                i <= self.packages.len(),
                names == package_names(self@.packages),
                names.len() == self.packages.len(),
                forall|j: int| 0 <= j < names.len() ==> names[j] == self.packages@[j]@.name,
                r@.map_values(|n: &PackageName| n@) == names.take(i as int),
            decreases self.packages.len() - i,
        {
            let ghost before = r@.map_values(|n: &PackageName| n@);
            r.push(self.packages[i].name());
            assert(r@.map_values(|n: &PackageName| n@) == before.push(names[i as int]));
            assert(names.take(i + 1) == names.take(i as int).push(names[i as int]));
            i += 1;
        }
        assert(names.take(self.packages.len() as int) == names);
        r
    }

    /// Trys to set root package name, returns [None] if package doesn't exist
    /// or the name is empty.
    ///
    /// Use [Packages::try_set_root_package_name] if you want to see the error.
    pub fn set_root_package_name<'name>(&mut self, package_name: &'name PackageName) -> (r: Option<
        &'name PackageName,
    >)
        ensures
            final(self).spec_root_manifest_path() == old(self).spec_root_manifest_path(),
            final(self).spec_root_cargo_lock_path() == old(self).spec_root_cargo_lock_path(),
            package_name@.len() > 0 && package_names(old(self)@.packages).contains(package_name@)
                ==> r == Some(package_name) && final(self)@ == (PackagesView {
                root_package: Some(package_name@),
                ..old(self)@
            }),
            !(package_name@.len() > 0 && package_names(old(self)@.packages).contains(
                package_name@,
            )) ==> r is None && final(self)@ == old(self)@,
    {
        match self.try_set_root_package_name(package_name) {
            Ok(n) => Some(n),
            Err(_) => None,
        }
    }

    pub fn try_set_root_package_name<'name>(
        &mut self,
        package_name: &'name PackageName,
    ) -> (r: Result<&'name PackageName, PackageError>)
        ensures
            final(self).spec_root_manifest_path() == old(self).spec_root_manifest_path(),
            final(self).spec_root_cargo_lock_path() == old(self).spec_root_cargo_lock_path(),
            package_name@.len() == 0 ==> r matches Err(PackageError::PackageNameNotProvided),
            package_name@.len() > 0 && !package_names(old(self)@.packages).contains(package_name@)
                ==> (r matches Err(PackageError::PackageNameNotFound(n)) && n@ == package_name@),
            r is Err ==> final(self)@ == old(self)@,
            package_name@.len() > 0 && package_names(old(self)@.packages).contains(package_name@)
                ==> r == Ok::<&PackageName, PackageError>(package_name) && final(self)@ == (
            PackagesView { root_package: Some(package_name@), ..old(self)@ }),
    {
        proof {
            use_type_invariant(&*self);
            lemma_find_package(self@.packages, package_name@);
        }
        if package_name.is_empty() {
            return Err(PackageError::PackageNameNotProvided);
        }
        match self.index_of(package_name.as_str()) {
            Some(_) => {
                self.root_package = Some(package_name.clone());
                Ok(package_name)
            },
            None => Err(PackageError::PackageNameNotFound(package_name.clone())),
        }
    }

    /// Only needs a `&self` as it returns what is set.
    pub fn root_package_name_unchecked(&self) -> (r: Option<&PackageName>)
        ensures
            match r {
                Some(n) => self@.root_package == Some(n@),
                None => self@.root_package is None,
            },
    {
        self.root_package.as_ref()
    }

    /// Checks whether there is a root name and returns a ref to the root
    /// package.
    pub fn get_root_package(&self) -> (r: Option<&Package<ReadToml>>)
        ensures
            match r {
                Some(p) => self@.root_package matches Some(n) && find_package(self@.packages, n)
                    < self@.packages.len() && p@ == self@.packages[find_package(
                    self@.packages,
                    n,
                )],
                None => self@.root_package matches Some(n) ==> find_package(self@.packages, n)
                    >= self@.packages.len(),
            },
    {
        match &self.root_package {
            Some(root_name) => match self.index_of(root_name.as_str()) {
                Some(i) => Some(&self.packages[i]),
                None => None,
            },
            None => None,
        }
    }

    /// Checks whether there is a root name and returns an owned clone of the
    /// root package.
    pub fn get_root_package_owned(&self) -> (r: Option<Package<ReadToml>>)
        ensures
            match r {
                Some(p) => self@.root_package matches Some(n) && find_package(self@.packages, n)
                    < self@.packages.len() && p@ == self@.packages[find_package(
                    self@.packages,
                    n,
                )],
                None => self@.root_package matches Some(n) ==> find_package(self@.packages, n)
                    >= self@.packages.len(),
            },
    {
        match self.get_root_package() {
            Some(p) => Some(p.clone()),
            None => None,
        }
    }

    /// The package of the given name, if it exists; for the name of the
    /// workspace package, the root package.
    pub fn get_package(&self, package_name: &PackageName) -> (r: Option<&Package<ReadToml>>)
        ensures
            package_name@ != "workspace.package"@ ==> match r {
                Some(p) => find_package(self@.packages, package_name@) < self@.packages.len()
                    && p@ == self@.packages[find_package(self@.packages, package_name@)],
                None => find_package(self@.packages, package_name@) >= self@.packages.len(),
            },
            package_name@ == "workspace.package"@ ==> match r {
                Some(p) => self@.root_package matches Some(n) && find_package(self@.packages, n)
                    < self@.packages.len() && p@ == self@.packages[find_package(
                    self@.packages,
                    n,
                )],
                None => self@.root_package matches Some(n) ==> find_package(self@.packages, n)
                    >= self@.packages.len(),
            },
    {
        if package_name.is_workspace_package() {
            self.get_root_package()
        } else {
            match self.index_of(package_name.as_str()) {
                Some(i) => Some(&self.packages[i]),
                None => None,
            }
        }
    }

    /// A copy of the package of the given name, if it exists.
    pub fn get_package_owned(&self, package_name: &PackageName) -> (r: Option<Package<ReadToml>>)
        ensures
            match r {
                Some(p) => find_package(self@.packages, package_name@) < self@.packages.len()
                    && p@ == self@.packages[find_package(self@.packages, package_name@)],
                None => find_package(self@.packages, package_name@) >= self@.packages.len(),
            },
    {
        match self.index_of(package_name.as_str()) {
            Some(i) => Some(self.packages[i].clone()),
            None => None,
        }
    }

    /// The packages, in the order of the workspace.
    pub fn packages(&self) -> (r: &Vec<Package<ReadToml>>)
        ensures
            packages_view(r@) == self@.packages,
            names_distinct(self@.packages),
    {
        proof {
            use_type_invariant(self);
        }
        &self.packages
    }

    /// The packages, each once.
    pub fn package_set(&self) -> (r: Vec<&Package<ReadToml>>)
        ensures
            r@.map_values(|p: &Package<ReadToml>| p@) == self@.packages,
    {
        let mut r: Vec<&Package<ReadToml>> = Vec::new();
        let mut i: usize = 0;
        while i < self.packages.len()
            invariant
                i <= self.packages.len(),
                r@.map_values(|p: &Package<ReadToml>| p@) == self@.packages.take(i as int),
                self@.packages == packages_view(self.packages@),
            decreases self.packages.len() - i,
        {
            let ghost before = r@.map_values(|p: &Package<ReadToml>| p@);
            r.push(&self.packages[i]);
            assert(r@.map_values(|p: &Package<ReadToml>| p@) == before.push(
                self.packages@[i as int]@,
            ));
            assert(self@.packages.take(i + 1) == self@.packages.take(i as int).push(
                self@.packages[i as int],
            ));
            i += 1;
        }
        assert(self@.packages.take(self.packages.len() as int) == self@.packages);
        r
    }

    pub fn get_root_package_version(&self) -> (r: Option<Version>)
        ensures
            match r {
                Some(v) => self@.root_package matches Some(n) && find_package(self@.packages, n)
                    < self@.packages.len() && v@ == self@.packages[find_package(
                    self@.packages,
                    n,
                )].version,
                None => self@.root_package matches Some(n) ==> find_package(self@.packages, n)
                    >= self@.packages.len(),
            },
    {
        match self.get_root_package() {
            Some(rp) => Some(rp.version().clone()),
            None => None,
        }
    }

    /// Determine what the root version is for the packages.
    ///
    /// Order of checks:
    /// - root package version
    /// - workplace.package.version
    /// - the version that all packages share
    pub fn root_version(&self) -> (r: Result<Version, PackageError>)
        ensures
            match resolve_root_version(self@) {
                Some(v) => r matches Ok(got) && got@ == v,
                None => r matches Err(PackageError::NoRootVersion),
            },
    {
        if let Some(root_package) = self.get_root_package() {
            return Ok(root_package.version().clone());
        }
        if let Some(workspace_package) = self.workspace_package.as_ref() {
            return Ok(workspace_package.version().clone());
        }
        if self.packages.len() == 0 {
            return Err(PackageError::NoRootVersion);
        }
        let first = self.packages[0].version();
        let ghost list = self@.packages;
        let mut i: usize = 1;
        while i < self.packages.len()
            invariant
                1 <= i <= self.packages.len(),
                list == packages_view(self.packages@),
                first@ == list[0].version,
                resolve_root_version(self@) == common_version(list),
                forall|j: int| 0 <= j < i ==> (#[trigger] list[j]).version == list[0].version,
            decreases self.packages.len() - i,
        {
            if !(self.packages[i].version() == first) {
                assert(list[i as int].version != list[0].version);
                return Err(PackageError::NoRootVersion);
            }
            i += 1;
        }
        Ok(first.clone())
    }

    pub fn workspace_package(&self) -> (r: Option<&Package<ReadToml>>)
        ensures
            match r {
                Some(p) => self@.workspace_package == Some(p@),
                None => self@.workspace_package is None,
            },
    {
        self.workspace_package.as_ref()
    }

    /// Used by the tasks that set or bump the version of a package: gives
    /// the package of the given name the version. The name of the workspace
    /// package stands for the entry of the workspace. Fails, and changes
    /// nothing, where there is no such package or its manifest holds no
    /// version to take the place of.
    pub fn set_package_version(&mut self, package_name: &PackageName, new_version: Version) -> (r:
        Result<Version, PackageError>)
        ensures
            final(self).spec_root_manifest_path() == old(self).spec_root_manifest_path(),
            final(self).spec_root_cargo_lock_path() == old(self).spec_root_cargo_lock_path(),
            r matches Ok(v) ==> v@ == new_version@ && final(self)@ == with_package_version(
                old(self)@,
                package_name@,
                new_version@,
            ),
            r is Err ==> final(self)@ == old(self)@,
            !has_package(old(self)@, package_name@) ==> (r matches Err(
                PackageError::PackageNameNotFound(n),
            ) && n@ == package_name@),
            has_package(old(self)@, package_name@) ==> r is Ok || r matches Err(
                PackageError::Manifest(_),
            ),
            r is Ok <==> has_package(old(self)@, package_name@) && set_version_fault(
                old(self).manifest_of(package_name@),
            ) is None,
    {
        proof {
            use_type_invariant(&*self);
            lemma_find_package(self@.packages, package_name@);
        }
        if package_name.is_workspace_package() {
            return self.set_workspace_version_inner(package_name, new_version);
        }
        match self.index_of(package_name.as_str()) {
            None => Err(PackageError::PackageNameNotFound(package_name.clone())),
            Some(i) => {
                let mut package = self.packages[i].clone();
                match package.set_version(new_version) {
                    Err(e) => Err(PackageError::Manifest(e)),
                    Ok(v) => {
                        let mut list = clone_packages(&self.packages);
                        let ghost before = packages_view(list@);
                        list.set(i, package);
                        proof {
                            assert(packages_view(list@) == before.update(i as int, package@));
                            lemma_names_update(before, i as int, package@, package_name@);
                        }
                        self.packages = list;
                        Ok(v)
                    },
                }
            },
        }
    }

    fn set_workspace_version_inner(&mut self, package_name: &PackageName, new_version: Version) -> (r:
        Result<Version, PackageError>)
        requires
            package_name@ == "workspace.package"@,
        ensures
            final(self).spec_root_manifest_path() == old(self).spec_root_manifest_path(),
            final(self).spec_root_cargo_lock_path() == old(self).spec_root_cargo_lock_path(),
            r matches Ok(v) ==> v@ == new_version@ && final(self)@ == with_package_version(
                old(self)@,
                package_name@,
                new_version@,
            ),
            r is Err ==> final(self)@ == old(self)@,
            old(self)@.workspace_package is None ==> (r matches Err(
                PackageError::PackageNameNotFound(n),
            ) && n@ == package_name@),
            old(self)@.workspace_package is Some ==> r is Ok || r matches Err(
                PackageError::Manifest(_),
            ),
            r is Ok <==> old(self)@.workspace_package is Some && set_version_fault(
                old(self).manifest_of(package_name@),
            ) is None,
    {
        proof {
            use_type_invariant(&*self);
        }
        match &self.workspace_package {
            None => Err(PackageError::PackageNameNotFound(package_name.clone())),
            Some(p) => {
                let mut package = p.clone();
                match package.set_version(new_version) {
                    Err(e) => Err(PackageError::Manifest(e)),
                    Ok(v) => {
                        self.workspace_package = Some(package);
                        Ok(v)
                    },
                }
            },
        }
    }

    /// Used by the tasks that set or bump the version of the workspace:
    /// gives the entry of the workspace the version.
    pub fn set_workspace_package_version(&mut self, new_version: Version) -> (r: Result<
        Version,
        PackageError,
    >)
        ensures
            final(self).spec_root_manifest_path() == old(self).spec_root_manifest_path(),
            final(self).spec_root_cargo_lock_path() == old(self).spec_root_cargo_lock_path(),
            r matches Ok(v) ==> v@ == new_version@ && final(self)@ == with_package_version(
                old(self)@,
                "workspace.package"@,
                new_version@,
            ),
            r is Err ==> final(self)@ == old(self)@,
            old(self)@.workspace_package is None ==> r matches Err(
                PackageError::NoWorkspacePackage,
            ),
            old(self)@.workspace_package is Some ==> r is Ok || r matches Err(
                PackageError::Manifest(_),
            ),
            r is Ok <==> old(self)@.workspace_package is Some && set_version_fault(
                old(self).manifest_of("workspace.package"@),
            ) is None,
    {
        let name = PackageName::workspace_package();
        match self.set_workspace_version_inner(&name, new_version) {
            Ok(v) => Ok(v),
            Err(PackageError::PackageNameNotFound(_)) => Err(PackageError::NoWorkspacePackage),
            Err(e) => Err(e),
        }
    }

    /// Used by the task that writes a manifest: tells which manifest to
    /// write, at which location, and which version. Fails where there is no
    /// package of the name, and where the package inherits its version, which
    /// stands in the manifest of the workspace.
    pub fn write_cargo_file(&self, package_name: &PackageName) -> (r: Result<
        ManifestWrite,
        PackageError,
    >)
        ensures
            !has_package(self@, package_name@) ==> (r matches Err(
                PackageError::PackageNameNotFound(n),
            ) && n@ == package_name@),
            has_package(self@, package_name@) ==> match named_package(self@, package_name@).version_type {
                VersionType::SetByWorkspace => r matches Err(PackageError::Manifest(_)),
                VersionType::Package => r matches Ok(w) && w.location == VersionLocation::Package
                    && w.path@ == named_package(self@, package_name@).manifest_path && w.version@
                    == named_package(self@, package_name@).version,
                VersionType::WorkspacePackage => r matches Ok(w) && w.location
                    == VersionLocation::WorkspacePackage && w.path@ == named_package(
                    self@,
                    package_name@,
                ).manifest_path && w.version@ == named_package(self@, package_name@).version,
            },
    {
        proof {
            lemma_find_package(self@.packages, package_name@);
        }
        let package = if package_name.is_workspace_package() {
            match &self.workspace_package {
                Some(p) => p,
                None => {
                    return Err(PackageError::PackageNameNotFound(package_name.clone()));
                },
            }
        } else {
            match self.index_of(package_name.as_str()) {
                Some(i) => &self.packages[i],
                None => {
                    return Err(PackageError::PackageNameNotFound(package_name.clone()));
                },
            }
        };
        match package.write_cargo_file() {
            Ok(location) => Ok(
                ManifestWrite {
                    path: package.manifest_path_owned(),
                    location,
                    version: package.version_owned(),
                },
            ),
            Err(e) => Err(PackageError::Manifest(e)),
        }
    }

    pub fn root_cargo_lock_path(&self) -> (p: &str)
        ensures
            p@ == self.spec_root_cargo_lock_path(),
    {
        self.root_cargo_lock.as_str()
    }

    pub fn root_manifest_path(&self) -> (p: &str)
        ensures
            p@ == self.spec_root_manifest_path(),
    {
        self.root_cargo_toml.as_str()
    }

    pub fn root_directory(&self) -> (p: &str)
        ensures
            p@ == self@.root_directory,
    {
        self.root_directory.as_str()
    }

    /// The names of the default members, as they were given.
    pub fn default_members(&self) -> (r: &Vec<PackageName>)
        ensures
            names_view(r@) == self@.default_members,
    {
        &self.default_members
    }
}

/// The place of the package of the given name in a list.
fn find_in(list: &Vec<Package<ReadToml>>, name: &str) -> (r: Option<usize>)
    ensures
        match r {
            Some(i) => i < list.len() && list@[i as int]@.name == name@,
            None => !package_names(packages_view(list@)).contains(name@),
        },
{
    let mut i: usize = 0;
    while i < list.len()
        invariant
            i <= list.len(),
            forall|j: int| 0 <= j < i ==> (#[trigger] list@[j])@.name != name@,
        decreases list.len() - i,
    {
        if crate::text::str_eq(list[i].name().as_str(), name) {
            return Some(i);
        }
        i += 1;
    }
    assert forall|k: int| 0 <= k < package_names(packages_view(list@)).len() implies package_names(
        packages_view(list@),
    )[k] != name@ by {
        assert(package_names(packages_view(list@))[k] == list@[k]@.name);
    }
    None
}

/// The names of a list with one more package are those of the list and the
/// name of that package.
pub proof fn lemma_names_push(list: Seq<PackageView>, package: PackageView, n: Seq<char>)
    ensures
        package_names(list.push(package)).contains(n) <==> package_names(list).contains(n) || n
            == package.name,
{
    let after = package_names(list.push(package));
    assert(after == package_names(list).push(package.name));
    if package_names(list).contains(n) {
        let k = choose|k: int| 0 <= k < package_names(list).len() && package_names(list)[k] == n;
        assert(after[k] == n);
    }
    if n == package.name {
        assert(after[list.len() as int] == n);
    }
}

/// Putting a package in the place of one of the same name leaves the names
/// of a list as they were.
pub proof fn lemma_names_update(list: Seq<PackageView>, k: int, package: PackageView, n: Seq<char>)
    requires
        0 <= k < list.len(),
        list[k].name == package.name,
    ensures
        package_names(list.update(k, package)) == package_names(list),
        names_distinct(list) ==> names_distinct(list.update(k, package)),
{
    assert(package_names(list.update(k, package)) =~= package_names(list));
    if names_distinct(list) {
        let now = list.update(k, package);
        assert forall|a: int, b: int|
            0 <= a < now.len() && 0 <= b < now.len() && a != b implies (#[trigger] now[a]).name
            != (#[trigger] now[b]).name by {
            assert(now[a].name == list[a].name);
            assert(now[b].name == list[b].name);
        }
    }
}

} // verus!
