//! Cargo flags for selecting crates in a workspace.

use crate::manifest::toml_file::ReadToml;
use crate::packages::{
    package_names, packages_view, Package, PackageName, PackageView, Packages,
    PackagesView,
};
use crate::text::{clone_strings, str_eq, strings_contain, strings_view};
use vstd::prelude::*;

verus! {

/// Cargo flags for selecting crates in a workspace.
#[derive(Debug)]
pub struct Workspace {
    /// Package to process (see `cargo help pkgid`)
    pub package: Vec<String>,
    /// Exclude packages from being processed
    pub exclude: Vec<String>,
    /// Process all packages in the workspace
    pub workspace: bool,
    /// Process workspace.package.version
    pub workspace_package: bool,
    /// Process only default workspace members
    pub default_members: bool,
}

impl Default for Workspace {
    fn default() -> (w: Workspace)
        ensures
            w.package@.len() == 0,
            w.exclude@.len() == 0,
            !w.workspace,
            !w.workspace_package,
            !w.default_members,
    {
        Workspace {
            package: Vec::new(),
            exclude: Vec::new(),
            workspace: false,
            workspace_package: false,
            default_members: false,
        }
    }
}

impl Clone for Workspace {
    fn clone(&self) -> (r: Self)
        ensures
            r.package@ == self.package@,
            r.exclude@ == self.exclude@,
            r.workspace == self.workspace,
            r.workspace_package == self.workspace_package,
            r.default_members == self.default_members,
    {
        Workspace {
            package: clone_strings(&self.package),
            exclude: clone_strings(&self.exclude),
            workspace: self.workspace,
            workspace_package: self.workspace_package,
            default_members: self.default_members,
        }
    }
}

/// The three ways of choosing the packages that a release starts from.
#[derive(Debug, Clone, Copy, PartialEq, Eq, Structural)]
pub enum SelectionMode {
    /// The root package alone.
    RootPackage,
    /// Every package of the workspace.
    All,
    /// The default members of the workspace.
    DefaultMembers,
}

/// The way of choosing that the flags ask for. The two flags exclude each
/// other; with neither, the root package is chosen.
pub open spec fn selection_mode(all: bool, default_members: bool) -> SelectionMode {
    if all {
        SelectionMode::All
    } else if default_members {
        SelectionMode::DefaultMembers
    } else {
        SelectionMode::RootPackage
    }
}

/// The names that a way of choosing starts from.
pub open spec fn base_names(mode: SelectionMode, w: PackagesView) -> Seq<Seq<char>> {
    match mode {
        SelectionMode::RootPackage => package_names(w.packages).filter(
            |n: Seq<char>| w.root_package == Some(n),
        ),
        SelectionMode::All => package_names(w.packages),
        SelectionMode::DefaultMembers => package_names(w.packages).filter(
            |n: Seq<char>| w.default_members.contains(n),
        ),
    }
}

/// Whether a package is selected: it is among the names started from or
/// named by a filter of inclusions, and no exclude filter names it.
pub open spec fn selects(
    base: Seq<Seq<char>>,
    inclusions: Option<Seq<Seq<char>>>,
    exclude: Option<Seq<Seq<char>>>,
    name: Seq<char>,
) -> bool {
    (base.contains(name) || (inclusions is Some && inclusions->0.contains(name))) && !(exclude is Some
        && exclude->0.contains(name))
}

#[derive(Debug, Clone, Copy)]
pub struct PackagesCliModifier<'p> {
    inclusions: Option<&'p Vec<String>>,
    exclude: Option<&'p Vec<String>>,
}

#[derive(Debug, Clone, Copy)]
pub enum PackagesCli<'p> {
    RootPackage(PackagesCliModifier<'p>),
    All(PackagesCliModifier<'p>),
    DefaultMembers(PackagesCliModifier<'p>),
}

impl<'p> PackagesCliModifier<'p> {
    /// The names that the filter of inclusions gives, if there is one.
    pub closed spec fn spec_include(&self) -> Option<Seq<Seq<char>>> {
        match self.inclusions {
            Some(list) => Some(strings_view(list@)),
            None => None,
        }
    }

    /// The names that the exclude filter gives, if there is one.
    pub closed spec fn spec_exclude(&self) -> Option<Seq<Seq<char>>> {
        match self.exclude {
            Some(list) => Some(strings_view(list@)),
            None => None,
        }
    }

    /// The modifier without filters.
    pub fn no_mod() -> (m: Self)
        ensures
            m.spec_include() is None,
            m.spec_exclude() is None,
    {
        PackagesCliModifier { inclusions: None, exclude: None }
    }

    /// The modifier with the given filters; an empty filter is no filter.
    pub fn new(inclusions: Option<&'p Vec<String>>, exclude: Option<&'p Vec<String>>) -> (m: Self)
        ensures
            m.spec_include() == match inclusions {
                Some(list) => if list@.len() == 0 {
                    None
                } else {
                    Some(strings_view(list@))
                },
                None => None,
            },
            m.spec_exclude() == match exclude {
                Some(list) => if list@.len() == 0 {
                    None
                } else {
                    Some(strings_view(list@))
                },
                None => None,
            },
    {
        let inclusions = match inclusions {
            Some(inc) => if inc.len() == 0 {
                None
            } else {
                Some(inc)
            },
            None => None,
        };
        let exclude = match exclude {
            Some(ex) => if ex.len() == 0 {
                None
            } else {
                Some(ex)
            },
            None => None,
        };
        Self { inclusions, exclude }
    }

    /// Tests whether the package is selected, uses both included and excluded.
    pub fn includes(&self, base_ids: &Vec<&PackageName>, package: &str) -> (b: bool)
        ensures
            b == selects(
                base_ids@.map_values(|n: &PackageName| n@),
                self.spec_include(),
                self.spec_exclude(),
                package@,
            ),
    {
        let is_include = match self.inclusions {
            Some(inc) => strings_contain(inc, package),
            None => false,
        };
        let is_excluded = self.exclude(package);
        let in_base = refs_contain(base_ids, package);
        match (in_base, is_include, is_excluded) {
            (false, false, _) => false,
            (_, _, false) => true,
            (_, _, true) => false,
        }
    }

    /// Test whether the package has been explicitly excluded.
    pub fn exclude(&self, package: &str) -> (b: bool)
        ensures
            b == (self.spec_exclude() is Some && self.spec_exclude()->0.contains(package@)),
    {
        match self.exclude {
            Some(exc) => strings_contain(exc, package),
            None => false,
        }
    }
}

/// Whether a list of names holds the name.
fn refs_contain(list: &Vec<&PackageName>, name: &str) -> (r: bool)
    ensures
        r == list@.map_values(|n: &PackageName| n@).contains(name@),
{
    let ghost names = list@.map_values(|n: &PackageName| n@);
    let mut i: usize = 0;
    while i < list.len()
        invariant
            i <= list.len(),
            names == list@.map_values(|n: &PackageName| n@),
            forall|j: int| 0 <= j < i ==> #[trigger] names[j] != name@,
        decreases list.len() - i,
    {
        if str_eq(list[i].as_str(), name) {
            assert(names[i as int] == name@);
            return true;
        }
        i += 1;
    }
    false
}

impl<'p> PackagesCli<'p> {
    /// The way of choosing.
    pub open spec fn mode(&self) -> SelectionMode {
        match self {
            PackagesCli::RootPackage(_) => SelectionMode::RootPackage,
            PackagesCli::All(_) => SelectionMode::All,
            PackagesCli::DefaultMembers(_) => SelectionMode::DefaultMembers,
        }
    }

    /// The filters.
    pub open spec fn modifier(&self) -> PackagesCliModifier<'p> {
        match self {
            PackagesCli::RootPackage(m) => *m,
            PackagesCli::All(m) => *m,
            PackagesCli::DefaultMembers(m) => *m,
        }
    }

    /// The filters.
    pub fn as_ref(&self) -> (m: &PackagesCliModifier<'p>)
        ensures
            *m == self.modifier(),
    {
        match self {
            PackagesCli::RootPackage(packages_cli_modifier) => packages_cli_modifier,
            PackagesCli::All(packages_cli_modifier) => packages_cli_modifier,
            PackagesCli::DefaultMembers(packages_cli_modifier) => packages_cli_modifier,
        }
    }

    /// The selection that the flags ask for. Exactly one way of choosing is
    /// active. The filters apply as given, an empty filter being no filter;
    /// where every package is chosen and nothing is excluded, no filter
    /// applies.
    pub fn from_flags(
        all: bool,
        default_members: bool,
        exclude: &'p Vec<String>,
        package: &'p Vec<String>,
    ) -> (r: Self)
        requires
            !(all && default_members),
        ensures
            r.mode() == selection_mode(all, default_members),
            r.modifier().spec_exclude() == if exclude@.len() == 0 {
                None
            } else {
                Some(strings_view(exclude@))
            },
            r.modifier().spec_include() == if package@.len() == 0 || (all && exclude@.len() == 0) {
                None
            } else {
                Some(strings_view(package@))
            },
    {
        let pack_mod = PackagesCliModifier::new(Some(package), Some(exclude));
        match (all, default_members, exclude.len(), package.len()) {
            (false, false, 0, 0) => PackagesCli::RootPackage(PackagesCliModifier::no_mod()),
            (true, false, 0, _) => PackagesCli::All(PackagesCliModifier::no_mod()),
            (true, false, _, _) => PackagesCli::All(pack_mod),
            (false, true, _, _) => PackagesCli::DefaultMembers(pack_mod),
            (false, false, _, _) => PackagesCli::RootPackage(pack_mod),
            (true, true, _, _) => PackagesCli::All(pack_mod),
        }
    }
}

/// Whether the flags select a package of the workspace.
pub open spec fn selected(flags: Workspace, w: PackagesView, name: Seq<char>) -> bool {
    selects(
        base_names(selection_mode(flags.workspace, flags.default_members), w),
        if flags.package@.len() == 0 || (flags.workspace && flags.exclude@.len() == 0) {
            None
        } else {
            Some(strings_view(flags.package@))
        },
        if flags.exclude@.len() == 0 {
            None
        } else {
            Some(strings_view(flags.exclude@))
        },
        name,
    )
}

/// The packages that are selected, in the order of the workspace.
pub open spec fn included_packages(flags: Workspace, w: PackagesView) -> Seq<PackageView> {
    w.packages.filter(|p: PackageView| selected(flags, w, p.name))
}

/// The packages that are not selected, in the order of the workspace.
pub open spec fn excluded_packages(flags: Workspace, w: PackagesView) -> Seq<PackageView> {
    w.packages.filter(|p: PackageView| !selected(flags, w, p.name))
}

/// Every package of the workspace is either selected or not, and none is
/// both: the selected and the others together are the packages of the
/// workspace, and no package is on both sides.
pub proof fn lemma_partition_total(flags: Workspace, w: PackagesView)
    ensures
        forall|p: PackageView|
            w.packages.contains(p) <==> #[trigger] included_packages(flags, w).contains(p)
                || excluded_packages(flags, w).contains(p),
        forall|p: PackageView|
            !(#[trigger] included_packages(flags, w).contains(p) && excluded_packages(
                flags,
                w,
            ).contains(p)),
        included_packages(flags, w).len() + excluded_packages(flags, w).len() == w.packages.len(),
{
    let yes = |p: PackageView| selected(flags, w, p.name);
    let no = |p: PackageView| !selected(flags, w, p.name);
    lemma_filter_split(w.packages, yes, no);
}

/// A list that is filtered by a test and by its opposite falls into two
/// lists that together hold what the list holds, with nothing on both
/// sides.
pub proof fn lemma_filter_split<A>(s: Seq<A>, yes: spec_fn(A) -> bool, no: spec_fn(A) -> bool)
    requires
        forall|a: A| #[trigger] no(a) == !yes(a),
    ensures
        forall|a: A| s.contains(a) <==> #[trigger] s.filter(yes).contains(a) || s.filter(no).contains(a),
        forall|a: A| !(#[trigger] s.filter(yes).contains(a) && s.filter(no).contains(a)),
        forall|a: A| s.filter(yes).contains(a) ==> yes(a),
        forall|a: A| s.filter(no).contains(a) ==> !yes(a),
        s.filter(yes).len() + s.filter(no).len() == s.len(),
    decreases s.len(),
{
    reveal(Seq::filter);
    if s.len() > 0 {
        let rest = s.drop_last();
        lemma_filter_split(rest, yes, no);
        let last = s.last();
        assert(no(last) == !yes(last));
        assert forall|a: A| s.contains(a) <==> #[trigger] s.filter(yes).contains(a) || s.filter(
            no,
        ).contains(a) by {
            lemma_contains_push(rest, last, a);
            assert(s == rest.push(last));
            lemma_contains_push(rest.filter(yes), last, a);
            lemma_contains_push(rest.filter(no), last, a);
        }
        assert forall|a: A| s.filter(yes).contains(a) implies yes(a) by {
            lemma_contains_push(rest.filter(yes), last, a);
        }
        assert forall|a: A| s.filter(no).contains(a) implies !yes(a) by {
            lemma_contains_push(rest.filter(no), last, a);
        }
    } else {
        assert forall|a: A| !s.contains(a) by {}
    }
}

/// What a list with one more item holds.
pub proof fn lemma_contains_push<A>(s: Seq<A>, last: A, a: A)
    ensures
        s.push(last).contains(a) <==> s.contains(a) || a == last,
{
    if s.contains(a) {
        let k = choose|k: int| 0 <= k < s.len() && s[k] == a;
        assert(s.push(last)[k] == a);
    }
    if a == last {
        assert(s.push(last)[s.len() as int] == a);
    }
}

impl Workspace {
    /// Partition workspace members into those selected and those excluded.
    /// The two flags that choose all packages and the default members
    /// exclude each other.
    pub fn partition_packages<'m>(&self, packages: &'m Packages) -> (r: (
        Vec<&'m Package<ReadToml>>,
        Vec<&'m Package<ReadToml>>,
    ))
        requires
            !(self.workspace && self.default_members),
        ensures
            r.0@.map_values(|p: &Package<ReadToml>| p@) == included_packages(*self, packages@),
            r.1@.map_values(|p: &Package<ReadToml>| p@) == excluded_packages(*self, packages@),
    {
        let selection = PackagesCli::from_flags(
            self.workspace,
            self.default_members,
            &self.exclude,
            &self.package,
        );
        let modifications = selection.as_ref();
        let workspace_members = packages.workspace_members();
        let base_ids: Vec<&PackageName> = match selection {
            PackagesCli::RootPackage(_) => root_only(packages, workspace_members),
            PackagesCli::All(_) => workspace_members,
            PackagesCli::DefaultMembers(_) => packages.workspace_default_members(),
        };
        let ghost w = packages@;
        let ghost base = base_names(selection_mode(self.workspace, self.default_members), w);
        assert(base_ids@.map_values(|n: &PackageName| n@) == base);
        let ghost yes = |p: PackageView| selected(*self, w, p.name);
        let ghost no = |p: PackageView| !selected(*self, w, p.name);
        let list = packages.packages();
        let mut included: Vec<&'m Package<ReadToml>> = Vec::new();
        let mut excluded: Vec<&'m Package<ReadToml>> = Vec::new();
        let mut i: usize = 0;
        proof {
            reveal(Seq::filter);
            assert(w.packages.take(0) == Seq::<PackageView>::empty());
        }
        assert(included@.map_values(|p: &Package<ReadToml>| p@) == w.packages.take(0).filter(yes));
        assert(excluded@.map_values(|p: &Package<ReadToml>| p@) == w.packages.take(0).filter(no));
        while i < list.len()
            invariant
                i <= list.len(),
                w == packages@,
                packages_view(list@) == w.packages,
                base_ids@.map_values(|n: &PackageName| n@) == base,
                base == base_names(selection_mode(self.workspace, self.default_members), w),
                *modifications == selection.modifier(),
                selection.modifier().spec_exclude() == if self.exclude@.len() == 0 {
                    None
                } else {
                    Some(strings_view(self.exclude@))
                },
                selection.modifier().spec_include() == if self.package@.len() == 0 || (
                self.workspace && self.exclude@.len() == 0) {
                    None
                } else {
                    Some(strings_view(self.package@))
                },
                yes == |p: PackageView| selected(*self, w, p.name),
                no == |p: PackageView| !selected(*self, w, p.name),
                included@.map_values(|p: &Package<ReadToml>| p@) == w.packages.take(
                    i as int,
                ).filter(yes),
                excluded@.map_values(|p: &Package<ReadToml>| p@) == w.packages.take(
                    i as int,
                ).filter(no),
            decreases list.len() - i,
        {
            let package = &list[i];
            let ghost inc = included@.map_values(|p: &Package<ReadToml>| p@);
            let ghost exc = excluded@.map_values(|p: &Package<ReadToml>| p@);
            proof {
                reveal(Seq::filter);
                assert(w.packages.take(i + 1).drop_last() == w.packages.take(i as int));
                assert(w.packages.take(i + 1).last() == package@);
            }
            if modifications.includes(&base_ids, package.name().as_str()) {
                included.push(package);
                assert(included@.map_values(|p: &Package<ReadToml>| p@) == inc.push(package@));
            } else {
                excluded.push(package);
                assert(excluded@.map_values(|p: &Package<ReadToml>| p@) == exc.push(package@));
            }
            i += 1;
        }
        assert(w.packages.take(list.len() as int) == w.packages);
        (included, excluded)
    }

    /// As [`Workspace::partition_packages`], with copies of the packages.
    pub fn partition_packages_owned(&self, packages: &Packages) -> (r: (
        Vec<Package<ReadToml>>,
        Vec<Package<ReadToml>>,
    ))
        requires
            !(self.workspace && self.default_members),
        ensures
            packages_view(r.0@) == included_packages(*self, packages@),
            packages_view(r.1@) == excluded_packages(*self, packages@),
    {
        let (i, e) = self.partition_packages(packages);
        (clone_refs(&i), clone_refs(&e))
    }
}

/// Copies of the packages that a list refers to.
fn clone_refs(list: &Vec<&Package<ReadToml>>) -> (r: Vec<Package<ReadToml>>)
    ensures
        packages_view(r@) == list@.map_values(|p: &Package<ReadToml>| p@),
{
    let mut r: Vec<Package<ReadToml>> = Vec::new();
    let mut i: usize = 0;
    while i < list.len()
        invariant
            i <= list.len(),
            r.len() == i,
            forall|j: int| 0 <= j < i ==> (#[trigger] r@[j])@ == list@[j]@,
        decreases list.len() - i,
    {
        r.push(list[i].clone());
        i += 1;
    }
    assert(packages_view(r@) =~= list@.map_values(|p: &Package<ReadToml>| p@));
    r
}

/// Of the names of the members, the one that is the root package.
fn root_only<'m>(packages: &'m Packages, members: Vec<&'m PackageName>) -> (r: Vec<
    &'m PackageName,
>)
    requires
        members@.map_values(|n: &PackageName| n@) == package_names(packages@.packages),
    ensures
        r@.map_values(|n: &PackageName| n@) == base_names(SelectionMode::RootPackage, packages@),
{
    let root_package = packages.root_package_name_unchecked();
    let ghost names = package_names(packages@.packages);
    let ghost keep = |n: Seq<char>| packages@.root_package == Some(n);
    let mut r: Vec<&'m PackageName> = Vec::new();
    let mut i: usize = 0;
    proof {
        reveal(Seq::filter);
        assert(names.take(0) == Seq::<Seq<char>>::empty());
    }
    assert(r@.map_values(|n: &PackageName| n@) == names.take(0).filter(keep));
    while i < members.len()
        invariant
            i <= members.len(),
            names == package_names(packages@.packages),
            members@.map_values(|n: &PackageName| n@) == names,
            keep == |n: Seq<char>| packages@.root_package == Some(n),
            match root_package {
                Some(n) => packages@.root_package == Some(n@),
                None => packages@.root_package is None,
            },
            r@.map_values(|n: &PackageName| n@) == names.take(i as int).filter(keep),
        decreases members.len() - i,
    {
        let name = members[i];
        let ghost before = r@.map_values(|n: &PackageName| n@);
        proof {
            reveal(Seq::filter);
            assert(names.take(i + 1).drop_last() == names.take(i as int));
            assert(names.take(i + 1).last() == name@);
        }
        let is_root = match root_package {
            Some(root) => str_eq(root.as_str(), name.as_str()),
            None => false,
        };
        if is_root {
            r.push(name);
            assert(r@.map_values(|n: &PackageName| n@) == before.push(name@));
        }
        i += 1;
    }
    assert(names.take(members.len() as int) == names);
    r
}

} // verus!
