//! The layout of a workspace as a tree, for display.

use crate::manifest::toml_file::ReadToml;
use crate::packages::packages::{
    find_package, names_view, packages_view, Packages, PackagesView,
};
use crate::packages::{Package, PackageName, PackageView};
use crate::paths::{manifest_directory, relative_directory};
use crate::text::{chars_of, push_chars, str_eq, string_of};
use crate::version::identifiers::{chars_lt, chars_precede};
use crate::version::semantic::version_text;
use vstd::prelude::*;

verus! {

/// A list of packages that is in the order of their names, with one more
/// package put where it belongs.
pub open spec fn inserted_by_name(sorted: Seq<PackageView>, package: PackageView) -> Seq<
    PackageView,
>
    decreases sorted.len(),
{
    if sorted.len() == 0 {
        seq![package]
    } else if chars_lt(package.name, sorted.last().name) {
        inserted_by_name(sorted.drop_last(), package).push(sorted.last())
    } else {
        sorted.push(package)
    }
}

/// The packages in the order of their names.
pub open spec fn sorted_by_name(list: Seq<PackageView>) -> Seq<PackageView>
    decreases list.len(),
{
    if list.len() == 0 {
        Seq::<PackageView>::empty()
    } else {
        inserted_by_name(sorted_by_name(list.drop_last()), list.last())
    }
}

/// The names between square brackets, each between double quotes, with a
/// comma and a space between two of them.
pub open spec fn names_text(names: Seq<Seq<char>>) -> Seq<char>
    decreases names.len(),
{
    if names.len() == 0 {
        Seq::<char>::empty()
    } else if names.len() == 1 {
        seq!['"'] + names[0] + seq!['"']
    } else {
        names_text(names.drop_last()) + ", \""@ + names.last() + seq!['"']
    }
}

/// The line of a package in the tree: a branch, the name, the version, a
/// colon, and the directory of the package as it is written from the root.
pub open spec fn member_line(package: PackageView, last: bool, root: Seq<char>) -> Seq<char> {
    (if last {
        "└─ "@
    } else {
        "├─ "@
    }) + package.name + seq![' '] + version_text(package.version) + ": "@ + manifest_directory(
        package.manifest_path,
        root,
    ) + seq!['\n']
}

/// The lines of the packages, in order: all but the root package, the last
/// package of the list with the branch that ends the tree.
pub open spec fn member_lines(
    sorted: Seq<PackageView>,
    count: int,
    root_package: Option<Seq<char>>,
    root: Seq<char>,
) -> Seq<char>
    decreases count,
{
    if count <= 0 || count > sorted.len() {
        Seq::<char>::empty()
    } else {
        member_lines(sorted, count - 1, root_package, root) + (if root_package == Some(
            sorted[count - 1].name,
        ) {
            Seq::<char>::empty()
        } else {
            member_line(sorted[count - 1], count == sorted.len(), root)
        })
    }
}

/// The tree of a workspace: the root directory; the root package with its
/// version, where there is one; the default members, where there are some;
/// an empty line; the root package or the word `Members:`; and a line for
/// each package but the root package, in the order of their names.
pub open spec fn tree_text(w: PackagesView) -> Seq<char> {
    let rooted = w.root_package is Some && find_package(w.packages, w.root_package->0)
        < w.packages.len();
    "Workspace root: "@ + w.root_directory + seq!['\n'] + (if rooted {
        "Root package: "@ + w.root_package->0 + seq![' '] + version_text(
            w.packages[find_package(w.packages, w.root_package->0)].version,
        ) + seq!['\n']
    } else {
        Seq::<char>::empty()
    }) + (if w.default_members.len() > 0 {
        "Default members: ["@ + names_text(w.default_members) + "]\n"@
    } else {
        Seq::<char>::empty()
    }) + seq!['\n'] + (if rooted {
        w.root_package->0 + seq!['\n']
    } else {
        "Members:\n"@
    }) + member_lines(
        sorted_by_name(w.packages),
        sorted_by_name(w.packages).len() as int,
        if rooted {
            w.root_package
        } else {
            None
        },
        w.root_directory,
    )
}

/// The views of the packages that a list refers to.
pub open spec fn refs_view(list: Seq<&Package<ReadToml>>) -> Seq<PackageView> {
    list.map_values(|p: &Package<ReadToml>| p@)
}

/// Puts a package where it belongs in a list that is in the order of the
/// names.
fn insert_by_name<'a>(sorted: &mut Vec<&'a Package<ReadToml>>, package: &'a Package<ReadToml>)
    ensures
        refs_view(final(sorted)@) == inserted_by_name(refs_view(old(sorted)@), package@),
{
    let ghost given = refs_view(sorted@);
    let name = chars_of(package.name().as_str());
    let mut at: usize = sorted.len();
    let mut tail: Vec<&'a Package<ReadToml>> = Vec::new();
    proof {
        assert(given.take(at as int) == given);
        assert(refs_view(tail@) == Seq::<PackageView>::empty());
        assert(inserted_by_name(given.take(at as int), package@) + refs_view(tail@)
            == inserted_by_name(given, package@));
    }
    while at > 0 && chars_precede(&name, &chars_of(sorted[at - 1].name().as_str()))
        invariant
            at == sorted.len(),
            at <= given.len(),
            name@ == package@.name,
            refs_view(sorted@) == given.take(at as int),
            inserted_by_name(given.take(at as int), package@) + reversed(refs_view(tail@))
                == inserted_by_name(given, package@),
        decreases at,
    {
        let ghost before = refs_view(tail@);
        let ghost front = given.take(at as int);
        assert(front.last() == sorted@[at - 1]@);
        let moved = sorted.pop();
        match moved {
            Some(p) => {
                tail.push(p);
                proof {
                    assert(front.last() == p@);
                    assert(front.drop_last() == given.take(at - 1));
                    assert(refs_view(tail@) == before.push(p@));
                    assert(reversed(before.push(p@)) == seq![p@] + reversed(before)) by {
                        lemma_reversed_push(before, p@);
                    }
                    assert(inserted_by_name(front, package@) == inserted_by_name(
                        front.drop_last(),
                        package@,
                    ).push(p@));
                    assert(inserted_by_name(front.drop_last(), package@).push(p@) + reversed(
                        before,
                    ) == inserted_by_name(front.drop_last(), package@) + (seq![p@] + reversed(
                        before,
                    )));
                    assert(refs_view(sorted@) == given.take(at - 1));
                }
            },
            None => {},
        }
        at -= 1;
    }
    proof {
        let front = given.take(at as int);
        if at > 0 {
            assert(front.last() == sorted@[at - 1]@);
        }
        assert(inserted_by_name(front, package@) == front.push(package@));
    }
    let ghost front = refs_view(sorted@);
    sorted.push(package);
    assert(refs_view(sorted@) == front.push(package@));
    let ghost done = refs_view(sorted@);
    let ghost rest = reversed(refs_view(tail@));
    let mut k: usize = tail.len();
    proof {
        assert(rest.take(0) == Seq::<PackageView>::empty());
        assert(done + rest.take(0) == done);
    }
    while k > 0
        invariant
            k <= tail.len(),
            rest == reversed(refs_view(tail@)),
            refs_view(sorted@) == done + rest.take(tail.len() - k),
        decreases k,
    {
        let ghost now = refs_view(sorted@);
        sorted.push(tail[k - 1]);
        proof {
            let n = tail.len() - k;
            assert(rest[n] == refs_view(tail@)[k - 1]);
            assert(refs_view(sorted@) == now.push(rest[n]));
            assert(rest.take(n + 1) == rest.take(n).push(rest[n]));
        }
        k -= 1;
    }
    assert(rest.take(tail.len() as int) == rest);
}

/// A list from its last item to its first.
pub open spec fn reversed(list: Seq<PackageView>) -> Seq<PackageView> {
    Seq::new(list.len(), |i: int| list[list.len() - 1 - i])
}

/// A list with one more item, reversed, starts with that item.
pub proof fn lemma_reversed_push(list: Seq<PackageView>, item: PackageView)
    ensures
        reversed(list.push(item)) == seq![item] + reversed(list),
{
    assert(reversed(list.push(item)) =~= seq![item] + reversed(list));
}

/// The names between double quotes, with a comma and a space between two of
/// them.
fn write_names(out: &mut Vec<char>, names: &Vec<PackageName>)
    ensures
        final(out)@ == old(out)@ + names_text(names_view(names@)),
{
    let ghost all = names_view(names@);
    let ghost before = out@;
    let mut i: usize = 0;
    proof {
        assert(all.take(0).len() == 0);
        assert(before + names_text(all.take(0)) == before);
    }
    while i < names.len()
        invariant
            i <= names.len(),
            all == names_view(names@),
            out@ == before + names_text(all.take(i as int)),
        decreases names.len() - i,
    {
        let ghost now = out@;
        if i > 0 {
            push_chars(out, &chars_of(", \""));
        } else {
            out.push('"');
        }
        push_chars(out, &chars_of(names[i].as_str()));
        out.push('"');
        proof {
            let upto = all.take(i + 1);
            assert(upto.drop_last() == all.take(i as int));
            assert(upto.last() == names@[i as int]@);
            if i == 0 {
                assert(upto.len() == 1);
                assert(upto[0] == names@[i as int]@);
                assert(names_text(all.take(0)) == Seq::<char>::empty());
                assert(out@ == before + (seq!['"'] + upto[0] + seq!['"']));
            } else {
                assert(out@ == before + (names_text(all.take(i as int)) + ", \""@ + upto.last()
                    + seq!['"']));
            }
        }
        i += 1;
    }
    assert(all.take(names.len() as int) == all);
}

impl Packages {
    /// The packages in the order of their names.
    pub fn sorted_packages(&self) -> (r: Vec<&Package<ReadToml>>)
        ensures
            refs_view(r@) == sorted_by_name(self@.packages),
    {
        let list = self.packages();
        let ghost all = self@.packages;
        let mut sorted: Vec<&Package<ReadToml>> = Vec::new();
        let mut i: usize = 0;
        proof {
            assert(all.take(0) == Seq::<PackageView>::empty());
            assert(refs_view(sorted@) == Seq::<PackageView>::empty());
        }
        while i < list.len()
            invariant
                i <= list.len(),
                all == packages_view(list@),
                refs_view(sorted@) == sorted_by_name(all.take(i as int)),
            decreases list.len() - i,
        {
            proof {
                assert(all.take(i + 1).drop_last() == all.take(i as int));
                assert(all.take(i + 1).last() == list@[i as int]@);
            }
            insert_by_name(&mut sorted, &list[i]);
            i += 1;
        }
        assert(all.take(list.len() as int) == all);
        sorted
    }

    /// The layout of the workspace as a tree.
    pub fn display_tree(&self) -> (s: String)
        ensures
            s@ == tree_text(self@),
    {
        let root_package = self.get_root_package();
        let ghost w = self@;
        let ghost rooted = w.root_package is Some && find_package(w.packages, w.root_package->0)
            < w.packages.len();
        proof {
            if w.root_package is Some {
                crate::packages::lemma_find_package(w.packages, w.root_package->0);
            }
        }
        let mut out = chars_of("Workspace root: ");
        push_chars(&mut out, &chars_of(self.root_directory()));
        out.push('\n');
        let ghost head = out@;
        if let Some(package) = root_package {
            push_chars(&mut out, &chars_of("Root package: "));
            push_chars(&mut out, &chars_of(package.name().as_str()));
            out.push(' ');
            let version = package.version().to_string();
            push_chars(&mut out, &chars_of(version.as_str()));
            out.push('\n');
            assert(out@ == head + ("Root package: "@ + w.root_package->0 + seq![' ']
                + version_text(
                w.packages[find_package(w.packages, w.root_package->0)].version,
            ) + seq!['\n']));
        } else {
            assert(out@ == head + Seq::<char>::empty());
        }
        let ghost rooted_part = out@;
        if self.default_members().len() > 0 {
            push_chars(&mut out, &chars_of("Default members: ["));
            write_names(&mut out, self.default_members());
            push_chars(&mut out, &chars_of("]\n"));
            assert(out@ == rooted_part + ("Default members: ["@ + names_text(w.default_members)
                + "]\n"@));
        } else {
            assert(out@ == rooted_part + Seq::<char>::empty());
        }
        out.push('\n');
        let ghost blank = out@;
        match root_package {
            Some(package) => {
                push_chars(&mut out, &chars_of(package.name().as_str()));
                out.push('\n');
                assert(out@ == blank + (w.root_package->0 + seq!['\n']));
            },
            None => {
                push_chars(&mut out, &chars_of("Members:\n"));
            },
        }
        let items = self.sorted_packages();
        let ghost sorted = sorted_by_name(w.packages);
        let ghost skip = if rooted {
            w.root_package
        } else {
            None
        };
        let ghost titled = out@;
        let mut i: usize = 0;
        assert(titled + member_lines(sorted, 0, skip, w.root_directory) == titled);
        while i < items.len()
            invariant
                i <= items.len(),
                w == self@,
                sorted == refs_view(items@),
                skip == (if rooted {
                    w.root_package
                } else {
                    None
                }),
                match root_package {
                    Some(p) => rooted && w.root_package == Some(p@.name),
                    None => !rooted,
                },
                out@ == titled + member_lines(sorted, i as int, skip, w.root_directory),
            decreases items.len() - i,
        {
            let package = items[i];
            assert(sorted[i as int] == package@);
            let is_root = match root_package {
                Some(root) => str_eq(root.name().as_str(), package.name().as_str()),
                None => false,
            };
            let ghost now = out@;
            if !is_root {
                if i + 1 == items.len() {
                    push_chars(&mut out, &chars_of("└─ "));
                } else {
                    push_chars(&mut out, &chars_of("├─ "));
                }
                push_chars(&mut out, &chars_of(package.name().as_str()));
                out.push(' ');
                let version = package.version().to_string();
                push_chars(&mut out, &chars_of(version.as_str()));
                push_chars(&mut out, &chars_of(": "));
                let directory = relative_directory(
                    package.manifest_path().as_str(),
                    self.root_directory(),
                );
                push_chars(&mut out, &chars_of(directory.as_str()));
                out.push('\n');
                assert(out@ == now + member_line(
                    package@,
                    i + 1 == items.len(),
                    w.root_directory,
                ));
            } else {
                assert(out@ == now + Seq::<char>::empty());
            }
            i += 1;
        }
        string_of(&out)
    }
}

} // verus!
