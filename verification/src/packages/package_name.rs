use crate::text::{chars_of, copy_str, str_eq};
use vstd::prelude::*;
use vstd::std_specs::cmp::PartialEqSpecImpl;
use vstd::std_specs::convert::FromSpecImpl;

verus! {

/// Newtype around Package Name.
///
/// `workspace.package` for the workspace package as '.' is an invalid char
/// for a package name.
#[derive(Debug, Hash)]
pub struct PackageName(pub String);

impl View for PackageName {
    type V = Seq<char>;

    open spec fn view(&self) -> Seq<char> {
        self.0@
    }
}

impl Default for PackageName {
    fn default() -> (n: PackageName)
        ensures
            n@ == Seq::<char>::empty(),
    {
        PackageName(String::new())
    }
}

impl Clone for PackageName {
    fn clone(&self) -> (r: Self)
        ensures
            r == *self,
    {
        PackageName(self.0.clone())
    }
}

impl PartialEq for PackageName {
    fn eq(&self, other: &Self) -> (r: bool) {
        str_eq(self.0.as_str(), other.0.as_str())
    }
}

impl Eq for PackageName {

}

impl PartialEqSpecImpl for PackageName {
    open spec fn obeys_eq_spec() -> bool {
        true
    }

    open spec fn eq_spec(&self, other: &Self) -> bool {
        self@ == other@
    }
}

impl From<String> for PackageName {
    fn from(value: String) -> (r: Self) {
        Self(value)
    }
}

impl FromSpecImpl<String> for PackageName {
    open spec fn obeys_from_spec() -> bool {
        true
    }

    open spec fn from_spec(value: String) -> Self {
        PackageName(value)
    }
}

impl PackageName {
    /// The name with the given text.
    pub fn new(name: &str) -> (n: PackageName)
        ensures
            n@ == name@,
    {
        PackageName(copy_str(name))
    }

    pub fn is_workspace_package(&self) -> (b: bool)
        ensures
            b == (self@ == "workspace.package"@),
    {
        str_eq(self.0.as_str(), "workspace.package")
    }

    /// [`PackageName("workspace.package")`]
    pub fn workspace_package() -> (n: PackageName)
        ensures
            n@ == "workspace.package"@,
    {
        PackageName(copy_str("workspace.package"))
    }

    /// The name as text.
    pub fn as_str(&self) -> (s: &str)
        ensures
            s@ == self@,
    {
        self.0.as_str()
    }

    /// The name as text.
    pub fn to_string(&self) -> (s: String)
        ensures
            s@ == self@,
    {
        self.0.clone()
    }

    /// Whether the name has no character.
    pub fn is_empty(&self) -> (b: bool)
        ensures
            b == (self@.len() == 0),
    {
        chars_of(self.0.as_str()).len() == 0
    }
}

} // verus!
