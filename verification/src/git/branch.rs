//! The branch that a release runs on.

use crate::text::{chars_of, copy_str, str_eq, string_of, trim, trim_chars};
use vstd::prelude::*;
use vstd::std_specs::cmp::PartialEqSpecImpl;
use vstd::std_specs::convert::FromSpecImpl;

verus! {

#[derive(Debug, Hash)]
pub enum Branch {
    /// The branch that is checked out.
    Current,
    /// The branch of the given name.
    Named { local: String },
}

/// A branch as a mathematical value.
pub enum BranchView {
    Current,
    Named { local: Seq<char> },
}

impl View for Branch {
    type V = BranchView;

    open spec fn view(&self) -> BranchView {
        match self {
            Branch::Current => BranchView::Current,
            Branch::Named { local } => BranchView::Named { local: local@ },
        }
    }
}

/// How a branch is written: the current branch as a dot, a named one as its
/// name.
pub open spec fn branch_text(branch: BranchView) -> Seq<char> {
    match branch {
        BranchView::Current => "."@,
        BranchView::Named { local } => local,
    }
}

/// The branch that a text names: the current branch for the dot and for
/// nothing but white space, else the branch named by the text without the
/// white space around it.
pub open spec fn branch_of_text(text: Seq<char>) -> BranchView {
    if trim(text).len() == 0 || trim(text) == "."@ {
        BranchView::Current
    } else {
        BranchView::Named { local: trim(text) }
    }
}

impl Default for Branch {
    fn default() -> (b: Branch)
        ensures
            b == Branch::Current,
    {
        Branch::Current
    }
}

impl Clone for Branch {
    fn clone(&self) -> (r: Self)
        ensures
            r == *self,
    {
        match self {
            Branch::Current => Branch::Current,
            Branch::Named { local } => Branch::Named { local: local.clone() },
        }
    }
}

impl PartialEq for Branch {
    fn eq(&self, other: &Self) -> (r: bool) {
        match (self, other) {
            (Branch::Current, Branch::Current) => true,
            (Branch::Named { local: a }, Branch::Named { local: b }) => str_eq(
                a.as_str(),
                b.as_str(),
            ),
            _ => false,
        }
    }
}

impl Eq for Branch {

}

impl PartialEqSpecImpl for Branch {
    open spec fn obeys_eq_spec() -> bool {
        true
    }

    open spec fn eq_spec(&self, other: &Self) -> bool {
        self@ == other@
    }
}

impl From<String> for Branch {
    fn from(branch: String) -> (r: Self) {
        if str_eq(branch.as_str(), ".") {
            Branch::Current
        } else {
            Branch::Named { local: branch }
        }
    }
}

impl FromSpecImpl<String> for Branch {
    open spec fn obeys_from_spec() -> bool {
        true
    }

    open spec fn from_spec(branch: String) -> Self {
        if branch@ == "."@ {
            Branch::Current
        } else {
            Branch::Named { local: branch }
        }
    }
}

impl Branch {
    /// Returns `true` if the branch is [`Branch::Current`].
    #[must_use]
    pub fn is_current(&self) -> (b: bool)
        ensures
            b == (self@ is Current),
    {
        matches!(self, Self::Current)
    }

    /// Returns `true` if the branch is [`Branch::Named`].
    #[must_use]
    pub fn is_named(&self) -> (b: bool)
        ensures
            b == (self@ is Named),
    {
        matches!(self, Self::Named { .. })
    }

    pub fn as_named(&self) -> (r: Option<&String>)
        ensures
            r is Some <==> self@ is Named,
            r is Some ==> self@ == (BranchView::Named { local: r->0@ }),
    {
        if let Self::Named { local } = self {
            Some(local)
        } else {
            None
        }
    }

    pub fn try_into_named(self) -> (r: Result<String, Self>)
        ensures
            self is Named ==> r == Ok::<String, Branch>(self->local),
            self is Current ==> r == Err::<String, Branch>(self),
    {
        if let Self::Named { local } = self {
            Ok(local)
        } else {
            Err(self)
        }
    }

    /// The branch as it is written.
    pub fn as_ref(&self) -> (s: &str)
        ensures
            s@ == branch_text(self@),
    {
        match self {
            Branch::Current => ".",
            Branch::Named { local } => local.as_str(),
        }
    }

    /// The branch as it is written.
    pub fn to_string(&self) -> (s: String)
        ensures
            s@ == branch_text(self@),
    {
        copy_str(self.as_ref())
    }

    /// Reads a branch.
    pub fn from_str(s: &str) -> (r: Branch)
        ensures
            r@ == branch_of_text(s@),
    {
        let trimmed = trim_chars(&chars_of(s));
        let name = string_of(&trimmed);
        if trimmed.len() == 0 || str_eq(name.as_str(), ".") {
            Branch::Current
        } else {
            Branch::Named { local: name }
        }
    }
}

} // verus!
