//! The action that the command line asks for.

use crate::text::copy_str;
use vstd::prelude::*;

verus! {

#[derive(Debug, PartialEq, Eq, Clone, Copy, Hash, Structural)]
pub enum Action {
    /// Bump the version 1 prerelease level.
    Pre,
    /// Bump the version 1 patch level.
    Patch,
    /// Bump the version 1 minor level.
    Minor,
    /// Bump the version 1 major level.
    Major,
    /// Set the version using valid semantic versioning.
    SetVersion,
    /// Print the current version of the package.
    Print,
    /// Display the layout of the members in the workspace.
    Tree,
}

impl Default for Action {
    fn default() -> (a: Action)
        ensures
            a == Action::Print,
    {
        Action::Print
    }
}

/// The name of an action as the command line writes it.
pub open spec fn action_text(action: Action) -> Seq<char> {
    match action {
        Action::Pre => "pre"@,
        Action::Patch => "patch"@,
        Action::Minor => "minor"@,
        Action::Major => "major"@,
        Action::SetVersion => "set"@,
        Action::Print => "print"@,
        Action::Tree => "tree"@,
    }
}

impl Action {
    /// Whether the action bumps a version.
    pub open spec fn spec_is_bump(&self) -> bool {
        matches!(self, Action::Pre | Action::Patch | Action::Minor | Action::Major)
    }

    /// Whether the action bumps a version.
    #[verifier::when_used_as_spec(spec_is_bump)]
    pub fn is_bump(&self) -> (b: bool)
        ensures
            b == self.spec_is_bump(),
    {
        matches!(self, Action::Pre | Action::Patch | Action::Minor | Action::Major)
    }

    /// The name of the action in lower case.
    pub fn to_string(&self) -> (s: String)
        ensures
            s@ == action_text(*self),
    {
        match self {
            Action::Pre => copy_str("pre"),
            Action::Patch => copy_str("patch"),
            Action::Minor => copy_str("minor"),
            Action::Major => copy_str("major"),
            Action::SetVersion => copy_str("set"),
            Action::Print => copy_str("print"),
            Action::Tree => copy_str("tree"),
        }
    }
}

} // verus!
