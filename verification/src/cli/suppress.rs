//! What to keep off the standard output.

use crate::text::copy_str;
use vstd::prelude::*;

verus! {

/// What to suppress from stdout
#[derive(Debug, PartialEq, Eq, Clone, Copy, Structural)]
pub enum Suppress {
    Nothing,
    Git,
    Cargo,
    All,
}

impl Default for Suppress {
    fn default() -> (s: Suppress)
        ensures
            s == Suppress::Nothing,
    {
        Suppress::Nothing
    }
}

impl Suppress {
    /// Returns `true` if nothing is suppressed.
    #[must_use]
    pub fn is_none(&self) -> (b: bool)
        ensures
            b == (*self == Suppress::Nothing),
    {
        matches!(self, Self::Nothing)
    }

    /// Returns `true` if the suppress is [`Suppress::Git`].
    #[must_use]
    pub fn is_git(&self) -> (b: bool)
        ensures
            b == (*self == Suppress::Git),
    {
        matches!(self, Self::Git)
    }

    /// Whether what git writes is suppressed.
    pub open spec fn spec_includes_git(&self) -> bool {
        *self == Suppress::Git || *self == Suppress::All
    }

    /// Whether what cargo writes is suppressed.
    pub open spec fn spec_includes_cargo(&self) -> bool {
        *self == Suppress::Cargo || *self == Suppress::All
    }

    /// Returns `true` if the suppress is [`Suppress::Git`] or [`Suppress::All`].
    #[must_use]
    #[verifier::when_used_as_spec(spec_includes_git)]
    pub fn includes_git(&self) -> (b: bool)
        ensures
            b == self.spec_includes_git(),
    {
        matches!(self, Self::Git | Self::All)
    }

    /// Returns `true` if the suppress is [`Suppress::Cargo`].
    #[must_use]
    pub fn is_cargo(&self) -> (b: bool)
        ensures
            b == (*self == Suppress::Cargo),
    {
        matches!(self, Self::Cargo)
    }

    /// Returns `true` if the suppress is [`Suppress::Cargo`] or [`Suppress::All`].
    #[must_use]
    #[verifier::when_used_as_spec(spec_includes_cargo)]
    pub fn includes_cargo(&self) -> (b: bool)
        ensures
            b == self.spec_includes_cargo(),
    {
        matches!(self, Self::Cargo | Self::All)
    }

    /// Returns `true` if the suppress is [`Suppress::All`].
    #[must_use]
    pub fn is_all(&self) -> (b: bool)
        ensures
            b == (*self == Suppress::All),
    {
        matches!(self, Self::All)
    }

    /// The name in lower case, as the command line writes it.
    pub fn to_string(&self) -> (s: String)
        ensures
            s@ == match *self {
                Suppress::Nothing => "none"@,
                Suppress::Git => "git"@,
                Suppress::Cargo => "cargo"@,
                Suppress::All => "all"@,
            },
    {
        match self {
            Suppress::Nothing => copy_str("none"),
            Suppress::Git => copy_str("git"),
            Suppress::Cargo => copy_str("cargo"),
            Suppress::All => copy_str("all"),
        }
    }
}

} // verus!
