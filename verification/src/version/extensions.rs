//! What a version, a prerelease or an identifier can be asked to do: be
//! incremented, bumped, or set.

use crate::cli::action::Action;
use crate::error::{VersionError, VersionErrorKind};
use crate::text::{chars_of, decimal_value, join, lemma_decimal_digits};
use crate::version::identifiers::{
    ident_incremented, ident_lt, lemma_ident_lt_irreflexive, IdentifierKind, IdentifierView,
};
use crate::version::pre_release::{
    identifier_texts, lemma_from_pre, lemma_pre_lt_skip, prerelease_lt, prerelease_text, Pre,
    PreBumpable, Prerelease,
};
use crate::version::semantic::{valid_version, version_lt, BuildMetadata, Version, VersionView};
use vstd::prelude::*;

verus! {

/// A value with a counter in it that can be advanced.
pub trait Incrementable: Sized {
    /// Whether the value can be advanced by `n`: it has a counter where one
    /// is needed, and the counter stays within 64 bits.
    spec fn can_increment_by(&self, n: u64) -> bool;

    /// Whether `after` is the value advanced by `n`.
    spec fn is_incremented_by(&self, n: u64, after: &Self) -> bool;

    /// Advances the value by one.
    fn increment(&mut self)
        requires
            old(self).can_increment_by(1),
        ensures
            old(self).is_incremented_by(1, final(self)),
    ;

    /// Advances the value by `n`.
    fn increment_by(&mut self, n: u64)
        requires
            old(self).can_increment_by(n),
        ensures
            old(self).is_incremented_by(n, final(self)),
    ;
}

/// The version without prerelease.
pub open spec fn without_prerelease(v: VersionView) -> VersionView {
    VersionView { pre: Seq::<IdentifierView>::empty(), ..v }
}

/// The prerelease with its last identifier advanced by one.
pub open spec fn prerelease_bumped(pre: Seq<IdentifierView>) -> Seq<IdentifierView> {
    pre.update(pre.len() - 1, ident_incremented(pre.last(), 1))
}

/// The step that each kind of bump takes, before any override.
///
/// - Patch: a version without prerelease gets the next patch number; a
///   version with one loses it and keeps its numbers.
/// - Minor, Major: the prerelease must be empty unless the bump is forced.
///   The prerelease is cleared, the number goes up by one and the numbers
///   after it become zero.
/// - Pre: there must be a prerelease and its last identifier must be
///   numeric; that identifier goes up by one.
pub open spec fn bump_step(v: VersionView, action: Action, force: bool) -> Result<
    VersionView,
    VersionErrorKind,
> {
    match action {
        Action::Patch => Ok(
            if v.pre.len() == 0 {
                VersionView { patch: v.patch + 1, ..v }
            } else {
                without_prerelease(v)
            },
        ),
        Action::Minor => if v.pre.len() > 0 && !force {
            Err(VersionErrorKind::PrereleaseNotEmpty)
        } else {
            Ok(VersionView { minor: v.minor + 1, patch: 0, ..without_prerelease(v) })
        },
        Action::Major => if v.pre.len() > 0 && !force {
            Err(VersionErrorKind::PrereleaseNotEmpty)
        } else {
            Ok(VersionView { major: v.major + 1, minor: 0, patch: 0, ..without_prerelease(v) })
        },
        Action::Pre => if v.pre.len() == 0 {
            Err(VersionErrorKind::PrereleaseNotSet)
        } else if v.pre.last().kind != IdentifierKind::Numeric {
            Err(VersionErrorKind::PrereleaseNotNumeric)
        } else {
            Ok(VersionView { pre: prerelease_bumped(v.pre), ..v })
        },
        _ => Err(VersionErrorKind::InvalidAction),
    }
}

/// Whether the number that the bump advances has room to go up by one.
pub open spec fn bump_fits(v: VersionView, action: Action) -> bool {
    match action {
        Action::Patch => v.pre.len() == 0 ==> v.patch < u64::MAX,
        Action::Minor => v.minor < u64::MAX,
        Action::Major => v.major < u64::MAX,
        Action::Pre => v.pre.len() > 0 && v.pre.last().kind == IdentifierKind::Numeric
            ==> decimal_value(v.pre.last().ident) < u64::MAX,
        _ => true,
    }
}

/// The step of the bump, followed by the overrides: a given prerelease takes
/// the place of the prerelease, except after a prerelease bump, and given
/// build metadata takes the place of the build metadata.
pub open spec fn bump_candidate(
    v: VersionView,
    action: Action,
    pre_release: Option<Seq<IdentifierView>>,
    build: Option<Seq<char>>,
    force: bool,
) -> Result<VersionView, VersionErrorKind> {
    match bump_step(v, action, force) {
        Err(e) => Err(e),
        Ok(stepped) => {
            let with_pre = if action != Action::Pre && pre_release is Some {
                VersionView { pre: pre_release->0, ..stepped }
            } else {
                stepped
            };
            Ok(
                if build is Some {
                    VersionView { build: build->0, ..with_pre }
                } else {
                    with_pre
                },
            )
        },
    }
}

/// What a bump gives: the candidate, which must come after the version
/// unless the bump is forced.
pub open spec fn bump_result(
    v: VersionView,
    action: Action,
    pre_release: Option<Seq<IdentifierView>>,
    build: Option<Seq<char>>,
    force: bool,
) -> Result<VersionView, VersionErrorKind> {
    match bump_candidate(v, action, pre_release, build, force) {
        Err(e) => Err(e),
        Ok(candidate) => if !force && !version_lt(v, candidate) {
            Err(VersionErrorKind::NotGreater)
        } else {
            Ok(candidate)
        },
    }
}

/// The step of every bump leads to a version that comes after the one it
/// started from.
pub proof fn lemma_bump_step_increases(v: VersionView, action: Action, force: bool)
    requires
        valid_version(v),
        bump_step(v, action, force) is Ok,
    ensures
        version_lt(v, bump_step(v, action, force)->Ok_0),
{
    if action == Action::Pre {
        let pre = v.pre;
        let last = pre.len() - 1;
        let bumped = prerelease_bumped(pre);
        lemma_ident_incremented_numeric(pre.last());
        assert forall|j: int| 0 <= j < last implies !ident_lt(pre[j], bumped[j]) && !ident_lt(
            bumped[j],
            pre[j],
        ) by {
            lemma_ident_lt_irreflexive(pre[j]);
        }
        lemma_pre_lt_skip(pre, bumped, last);
        assert(pre.skip(last)[0] == pre.last());
        assert(bumped.skip(last)[0] == bumped.last());
        assert(pre.skip(last).drop_first().len() == 0);
        assert(bumped.skip(last).drop_first().len() == 0);
    }
}

/// A numeric identifier advanced by one comes after what it was.
pub proof fn lemma_ident_incremented_numeric(v: IdentifierView)
    requires
        v.kind == IdentifierKind::Numeric,
    ensures
        ident_lt(v, ident_incremented(v, 1)),
{
    lemma_decimal_digits((decimal_value(v.ident) + 1) as nat);
}

/// Every bump that is not forced and succeeds gives a version that comes
/// strictly after the version it was asked of.
pub proof fn lemma_bump_increases(
    v: VersionView,
    action: Action,
    pre_release: Option<Seq<IdentifierView>>,
    build: Option<Seq<char>>,
)
    requires
        valid_version(v),
        bump_result(v, action, pre_release, build, false) is Ok,
    ensures
        version_lt(v, bump_result(v, action, pre_release, build, false)->Ok_0),
{
}

/// Without a prerelease override, and always for a minor, a major and a
/// prerelease bump, the candidate comes after the version: the check that
/// guards a bump that is not forced cannot fail. It can fail only for a patch
/// bump of a version with a prerelease, where the override does not come
/// after that prerelease.
pub proof fn lemma_bump_not_greater(
    v: VersionView,
    action: Action,
    pre_release: Option<Seq<IdentifierView>>,
    build: Option<Seq<char>>,
    force: bool,
)
    requires
        valid_version(v),
        bump_result(v, action, pre_release, build, force) == Err::<VersionView, VersionErrorKind>(
            VersionErrorKind::NotGreater,
        ),
    ensures
        !force,
        action == Action::Patch,
        v.pre.len() > 0,
        pre_release matches Some(p) && !prerelease_lt(v.pre, p),
{
    lemma_bump_step_increases(v, action, force);
}

/// A version that can be bumped.
pub trait Bumpable: Sized {
    /// The version that the value holds.
    spec fn version_view(&self) -> VersionView;

    /// Used to bump the version then set the [`Prerelease`] and
    /// [`BuildMetadata`]. On success the value holds the new version, which
    /// is also returned; on failure the value is left as it was.
    fn bump(
        &mut self,
        action: Action,
        pre_release: Option<Prerelease>,
        build: Option<BuildMetadata>,
        force_version: bool,
    ) -> (r: Result<Version, VersionError>)
        requires
            bump_fits(old(self).version_view(), action),
        ensures
            match bump_result(
                old(self).version_view(),
                action,
                option_prerelease_view(pre_release),
                option_build_view(build),
                force_version,
            ) {
                Ok(v) => r matches Ok(got) && got@ == v && final(self).version_view() == v,
                Err(kind) => r matches Err(e) && e.kind == kind && e.bump == action
                    && e.old_version@ == old(self).version_view() && final(self).version_view()
                    == old(self).version_view(),
            },
    ;

    fn try_bump_pre(&mut self, force: bool) -> (r: Result<Version, VersionError>)
        requires
            bump_fits(old(self).version_view(), Action::Pre),
        ensures
            match bump_step(old(self).version_view(), Action::Pre, force) {
                Ok(v) => r matches Ok(got) && got@ == v && final(self).version_view() == v,
                Err(kind) => r matches Err(e) && e.kind == kind && e.bump == Action::Pre
                    && e.old_version@ == old(self).version_view() && final(self).version_view()
                    == old(self).version_view(),
            },
            bump_step(old(self).version_view(), Action::Pre, force) == Err::<
                VersionView,
                VersionErrorKind,
            >(VersionErrorKind::PrereleaseNotNumeric) ==> (r matches Err(e) && e.label == Some(
                last_field_span(old(self).version_view().pre),
            )),
    ;

    fn try_bump_patch(&mut self) -> (r: Result<Version, VersionError>)
        requires
            bump_fits(old(self).version_view(), Action::Patch),
        ensures
            r matches Ok(got) && Ok::<VersionView, VersionErrorKind>(got@) == bump_step(
                old(self).version_view(),
                Action::Patch,
                false,
            ) && final(self).version_view() == got@,
    ;

    fn try_bump_minor(&mut self, force: bool) -> (r: Result<Version, VersionError>)
        requires
            bump_fits(old(self).version_view(), Action::Minor),
        ensures
            match bump_step(old(self).version_view(), Action::Minor, force) {
                Ok(v) => r matches Ok(got) && got@ == v && final(self).version_view() == v,
                Err(kind) => r matches Err(e) && e.kind == kind && e.bump == Action::Minor
                    && e.old_version@ == old(self).version_view() && final(self).version_view()
                    == old(self).version_view(),
            },
    ;

    fn try_bump_major(&mut self, force: bool) -> (r: Result<Version, VersionError>)
        requires
            bump_fits(old(self).version_view(), Action::Major),
        ensures
            match bump_step(old(self).version_view(), Action::Major, force) {
                Ok(v) => r matches Ok(got) && got@ == v && final(self).version_view() == v,
                Err(kind) => r matches Err(e) && e.kind == kind && e.bump == Action::Major
                    && e.old_version@ == old(self).version_view() && final(self).version_view()
                    == old(self).version_view(),
            },
    ;
}

/// The identifiers of a prerelease that may be absent.
pub open spec fn option_prerelease_view(pre_release: Option<Prerelease>) -> Option<
    Seq<IdentifierView>,
> {
    match pre_release {
        Some(p) => Some(p@),
        None => None,
    }
}

/// The text of build metadata that may be absent.
pub open spec fn option_build_view(build: Option<BuildMetadata>) -> Option<Seq<char>> {
    match build {
        Some(b) => Some(b@),
        None => None,
    }
}

/// Where the last identifier stands in the text of a prerelease: the place of
/// its first character, and how many characters it has.
pub open spec fn last_field_span(pre: Seq<IdentifierView>) -> (usize, usize) {
    (
        (prerelease_text(pre).len() - pre.last().ident.len()) as usize,
        pre.last().ident.len() as usize,
    )
}

impl Bumpable for Version {
    open spec fn version_view(&self) -> VersionView {
        self@
    }

    fn bump(
        &mut self,
        action: Action,
        pre_release: Option<Prerelease>,
        build: Option<BuildMetadata>,
        force_version: bool,
    ) -> (r: Result<Version, VersionError>) {
        let old_version = self.clone();
        let mut candidate = self.clone();
        let stepped = match action {
            Action::Patch => candidate.try_bump_patch(),
            Action::Minor => candidate.try_bump_minor(force_version),
            Action::Major => candidate.try_bump_major(force_version),
            Action::Pre => candidate.try_bump_pre(force_version),
            _ => Err(VersionError::new(VersionErrorKind::InvalidAction, &old_version, action)),
        };
        match stepped {
            Err(e) => {
                return Err(e);
            },
            Ok(_) => {},
        }
        if action != Action::Pre {
            if let Some(pre) = pre_release {
                candidate.pre = pre;
            }
        }
        if let Some(build) = build {
            candidate.build = build;
        }
        if !force_version && !old_version.precedes(&candidate) {
            return Err(VersionError::new(VersionErrorKind::NotGreater, &old_version, action));
        }
        *self = candidate.clone();
        Ok(candidate)
    }

    fn try_bump_patch(&mut self) -> (r: Result<Version, VersionError>) {
        if self.pre.is_empty() {
            self.patch += 1;
        } else {
            self.pre = Prerelease::empty();
        }
        Ok(self.clone())
    }

    fn try_bump_minor(&mut self, force: bool) -> (r: Result<Version, VersionError>) {
        if !self.pre.is_empty() && !force {
            return Err(VersionError::prerelease_not_empty(self, Action::Minor));
        }
        self.pre = Prerelease::empty();
        self.minor += 1;
        self.patch = 0;
        Ok(self.clone())
    }

    fn try_bump_major(&mut self, force: bool) -> (r: Result<Version, VersionError>) {
        if !self.pre.is_empty() && !force {
            return Err(VersionError::prerelease_not_empty(self, Action::Major));
        }
        self.pre = Prerelease::empty();
        self.major += 1;
        self.minor = 0;
        self.patch = 0;
        Ok(self.clone())
    }

    /// The prerelease must end in a number: `alpha.2` becomes `alpha.3`.
    fn try_bump_pre(&mut self, force: bool) -> (r: Result<Version, VersionError>) {
        if self.pre.is_empty() {
            return Err(VersionError::prerelease_not_set(self));
        }
        let list = self.pre.as_ref();
        let last = &list[list.len() - 1];
        assert(last@ == self@.pre.last());
        if !last.is_numeric() {
            let text = self.pre.to_string();
            let whole = chars_of(text.as_str()).len();
            let field = chars_of(last.as_str()).len();
            proof {
                lemma_last_field_fits(self@.pre);
            }
            return Err(VersionError::prerelease_not_numeric(self, whole - field, field));
        }
        match Pre::<PreBumpable>::try_from_prerelease(&self.pre) {
            Ok(mut pre) => {
                pre.increment();
                proof {
                    lemma_from_pre(pre);
                }
                self.pre = Prerelease::from(pre);
                Ok(self.clone())
            },
            Err(_) => Err(VersionError::prerelease_not_set(self)),
        }
    }
}

/// The text of a prerelease with identifiers is at least as long as its last
/// identifier.
pub proof fn lemma_last_field_fits(pre: Seq<IdentifierView>)
    requires
        pre.len() > 0,
    ensures
        prerelease_text(pre).len() >= pre.last().ident.len(),
{
    let texts = identifier_texts(pre);
    assert(texts.last() == pre.last().ident);
    if texts.len() > 1 {
        assert(join(texts, '.') == join(texts.drop_last(), '.').push('.') + texts.last());
    }
}

/// A version that can be set.
pub trait Setable: Sized {
    /// The version that the value holds.
    spec fn held_version(&self) -> VersionView;

    /// Makes the value hold `new_version`, which is also returned.
    fn set_version(&mut self, new_version: Version) -> (r: Result<Version, VersionError>)
        ensures
            r matches Ok(v) && v@ == new_version@,
            final(self).held_version() == new_version@,
    ;

    /// Gives the value the prerelease `new_prerelease` and returns the
    /// version it then holds.
    fn set_prerelease(&mut self, new_prerelease: Prerelease) -> (r: Result<Version, VersionError>)
        ensures
            r matches Ok(v) && v@ == final(self).held_version(),
            final(self).held_version() == (VersionView {
                pre: new_prerelease@,
                ..old(self).held_version()
            }),
    ;
}

impl Setable for Version {
    open spec fn held_version(&self) -> VersionView {
        self@
    }

    fn set_version(&mut self, new_version: Version) -> (r: Result<Version, VersionError>) {
        self.build = new_version.build.clone();
        self.pre = new_version.pre.clone();
        self.patch = new_version.patch;
        self.minor = new_version.minor;
        self.major = new_version.major;
        Ok(self.clone())
    }

    fn set_prerelease(&mut self, new_prerelease: Prerelease) -> (r: Result<Version, VersionError>) {
        self.pre = new_prerelease;
        Ok(self.clone())
    }
}

/// What a bump gives where it is asked of any version: a version whose number
/// has no room to go up fails, every other version is bumped.
pub open spec fn checked_bump_result(
    v: VersionView,
    action: Action,
    pre_release: Option<Seq<IdentifierView>>,
    build: Option<Seq<char>>,
    force: bool,
) -> Result<VersionView, VersionErrorKind> {
    if !bump_fits(v, action) {
        Err(VersionErrorKind::Overflow)
    } else {
        bump_result(v, action, pre_release, build, force)
    }
}

impl Version {
    /// Whether the number that the bump advances has room to go up by one.
    pub fn bump_fits(&self, action: Action) -> (b: bool)
        ensures
            b == bump_fits(self@, action),
    {
        match action {
            Action::Patch => !self.pre.is_empty() || self.patch < u64::MAX,
            Action::Minor => self.minor < u64::MAX,
            Action::Major => self.major < u64::MAX,
            Action::Pre => {
                let list = self.pre.as_ref();
                if list.len() == 0 {
                    true
                } else {
                    let last = &list[list.len() - 1];
                    assert(last@ == self@.pre.last());
                    match last.as_numeric() {
                        Some(n) => n < u64::MAX,
                        None => true,
                    }
                }
            },
            _ => true,
        }
    }

    /// Bumps the version as [`Bumpable::bump`] does, and fails with
    /// [`VersionErrorKind::Overflow`] where the number to advance has no room
    /// to go up.
    pub fn checked_bump(
        &mut self,
        action: Action,
        pre_release: Option<Prerelease>,
        build: Option<BuildMetadata>,
        force_version: bool,
    ) -> (r: Result<Version, VersionError>)
        ensures
            match checked_bump_result(
                old(self)@,
                action,
                option_prerelease_view(pre_release),
                option_build_view(build),
                force_version,
            ) {
                Ok(v) => r matches Ok(got) && got@ == v && final(self)@ == v,
                Err(kind) => r matches Err(e) && e.kind == kind && e.bump == action
                    && e.old_version@ == old(self)@ && final(self)@ == old(self)@,
            },
    {
        if !self.bump_fits(action) {
            return Err(VersionError::new(VersionErrorKind::Overflow, self, action));
        }
        self.bump(action, pre_release, build, force_version)
    }
}

} // verus!
