//! ## Semantic Versioning Prerelease
//!
//! - A pre-release version MAY be denoted by appending a hyphen and a series
//!   of dot separated identifiers immediately following the patch version.
//! - Identifiers MUST comprise only ASCII alphanumerics and hyphens
//!   `[0-9A-Za-z-]`.
//! - Identifiers MUST NOT be empty.
//!
//! Precedence for two pre-release versions with the same major, minor, and
//! patch version is determined by comparing each dot separated identifier
//! from left to right until a difference is found. A larger set of
//! pre-release fields has a higher precedence than a smaller set, if all of
//! the preceding identifiers are equal.
//!
//! Example: 1.0.0-alpha < 1.0.0-alpha.1 < 1.0.0-alpha.beta < 1.0.0-beta <
//! 1.0.0-beta.2 < 1.0.0-beta.11 < 1.0.0-rc.1 < 1.0.0

use crate::text::{chars_of, join, lemma_split, split, split_chars, string_of};
use crate::version::extensions::Incrementable;
use crate::version::identifiers::{
    ident_can_increment, ident_incremented, ident_lt, lemma_ident_incremented,
    lemma_ident_lt_asymmetric, lemma_ident_lt_irreflexive, lemma_ident_lt_same,
    lemma_ident_lt_transitive, lemma_ident_same_transitive, lemma_parse_identifier,
    parse_identifier, valid_identifier, Identifier, IdentifierError, IdentifierView,
};
use std::marker::PhantomData;
use vstd::prelude::*;
use vstd::std_specs::cmp::PartialEqSpecImpl;
use vstd::std_specs::convert::{FromSpec, FromSpecImpl};

verus! {

/// The identifiers of a list, as mathematical values.
pub open spec fn identifiers_view(list: Seq<Identifier>) -> Seq<IdentifierView> {
    list.map_values(|id: Identifier| id@)
}

/// Every identifier of the list keeps the invariant of identifiers.
pub open spec fn all_valid_identifiers(list: Seq<IdentifierView>) -> bool {
    forall|i: int| 0 <= i < list.len() ==> valid_identifier(#[trigger] list[i])
}

/// The texts of the identifiers of a list.
pub open spec fn identifier_texts(list: Seq<IdentifierView>) -> Seq<Seq<char>> {
    list.map_values(|id: IdentifierView| id.ident)
}

/// How a list of identifiers is written: the texts with a dot between two of
/// them.
pub open spec fn prerelease_text(list: Seq<IdentifierView>) -> Seq<char> {
    join(identifier_texts(list), '.')
}

/// What reading each field as an identifier gives: the identifiers in order,
/// or the error of the first field that is none.
pub open spec fn parse_fields(fields: Seq<Seq<char>>) -> Result<Seq<IdentifierView>, IdentifierError>
    decreases fields.len(),
{
    if fields.len() == 0 {
        Ok(Seq::<IdentifierView>::empty())
    } else {
        match parse_fields(fields.drop_last()) {
            Err(e) => Err(e),
            Ok(ids) => match parse_identifier(fields.last()) {
                Err(e) => Err(e),
                Ok(id) => Ok(ids.push(id)),
            },
        }
    }
}

/// What reading `text` as dot-separated identifiers gives.
pub open spec fn parse_prerelease(text: Seq<char>) -> Result<Seq<IdentifierView>, IdentifierError> {
    parse_fields(split(text, '.'))
}

/// The identifiers read from fields are valid, as many as the fields, and
/// their texts are the fields.
pub proof fn lemma_parse_fields(fields: Seq<Seq<char>>)
    ensures
        parse_fields(fields) matches Ok(ids) ==> {
            &&& all_valid_identifiers(ids)
            &&& ids.len() == fields.len()
            &&& identifier_texts(ids) == fields
        },
    decreases fields.len(),
{
    if fields.len() > 0 {
        lemma_parse_fields(fields.drop_last());
        lemma_parse_identifier(fields.last());
        if let Ok(ids) = parse_fields(fields) {
            let before = parse_fields(fields.drop_last())->Ok_0;
            let id = parse_identifier(fields.last())->Ok_0;
            assert(ids == before.push(id));
            assert(identifier_texts(ids) == identifier_texts(before).push(id.ident));
            assert(fields == fields.drop_last().push(fields.last()));
        }
    } else {
        assert(identifier_texts(Seq::<IdentifierView>::empty()) == fields);
    }
}

/// A prerelease that was read from a text has at least one identifier, all
/// of them valid, and is written as that text.
pub proof fn lemma_parse_prerelease(text: Seq<char>)
    ensures
        parse_prerelease(text) matches Ok(ids) ==> {
            &&& all_valid_identifiers(ids)
            &&& ids.len() >= 1
            &&& prerelease_text(ids) == text
        },
{
    lemma_split(text, '.');
    lemma_parse_fields(split(text, '.'));
}

/// Precedence among prereleases with at least one identifier: the first
/// identifiers that differ decide, and where one list is the start of the
/// other, the shorter comes first.
pub open spec fn pre_lt(a: Seq<IdentifierView>, b: Seq<IdentifierView>) -> bool
    decreases a.len(),
{
    if b.len() == 0 {
        false
    } else if a.len() == 0 {
        true
    } else if ident_lt(a[0], b[0]) {
        true
    } else if ident_lt(b[0], a[0]) {
        false
    } else {
        pre_lt(a.drop_first(), b.drop_first())
    }
}

/// No prerelease comes before itself.
pub proof fn lemma_pre_lt_irreflexive(a: Seq<IdentifierView>)
    ensures
        !pre_lt(a, a),
    decreases a.len(),
{
    if a.len() > 0 {
        lemma_ident_lt_irreflexive(a[0]);
        lemma_pre_lt_irreflexive(a.drop_first());
    }
}

/// Of two prereleases at most one comes before the other.
pub proof fn lemma_pre_lt_asymmetric(a: Seq<IdentifierView>, b: Seq<IdentifierView>)
    ensures
        !(pre_lt(a, b) && pre_lt(b, a)),
    decreases a.len(),
{
    if a.len() > 0 && b.len() > 0 {
        lemma_ident_lt_asymmetric(a[0], b[0]);
        lemma_pre_lt_asymmetric(a.drop_first(), b.drop_first());
    }
}

/// Precedence among prereleases is transitive.
pub proof fn lemma_pre_lt_transitive(
    a: Seq<IdentifierView>,
    b: Seq<IdentifierView>,
    c: Seq<IdentifierView>,
)
    requires
        pre_lt(a, b),
        pre_lt(b, c),
    ensures
        pre_lt(a, c),
    decreases a.len(),
{
    if a.len() > 0 && b.len() > 0 && c.len() > 0 {
        if ident_lt(a[0], b[0]) {
            if ident_lt(b[0], c[0]) {
                lemma_ident_lt_transitive(a[0], b[0], c[0]);
            } else {
                lemma_ident_lt_same(a[0], b[0], c[0]);
            }
        } else if ident_lt(b[0], c[0]) {
            lemma_ident_lt_same(a[0], b[0], c[0]);
        } else {
            lemma_ident_same_transitive(a[0], b[0], c[0]);
            lemma_pre_lt_transitive(a.drop_first(), b.drop_first(), c.drop_first());
        }
    }
}

/// Prereleases that agree on their first `i` identifiers are ordered as what
/// follows those identifiers.
pub proof fn lemma_pre_lt_skip(a: Seq<IdentifierView>, b: Seq<IdentifierView>, i: int)
    requires
        0 <= i <= a.len(),
        i <= b.len(),
        forall|j: int| 0 <= j < i ==> !ident_lt(a[j], b[j]) && !ident_lt(b[j], a[j]),
    ensures
        pre_lt(a, b) == pre_lt(a.skip(i), b.skip(i)),
    decreases i,
{
    if i == 0 {
        assert(a.skip(0) == a);
        assert(b.skip(0) == b);
    } else {
        let a1 = a.drop_first();
        let b1 = b.drop_first();
        assert(!ident_lt(a[0], b[0]) && !ident_lt(b[0], a[0]));
        assert forall|j: int| 0 <= j < i - 1 implies !ident_lt(a1[j], b1[j]) && !ident_lt(
            b1[j],
            a1[j],
        ) by {
            assert(a1[j] == a[j + 1]);
            assert(b1[j] == b[j + 1]);
        }
        lemma_pre_lt_skip(a1, b1, i - 1);
        assert(a1.skip(i - 1) == a.skip(i));
        assert(b1.skip(i - 1) == b.skip(i));
    }
}

/// A prerelease comes before every longer one that starts with it: `1`
/// comes before `1.0`.
pub proof fn lemma_pre_lt_prefix(a: Seq<IdentifierView>, b: Seq<IdentifierView>)
    requires
        a.len() < b.len(),
        a == b.take(a.len() as int),
    ensures
        pre_lt(a, b),
        !pre_lt(b, a),
{
    assert forall|j: int| 0 <= j < a.len() implies !ident_lt(a[j], b[j]) && !ident_lt(
        b[j],
        a[j],
    ) by {
        assert(a[j] == b[j]);
        lemma_ident_lt_irreflexive(a[j]);
    }
    lemma_pre_lt_skip(a, b, a.len() as int);
    assert(a.skip(a.len() as int).len() == 0);
    assert(b.skip(a.len() as int).len() > 0);
    lemma_pre_lt_asymmetric(a, b);
}

/// Reads dot-separated identifiers.
pub fn parse_identifier_list(text: &str) -> (r: Result<Vec<Identifier>, IdentifierError>)
    ensures
        r matches Ok(list) ==> parse_prerelease(text@) == Ok::<
            Seq<IdentifierView>,
            IdentifierError,
        >(identifiers_view(list@)) && all_valid_identifiers(identifiers_view(list@)) && list.len()
            >= 1,
        r matches Err(e) ==> parse_prerelease(text@) == Err::<Seq<IdentifierView>, IdentifierError>(
            e,
        ),
{
    let chars = chars_of(text);
    let fields = split_chars(&chars, '.');
    let ghost texts = fields@.map_values(|f: Vec<char>| f@);
    let mut list: Vec<Identifier> = Vec::new();
    let mut i: usize = 0;
    assert(texts.take(0) == Seq::<Seq<char>>::empty());
    assert(identifiers_view(list@) == Seq::<IdentifierView>::empty());
    while i < fields.len()
        invariant
            i <= fields.len(),
            texts == fields@.map_values(|f: Vec<char>| f@),
            texts == split(text@, '.'),
            parse_fields(texts.take(i as int)) == Ok::<Seq<IdentifierView>, IdentifierError>(
                identifiers_view(list@),
            ),
            list.len() == i,
        decreases fields.len() - i,
    {
        let field = string_of(&fields[i]);
        proof {
            assert(texts.take(i + 1).drop_last() == texts.take(i as int));
            assert(texts.take(i + 1).last() == field@);
        }
        match Identifier::from_str(field.as_str()) {
            Ok(id) => {
                let ghost before = identifiers_view(list@);
                list.push(id);
                assert(identifiers_view(list@) == before.push(id@));
            },
            Err(e) => {
                proof {
                    lemma_parse_fields_error(texts, i + 1);
                }
                return Err(e);
            },
        }
        i += 1;
    }
    proof {
        assert(texts.take(fields.len() as int) == texts);
        lemma_parse_fields(texts);
    }
    Ok(list)
}

/// Where reading the first `k` fields fails, reading all of them fails in
/// the same way.
pub proof fn lemma_parse_fields_error(fields: Seq<Seq<char>>, k: int)
    requires
        0 <= k <= fields.len(),
        parse_fields(fields.take(k)) is Err,
    ensures
        parse_fields(fields) == parse_fields(fields.take(k)),
    decreases fields.len(),
{
    if k == fields.len() {
        assert(fields.take(k) == fields);
    } else {
        assert(fields.drop_last().take(k) == fields.take(k));
        lemma_parse_fields_error(fields.drop_last(), k);
    }
}

/// Writes a list of identifiers with a dot between two of them.
pub fn identifier_list_text(list: &Vec<Identifier>) -> (s: String)
    ensures
        s@ == prerelease_text(identifiers_view(list@)),
{
    let ghost texts = identifier_texts(identifiers_view(list@));
    let mut out: Vec<char> = Vec::new();
    let mut i: usize = 0;
    assert(texts.take(0).len() == 0);
    while i < list.len()
        invariant
            i <= list.len(),
            texts == identifier_texts(identifiers_view(list@)),
            out@ == join(texts.take(i as int), '.'),
        decreases list.len() - i,
    {
        if i > 0 {
            out.push('.');
        }
        let field = chars_of(list[i].as_str());
        let ghost before = out@;
        let mut j: usize = 0;
        while j < field.len()
            invariant
                j <= field.len(),
                out@ == before + field@.take(j as int),
            decreases field.len() - j,
        {
            out.push(field[j]);
            assert(field@.take(j + 1) == field@.take(j as int).push(field@[j as int]));
            j += 1;
        }
        proof {
            assert(field@.take(field.len() as int) == field@);
            let now = texts.take(i + 1);
            assert(now.drop_last() == texts.take(i as int));
            assert(now.last() == field@);
            if i == 0 {
                assert(now.len() == 1);
                assert(before == Seq::<char>::empty());
                assert(out@ == field@);
            }
        }
        i += 1;
    }
    assert(texts.take(list.len() as int) == texts);
    string_of(&out)
}

/// A copy of a list of identifiers.
pub fn clone_identifier_list(list: &Vec<Identifier>) -> (r: Vec<Identifier>)
    ensures
        r@ == list@,
{
    let mut r: Vec<Identifier> = Vec::new();
    let mut i: usize = 0;
    while i < list.len()
        invariant
            i <= list.len(),
            r@ == list@.take(i as int),
        decreases list.len() - i,
    {
        r.push(list[i].clone());
        assert(list@.take(i + 1) == list@.take(i as int).push(list@[i as int]));
        i += 1;
    }
    assert(list@.take(list.len() as int) == list@);
    r
}

/// Whether two lists hold the same identifiers in the same order.
pub fn identifier_lists_equal(a: &Vec<Identifier>, b: &Vec<Identifier>) -> (r: bool)
    ensures
        r == (identifiers_view(a@) == identifiers_view(b@)),
{
    if a.len() != b.len() {
        assert(identifiers_view(a@).len() != identifiers_view(b@).len());
        return false;
    }
    let mut i: usize = 0;
    while i < a.len()
        invariant
            i <= a.len(),
            a.len() == b.len(),
            forall|j: int| 0 <= j < i ==> a@[j]@ == b@[j]@,
        decreases a.len() - i,
    {
        if !(a[i] == b[i]) {
            assert(identifiers_view(a@)[i as int] == a@[i as int]@);
            assert(identifiers_view(b@)[i as int] == b@[i as int]@);
            return false;
        }
        i += 1;
    }
    assert(identifiers_view(a@) =~= identifiers_view(b@));
    true
}

/// Whether list `a` comes strictly before list `b`.
pub fn identifier_list_precedes(a: &Vec<Identifier>, b: &Vec<Identifier>) -> (r: bool)
    ensures
        r == pre_lt(identifiers_view(a@), identifiers_view(b@)),
{
    let ghost av = identifiers_view(a@);
    let ghost bv = identifiers_view(b@);
    let mut i: usize = 0;
    while i < a.len() && i < b.len()
        invariant
            i <= a.len(),
            i <= b.len(),
            av == identifiers_view(a@),
            bv == identifiers_view(b@),
            forall|j: int| 0 <= j < i ==> !ident_lt(av[j], bv[j]) && !ident_lt(bv[j], av[j]),
        decreases a.len() - i,
    {
        proof {
            lemma_pre_lt_skip(av, bv, i as int);
            assert(av.skip(i as int)[0] == av[i as int]);
            assert(bv.skip(i as int)[0] == bv[i as int]);
        }
        if a[i].precedes(&b[i]) {
            return true;
        }
        if b[i].precedes(&a[i]) {
            return false;
        }
        i += 1;
    }
    proof {
        lemma_pre_lt_skip(av, bv, i as int);
    }
    i < b.len()
}

#[derive(Debug, Clone, Copy, Eq, PartialEq, Hash)]
/// Prerelease able to be Bumped.
pub struct PreBumpable;

#[derive(Debug, Clone, Copy, Eq, PartialEq, Hash)]
/// Unable to be bumped or incremented.
pub struct PreStatic;

#[derive(Debug, Hash)]
/// Enable prerelease bumping
pub struct Pre<PreType> {
    prerelease: Vec<Identifier>,
    _type: PhantomData<PreType>,
}

#[derive(Debug, PartialEq, Eq, Structural)]
pub enum PreError {
    /// No field at the index.
    NoField(usize),
}

impl Clone for PreError {
    fn clone(&self) -> (r: Self)
        ensures
            r == *self,
    {
        match self {
            PreError::NoField(n) => PreError::NoField(*n),
        }
    }
}

impl<PreType> View for Pre<PreType> {
    type V = Seq<IdentifierView>;

    closed spec fn view(&self) -> Seq<IdentifierView> {
        identifiers_view(self.prerelease@)
    }
}

impl<PreType> Clone for Pre<PreType> {
    fn clone(&self) -> (r: Self)
        ensures
            r@ == self@,
    {
        proof {
            use_type_invariant(self);
        }
        Pre { prerelease: clone_identifier_list(&self.prerelease), _type: PhantomData }
    }
}

impl<PreType> PartialEq for Pre<PreType> {
    fn eq(&self, other: &Self) -> (r: bool) {
        identifier_lists_equal(&self.prerelease, &other.prerelease)
    }
}

impl<PreType> Eq for Pre<PreType> {

}

impl<PreType> PartialEqSpecImpl for Pre<PreType> {
    open spec fn obeys_eq_spec() -> bool {
        true
    }

    open spec fn eq_spec(&self, other: &Self) -> bool {
        self@ == other@
    }
}

impl<PreType> Pre<PreType> {
    /// The invariant of a prerelease of this kind: it has at least one
    /// identifier, and every identifier is a valid one.
    #[verifier::type_invariant]
    pub open spec fn wf(&self) -> bool {
        self@.len() >= 1 && all_valid_identifiers(self@)
    }

    /// Reads a prerelease: identifiers with a dot between two of them, at
    /// least one. Fails with the error of the first field that is no
    /// identifier.
    pub fn new(pre: &str) -> (r: Result<Pre<PreType>, IdentifierError>)
        ensures
            r matches Ok(p) ==> parse_prerelease(pre@) == Ok::<
                Seq<IdentifierView>,
                IdentifierError,
            >(p@) && p.wf(),
            r matches Err(e) ==> parse_prerelease(pre@) == Err::<
                Seq<IdentifierView>,
                IdentifierError,
            >(e),
    {
        match parse_identifier_list(pre) {
            Ok(prerelease) => Ok(Pre { prerelease, _type: PhantomData }),
            Err(e) => Err(e),
        }
    }

    /// The identifiers, in order.
    pub fn as_ref(&self) -> (list: &Vec<Identifier>)
        ensures
            identifiers_view(list@) == self@,
            all_valid_identifiers(self@),
            list.len() >= 1,
    {
        proof {
            use_type_invariant(self);
        }
        &self.prerelease
    }

    /// A prerelease made of the given identifiers, which are at least one.
    pub fn from_identifiers(prerelease: Vec<Identifier>) -> (r: Pre<PreType>)
        requires
            prerelease.len() >= 1,
            all_valid_identifiers(identifiers_view(prerelease@)),
        ensures
            r@ == identifiers_view(prerelease@),
    {
        Pre { prerelease, _type: PhantomData }
    }

    /// How many identifiers the prerelease has.
    pub fn len(&self) -> (n: usize)
        ensures
            n == self@.len(),
            n >= 1,
    {
        proof {
            use_type_invariant(self);
        }
        self.prerelease.len()
    }

    /// The prerelease as it is written after the hyphen of a version.
    pub fn to_string(&self) -> (s: String)
        ensures
            s@ == prerelease_text(self@),
    {
        identifier_list_text(&self.prerelease)
    }
}

impl Pre<PreStatic> {
    #[must_use]
    pub fn is_bumpable(&self) -> (b: bool)
        ensures
            !b,
    {
        false
    }

    #[must_use]
    pub fn is_static(&self) -> (b: bool)
        ensures
            b,
    {
        !self.is_bumpable()
    }
}

impl Pre<PreBumpable> {
    #[must_use]
    pub fn is_bumpable(&self) -> (b: bool)
        ensures
            b,
    {
        true
    }

    #[must_use]
    pub fn is_static(&self) -> (b: bool)
        ensures
            !b,
    {
        !self.is_bumpable()
    }
}

impl Incrementable for Pre<PreBumpable> {
    /// The last identifier is the counter.
    open spec fn can_increment_by(&self, n: u64) -> bool {
        self@.len() >= 1 && ident_can_increment(self@.last(), n)
    }

    open spec fn is_incremented_by(&self, n: u64, after: &Self) -> bool {
        after@ == self@.update(self@.len() - 1, ident_incremented(self@.last(), n))
    }

    /// Increment the last field by 1.
    fn increment(&mut self) {
        let last = self.len() - 1;
        let _ = self.increment_field(last);
    }

    /// Increment the last field by `m`.
    fn increment_by(&mut self, m: u64) {
        let last = self.len() - 1;
        let _ = self.increment_field_by(last, m);
    }
}

impl Pre<PreBumpable> {
    /// Increment field `n` by 1 value.
    pub fn increment_field(&mut self, n: usize) -> (r: Result<(), PreError>)
        requires
            n < old(self)@.len() ==> ident_can_increment(old(self)@[n as int], 1),
        ensures
            n < old(self)@.len() ==> r is Ok && final(self)@ == old(self)@.update(
                n as int,
                ident_incremented(old(self)@[n as int], 1),
            ),
            n >= old(self)@.len() ==> r == Err::<(), PreError>(PreError::NoField(n)),
            n >= old(self)@.len() ==> final(self)@ == old(self)@,
    {
        self.increment_field_by(n, 1)
    }

    /// Increment field `n` by `m` values.
    pub fn increment_field_by(&mut self, n: usize, m: u64) -> (r: Result<(), PreError>)
        requires
            n < old(self)@.len() ==> ident_can_increment(old(self)@[n as int], m),
        ensures
            n < old(self)@.len() ==> r is Ok && final(self)@ == old(self)@.update(
                n as int,
                ident_incremented(old(self)@[n as int], m),
            ),
            n >= old(self)@.len() ==> r == Err::<(), PreError>(PreError::NoField(n)),
            n >= old(self)@.len() ==> final(self)@ == old(self)@,
    {
        proof {
            use_type_invariant(&*self);
        }
        if n < self.prerelease.len() {
            let mut field = self.prerelease[n].clone();
            field.increment_by(m);
            proof {
                lemma_ident_incremented(old(self)@[n as int], m);
            }
            let mut list = clone_identifier_list(&self.prerelease);
            let ghost before = identifiers_view(list@);
            list.set(n, field);
            assert(identifiers_view(list@) == before.update(n as int, field@));
            self.prerelease = list;
            Ok(())
        } else {
            Err(PreError::NoField(n))
        }
    }
}

/// The prerelease of a version: identifiers in order, possibly none.
#[derive(Debug, Hash)]
pub struct Prerelease {
    identifiers: Vec<Identifier>,
}

impl View for Prerelease {
    type V = Seq<IdentifierView>;

    closed spec fn view(&self) -> Seq<IdentifierView> {
        identifiers_view(self.identifiers@)
    }
}

/// What reading `text` as the prerelease of a version gives: no identifier
/// for the empty text, else the dot-separated identifiers.
pub open spec fn prerelease_of_text(text: Seq<char>) -> Result<Seq<IdentifierView>, IdentifierError> {
    if text.len() == 0 {
        Ok(Seq::<IdentifierView>::empty())
    } else {
        parse_prerelease(text)
    }
}

/// Precedence among the prereleases of versions that agree on their three
/// numbers: a version without prerelease comes after every version with one.
pub open spec fn prerelease_lt(a: Seq<IdentifierView>, b: Seq<IdentifierView>) -> bool {
    a.len() > 0 && (b.len() == 0 || pre_lt(a, b))
}

impl Clone for Prerelease {
    fn clone(&self) -> (r: Self)
        ensures
            r@ == self@,
    {
        proof {
            use_type_invariant(self);
        }
        Prerelease { identifiers: clone_identifier_list(&self.identifiers) }
    }
}

impl PartialEq for Prerelease {
    fn eq(&self, other: &Self) -> (r: bool) {
        identifier_lists_equal(&self.identifiers, &other.identifiers)
    }
}

impl Eq for Prerelease {

}

impl PartialEqSpecImpl for Prerelease {
    open spec fn obeys_eq_spec() -> bool {
        true
    }

    open spec fn eq_spec(&self, other: &Self) -> bool {
        self@ == other@
    }
}

impl<PreType> From<Pre<PreType>> for Prerelease {
    fn from(value: Pre<PreType>) -> (r: Self) {
        proof {
            use_type_invariant(&value);
        }
        Prerelease { identifiers: value.prerelease }
    }
}

impl<PreType> FromSpecImpl<Pre<PreType>> for Prerelease {
    open spec fn obeys_from_spec() -> bool {
        true
    }

    closed spec fn from_spec(value: Pre<PreType>) -> Self {
        Prerelease { identifiers: value.prerelease }
    }
}

/// A prerelease of some kind, taken as the prerelease of a version, has the
/// same identifiers.
pub proof fn lemma_from_pre<PreType>(value: Pre<PreType>)
    ensures
        <Prerelease as FromSpec<Pre<PreType>>>::from_spec(value)@ == value@,
{
}

impl Prerelease {
    /// The invariant of a prerelease: every identifier is a valid one.
    #[verifier::type_invariant]
    pub open spec fn wf(&self) -> bool {
        all_valid_identifiers(self@)
    }

    /// The prerelease of a version that has none.
    pub fn empty() -> (r: Prerelease)
        ensures
            r@ == Seq::<IdentifierView>::empty(),
    {
        let identifiers: Vec<Identifier> = Vec::new();
        assert(identifiers_view(identifiers@) =~= Seq::<IdentifierView>::empty());
        Prerelease { identifiers }
    }

    /// Reads a prerelease. The empty text is the prerelease without
    /// identifiers; any other text must be identifiers with a dot between
    /// two of them.
    pub fn new(text: &str) -> (r: Result<Prerelease, IdentifierError>)
        ensures
            r matches Ok(p) ==> prerelease_of_text(text@) == Ok::<
                Seq<IdentifierView>,
                IdentifierError,
            >(p@),
            r matches Err(e) ==> prerelease_of_text(text@) == Err::<
                Seq<IdentifierView>,
                IdentifierError,
            >(e),
    {
        let chars = chars_of(text);
        if chars.len() == 0 {
            return Ok(Prerelease::empty());
        }
        match parse_identifier_list(text) {
            Ok(identifiers) => Ok(Prerelease { identifiers }),
            Err(e) => Err(e),
        }
    }

    /// Whether there is no identifier.
    pub fn is_empty(&self) -> (b: bool)
        ensures
            b == (self@.len() == 0),
    {
        self.identifiers.len() == 0
    }

    /// How many identifiers there are.
    pub fn len(&self) -> (n: usize)
        ensures
            n == self@.len(),
    {
        self.identifiers.len()
    }

    /// The identifiers, in order.
    pub fn as_ref(&self) -> (list: &Vec<Identifier>)
        ensures
            identifiers_view(list@) == self@,
            all_valid_identifiers(self@),
    {
        proof {
            use_type_invariant(self);
        }
        &self.identifiers
    }

    /// A prerelease made of the given identifiers.
    pub fn from_identifiers(identifiers: Vec<Identifier>) -> (r: Prerelease)
        requires
            all_valid_identifiers(identifiers_view(identifiers@)),
        ensures
            r@ == identifiers_view(identifiers@),
    {
        Prerelease { identifiers }
    }

    /// The prerelease as it is written after the hyphen of a version.
    pub fn to_string(&self) -> (s: String)
        ensures
            s@ == prerelease_text(self@),
    {
        identifier_list_text(&self.identifiers)
    }

    /// Whether a version with this prerelease comes strictly before one with
    /// `other`, their three numbers being equal.
    pub fn precedes(&self, other: &Self) -> (b: bool)
        ensures
            b == prerelease_lt(self@, other@),
    {
        if self.identifiers.len() == 0 {
            false
        } else if other.identifiers.len() == 0 {
            true
        } else {
            identifier_list_precedes(&self.identifiers, &other.identifiers)
        }
    }
}

impl<PreType> Pre<PreType> {
    /// The prerelease of a version as a prerelease of this kind. Fails with
    /// [`IdentifierError::EmptyIdent`] where the version has no prerelease.
    pub fn try_from_prerelease(value: &Prerelease) -> (r: Result<Pre<PreType>, IdentifierError>)
        ensures
            value@.len() > 0 ==> r is Ok && r->Ok_0@ == value@,
            value@.len() == 0 ==> r == Err::<Pre<PreType>, IdentifierError>(
                IdentifierError::EmptyIdent,
            ),
    {
        if value.is_empty() {
            Err(IdentifierError::EmptyIdent)
        } else {
            Ok(Pre::from_identifiers(clone_identifier_list(value.as_ref())))
        }
    }
}

} // verus!
