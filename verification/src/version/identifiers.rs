//! One dot-separated field of a prerelease, and the order among such fields.
//!
//! 1. Identifiers consisting of only digits are compared numerically.
//! 2. Identifiers with letters or hyphens are compared lexically in ASCII
//!    sort order.
//! 3. Numeric identifiers always have lower precedence than non-numeric
//!    identifiers.

use crate::text::{
    all_digits, char_is_digit, char_is_lower, char_is_upper, chars_of, copy_str, decimal_digits,
    decimal_value, format_decimal, is_digit, is_lower, is_upper, lemma_decimal_digits,
    parse_decimal, string_of,
};
use crate::version::extensions::Incrementable;
use std::cmp::Ordering;
use vstd::prelude::*;
use vstd::std_specs::cmp::{PartialEqSpecImpl, PartialOrdSpecImpl};

verus! {

#[derive(Debug, Clone, Copy, PartialEq, Eq, Hash, Structural)]
pub enum IdentifierKind {
    Alphanumeric,
    Numeric,
}

impl IdentifierKind {
    /// Returns `true` if the identifier kind is [`IdentifierKind::Alphanumeric`].
    #[must_use]
    pub fn is_alphanumeric(&self) -> (b: bool)
        ensures
            b == (*self == IdentifierKind::Alphanumeric),
    {
        matches!(self, Self::Alphanumeric)
    }

    /// Returns `true` if the identifier kind is [`IdentifierKind::Numeric`].
    #[must_use]
    pub fn is_numeric(&self) -> (b: bool)
        ensures
            b == (*self == IdentifierKind::Numeric),
    {
        matches!(self, Self::Numeric)
    }
}

#[derive(Debug, PartialEq, Eq, Structural)]
pub enum IdentifierError {
    /// The field holds no character.
    EmptyIdent,
    /// Invalid character at 0-indexed position.
    InvalidChar(char, usize),
    /// A numeric field was asked for.
    ExpectedNumeric,
    /// The digits denote a number that does not fit in 64 bits.
    ParseIntError,
}

impl Clone for IdentifierError {
    fn clone(&self) -> (r: Self)
        ensures
            r == *self,
    {
        match self {
            IdentifierError::EmptyIdent => IdentifierError::EmptyIdent,
            IdentifierError::InvalidChar(c, at) => IdentifierError::InvalidChar(*c, *at),
            IdentifierError::ExpectedNumeric => IdentifierError::ExpectedNumeric,
            IdentifierError::ParseIntError => IdentifierError::ParseIntError,
        }
    }
}

/// A character that a prerelease field may hold: `[0-9A-Za-z-]`.
pub open spec fn valid_char(c: char) -> bool {
    is_digit(c) || is_lower(c) || is_upper(c) || c == '-'
}

/// Every character of `s` may stand in a prerelease field.
pub open spec fn all_valid_chars(s: Seq<char>) -> bool {
    forall|i: int| 0 <= i < s.len() ==> valid_char(#[trigger] s[i])
}

/// `i` is the place of the first character of `s` that no field may hold.
pub open spec fn is_first_invalid(s: Seq<char>, i: int) -> bool {
    &&& 0 <= i < s.len()
    &&& !valid_char(s[i])
    &&& forall|j: int| 0 <= j < i ==> valid_char(#[trigger] s[j])
}

/// The place of the first invalid character of `s`, where it has one.
pub open spec fn first_invalid(s: Seq<char>) -> int {
    choose|i: int| is_first_invalid(s, i)
}

/// There is at most one first invalid character.
pub proof fn lemma_first_invalid(s: Seq<char>, i: int)
    requires
        is_first_invalid(s, i),
    ensures
        first_invalid(s) == i,
        !all_valid_chars(s),
{
    let j = first_invalid(s);
    assert(is_first_invalid(s, j));
    if j < i {
        assert(valid_char(s[j]));
    } else if i < j {
        assert(valid_char(s[i]));
    }
}

/// What an identifier is, as a mathematical value: its kind and its text.
pub struct IdentifierView {
    pub kind: IdentifierKind,
    pub ident: Seq<char>,
}

/// The invariant of an identifier: its text is not empty and made of valid
/// characters; it is numeric exactly when the text is all digits, and then
/// the number fits in 64 bits.
pub open spec fn valid_identifier(v: IdentifierView) -> bool {
    &&& v.ident.len() > 0
    &&& all_valid_chars(v.ident)
    &&& (v.kind == IdentifierKind::Numeric <==> all_digits(v.ident))
    &&& (v.kind == IdentifierKind::Numeric ==> decimal_value(v.ident) <= u64::MAX)
}

/// What reading `s` as an identifier gives.
pub open spec fn parse_identifier(s: Seq<char>) -> Result<IdentifierView, IdentifierError> {
    if s.len() == 0 {
        Err(IdentifierError::EmptyIdent)
    } else if !all_valid_chars(s) {
        Err(IdentifierError::InvalidChar(s[first_invalid(s)], first_invalid(s) as usize))
    } else if !all_digits(s) {
        Ok(IdentifierView { kind: IdentifierKind::Alphanumeric, ident: s })
    } else if decimal_value(s) <= u64::MAX {
        Ok(IdentifierView { kind: IdentifierKind::Numeric, ident: s })
    } else {
        Err(IdentifierError::ParseIntError)
    }
}

/// Whatever is read as an identifier is a valid one, with the text read.
pub proof fn lemma_parse_identifier(s: Seq<char>)
    ensures
        parse_identifier(s) matches Ok(v) ==> valid_identifier(v) && v.ident == s,
{
}

/// Lexical order on texts, character by character in ASCII order; a proper
/// prefix comes first.
pub open spec fn chars_lt(a: Seq<char>, b: Seq<char>) -> bool
    decreases a.len(),
{
    if b.len() == 0 {
        false
    } else if a.len() == 0 {
        true
    } else if a[0] != b[0] {
        a[0] < b[0]
    } else {
        chars_lt(a.drop_first(), b.drop_first())
    }
}

/// Precedence among identifiers: `a` comes strictly before `b`.
pub open spec fn ident_lt(a: IdentifierView, b: IdentifierView) -> bool {
    match (a.kind, b.kind) {
        (IdentifierKind::Numeric, IdentifierKind::Numeric) => decimal_value(a.ident)
            < decimal_value(b.ident),
        (IdentifierKind::Numeric, IdentifierKind::Alphanumeric) => true,
        (IdentifierKind::Alphanumeric, IdentifierKind::Numeric) => false,
        (IdentifierKind::Alphanumeric, IdentifierKind::Alphanumeric) => chars_lt(a.ident, b.ident),
    }
}

/// Neither identifier comes before the other.
pub open spec fn ident_same(a: IdentifierView, b: IdentifierView) -> bool {
    !ident_lt(a, b) && !ident_lt(b, a)
}

/// No text comes before itself.
pub proof fn lemma_chars_lt_irreflexive(a: Seq<char>)
    ensures
        !chars_lt(a, a),
    decreases a.len(),
{
    if a.len() > 0 {
        lemma_chars_lt_irreflexive(a.drop_first());
    }
}

/// Of two texts at most one comes before the other.
pub proof fn lemma_chars_lt_asymmetric(a: Seq<char>, b: Seq<char>)
    ensures
        !(chars_lt(a, b) && chars_lt(b, a)),
    decreases a.len(),
{
    if a.len() > 0 && b.len() > 0 && a[0] == b[0] {
        lemma_chars_lt_asymmetric(a.drop_first(), b.drop_first());
    }
}

/// Lexical order is transitive.
pub proof fn lemma_chars_lt_transitive(a: Seq<char>, b: Seq<char>, c: Seq<char>)
    requires
        chars_lt(a, b),
        chars_lt(b, c),
    ensures
        chars_lt(a, c),
    decreases a.len(),
{
    if a.len() > 0 && b.len() > 0 && c.len() > 0 && a[0] == b[0] && b[0] == c[0] {
        lemma_chars_lt_transitive(a.drop_first(), b.drop_first(), c.drop_first());
    }
}

/// Two different texts are ordered one way or the other.
pub proof fn lemma_chars_lt_total(a: Seq<char>, b: Seq<char>)
    ensures
        a == b || chars_lt(a, b) || chars_lt(b, a),
    decreases a.len(),
{
    if a.len() > 0 && b.len() > 0 && a[0] == b[0] {
        lemma_chars_lt_total(a.drop_first(), b.drop_first());
        if a.drop_first() == b.drop_first() {
            assert(a == seq![a[0]] + a.drop_first());
            assert(b == seq![b[0]] + b.drop_first());
        }
    } else if a.len() == 0 && b.len() == 0 {
        assert(a == b);
    }
}

/// Texts that agree on their first `i` characters are ordered as what
/// follows those characters.
pub proof fn lemma_chars_lt_skip(a: Seq<char>, b: Seq<char>, i: int)
    requires
        0 <= i <= a.len(),
        i <= b.len(),
        a.take(i) == b.take(i),
    ensures
        chars_lt(a, b) == chars_lt(a.skip(i), b.skip(i)),
    decreases i,
{
    if i == 0 {
        assert(a.skip(0) == a);
        assert(b.skip(0) == b);
    } else {
        assert(a[0] == a.take(i)[0]);
        assert(b[0] == b.take(i)[0]);
        let a1 = a.drop_first();
        let b1 = b.drop_first();
        assert(a1.take(i - 1) == a.take(i).drop_first());
        assert(b1.take(i - 1) == b.take(i).drop_first());
        lemma_chars_lt_skip(a1, b1, i - 1);
        assert(a1.skip(i - 1) == a.skip(i));
        assert(b1.skip(i - 1) == b.skip(i));
    }
}

/// A numeric identifier comes before every alphanumeric one, whatever the
/// two texts are.
pub proof fn lemma_numeric_before_alphanumeric(n: IdentifierView, a: IdentifierView)
    requires
        n.kind == IdentifierKind::Numeric,
        a.kind == IdentifierKind::Alphanumeric,
    ensures
        ident_lt(n, a),
        !ident_lt(a, n),
{
}

/// No identifier comes before itself.
pub proof fn lemma_ident_lt_irreflexive(a: IdentifierView)
    ensures
        !ident_lt(a, a),
{
    lemma_chars_lt_irreflexive(a.ident);
}

/// Of two identifiers at most one comes before the other.
pub proof fn lemma_ident_lt_asymmetric(a: IdentifierView, b: IdentifierView)
    ensures
        !(ident_lt(a, b) && ident_lt(b, a)),
{
    lemma_chars_lt_asymmetric(a.ident, b.ident);
}

/// Precedence among identifiers is transitive.
pub proof fn lemma_ident_lt_transitive(a: IdentifierView, b: IdentifierView, c: IdentifierView)
    requires
        ident_lt(a, b),
        ident_lt(b, c),
    ensures
        ident_lt(a, c),
{
    if a.kind == IdentifierKind::Alphanumeric && b.kind == IdentifierKind::Alphanumeric && c.kind
        == IdentifierKind::Alphanumeric {
        lemma_chars_lt_transitive(a.ident, b.ident, c.ident);
    }
}

/// Two identifiers of which neither comes before the other are of one kind;
/// numeric ones denote one number, alphanumeric ones have one text.
pub proof fn lemma_ident_same(a: IdentifierView, b: IdentifierView)
    requires
        ident_same(a, b),
    ensures
        a.kind == b.kind,
        a.kind == IdentifierKind::Numeric ==> decimal_value(a.ident) == decimal_value(b.ident),
        a.kind == IdentifierKind::Alphanumeric ==> a.ident == b.ident,
{
    lemma_chars_lt_total(a.ident, b.ident);
}

/// Precedence carries over identifiers of the same precedence.
pub proof fn lemma_ident_lt_same(a: IdentifierView, b: IdentifierView, c: IdentifierView)
    requires
        (ident_lt(a, b) && ident_same(b, c)) || (ident_same(a, b) && ident_lt(b, c)),
    ensures
        ident_lt(a, c),
{
    if ident_same(b, c) {
        lemma_ident_same(b, c);
    } else {
        lemma_ident_same(a, b);
    }
}

/// Having the same precedence is transitive.
pub proof fn lemma_ident_same_transitive(a: IdentifierView, b: IdentifierView, c: IdentifierView)
    requires
        ident_same(a, b),
        ident_same(b, c),
    ensures
        ident_same(a, c),
{
    lemma_ident_same(a, b);
    lemma_ident_same(b, c);
    lemma_chars_lt_irreflexive(a.ident);
}

#[derive(Debug, Hash)]
pub struct Identifier {
    kind: IdentifierKind,
    ident: String,
}

impl View for Identifier {
    type V = IdentifierView;

    closed spec fn view(&self) -> IdentifierView {
        IdentifierView { kind: self.kind, ident: self.ident@ }
    }
}

impl Clone for Identifier {
    fn clone(&self) -> (r: Self)
        ensures
            r == *self,
    {
        proof {
            use_type_invariant(self);
        }
        Identifier { kind: self.kind, ident: self.ident.clone() }
    }
}

impl PartialEq for Identifier {
    fn eq(&self, other: &Self) -> (r: bool) {
        self.kind == other.kind && self.ident == other.ident
    }
}

impl Eq for Identifier {

}

impl PartialEqSpecImpl for Identifier {
    open spec fn obeys_eq_spec() -> bool {
        true
    }

    open spec fn eq_spec(&self, other: &Self) -> bool {
        self@ == other@
    }
}

impl std::str::FromStr for Identifier {
    type Err = IdentifierError;

    /// Reads one prerelease field, as the function of the same name of
    /// [`Identifier`] reads it.
    fn from_str(s: &str) -> (r: Result<Self, Self::Err>)
        ensures
            r is Ok <==> parse_identifier(s@) is Ok,
            r matches Ok(id) ==> parse_identifier(s@) == Ok::<IdentifierView, IdentifierError>(id@)
                && id.wf(),
            r matches Err(e) ==> parse_identifier(s@) == Err::<IdentifierView, IdentifierError>(e),
    {
        Identifier::from_str(s)
    }
}

impl PartialOrd for Identifier {
    fn partial_cmp(&self, other: &Self) -> (r: Option<Ordering>) {
        if self.precedes(other) {
            Some(Ordering::Less)
        } else if other.precedes(self) {
            Some(Ordering::Greater)
        } else {
            Some(Ordering::Equal)
        }
    }
}

impl PartialOrdSpecImpl for Identifier {
    open spec fn obeys_partial_cmp_spec() -> bool {
        true
    }

    open spec fn partial_cmp_spec(&self, other: &Self) -> Option<Ordering> {
        if ident_lt(self@, other@) {
            Some(Ordering::Less)
        } else if ident_lt(other@, self@) {
            Some(Ordering::Greater)
        } else {
            Some(Ordering::Equal)
        }
    }
}

impl Identifier {
    /// The invariant that every identifier keeps.
    #[verifier::type_invariant]
    pub open spec fn wf(&self) -> bool {
        valid_identifier(self@)
    }

    /// Returns `true` if the identifier is alphanumeric.
    #[must_use]
    pub fn is_alphanumeric(&self) -> (b: bool)
        ensures
            b == (self@.kind == IdentifierKind::Alphanumeric),
    {
        self.kind().is_alphanumeric()
    }

    /// Returns `true` if the identifier is numeric.
    #[must_use]
    pub fn is_numeric(&self) -> (b: bool)
        ensures
            b == (self@.kind == IdentifierKind::Numeric),
    {
        self.kind().is_numeric()
    }

    /// The text of an alphanumeric identifier.
    pub fn as_alphanumeric(&self) -> (r: Option<&String>)
        ensures
            r is Some <==> self@.kind == IdentifierKind::Alphanumeric,
            r is Some ==> r->0@ == self@.ident,
    {
        if self.kind().is_alphanumeric() {
            Some(&self.ident)
        } else {
            None
        }
    }

    /// The number of a numeric identifier.
    pub fn as_numeric(&self) -> (r: Option<u64>)
        ensures
            r is Some <==> self@.kind == IdentifierKind::Numeric,
            r is Some ==> r->0 == decimal_value(self@.ident),
    {
        proof {
            use_type_invariant(self);
        }
        if self.kind().is_numeric() {
            let digits = chars_of(self.ident.as_str());
            parse_decimal(&digits)
        } else {
            None
        }
    }

    /// Returns the identifier kind.
    pub fn kind(&self) -> (k: IdentifierKind)
        ensures
            k == self@.kind,
    {
        self.kind
    }

    /// The text of the identifier.
    pub fn as_str(&self) -> (s: &str)
        ensures
            s@ == self@.ident,
    {
        self.ident.as_str()
    }

    /// Reads one prerelease field. The field must not be empty and may hold
    /// only ASCII letters, digits and the hyphen; a field of digits alone is
    /// numeric and must fit in 64 bits, any other field is alphanumeric.
    pub fn from_str(s: &str) -> (r: Result<Identifier, IdentifierError>)
        ensures
            r is Ok <==> parse_identifier(s@) is Ok,
            r matches Ok(id) ==> parse_identifier(s@) == Ok::<IdentifierView, IdentifierError>(id@)
                && id.wf(),
            r matches Err(e) ==> parse_identifier(s@) == Err::<IdentifierView, IdentifierError>(e),
    {
        let chars = chars_of(s);
        if chars.len() == 0 {
            return Err(IdentifierError::EmptyIdent);
        }
        match Identifier::validate_chars(&chars) {
            Err(e) => {
                return Err(e);
            },
            Ok(()) => {},
        }
        if Identifier::only_digits(&chars) {
            match parse_decimal(&chars) {
                Some(_) => Ok(Identifier { kind: IdentifierKind::Numeric, ident: copy_str(s) }),
                None => Err(IdentifierError::ParseIntError),
            }
        } else {
            Ok(Identifier { kind: IdentifierKind::Alphanumeric, ident: copy_str(s) })
        }
    }

    /// Checks whether the input is valid.
    ///
    /// Returns [`IdentifierError::InvalidChar`] with the first character that
    /// no field may hold, and its position.
    pub fn validate_input(input: &str) -> (r: Result<(), IdentifierError>)
        ensures
            r is Ok <==> all_valid_chars(input@),
            r is Err ==> r == Err::<(), IdentifierError>(
                IdentifierError::InvalidChar(
                    input@[first_invalid(input@)],
                    first_invalid(input@) as usize,
                ),
            ) && is_first_invalid(input@, first_invalid(input@)),
    {
        let chars = chars_of(input);
        Identifier::validate_chars(&chars)
    }

    fn validate_chars(chars: &Vec<char>) -> (r: Result<(), IdentifierError>)
        ensures
            r is Ok <==> all_valid_chars(chars@),
            r is Err ==> r == Err::<(), IdentifierError>(
                IdentifierError::InvalidChar(
                    chars@[first_invalid(chars@)],
                    first_invalid(chars@) as usize,
                ),
            ) && is_first_invalid(chars@, first_invalid(chars@)),
    {
        let mut idx: usize = 0;
        while idx < chars.len()
            invariant
                idx <= chars.len(),
                forall|j: int| 0 <= j < idx ==> valid_char(#[trigger] chars@[j]),
            decreases chars.len() - idx,
        {
            let c = chars[idx];
            if !(char_is_digit(c) || char_is_lower(c) || char_is_upper(c) || c == '-') {
                proof {
                    lemma_first_invalid(chars@, idx as int);
                }
                return Err(IdentifierError::InvalidChar(c, idx));
            }
            idx += 1;
        }
        Ok(())
    }

    fn only_digits(chars: &Vec<char>) -> (b: bool)
        ensures
            b == all_digits(chars@),
    {
        let mut idx: usize = 0;
        while idx < chars.len()
            invariant
                idx <= chars.len(),
                forall|j: int| 0 <= j < idx ==> is_digit(#[trigger] chars@[j]),
            decreases chars.len() - idx,
        {
            if !char_is_digit(chars[idx]) {
                return false;
            }
            idx += 1;
        }
        true
    }

    /// Whether `self` comes strictly before `other` in precedence.
    pub fn precedes(&self, other: &Self) -> (b: bool)
        ensures
            b == ident_lt(self@, other@),
    {
        match (self.kind, other.kind) {
            (IdentifierKind::Alphanumeric, IdentifierKind::Alphanumeric) => {
                let a = chars_of(self.ident.as_str());
                let b = chars_of(other.ident.as_str());
                chars_precede(&a, &b)
            },
            (IdentifierKind::Alphanumeric, IdentifierKind::Numeric) => false,
            (IdentifierKind::Numeric, IdentifierKind::Alphanumeric) => true,
            (IdentifierKind::Numeric, IdentifierKind::Numeric) => {
                let a = self.as_numeric();
                let b = other.as_numeric();
                match (a, b) {
                    (Some(x), Some(y)) => x < y,
                    _ => false,
                }
            },
        }
    }
}

/// A numeric identifier can be advanced as long as the number stays within
/// 64 bits; an alphanumeric one when it is made of letters and digits alone.
pub open spec fn ident_can_increment(v: IdentifierView, n: u64) -> bool {
    if v.kind == IdentifierKind::Numeric {
        decimal_value(v.ident) + n <= u64::MAX
    } else {
        all_alphanumeric(v.ident)
    }
}

/// A numeric identifier advanced by `n` is the shortest notation of its
/// number plus `n`; an alphanumeric one has no counter and stays as it is.
pub open spec fn ident_incremented(v: IdentifierView, n: u64) -> IdentifierView {
    if v.kind == IdentifierKind::Numeric {
        IdentifierView {
            kind: IdentifierKind::Numeric,
            ident: decimal_digits((decimal_value(v.ident) + n) as nat),
        }
    } else {
        v
    }
}

/// An identifier that was advanced is still a valid one, and a numeric one
/// that was advanced by more than nothing comes after what it was.
pub proof fn lemma_ident_incremented(v: IdentifierView, n: u64)
    requires
        valid_identifier(v),
        ident_can_increment(v, n),
    ensures
        valid_identifier(ident_incremented(v, n)),
        ident_incremented(v, n).kind == v.kind,
        v.kind == IdentifierKind::Numeric ==> decimal_value(ident_incremented(v, n).ident)
            == decimal_value(v.ident) + n,
        v.kind == IdentifierKind::Numeric && n > 0 ==> ident_lt(v, ident_incremented(v, n)),
{
    if v.kind == IdentifierKind::Numeric {
        let m = (decimal_value(v.ident) + n) as nat;
        lemma_decimal_digits(m);
        lemma_digits_are_valid(decimal_digits(m));
    }
}

impl Incrementable for Identifier {
    open spec fn can_increment_by(&self, n: u64) -> bool {
        ident_can_increment(self@, n)
    }

    open spec fn is_incremented_by(&self, n: u64, after: &Self) -> bool {
        after@ == ident_incremented(self@, n)
    }

    fn increment(&mut self) {
        self.increment_by(1)
    }

    fn increment_by(&mut self, n: u64) {
        proof {
            use_type_invariant(&*self);
        }
        match self.kind() {
            IdentifierKind::Alphanumeric => {
                match Alphanumeric::new(self.ident.as_str()) {
                    Ok(new) => {
                        self.ident = new.to_string();
                    },
                    Err(_) => {},
                }
            },
            IdentifierKind::Numeric => {
                let digits = chars_of(self.ident.as_str());
                match parse_decimal(&digits) {
                    Some(value) => {
                        let new = value + n;
                        proof {
                            lemma_decimal_digits(new as nat);
                            lemma_digits_are_valid(decimal_digits(new as nat));
                        }
                        self.ident = string_of(&format_decimal(new));
                    },
                    None => {},
                }
            },
        }
    }
}

/// Digits may stand in a prerelease field.
pub proof fn lemma_digits_are_valid(s: Seq<char>)
    requires
        all_digits(s),
    ensures
        all_valid_chars(s),
{
    assert forall|i: int| 0 <= i < s.len() implies valid_char(#[trigger] s[i]) by {
        assert(is_digit(s[i]));
    }
}

/// An ASCII letter or digit.
pub open spec fn is_alphanumeric(c: char) -> bool {
    is_digit(c) || is_lower(c) || is_upper(c)
}

/// Every character of `s` is an ASCII letter or digit.
pub open spec fn all_alphanumeric(s: Seq<char>) -> bool {
    forall|i: int| 0 <= i < s.len() ==> is_alphanumeric(#[trigger] s[i])
}

/// `i` is the place of the first character of `s` that is neither an ASCII
/// letter nor a digit.
pub open spec fn is_first_non_alphanumeric(s: Seq<char>, i: int) -> bool {
    &&& 0 <= i < s.len()
    &&& !is_alphanumeric(s[i])
    &&& forall|j: int| 0 <= j < i ==> is_alphanumeric(#[trigger] s[j])
}

/// A number, as a numeric identifier holds it.
#[derive(Debug, Clone, Copy, PartialEq, Eq, Hash)]
pub struct Numeric(pub u64);

impl Numeric {
    /// The number itself.
    pub fn value(&self) -> (n: u64)
        ensures
            n == self.0,
    {
        self.0
    }
}

/// One character of an alphanumeric identifier, with its class.
#[derive(Debug, Clone, Copy, PartialEq, Eq, Structural)]
pub enum AsciiType {
    UpperAscii(char),
    LowerAscii(char),
    Number(char),
}

impl AsciiType {
    /// The character, whatever its class.
    pub open spec fn spec_char(&self) -> char {
        match self {
            AsciiType::UpperAscii(c) | AsciiType::LowerAscii(c) | AsciiType::Number(c) => *c,
        }
    }

    /// Sorts `c` into its class, or fails with [`IdentifierError::InvalidChar`]
    /// at `pos` for a character that is neither an ASCII letter nor a digit.
    pub fn from_char(c: char, pos: usize) -> (r: Result<AsciiType, IdentifierError>)
        ensures
            is_digit(c) ==> r == Ok::<AsciiType, IdentifierError>(AsciiType::Number(c)),
            is_lower(c) ==> r == Ok::<AsciiType, IdentifierError>(AsciiType::LowerAscii(c)),
            is_upper(c) ==> r == Ok::<AsciiType, IdentifierError>(AsciiType::UpperAscii(c)),
            !is_alphanumeric(c) ==> r == Err::<AsciiType, IdentifierError>(
                IdentifierError::InvalidChar(c, pos),
            ),
    {
        if char_is_digit(c) {
            Ok(AsciiType::Number(c))
        } else if char_is_lower(c) {
            Ok(AsciiType::LowerAscii(c))
        } else if char_is_upper(c) {
            Ok(AsciiType::UpperAscii(c))
        } else {
            Err(IdentifierError::InvalidChar(c, pos))
        }
    }

    /// The character, whatever its class.
    pub fn as_char(&self) -> (c: char)
        ensures
            c == self.spec_char(),
    {
        match self {
            AsciiType::UpperAscii(c) | AsciiType::LowerAscii(c) | AsciiType::Number(c) => *c,
        }
    }

    /// Returns `true` if the ascii type is [`AsciiType::UpperAscii`].
    #[must_use]
    pub fn is_upper_ascii(&self) -> (b: bool)
        ensures
            b == (*self is UpperAscii),
    {
        matches!(self, Self::UpperAscii(..))
    }

    pub fn as_upper_ascii(&self) -> (r: Option<&char>)
        ensures
            r is Some <==> *self is UpperAscii,
            r is Some ==> *r->0 == self.spec_char(),
    {
        if let Self::UpperAscii(v) = self {
            Some(v)
        } else {
            None
        }
    }

    /// Returns `true` if the ascii type is [`AsciiType::LowerAscii`].
    #[must_use]
    pub fn is_lower_ascii(&self) -> (b: bool)
        ensures
            b == (*self is LowerAscii),
    {
        matches!(self, Self::LowerAscii(..))
    }

    pub fn as_lower_ascii(&self) -> (r: Option<&char>)
        ensures
            r is Some <==> *self is LowerAscii,
            r is Some ==> *r->0 == self.spec_char(),
    {
        if let Self::LowerAscii(v) = self {
            Some(v)
        } else {
            None
        }
    }

    /// Returns `true` if the ascii type is [`AsciiType::Number`].
    #[must_use]
    pub fn is_number(&self) -> (b: bool)
        ensures
            b == (*self is Number),
    {
        matches!(self, Self::Number(..))
    }

    pub fn as_number(&self) -> (r: Option<&char>)
        ensures
            r is Some <==> *self is Number,
            r is Some ==> *r->0 == self.spec_char(),
    {
        if let Self::Number(v) = self {
            Some(v)
        } else {
            None
        }
    }
}

/// The characters of an identifier made of ASCII letters and digits alone,
/// each with its class.
#[derive(Debug)]
pub struct Alphanumeric(Vec<AsciiType>);

impl View for Alphanumeric {
    type V = Seq<char>;

    closed spec fn view(&self) -> Seq<char> {
        self.0@.map_values(|a: AsciiType| a.spec_char())
    }
}

impl Alphanumeric {
    /// Sorts every character of `input` into its class. Fails at the first
    /// character that is neither an ASCII letter nor a digit.
    pub fn new(input: &str) -> (r: Result<Alphanumeric, IdentifierError>)
        ensures
            r is Ok <==> all_alphanumeric(input@),
            r matches Ok(a) ==> a@ == input@,
            r matches Err(e) ==> exists|i: int|
                is_first_non_alphanumeric(input@, i) && e == IdentifierError::InvalidChar(
                    input@[i],
                    i as usize,
                ),
    {
        let chars = chars_of(input);
        let mut vec: Vec<AsciiType> = Vec::new();
        let mut idx: usize = 0;
        while idx < chars.len()
            invariant
                idx <= chars.len(),
                chars@ == input@,
                vec@.map_values(|a: AsciiType| a.spec_char()) == chars@.take(idx as int),
                forall|j: int| 0 <= j < idx ==> is_alphanumeric(#[trigger] chars@[j]),
            decreases chars.len() - idx,
        {
            let c = chars[idx];
            match AsciiType::from_char(c, idx) {
                Ok(a) => {
                    let ghost before = vec@.map_values(|a: AsciiType| a.spec_char());
                    vec.push(a);
                    assert(vec@.map_values(|a: AsciiType| a.spec_char()) == before.push(c));
                    assert(chars@.take(idx + 1) == chars@.take(idx as int).push(c));
                },
                Err(e) => {
                    assert(is_first_non_alphanumeric(input@, idx as int));
                    return Err(e);
                },
            }
            idx += 1;
        }
        assert(chars@.take(chars.len() as int) == chars@);
        Ok(Alphanumeric(vec))
    }

    /// The characters with their classes.
    pub fn as_ref(&self) -> (v: &Vec<AsciiType>)
        ensures
            v@.map_values(|a: AsciiType| a.spec_char()) == self@,
    {
        &self.0
    }

    /// The text that the characters make.
    pub fn to_string(&self) -> (s: String)
        ensures
            s@ == self@,
    {
        let mut chars: Vec<char> = Vec::new();
        let mut idx: usize = 0;
        while idx < self.0.len()
            invariant
                idx <= self.0.len(),
                chars@ == self@.take(idx as int),
            decreases self.0.len() - idx,
        {
            chars.push(self.0[idx].as_char());
            assert(self@.take(idx + 1) == self@.take(idx as int).push(self@[idx as int]));
            idx += 1;
        }
        assert(self@.take(self.0.len() as int) == self@);
        string_of(&chars)
    }
}

/// Whether `a` comes strictly before `b` in lexical order.
pub fn chars_precede(a: &Vec<char>, b: &Vec<char>) -> (r: bool)
    ensures
        r == chars_lt(a@, b@),
{
    let mut i: usize = 0;
    while i < a.len() && i < b.len()
        invariant
            i <= a.len(),
            i <= b.len(),
            a@.take(i as int) == b@.take(i as int),
        decreases a.len() - i,
    {
        if a[i] != b[i] {
            proof {
                lemma_chars_lt_skip(a@, b@, i as int);
            }
            return a[i] < b[i];
        }
        assert(a@.take(i + 1) == a@.take(i as int).push(a@[i as int]));
        assert(b@.take(i + 1) == b@.take(i as int).push(b@[i as int]));
        i += 1;
    }
    proof {
        lemma_chars_lt_skip(a@, b@, i as int);
    }
    i < b.len()
}

} // verus!
