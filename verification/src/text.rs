//! Character-level helpers shared by the parsers and formatters of the crate:
//! conversions between strings and character vectors, decimal numbers, and
//! splitting and joining on a separator.

use vstd::prelude::*;

verus! {

/// `String::push` appends one character.
pub assume_specification[ String::push ](s: &mut String, c: char)
    ensures
        final(s)@ == old(s)@.push(c),
;

/// The characters of `s`, in order.
pub fn chars_of(s: &str) -> (v: Vec<char>)
    ensures
        v@ == s@,
{
    let mut v: Vec<char> = Vec::new();
    for c in it: s.chars()
        invariant
            it.seq() == s@,
            v@ == it.seq().take(it.index() as int),
    {
        v.push(c);
    }
    v
}

/// The string made of the characters of `v`, in order.
pub fn string_of(v: &Vec<char>) -> (s: String)
    ensures
        s@ == v@,
{
    let mut s = String::new();
    let mut i: usize = 0;
    while i < v.len()
        invariant
            i <= v.len(),
            s@ == v@.take(i as int),
        decreases v.len() - i,
    {
        s.push(v[i]);
        i += 1;
    }
    s
}

/// A copy of `s` with the same characters.
pub fn copy_str(s: &str) -> (r: String)
    ensures
        r@ == s@,
{
    let v = chars_of(s);
    string_of(&v)
}

/// Whether two strings hold the same characters.
pub fn str_eq(a: &str, b: &str) -> (r: bool)
    ensures
        r == (a@ == b@),
{
    let x = chars_of(a);
    let y = chars_of(b);
    chars_eq(&x, &y)
}

/// Whether two character vectors hold the same characters.
pub fn chars_eq(a: &Vec<char>, b: &Vec<char>) -> (r: bool)
    ensures
        r == (a@ == b@),
{
    if a.len() != b.len() {
        return false;
    }
    let mut i: usize = 0;
    while i < a.len()
        invariant
            i <= a.len(),
            a.len() == b.len(),
            a@.take(i as int) == b@.take(i as int),
        decreases a.len() - i,
    {
        if a[i] != b[i] {
            return false;
        }
        assert(a@.take(i + 1) == a@.take(i as int).push(a@[i as int]));
        assert(b@.take(i + 1) == b@.take(i as int).push(b@[i as int]));
        i += 1;
    }
    assert(a@.take(a.len() as int) == a@);
    assert(b@.take(b.len() as int) == b@);
    true
}

/// The characters of `v` from `from` up to, not including, `to`.
pub fn chars_between(v: &Vec<char>, from: usize, to: usize) -> (r: Vec<char>)
    requires
        from <= to <= v.len(),
    ensures
        r@ == v@.subrange(from as int, to as int),
{
    let mut r: Vec<char> = Vec::new();
    let mut i: usize = from;
    while i < to
        invariant
            from <= i <= to <= v.len(),
            r@ == v@.subrange(from as int, i as int),
        decreases to - i,
    {
        r.push(v[i]);
        i += 1;
    }
    r
}

/// Appends the characters of `more` to `out`.
pub fn push_chars(out: &mut Vec<char>, more: &Vec<char>)
    ensures
        final(out)@ == old(out)@ + more@,
{
    let mut i: usize = 0;
    while i < more.len()
        invariant
            i <= more.len(),
            out@ == old(out)@ + more@.take(i as int),
        decreases more.len() - i,
    {
        out.push(more[i]);
        assert(more@.take(i + 1) == more@.take(i as int).push(more@[i as int]));
        i += 1;
    }
    assert(more@.take(more.len() as int) == more@);
}

/// An ASCII decimal digit.
pub open spec fn is_digit(c: char) -> bool {
    '0' <= c <= '9'
}

/// An ASCII lower-case letter.
pub open spec fn is_lower(c: char) -> bool {
    'a' <= c <= 'z'
}

/// An ASCII upper-case letter.
pub open spec fn is_upper(c: char) -> bool {
    'A' <= c <= 'Z'
}

/// Every character of `s` is a decimal digit.
pub open spec fn all_digits(s: Seq<char>) -> bool {
    forall|i: int| 0 <= i < s.len() ==> is_digit(#[trigger] s[i])
}

pub fn char_is_digit(c: char) -> (b: bool)
    ensures
        b == is_digit(c),
{
    '0' <= c && c <= '9'
}

pub fn char_is_lower(c: char) -> (b: bool)
    ensures
        b == is_lower(c),
{
    'a' <= c && c <= 'z'
}

pub fn char_is_upper(c: char) -> (b: bool)
    ensures
        b == is_upper(c),
{
    'A' <= c && c <= 'Z'
}

/// The number a digit stands for.
pub open spec fn digit_value(c: char) -> nat
    recommends
        is_digit(c),
{
    (c as u32 - '0' as u32) as nat
}

/// The digit that stands for a number below ten.
pub open spec fn digit_char(d: nat) -> char
    recommends
        d < 10,
{
    (d + '0' as u32) as char
}

pub fn char_digit_value(c: char) -> (d: u64)
    requires
        is_digit(c),
    ensures
        d == digit_value(c),
        d < 10,
{
    (c as u32 - '0' as u32) as u64
}

pub fn char_of_digit(d: u64) -> (c: char)
    requires
        d < 10,
    ensures
        c == digit_char(d as nat),
        is_digit(c),
        digit_value(c) == d,
{
    let b: u8 = d as u8 + 48u8;
    b as char
}

/// The number that a string of decimal digits denotes; leading zeros count
/// for nothing and the empty string denotes zero.
pub open spec fn decimal_value(s: Seq<char>) -> nat
    decreases s.len(),
{
    if s.len() == 0 {
        0
    } else {
        decimal_value(s.drop_last()) * 10 + digit_value(s.last())
    }
}

/// The shortest decimal notation of `n`.
pub open spec fn decimal_digits(n: nat) -> Seq<char>
    decreases n,
{
    if n < 10 {
        seq![digit_char(n)]
    } else {
        decimal_digits(n / 10).push(digit_char(n % 10))
    }
}

/// A prefix of a digit string denotes no more than the whole string.
pub proof fn lemma_decimal_prefix(s: Seq<char>, k: int)
    requires
        0 <= k <= s.len(),
    ensures
        decimal_value(s.take(k)) <= decimal_value(s),
    decreases s.len(),
{
    if k == s.len() {
        assert(s.take(k) == s);
    } else {
        lemma_decimal_prefix(s.drop_last(), k);
        assert(s.drop_last().take(k) == s.take(k));
    }
}

/// The notation of `n` is made of digits, is not empty, and denotes `n`.
pub proof fn lemma_decimal_digits(n: nat)
    ensures
        all_digits(decimal_digits(n)),
        decimal_digits(n).len() >= 1,
        decimal_value(decimal_digits(n)) == n,
    decreases n,
{
    if n < 10 {
        let s = decimal_digits(n);
        assert(s.len() == 1);
        assert(s.drop_last().len() == 0);
        assert(s.last() == digit_char(n));
        assert(decimal_value(s.drop_last()) == 0);
    } else {
        lemma_decimal_digits(n / 10);
        let p = decimal_digits(n / 10);
        let s = decimal_digits(n);
        assert(s == p.push(digit_char(n % 10)));
        assert(s.drop_last() == p);
        assert(s.last() == digit_char(n % 10));
        assert forall|i: int| 0 <= i < s.len() implies is_digit(#[trigger] s[i]) by {
            if i < p.len() {
                assert(s[i] == p[i]);
            }
        }
    }
}

/// Reads a string of decimal digits as a number, if it fits in 64 bits.
pub fn parse_decimal(v: &Vec<char>) -> (r: Option<u64>)
    requires
        all_digits(v@),
    ensures
        r is Some <==> decimal_value(v@) <= u64::MAX,
        r is Some ==> r->0 == decimal_value(v@),
{
    let mut acc: u64 = 0;
    let mut i: usize = 0;
    assert(v@.take(0).len() == 0);
    while i < v.len()
        invariant
            i <= v.len(),
            all_digits(v@),
            acc == decimal_value(v@.take(i as int)),
        decreases v.len() - i,
    {
        let d = char_digit_value(v[i]);
        proof {
            assert(v@.take(i + 1).drop_last() == v@.take(i as int));
            assert(v@.take(i + 1).last() == v@[i as int]);
            lemma_decimal_prefix(v@, i + 1);
        }
        if acc > (u64::MAX - d) / 10 {
            return None;
        }
        acc = acc * 10 + d;
        i += 1;
    }
    assert(v@.take(v.len() as int) == v@);
    Some(acc)
}

/// Writes a number in its shortest decimal notation.
pub fn format_decimal(n: u64) -> (r: Vec<char>)
    ensures
        r@ == decimal_digits(n as nat),
    decreases n,
{
    if n < 10 {
        let mut r: Vec<char> = Vec::new();
        r.push(char_of_digit(n));
        r
    } else {
        let mut r = format_decimal(n / 10);
        r.push(char_of_digit(n % 10));
        r
    }
}

/// The fields that `sep` cuts `s` into. A string without `sep` is one field,
/// the empty string included, and two separators in a row hold an empty field.
pub open spec fn split(s: Seq<char>, sep: char) -> Seq<Seq<char>>
    decreases s.len(),
{
    if s.len() == 0 {
        seq![Seq::<char>::empty()]
    } else {
        let before = split(s.drop_last(), sep);
        if s.last() == sep {
            before.push(Seq::<char>::empty())
        } else {
            before.drop_last().push(before.last().push(s.last()))
        }
    }
}

/// The fields written one after the other with `sep` between two of them.
pub open spec fn join(fields: Seq<Seq<char>>, sep: char) -> Seq<char>
    decreases fields.len(),
{
    if fields.len() == 0 {
        Seq::<char>::empty()
    } else if fields.len() == 1 {
        fields[0]
    } else {
        join(fields.drop_last(), sep).push(sep) + fields.last()
    }
}

/// No field of `fields` holds `sep`.
pub open spec fn fields_without(fields: Seq<Seq<char>>, sep: char) -> bool {
    forall|i: int, j: int|
        0 <= i < fields.len() && 0 <= j < fields[i].len() ==> #[trigger] fields[i][j] != sep
}

/// Splitting gives at least one field, none of them holds the separator, and
/// joining them gives the string back.
pub proof fn lemma_split(s: Seq<char>, sep: char)
    ensures
        split(s, sep).len() >= 1,
        fields_without(split(s, sep), sep),
        join(split(s, sep), sep) == s,
    decreases s.len(),
{
    if s.len() == 0 {
        assert(join(split(s, sep), sep) == s);
    } else {
        let before = split(s.drop_last(), sep);
        lemma_split(s.drop_last(), sep);
        let now = split(s, sep);
        if s.last() == sep {
            assert(now.drop_last() == before);
            assert(join(now, sep) == join(before, sep).push(sep) + Seq::<char>::empty());
            assert(join(now, sep) == s.drop_last().push(sep));
            assert(s.drop_last().push(s.last()) == s);
        } else {
            let grown = before.last().push(s.last());
            assert(now == before.drop_last().push(grown));
            assert(now.last() == grown);
            assert(now.drop_last() == before.drop_last());
            if before.len() == 1 {
                assert(join(before, sep) == before[0]);
                assert(join(now, sep) == grown);
            } else {
                assert(join(before, sep) == join(before.drop_last(), sep).push(sep)
                    + before.last());
                assert(join(now, sep) == join(before.drop_last(), sep).push(sep) + grown);
                assert(join(now, sep) == join(before, sep).push(s.last()));
            }
            assert(s.drop_last().push(s.last()) == s);
            assert forall|i: int, j: int|
                0 <= i < now.len() && 0 <= j < now[i].len() implies #[trigger] now[i][j]
                != sep by {
                if i < now.len() - 1 {
                    assert(now[i] == before[i]);
                } else if j < before.last().len() {
                    assert(now[i][j] == before.last()[j]);
                }
            }
        }
    }
}

/// Cuts `v` into the fields between occurrences of `sep`.
pub fn split_chars(v: &Vec<char>, sep: char) -> (fields: Vec<Vec<char>>)
    ensures
        fields@.map_values(|f: Vec<char>| f@) == split(v@, sep),
        fields.len() >= 1,
{
    let mut done: Vec<Vec<char>> = Vec::new();
    let mut current: Vec<char> = Vec::new();
    let mut i: usize = 0;
    assert(v@.take(0) == Seq::<char>::empty());
    assert(done@.map_values(|f: Vec<char>| f@).push(current@) == split(v@.take(0), sep));
    while i < v.len()
        invariant
            i <= v.len(),
            done@.map_values(|f: Vec<char>| f@).push(current@) == split(v@.take(i as int), sep),
        decreases v.len() - i,
    {
        let c = v[i];
        proof {
            assert(v@.take(i + 1).drop_last() == v@.take(i as int));
            assert(v@.take(i + 1).last() == c);
        }
        let ghost before = done@.map_values(|f: Vec<char>| f@).push(current@);
        if c == sep {
            done.push(current);
            current = Vec::new();
            assert(done@.map_values(|f: Vec<char>| f@) == before);
        } else {
            current.push(c);
            assert(done@.map_values(|f: Vec<char>| f@) == before.drop_last());
        }
        i += 1;
    }
    assert(v@.take(v.len() as int) == v@);
    let ghost before = done@.map_values(|f: Vec<char>| f@).push(current@);
    done.push(current);
    assert(done@.map_values(|f: Vec<char>| f@) == before);
    done
}

/// Whether `char::is_whitespace` holds of a character: whether it has the
/// Unicode property `White_Space`.
pub uninterp spec fn is_whitespace(c: char) -> bool;

/// `char::is_whitespace` tells whether a character is white space.
pub assume_specification[ char::is_whitespace ](c: char) -> (b: bool)
    ensures
        b == is_whitespace(c),
;

/// `s` without the white space it starts with.
pub open spec fn trim_start(s: Seq<char>) -> Seq<char>
    decreases s.len(),
{
    if s.len() > 0 && is_whitespace(s[0]) {
        trim_start(s.drop_first())
    } else {
        s
    }
}

/// `s` without the white space it ends with.
pub open spec fn trim_end(s: Seq<char>) -> Seq<char>
    decreases s.len(),
{
    if s.len() > 0 && is_whitespace(s.last()) {
        trim_end(s.drop_last())
    } else {
        s
    }
}

/// `s` without the white space at either end.
pub open spec fn trim(s: Seq<char>) -> Seq<char> {
    trim_end(trim_start(s))
}

/// Removes the white space at the end of `v`.
pub fn trim_end_chars(v: &Vec<char>) -> (r: Vec<char>)
    ensures
        r@ == trim_end(v@),
{
    let mut end: usize = v.len();
    assert(v@.take(end as int) == v@);
    while end > 0 && v[end - 1].is_whitespace()
        invariant
            end <= v.len(),
            trim_end(v@) == trim_end(v@.take(end as int)),
        decreases end,
    {
        assert(v@.take(end as int).drop_last() == v@.take(end - 1));
        end -= 1;
    }
    assert(v@.take(end as int) == v@.subrange(0, end as int));
    chars_between(v, 0, end)
}

/// Removes the white space at either end of `v`.
pub fn trim_chars(v: &Vec<char>) -> (r: Vec<char>)
    ensures
        r@ == trim(v@),
{
    let mut start: usize = 0;
    assert(v@.skip(0) == v@);
    while start < v.len() && v[start].is_whitespace()
        invariant
            start <= v.len(),
            trim_start(v@) == trim_start(v@.skip(start as int)),
        decreases v.len() - start,
    {
        assert(v@.skip(start as int).drop_first() == v@.skip(start + 1));
        start += 1;
    }
    let rest = chars_between(v, start, v.len());
    assert(rest@ == v@.skip(start as int));
    trim_end_chars(&rest)
}

/// The place of the first `c` in `s`, or the length of `s` where it holds
/// none.
pub open spec fn position(s: Seq<char>, c: char) -> int
    decreases s.len(),
{
    if s.len() == 0 {
        0
    } else if s[0] == c {
        0
    } else {
        1 + position(s.drop_first(), c)
    }
}

/// The place that [`position`] gives lies within the string or at its end,
/// nothing before it is `c`, and what stands there, if anything, is `c`.
pub proof fn lemma_position(s: Seq<char>, c: char)
    ensures
        0 <= position(s, c) <= s.len(),
        forall|j: int| 0 <= j < position(s, c) ==> #[trigger] s[j] != c,
        position(s, c) < s.len() ==> s[position(s, c)] == c,
    decreases s.len(),
{
    if s.len() > 0 && s[0] != c {
        let rest = s.drop_first();
        lemma_position(rest, c);
        assert forall|j: int| 0 <= j < position(s, c) implies #[trigger] s[j] != c by {
            if j > 0 {
                assert(s[j] == rest[j - 1]);
            }
        }
        assert(s[position(s, c)] == rest[position(rest, c)] || position(s, c) == s.len());
    }
}

/// Where nothing before place `i` is `c`, the first `c` is `i` places after
/// the start of what follows.
pub proof fn lemma_position_skip(s: Seq<char>, c: char, i: int)
    requires
        0 <= i <= s.len(),
        forall|j: int| 0 <= j < i ==> #[trigger] s[j] != c,
    ensures
        position(s, c) == i + position(s.skip(i), c),
    decreases i,
{
    if i == 0 {
        assert(s.skip(0) == s);
    } else {
        let rest = s.drop_first();
        assert(s[0] != c);
        assert forall|j: int| 0 <= j < i - 1 implies #[trigger] rest[j] != c by {
            assert(rest[j] == s[j + 1]);
        }
        lemma_position_skip(rest, c, i - 1);
        assert(rest.skip(i - 1) == s.skip(i));
    }
}

/// Finds the first `c` at or after place `from`.
pub fn find_char(v: &Vec<char>, c: char, from: usize) -> (r: usize)
    requires
        from <= v.len(),
    ensures
        r == from + position(v@.skip(from as int), c),
        from <= r <= v.len(),
        r < v.len() ==> v@[r as int] == c,
        forall|j: int| from <= j < r ==> #[trigger] v@[j] != c,
{
    let mut i: usize = from;
    let ghost tail = v@.skip(from as int);
    while i < v.len() && v[i] != c
        invariant
            from <= i <= v.len(),
            tail == v@.skip(from as int),
            forall|j: int| 0 <= j < i - from ==> #[trigger] tail[j] != c,
        decreases v.len() - i,
    {
        i += 1;
    }
    proof {
        lemma_position_skip(tail, c, i - from);
        assert(tail.skip(i - from) == v@.skip(i as int));
        assert forall|j: int| from <= j < i implies #[trigger] v@[j] != c by {
            assert(v@[j] == tail[j - from]);
        }
    }
    i
}

/// A line without the carriage return that it may end with.
pub open spec fn strip_carriage_return(line: Seq<char>) -> Seq<char> {
    if line.len() > 0 && line.last() == '\r' {
        line.drop_last()
    } else {
        line
    }
}

/// The lines of a text. A line ends with a line feed, or with a carriage
/// return followed by a line feed; neither belongs to the line. What follows
/// the last line feed is a line too, unless it is empty.
pub open spec fn lines(s: Seq<char>) -> Seq<Seq<char>>
    decreases s.len(),
{
    if s.len() == 0 {
        Seq::<Seq<char>>::empty()
    } else if position(s, '\n') < 0 || position(s, '\n') >= s.len() {
        seq![s]
    } else {
        seq![strip_carriage_return(s.take(position(s, '\n')))] + lines(
            s.skip(position(s, '\n') + 1),
        )
    }
}

/// Cuts a text into its lines.
pub fn lines_of(v: &Vec<char>) -> (r: Vec<Vec<char>>)
    ensures
        r@.map_values(|l: Vec<char>| l@) == lines(v@),
{
    let mut done: Vec<Vec<char>> = Vec::new();
    let mut start: usize = 0;
    assert(v@.skip(0) == v@);
    assert(done@.map_values(|l: Vec<char>| l@) + lines(v@) == lines(v@));
    while start < v.len()
        invariant
            start <= v.len(),
            done@.map_values(|l: Vec<char>| l@) + lines(v@.skip(start as int)) == lines(v@),
        decreases v.len() - start,
    {
        let ghost rest = v@.skip(start as int);
        let ghost before = done@.map_values(|l: Vec<char>| l@);
        let end = find_char(v, '\n', start);
        if end == v.len() {
            let line = chars_between(v, start, end);
            assert(line@ == rest);
            done.push(line);
            assert(done@.map_values(|l: Vec<char>| l@) == before.push(rest));
            assert(lines(rest) == seq![rest]);
            start = end;
            assert(lines(v@.skip(start as int)) == Seq::<Seq<char>>::empty());
        } else {
            let mut stop = end;
            if stop > start && v[stop - 1] == '\r' {
                stop -= 1;
            }
            let line = chars_between(v, start, stop);
            proof {
                let whole = rest.take(end - start);
                assert(whole == v@.subrange(start as int, end as int));
                assert(line@ == strip_carriage_return(whole));
                assert(rest.skip(end - start + 1) == v@.skip(end + 1));
            }
            done.push(line);
            assert(done@.map_values(|l: Vec<char>| l@) == before.push(line@));
            start = end + 1;
        }
    }
    assert(lines(v@.skip(start as int)) == Seq::<Seq<char>>::empty());
    done
}

/// The texts of a list of strings.
pub open spec fn strings_view(list: Seq<String>) -> Seq<Seq<char>> {
    list.map_values(|s: String| s@)
}

/// Writes the strings one after the other with `sep` between two of them.
pub fn join_strings(list: &Vec<String>, sep: char) -> (out: Vec<char>)
    ensures
        out@ == join(strings_view(list@), sep),
{
    let ghost texts = strings_view(list@);
    let mut out: Vec<char> = Vec::new();
    let mut i: usize = 0;
    assert(texts.take(0).len() == 0);
    while i < list.len()
        invariant
            i <= list.len(),
            texts == strings_view(list@),
            out@ == join(texts.take(i as int), sep),
        decreases list.len() - i,
    {
        let ghost before = out@;
        if i > 0 {
            out.push(sep);
        }
        let item = chars_of(list[i].as_str());
        push_chars(&mut out, &item);
        proof {
            let now = texts.take(i + 1);
            assert(now.drop_last() == texts.take(i as int));
            assert(now.last() == item@);
            if i == 0 {
                assert(now.len() == 1);
                assert(before == Seq::<char>::empty());
                assert(out@ == item@);
            }
        }
        i += 1;
    }
    assert(texts.take(list.len() as int) == texts);
    out
}

/// A copy of a list of strings.
pub fn clone_strings(list: &Vec<String>) -> (r: Vec<String>)
    ensures
        r@ == list@,
{
    let mut r: Vec<String> = Vec::new();
    let mut i: usize = 0;
    while i < list.len()
        invariant
            i <= list.len(),
            r@ == list@.take(i as int),
        decreases list.len() - i,
    {
        r.push(list[i].clone());
        assert(list@.take(i + 1) == list@.take(i as int).push(list@[i as int]));
        i += 1;
    }
    assert(list@.take(list.len() as int) == list@);
    r
}

/// Whether a list of strings holds one with the text of `item`.
pub fn strings_contain(list: &Vec<String>, item: &str) -> (r: bool)
    ensures
        r == strings_view(list@).contains(item@),
{
    let mut i: usize = 0;
    while i < list.len()
        invariant
            i <= list.len(),
            forall|j: int| 0 <= j < i ==> #[trigger] strings_view(list@)[j] != item@,
        decreases list.len() - i,
    {
        if str_eq(list[i].as_str(), item) {
            assert(strings_view(list@)[i as int] == item@);
            return true;
        }
        i += 1;
    }
    false
}

/// Writes the fields one after the other with `sep` between two of them.
pub fn join_chars(fields: &Vec<Vec<char>>, sep: char) -> (out: Vec<char>)
    ensures
        out@ == join(fields@.map_values(|f: Vec<char>| f@), sep),
{
    let ghost texts = fields@.map_values(|f: Vec<char>| f@);
    let mut out: Vec<char> = Vec::new();
    let mut i: usize = 0;
    assert(texts.take(0).len() == 0);
    while i < fields.len()
        invariant
            i <= fields.len(),
            texts == fields@.map_values(|f: Vec<char>| f@),
            out@ == join(texts.take(i as int), sep),
        decreases fields.len() - i,
    {
        let ghost before = out@;
        if i > 0 {
            out.push(sep);
        }
        push_chars(&mut out, &fields[i]);
        proof {
            let now = texts.take(i + 1);
            assert(now.drop_last() == texts.take(i as int));
            assert(now.last() == fields@[i as int]@);
            if i == 0 {
                assert(now.len() == 1);
                assert(before == Seq::<char>::empty());
                assert(out@ == fields@[i as int]@);
            }
        }
        i += 1;
    }
    assert(texts.take(fields.len() as int) == texts);
    out
}

} // verus!
