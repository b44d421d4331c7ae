//! Strings as sequences of characters: conversion, search, splitting and
//! decimal numbers.

use vstd::prelude::*;

verus! {

/// `String::push`: appends one character to the end of the string.
#[verifier::external_body]
pub(crate) fn push_char(s: &mut String, c: char)
    ensures
        final(s)@ == old(s)@.push(c),
{
    s.push(c)
}

/// The lowercase form of a sequence of characters, as the standard library
/// computes it from the Unicode tables.
pub uninterp spec fn lowercase(s: Seq<char>) -> Seq<char>;

/// `str::to_lowercase`: the lowercase equivalent of the string slice, as a new
/// string.
#[verifier::external_body]
pub(crate) fn to_lower(s: &str) -> (r: String)
    ensures
        r@ == lowercase(s@),
{
    s.to_lowercase()
}

/// Whether a character is whitespace: whether it has the property
/// `White_Space` of Unicode.
pub open spec fn is_whitespace(c: char) -> bool {
    let u = c as u32;
    ||| 0x09 <= u <= 0x0d
    ||| u == 0x20
    ||| u == 0x85
    ||| u == 0xa0
    ||| u == 0x1680
    ||| 0x2000 <= u <= 0x200a
    ||| u == 0x2028
    ||| u == 0x2029
    ||| u == 0x202f
    ||| u == 0x205f
    ||| u == 0x3000
}

/// How many whitespace characters a text begins with.
pub open spec fn leading_blanks(s: Seq<char>) -> nat
    decreases s.len(),
{
    if s.len() == 0 || !is_whitespace(s[0]) {
        0
    } else {
        1 + leading_blanks(s.skip(1))
    }
}

/// How many whitespace characters a text ends with.
pub open spec fn trailing_blanks(s: Seq<char>) -> nat
    decreases s.len(),
{
    if s.len() == 0 || !is_whitespace(s.last()) {
        0
    } else {
        1 + trailing_blanks(s.drop_last())
    }
}

/// A text without the whitespace at its two ends.
pub open spec fn trimmed(s: Seq<char>) -> Seq<char> {
    let rest = s.skip(leading_blanks(s) as int);
    rest.take(rest.len() - trailing_blanks(rest))
}

/// `str::trim`: the string slice without its leading and its trailing
/// whitespace, where whitespace is what has the property `White_Space` of
/// Unicode.
#[verifier::external_body]
pub(crate) fn trim(s: &str) -> (r: String)
    ensures
        r@ == trimmed(s@),
{
    s.trim().to_string()
}

/// The characters of `s`, in order.
pub fn chars_of(s: &str) -> (v: Vec<char>)
    ensures
        v@ == s@,
{
    let mut v: Vec<char> = Vec::new();
    for c in it: s.chars()
        invariant
            v@ == s@.take(it.index() as int),
            it.seq() == s@,
    {
        v.push(c);
    }
    v
}

/// The string whose characters are those of `v`, in order.
pub fn string_of(v: &Vec<char>) -> (s: String)
    ensures
        s@ == v@,
{
    let mut s = String::new();
    let mut i: usize = 0;
    while i < v.len()
        invariant
            i <= v.len(),
            s@ == v@.take(i as int),
        decreases v.len() - i,
    {
        push_char(&mut s, v[i]);
        i += 1;
    }
    s
}

/// A copy of `s`.
pub fn copy_str(s: &str) -> (r: String)
    ensures
        r@ == s@,
{
    s.to_owned()
}

/// Whether two vectors hold the same characters.
pub fn same_chars(a: &Vec<char>, b: &Vec<char>) -> (r: bool)
    ensures
        r == (a@ == b@),
{
    if a.len() != b.len() {
        return false;
    }
    let mut i: usize = 0;
    while i < a.len()
        invariant
            a.len() == b.len(),
            i <= a.len(),
            forall|k: int| 0 <= k < i ==> a@[k] == b@[k],
        decreases a.len() - i,
    {
        if a[i] != b[i] {
            return false;
        }
        i += 1;
    }
    assert(a@ =~= b@);
    true
}

/// Whether two string slices hold the same text.
pub fn same_text(a: &str, b: &str) -> (r: bool)
    ensures
        r == (a@ == b@),
{
    let x = chars_of(a);
    let y = chars_of(b);
    same_chars(&x, &y)
}

/// Whether a vector of characters holds the given text.
pub fn is_text(v: &Vec<char>, text: &str) -> (r: bool)
    ensures
        r == (v@ == text@),
{
    let t = chars_of(text);
    same_chars(v, &t)
}

/// `needle` stands in `hay` at position `i`.
pub open spec fn occurs_at(needle: Seq<char>, hay: Seq<char>, i: int) -> bool {
    &&& 0 <= i
    &&& i + needle.len() <= hay.len()
    &&& hay.subrange(i, i + needle.len()) == needle
}

/// `needle` stands somewhere in `hay`.
pub open spec fn occurs_in(needle: Seq<char>, hay: Seq<char>) -> bool {
    exists|i: int| occurs_at(needle, hay, i)
}

/// `s` begins with `prefix`.
pub open spec fn has_prefix(s: Seq<char>, prefix: Seq<char>) -> bool {
    occurs_at(prefix, s, 0)
}

/// Whether `needle` stands in `hay` at position `i`.
pub fn matches_at(needle: &Vec<char>, hay: &Vec<char>, i: usize) -> (r: bool)
    ensures
        r == occurs_at(needle@, hay@, i as int),
{
    if i > hay.len() || needle.len() > hay.len() - i {
        return false;
    }
    let mut j: usize = 0;
    while j < needle.len()
        invariant
            i + needle.len() <= hay.len(),
            j <= needle.len(),
            forall|k: int| 0 <= k < j ==> hay@[i + k] == needle@[k],
        decreases needle.len() - j,
    {
        if hay[i + j] != needle[j] {
            assert(hay@.subrange(i as int, i + needle.len())[j as int] != needle@[j as int]);
            return false;
        }
        j += 1;
    }
    assert(hay@.subrange(i as int, i + needle.len()) =~= needle@);
    true
}

/// Whether `s` begins with `prefix`.
pub fn starts_with(s: &Vec<char>, prefix: &Vec<char>) -> (r: bool)
    ensures
        r == has_prefix(s@, prefix@),
{
    matches_at(prefix, s, 0)
}

/// Whether `needle` stands somewhere in `hay`.
pub fn contains(hay: &Vec<char>, needle: &Vec<char>) -> (r: bool)
    ensures
        r == occurs_in(needle@, hay@),
{
    if needle.len() > hay.len() {
        return false;
    }
    if needle.len() == 0 {
        assert(hay@.subrange(0, 0) =~= needle@);
        assert(occurs_at(needle@, hay@, 0));
        return true;
    }
    let count: usize = hay.len() - needle.len() + 1;
    let mut i: usize = 0;
    while i < count
        invariant
            count == hay.len() - needle.len() + 1,
            i <= count,
            forall|k: int| 0 <= k < i ==> !occurs_at(needle@, hay@, k),
        decreases count - i,
    {
        if matches_at(needle, hay, i) {
            return true;
        }
        i += 1;
    }
    false
}

/// The characters of `s` from position `from` on.
pub(crate) fn suffix_from(s: &Vec<char>, from: usize) -> (r: Vec<char>)
    requires
        from <= s.len(),
    ensures
        r@ == s@.skip(from as int),
{
    let mut r: Vec<char> = Vec::new();
    let mut i: usize = from;
    while i < s.len()
        invariant
            from <= i <= s.len(),
            r@ == s@.subrange(from as int, i as int),
        decreases s.len() - i,
    {
        r.push(s[i]);
        i += 1;
    }
    r
}

/// The pieces of `s` between the occurrences of `sep`: one more piece than
/// there are separators, empty pieces included.
pub open spec fn split_seq(s: Seq<char>, sep: char) -> Seq<Seq<char>>
    decreases s.len(),
{
    if s.len() == 0 {
        seq![Seq::<char>::empty()]
    } else {
        let rest = split_seq(s.drop_last(), sep);
        if s.last() == sep {
            rest.push(Seq::<char>::empty())
        } else {
            rest.drop_last().push(rest.last().push(s.last()))
        }
    }
}

/// The views of the elements of a vector of character vectors.
pub open spec fn pieces(parts: Seq<Vec<char>>) -> Seq<Seq<char>> {
    Seq::new(parts.len(), |i: int| parts[i]@)
}

/// Splitting never yields nothing: there is always a last piece.
pub proof fn lemma_split_nonempty(s: Seq<char>, sep: char)
    ensures
        split_seq(s, sep).len() >= 1,
    decreases s.len(),
{
    if s.len() > 0 {
        lemma_split_nonempty(s.drop_last(), sep);
    }
}

/// Splits `s` at every occurrence of `sep`.
pub fn split(s: &Vec<char>, sep: char) -> (parts: Vec<Vec<char>>)
    ensures
        pieces(parts@) == split_seq(s@, sep),
        parts.len() >= 1,
{
    let mut parts: Vec<Vec<char>> = Vec::new();
    let mut cur: Vec<char> = Vec::new();
    let mut i: usize = 0;
    assert(s@.take(0).len() == 0);
    assert(pieces(parts@).push(cur@) =~= split_seq(s@.take(0), sep));
    while i < s.len()
        invariant
            i <= s.len(),
            pieces(parts@).push(cur@) == split_seq(s@.take(i as int), sep),
        decreases s.len() - i,
    {
        let c = s[i];
        let ghost before = pieces(parts@).push(cur@);
        let ghost prefix = s@.take(i + 1);
        assert(prefix.drop_last() =~= s@.take(i as int));
        assert(prefix.last() == c);
        if c == sep {
            parts.push(cur);
            cur = Vec::new();
            assert(pieces(parts@).push(cur@) =~= before.push(Seq::<char>::empty()));
        } else {
            cur.push(c);
            assert(pieces(parts@).push(cur@) =~= before.drop_last().push(before.last().push(c)));
        }
        i += 1;
    }
    assert(s@.take(s.len() as int) =~= s@);
    let ghost before = pieces(parts@).push(cur@);
    parts.push(cur);
    assert(pieces(parts@) =~= before);
    parts
}

/// Whether `c` is one of the ten decimal digits.
pub open spec fn is_digit(c: char) -> bool {
    '0' <= c && c <= '9'
}

/// The number that a decimal digit stands for.
pub open spec fn digit_value(c: char) -> nat {
    (c as u32 - '0' as u32) as nat
}

/// Whether every character of `s` is a decimal digit.
pub open spec fn all_digits(s: Seq<char>) -> bool {
    forall|i: int| 0 <= i < s.len() ==> is_digit(#[trigger] s[i])
}

/// The number that a sequence of decimal digits stands for.
pub open spec fn decimal_value(s: Seq<char>) -> nat
    decreases s.len(),
{
    if s.len() == 0 {
        0
    } else {
        decimal_value(s.drop_last()) * 10 + digit_value(s.last())
    }
}

/// The number written by `s` as an optional `+` and at least one decimal
/// digit, if it is at most `max`.
pub open spec fn parse_unsigned(s: Seq<char>, max: nat) -> Option<nat> {
    let d = if s.len() > 0 && s[0] == '+' {
        s.skip(1)
    } else {
        s
    };
    if d.len() > 0 && all_digits(d) && decimal_value(d) <= max {
        Some(decimal_value(d))
    } else {
        None
    }
}

/// The number written by `s` as an optional sign and at least one decimal
/// digit, if it lies between `min` and `max`.
pub open spec fn parse_signed(s: Seq<char>, min: int, max: nat) -> Option<int> {
    if s.len() > 0 && s[0] == '-' {
        let d = s.skip(1);
        if d.len() > 0 && all_digits(d) && -(decimal_value(d) as int) >= min {
            Some(-(decimal_value(d) as int))
        } else {
            None
        }
    } else {
        match parse_unsigned(s, max) {
            Some(v) => Some(v as int),
            None => None,
        }
    }
}

/// A longer run of digits never stands for a smaller number than its
/// beginning.
pub proof fn lemma_decimal_value_grows(s: Seq<char>, k: int)
    requires
        0 <= k <= s.len(),
    ensures
        decimal_value(s.take(k)) <= decimal_value(s),
    decreases s.len(),
{
    if k == s.len() {
        assert(s.take(k) =~= s);
    } else {
        lemma_decimal_value_grows(s.drop_last(), k);
        assert(s.drop_last().take(k) =~= s.take(k));
    }
}

/// The value of the digits of `s` from `start` on, if there is at least one
/// character there, all are digits, and the value is at most `max`.
fn digits_from(s: &Vec<char>, start: usize, max: u64) -> (r: Option<u64>)
    requires
        start <= s.len(),
        max <= 0xffff_ffff,
    ensures
        r.is_some() == (s@.skip(start as int).len() > 0 && all_digits(s@.skip(start as int))
            && decimal_value(s@.skip(start as int)) <= max),
        r.is_some() ==> r.unwrap() == decimal_value(s@.skip(start as int)),
{
    let ghost d = s@.skip(start as int);
    if start == s.len() {
        return None;
    }
    let mut acc: u64 = 0;
    let mut i: usize = start;
    assert(d.take(0).len() == 0);
    while i < s.len()
        invariant
            start <= i <= s.len(),
            d == s@.skip(start as int),
            max <= 0xffff_ffff,
            acc <= max,
            acc == decimal_value(d.take(i - start)),
            all_digits(d.take(i - start)),
        decreases s.len() - i,
    {
        let c = s[i];
        let ghost next = d.take(i - start + 1);
        assert(next.drop_last() =~= d.take(i - start));
        assert(next.last() == c);
        assert(d[i - start] == c);
        if !('0' <= c && c <= '9') {
            return None;
        }
        let v: u64 = (c as u32 - '0' as u32) as u64;
        acc = acc * 10 + v;
        assert(acc == decimal_value(next));
        if acc > max {
            proof {
                lemma_decimal_value_grows(d, i - start + 1);
            }
            return None;
        }
        assert forall|k: int| 0 <= k < next.len() implies is_digit(#[trigger] next[k]) by {
            if k < next.len() - 1 {
                assert(next[k] == d.take(i - start)[k]);
            }
        }
        i += 1;
    }
    assert(d.take(d.len() as int) =~= d);
    Some(acc)
}

/// Reads an unsigned decimal number of at most `max`, with an optional `+`
/// before its digits.
pub(crate) fn parse_unsigned_decimal(s: &Vec<char>, max: u64) -> (r: Option<u64>)
    requires
        max <= 0xffff_ffff,
    ensures
        r.is_some() == parse_unsigned(s@, max as nat).is_some(),
        r.is_some() ==> r.unwrap() == parse_unsigned(s@, max as nat).unwrap(),
{
    if s.len() > 0 && s[0] == '+' {
        digits_from(s, 1, max)
    } else {
        assert(s@.skip(0) =~= s@);
        digits_from(s, 0, max)
    }
}

/// Reads a byte written in decimal.
pub fn parse_u8(s: &Vec<char>) -> (r: Option<u8>)
    ensures
        r.is_some() == parse_unsigned(s@, 255).is_some(),
        r.is_some() ==> r.unwrap() == parse_unsigned(s@, 255).unwrap(),
{
    match parse_unsigned_decimal(s, 255) {
        Some(v) => Some(v as u8),
        None => None,
    }
}

/// Reads a 32-bit signed integer written in decimal.
pub fn parse_i32(s: &Vec<char>) -> (r: Option<i32>)
    ensures
        r.is_some() == parse_signed(s@, -0x8000_0000, 0x7fff_ffff).is_some(),
        r.is_some() ==> r.unwrap() == parse_signed(s@, -0x8000_0000, 0x7fff_ffff).unwrap(),
{
    if s.len() > 0 && s[0] == '-' {
        match digits_from(s, 1, 0x8000_0000) {
            Some(v) => {
                let neg: i64 = 0 - (v as i64);
                Some(neg as i32)
            },
            None => None,
        }
    } else {
        match parse_unsigned_decimal(s, 0x7fff_ffff) {
            Some(v) => Some(v as i32),
            None => None,
        }
    }
}

/// The character that writes a number below ten.
pub open spec fn digit_char(d: nat) -> char {
    if d == 0 {
        '0'
    } else if d == 1 {
        '1'
    } else if d == 2 {
        '2'
    } else if d == 3 {
        '3'
    } else if d == 4 {
        '4'
    } else if d == 5 {
        '5'
    } else if d == 6 {
        '6'
    } else if d == 7 {
        '7'
    } else if d == 8 {
        '8'
    } else {
        '9'
    }
}

/// The decimal digits of `n`, most significant first, without leading zeros.
pub open spec fn decimal_digits(n: nat) -> Seq<char>
    decreases n,
{
    if n < 10 {
        seq![digit_char(n)]
    } else {
        decimal_digits(n / 10).push(digit_char(n % 10))
    }
}

fn digit_of(d: usize) -> (c: char)
    requires
        d < 10,
    ensures
        c == digit_char(d as nat),
{
    if d == 0 {
        '0'
    } else if d == 1 {
        '1'
    } else if d == 2 {
        '2'
    } else if d == 3 {
        '3'
    } else if d == 4 {
        '4'
    } else if d == 5 {
        '5'
    } else if d == 6 {
        '6'
    } else if d == 7 {
        '7'
    } else if d == 8 {
        '8'
    } else {
        '9'
    }
}

/// Writes `n` in decimal.
pub fn decimal_of(n: usize) -> (v: Vec<char>)
    ensures
        v@ == decimal_digits(n as nat),
    decreases n,
{
    if n < 10 {
        let mut v: Vec<char> = Vec::new();
        v.push(digit_of(n));
        assert(v@ =~= seq![digit_char(n as nat)]);
        v
    } else {
        let mut v = decimal_of(n / 10);
        v.push(digit_of(n % 10));
        v
    }
}

/// `s` without one newline at its end, if it ends in one.
pub open spec fn without_final_newline(s: Seq<char>) -> Seq<char> {
    if s.len() > 0 && s.last() == '\n' {
        s.drop_last()
    } else {
        s
    }
}

/// Removes one newline from the end of `s`, if it ends in one.
pub fn strip_final_newline(s: &Vec<char>) -> (r: Vec<char>)
    ensures
        r@ == without_final_newline(s@),
{
    let n = s.len();
    let stop: usize = if n > 0 && s[n - 1] == '\n' {
        n - 1
    } else {
        n
    };
    let mut r: Vec<char> = Vec::new();
    let mut i: usize = 0;
    while i < stop
        invariant
            i <= stop <= s.len(),
            r@ == s@.take(i as int),
        decreases stop - i,
    {
        r.push(s[i]);
        i += 1;
    }
    assert(s@.take(n as int) =~= s@);
    r
}


/// Whether `a` comes before `b` in the order of the dictionary, or equals it:
/// the order in which characters compare by their code.
pub open spec fn text_le(a: Seq<char>, b: Seq<char>) -> bool
    decreases a.len(),
{
    if a.len() == 0 {
        true
    } else if b.len() == 0 {
        false
    } else if a[0] != b[0] {
        (a[0] as u32) < (b[0] as u32)
    } else {
        text_le(a.skip(1), b.skip(1))
    }
}

/// Whether `a` comes before `b` in the order of the dictionary, or equals it.
pub fn le_chars(a: &Vec<char>, b: &Vec<char>) -> (r: bool)
    ensures
        r == text_le(a@, b@),
{
    let mut i: usize = 0;
    assert(a@.skip(0) =~= a@);
    assert(b@.skip(0) =~= b@);
    while i < a.len()
        invariant
            i <= a.len(),
            i <= b.len(),
            text_le(a@, b@) == text_le(a@.skip(i as int), b@.skip(i as int)),
        decreases a.len() - i,
    {
        if i >= b.len() {
            return false;
        }
        let x = a[i];
        let y = b[i];
        assert(a@.skip(i as int)[0] == x);
        assert(b@.skip(i as int)[0] == y);
        if x != y {
            return (x as u32) < (y as u32);
        }
        assert(a@.skip(i as int).skip(1) =~= a@.skip(i + 1));
        assert(b@.skip(i as int).skip(1) =~= b@.skip(i + 1));
        i += 1;
    }
    true
}

/// The position of the first element of `s` that meets `pred`, or the length
/// of `s` if none does.
pub open spec fn first_index<T>(s: Seq<T>, pred: spec_fn(T) -> bool) -> int
    decreases s.len(),
{
    if s.len() == 0 || pred(s[0]) {
        0
    } else {
        1 + first_index(s.skip(1), pred)
    }
}

/// The first index is the one before which nothing meets the predicate and at
/// which something does, or the length.
pub proof fn lemma_first_index<T>(s: Seq<T>, pred: spec_fn(T) -> bool, i: int)
    requires
        0 <= i <= s.len(),
        forall|k: int| 0 <= k < i ==> !pred(#[trigger] s[k]),
        i == s.len() || pred(s[i]),
    ensures
        first_index(s, pred) == i,
    decreases s.len(),
{
    if s.len() == 0 || pred(s[0]) {
        if i > 0 {
            assert(!pred(s[0]));
        }
    } else {
        let t = s.skip(1);
        assert forall|k: int| 0 <= k < i - 1 implies !pred(#[trigger] t[k]) by {
            assert(t[k] == s[k + 1]);
        }
        if i < s.len() {
            assert(t[i - 1] == s[i]);
        }
        lemma_first_index(t, pred, i - 1);
    }
}

/// What the first index says of the sequence.
pub proof fn lemma_first_index_is_first<T>(s: Seq<T>, pred: spec_fn(T) -> bool)
    ensures
        0 <= first_index(s, pred) <= s.len(),
        forall|k: int| 0 <= k < first_index(s, pred) ==> !pred(#[trigger] s[k]),
        first_index(s, pred) < s.len() ==> pred(s[first_index(s, pred)]),
    decreases s.len(),
{
    if s.len() == 0 || pred(s[0]) {
    } else {
        let t = s.skip(1);
        lemma_first_index_is_first(t, pred);
        assert forall|k: int| 0 <= k < first_index(s, pred) implies !pred(#[trigger] s[k]) by {
            if k > 0 {
                assert(s[k] == t[k - 1]);
            }
        }
        if first_index(s, pred) < s.len() {
            assert(s[first_index(s, pred)] == t[first_index(t, pred)]);
        }
    }
}


/// The characters of `s` from position `from` up to, not including, `to`.
pub(crate) fn slice_chars(s: &Vec<char>, from: usize, to: usize) -> (r: Vec<char>)
    requires
        from <= to <= s.len(),
    ensures
        r@ == s@.subrange(from as int, to as int),
{
    let mut r: Vec<char> = Vec::new();
    let mut i: usize = from;
    while i < to
        invariant
            from <= i <= to <= s.len(),
            r@ == s@.subrange(from as int, i as int),
        decreases to - i,
    {
        r.push(s[i]);
        i += 1;
    }
    r
}

/// How many bytes a text takes when it is stored as UTF-8.
pub open spec fn byte_len(s: Seq<char>) -> nat {
    vstd::utf8::encode_utf8(s).len()
}


/// Of two texts one comes before the other, or they are equal.
pub proof fn lemma_text_le_total(a: Seq<char>, b: Seq<char>)
    ensures
        text_le(a, b) || text_le(b, a),
    decreases a.len(),
{
    if a.len() > 0 && b.len() > 0 {
        if a[0] == b[0] {
            lemma_text_le_total(a.skip(1), b.skip(1));
        } else {
            vstd::utf8::char_u32_cast(a[0], a[0] as u32);
            vstd::utf8::char_u32_cast(b[0], b[0] as u32);
        }
    }
}

/// What comes before a text that comes before a third comes before the
/// third.
pub proof fn lemma_text_le_transitive(a: Seq<char>, b: Seq<char>, c: Seq<char>)
    requires
        text_le(a, b),
        text_le(b, c),
    ensures
        text_le(a, c),
    decreases a.len(),
{
    if a.len() > 0 && b.len() > 0 && c.len() > 0 {
        if a[0] == b[0] && b[0] == c[0] {
            lemma_text_le_transitive(a.skip(1), b.skip(1), c.skip(1));
        }
    }
}


/// The decimal digits of a number are digits, there is at least one, and
/// they stand for the number.
pub proof fn lemma_decimal_digits(n: nat)
    ensures
        decimal_digits(n).len() > 0,
        all_digits(decimal_digits(n)),
        decimal_value(decimal_digits(n)) == n,
    decreases n,
{
    if n < 10 {
        let d = decimal_digits(n);
        assert(d.drop_last().len() == 0);
        assert(decimal_value(d) == decimal_value(d.drop_last()) * 10 + digit_value(d.last()));
    } else {
        lemma_decimal_digits(n / 10);
        let d = decimal_digits(n);
        let head = decimal_digits(n / 10);
        assert(d.drop_last() =~= head);
        assert(d.last() == digit_char(n % 10));
        assert forall|i: int| 0 <= i < d.len() implies is_digit(#[trigger] d[i]) by {
            if i < head.len() {
                assert(d[i] == head[i]);
            }
        }
    }
}

/// Text without a separator, put behind a text, lengthens its last piece.
pub proof fn lemma_split_append(s: Seq<char>, t: Seq<char>, sep: char)
    requires
        forall|i: int| 0 <= i < t.len() ==> t[i] != sep,
    ensures
        split_seq(s + t, sep) == split_seq(s, sep).drop_last().push(split_seq(s, sep).last() + t),
    decreases t.len(),
{
    lemma_split_nonempty(s, sep);
    let a = split_seq(s, sep);
    if t.len() == 0 {
        assert(s + t =~= s);
        assert(a.last() + t =~= a.last());
        assert(a.drop_last().push(a.last()) =~= a);
    } else {
        let u = t.drop_last();
        lemma_split_append(s, u, sep);
        assert((s + t).drop_last() =~= s + u);
        assert((s + t).last() == t.last());
        let rest = split_seq(s + u, sep);
        assert(rest.drop_last() =~= a.drop_last());
        assert(rest.last().push(t.last()) =~= a.last() + t);
    }
}

/// The pieces put together again, with a separator between each two.
pub open spec fn joined(parts: Seq<Seq<char>>, sep: char) -> Seq<char>
    decreases parts.len(),
{
    if parts.len() == 0 {
        Seq::<char>::empty()
    } else if parts.len() == 1 {
        parts[0]
    } else {
        joined(parts.drop_last(), sep).push(sep) + parts.last()
    }
}

/// The pieces of a text hold no separator, and put together again with
/// separators between them they are the text.
pub proof fn lemma_split_joins(s: Seq<char>, sep: char)
    ensures
        joined(split_seq(s, sep), sep) == s,
        forall|i: int, k: int|
            0 <= i < split_seq(s, sep).len() && 0 <= k < split_seq(s, sep)[i].len() ==> (
            #[trigger] split_seq(s, sep)[i][k]) != sep,
    decreases s.len(),
{
    let parts = split_seq(s, sep);
    if s.len() == 0 {
        assert(joined(parts, sep) =~= s);
    } else {
        let before = s.drop_last();
        let rest = split_seq(before, sep);
        lemma_split_joins(before, sep);
        lemma_split_nonempty(before, sep);
        if s.last() == sep {
            assert(parts.len() >= 2);
            assert(parts.drop_last() =~= rest);
            assert(joined(parts, sep) == before.push(sep) + Seq::<char>::empty());
            assert(before.push(sep) + Seq::<char>::empty() =~= s);
            assert forall|i: int, k: int|
                0 <= i < parts.len() && 0 <= k < parts[i].len() implies (#[trigger] parts[i][k])
                != sep by {
                assert(parts[i] == rest[i]);
            }
        } else {
            let longer = rest.last().push(s.last());
            assert(parts.last() == longer);
            if rest.len() == 1 {
                assert(parts.len() == 1);
                assert(before == rest[0]);
                assert(s =~= before.push(s.last()));
                assert(joined(parts, sep) == parts[0]);
            } else {
                let head = joined(rest.drop_last(), sep).push(sep);
                assert(parts.len() == rest.len());
                assert(parts.drop_last() =~= rest.drop_last());
                assert(before == head + rest.last());
                assert(joined(parts, sep) == head + longer);
                assert(s =~= before.push(s.last()));
                assert(head + longer =~= (head + rest.last()).push(s.last()));
            }
            assert forall|i: int, k: int|
                0 <= i < parts.len() && 0 <= k < parts[i].len() implies (#[trigger] parts[i][k])
                != sep by {
                if i < parts.len() - 1 {
                    assert(parts[i] == rest[i]);
                } else if k < rest.last().len() {
                    assert(parts[i][k] == rest[rest.len() - 1][k]);
                }
            }
        }
    }
}

/// Texts that hold no separator, put together with separators between
/// them, split into themselves.
pub proof fn lemma_split_of_joined(parts: Seq<Seq<char>>, sep: char)
    requires
        parts.len() > 0,
        forall|i: int, k: int|
            0 <= i < parts.len() && 0 <= k < parts[i].len() ==> (#[trigger] parts[i][k]) != sep,
    ensures
        split_seq(joined(parts, sep), sep) == parts,
    decreases parts.len(),
{
    let empty = Seq::<char>::empty();
    if parts.len() == 1 {
        lemma_split_append(empty, parts[0], sep);
        assert(empty + parts[0] =~= parts[0]);
        assert(split_seq(parts[0], sep) =~= parts);
    } else {
        let before = parts.drop_last();
        assert forall|i: int, k: int|
            0 <= i < before.len() && 0 <= k < before[i].len() implies (#[trigger] before[i][k])
            != sep by {
            assert(before[i] == parts[i]);
        }
        lemma_split_of_joined(before, sep);
        let head = joined(before, sep).push(sep);
        assert(head.drop_last() =~= joined(before, sep));
        assert(split_seq(head, sep) =~= before.push(empty));
        lemma_split_append(head, parts.last(), sep);
        assert(empty + parts.last() =~= parts.last());
        assert(split_seq(head + parts.last(), sep) =~= parts);
    }
}

} // verus!
