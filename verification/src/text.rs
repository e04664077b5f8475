//! Character-level helpers shared by all parsers: conversions between
//! `&str`/`String` and character vectors, ASCII classification, and
//! case-insensitive comparison of ASCII characters.

use vstd::prelude::*;

verus! {

/// The ASCII lower-case image of a character: `'A'..='Z'` map to
/// `'a'..='z'`, everything else is unchanged.
pub open spec fn lower_char(c: char) -> char {
    if 'A' <= c && c <= 'Z' {
        (((c as u8) + 32) as char)
    } else {
        c
    }
}

/// Whether two characters are equal up to ASCII case.
pub open spec fn eq_ignore_case(a: char, b: char) -> bool {
    lower_char(a) == lower_char(b)
}

/// ASCII decimal digit.
pub open spec fn is_digit_char(c: char) -> bool {
    '0' <= c && c <= '9'
}

/// ASCII letter or decimal digit.
pub open spec fn is_alnum_char(c: char) -> bool {
    ('a' <= c && c <= 'z') || ('A' <= c && c <= 'Z') || is_digit_char(c)
}

/// ASCII letter, decimal digit or underscore: the characters an unquoted
/// SQL identifier is made of.
pub open spec fn is_ident_char(c: char) -> bool {
    is_alnum_char(c) || c == '_'
}

/// Space or horizontal tab: the separators accepted between words on one line.
pub open spec fn is_space_char(c: char) -> bool {
    c == ' ' || c == '\t'
}

/// Space, tab, carriage return or line feed.
pub open spec fn is_multispace_char(c: char) -> bool {
    c == ' ' || c == '\t' || c == '\r' || c == '\n'
}

/// The position of the first character at or after `i` that is not a space
/// or tab (or the end of `s`).
pub open spec fn run_end_space(s: Seq<char>, i: int) -> int
    decreases s.len() - i,
{
    if 0 <= i < s.len() && is_space_char(s[i]) {
        run_end_space(s, i + 1)
    } else {
        i
    }
}

/// The position of the first character at or after `i` that is not
/// whitespace (or the end of `s`).
pub open spec fn run_end_multispace(s: Seq<char>, i: int) -> int
    decreases s.len() - i,
{
    if 0 <= i < s.len() && is_multispace_char(s[i]) {
        run_end_multispace(s, i + 1)
    } else {
        i
    }
}

/// The position of the first character at or after `i` that is not an
/// identifier character (or the end of `s`).
pub open spec fn run_end_ident(s: Seq<char>, i: int) -> int
    decreases s.len() - i,
{
    if 0 <= i < s.len() && is_ident_char(s[i]) {
        run_end_ident(s, i + 1)
    } else {
        i
    }
}

/// The position of the first character at or after `i` that is not an
/// ASCII letter or digit (or the end of `s`).
pub open spec fn run_end_alnum(s: Seq<char>, i: int) -> int
    decreases s.len() - i,
{
    if 0 <= i < s.len() && is_alnum_char(s[i]) {
        run_end_alnum(s, i + 1)
    } else {
        i
    }
}

/// The position of the first character at or after `i` that is not a
/// decimal digit (or the end of `s`).
pub open spec fn run_end_digit(s: Seq<char>, i: int) -> int
    decreases s.len() - i,
{
    if 0 <= i < s.len() && is_digit_char(s[i]) {
        run_end_digit(s, i + 1)
    } else {
        i
    }
}

/// Every run scanner stays between its starting point and the end of `s`,
/// and stops exactly at the first character outside its class.
pub proof fn lemma_run_end_space_bounds(s: Seq<char>, i: int)
    requires
        0 <= i <= s.len(),
    ensures
        i <= run_end_space(s, i) <= s.len(),
        forall|j: int| i <= j < run_end_space(s, i) ==> is_space_char(s[j]),
        run_end_space(s, i) < s.len() ==> !is_space_char(s[run_end_space(s, i)]),
    decreases s.len() - i,
{
    if i < s.len() && is_space_char(s[i]) {
        lemma_run_end_space_bounds(s, i + 1);
    }
}

/// See [`lemma_run_end_space_bounds`].
pub proof fn lemma_run_end_multispace_bounds(s: Seq<char>, i: int)
    requires
        0 <= i <= s.len(),
    ensures
        i <= run_end_multispace(s, i) <= s.len(),
        forall|j: int| i <= j < run_end_multispace(s, i) ==> is_multispace_char(s[j]),
        run_end_multispace(s, i) < s.len() ==> !is_multispace_char(s[run_end_multispace(s, i)]),
    decreases s.len() - i,
{
    if i < s.len() && is_multispace_char(s[i]) {
        lemma_run_end_multispace_bounds(s, i + 1);
    }
}

/// See [`lemma_run_end_space_bounds`].
pub proof fn lemma_run_end_ident_bounds(s: Seq<char>, i: int)
    requires
        0 <= i <= s.len(),
    ensures
        i <= run_end_ident(s, i) <= s.len(),
        forall|j: int| i <= j < run_end_ident(s, i) ==> is_ident_char(s[j]),
        run_end_ident(s, i) < s.len() ==> !is_ident_char(s[run_end_ident(s, i)]),
    decreases s.len() - i,
{
    if i < s.len() && is_ident_char(s[i]) {
        lemma_run_end_ident_bounds(s, i + 1);
    }
}

/// See [`lemma_run_end_space_bounds`].
pub proof fn lemma_run_end_alnum_bounds(s: Seq<char>, i: int)
    requires
        0 <= i <= s.len(),
    ensures
        i <= run_end_alnum(s, i) <= s.len(),
        forall|j: int| i <= j < run_end_alnum(s, i) ==> is_alnum_char(s[j]),
        run_end_alnum(s, i) < s.len() ==> !is_alnum_char(s[run_end_alnum(s, i)]),
    decreases s.len() - i,
{
    if i < s.len() && is_alnum_char(s[i]) {
        lemma_run_end_alnum_bounds(s, i + 1);
    }
}

/// See [`lemma_run_end_space_bounds`].
pub proof fn lemma_run_end_digit_bounds(s: Seq<char>, i: int)
    requires
        0 <= i <= s.len(),
    ensures
        i <= run_end_digit(s, i) <= s.len(),
        forall|j: int| i <= j < run_end_digit(s, i) ==> is_digit_char(s[j]),
        run_end_digit(s, i) < s.len() ==> !is_digit_char(s[run_end_digit(s, i)]),
    decreases s.len() - i,
{
    if i < s.len() && is_digit_char(s[i]) {
        lemma_run_end_digit_bounds(s, i + 1);
    }
}

/// Executable ASCII lower-casing, equal to [`lower_char`].
pub fn lower_char_exec(c: char) -> (r: char)
    ensures
        r == lower_char(c),
{
    if 'A' <= c && c <= 'Z' {
        ((c as u8) + 32) as char
    } else {
        c
    }
}

/// Executable test for [`is_digit_char`].
pub fn is_digit_char_exec(c: char) -> (r: bool)
    ensures
        r == is_digit_char(c),
{
    '0' <= c && c <= '9'
}

/// Executable test for [`is_alnum_char`].
pub fn is_alnum_char_exec(c: char) -> (r: bool)
    ensures
        r == is_alnum_char(c),
{
    ('a' <= c && c <= 'z') || ('A' <= c && c <= 'Z') || ('0' <= c && c <= '9')
}

/// Executable test for [`is_ident_char`].
pub fn is_ident_char_exec(c: char) -> (r: bool)
    ensures
        r == is_ident_char(c),
{
    is_alnum_char_exec(c) || c == '_'
}

/// Executable test for [`is_space_char`].
pub fn is_space_char_exec(c: char) -> (r: bool)
    ensures
        r == is_space_char(c),
{
    c == ' ' || c == '\t'
}

/// Executable test for [`is_multispace_char`].
pub fn is_multispace_char_exec(c: char) -> (r: bool)
    ensures
        r == is_multispace_char(c),
{
    c == ' ' || c == '\t' || c == '\r' || c == '\n'
}

/// Skips spaces and tabs, returning [`run_end_space`].
pub fn skip_space(s: &[char], i: usize) -> (r: usize)
    requires
        i <= s@.len(),
    ensures
        r == run_end_space(s@, i as int),
        i <= r <= s@.len(),
{
    proof {
        lemma_run_end_space_bounds(s@, i as int);
    }
    let mut j = i;
    while j < s.len() && is_space_char_exec(s[j])
        invariant
            i <= j <= s@.len(),
            run_end_space(s@, i as int) == run_end_space(s@, j as int),
        decreases s@.len() - j,
    {
        j += 1;
    }
    j
}

/// Skips all whitespace, returning [`run_end_multispace`].
pub fn skip_multispace(s: &[char], i: usize) -> (r: usize)
    requires
        i <= s@.len(),
    ensures
        r == run_end_multispace(s@, i as int),
        i <= r <= s@.len(),
{
    proof {
        lemma_run_end_multispace_bounds(s@, i as int);
    }
    let mut j = i;
    while j < s.len() && is_multispace_char_exec(s[j])
        invariant
            i <= j <= s@.len(),
            run_end_multispace(s@, i as int) == run_end_multispace(s@, j as int),
        decreases s@.len() - j,
    {
        j += 1;
    }
    j
}

/// Skips identifier characters, returning [`run_end_ident`].
pub fn skip_ident_chars(s: &[char], i: usize) -> (r: usize)
    requires
        i <= s@.len(),
    ensures
        r == run_end_ident(s@, i as int),
        i <= r <= s@.len(),
{
    proof {
        lemma_run_end_ident_bounds(s@, i as int);
    }
    let mut j = i;
    while j < s.len() && is_ident_char_exec(s[j])
        invariant
            i <= j <= s@.len(),
            run_end_ident(s@, i as int) == run_end_ident(s@, j as int),
        decreases s@.len() - j,
    {
        j += 1;
    }
    j
}

/// Skips ASCII letters and digits, returning [`run_end_alnum`].
pub fn skip_alnum(s: &[char], i: usize) -> (r: usize)
    requires
        i <= s@.len(),
    ensures
        r == run_end_alnum(s@, i as int),
        i <= r <= s@.len(),
{
    proof {
        lemma_run_end_alnum_bounds(s@, i as int);
    }
    let mut j = i;
    while j < s.len() && is_alnum_char_exec(s[j])
        invariant
            i <= j <= s@.len(),
            run_end_alnum(s@, i as int) == run_end_alnum(s@, j as int),
        decreases s@.len() - j,
    {
        j += 1;
    }
    j
}

/// Skips decimal digits, returning [`run_end_digit`].
pub fn skip_digits(s: &[char], i: usize) -> (r: usize)
    requires
        i <= s@.len(),
    ensures
        r == run_end_digit(s@, i as int),
        i <= r <= s@.len(),
{
    proof {
        lemma_run_end_digit_bounds(s@, i as int);
    }
    let mut j = i;
    while j < s.len() && is_digit_char_exec(s[j])
        invariant
            i <= j <= s@.len(),
            run_end_digit(s@, i as int) == run_end_digit(s@, j as int),
        decreases s@.len() - j,
    {
        j += 1;
    }
    j
}

/// Whether `k` occurs in `s` at position `i` when both sides are compared
/// after ASCII lower-casing.  On success the new position is `i + k.len()`.
pub open spec fn kw_matches(s: Seq<char>, i: int, k: Seq<char>) -> bool {
    &&& 0 <= i
    &&& i + k.len() <= s.len()
    &&& forall|j: int| 0 <= j < k.len() ==> lower_char(s[i + j]) == lower_char(k[j])
}

/// Whether `k` occurs in `s` at position `i`, compared exactly.
pub open spec fn tag_matches(s: Seq<char>, i: int, k: Seq<char>) -> bool {
    &&& 0 <= i
    &&& i + k.len() <= s.len()
    &&& forall|j: int| 0 <= j < k.len() ==> s[i + j] == k[j]
}

/// Case-insensitive keyword match; `Some(p)` leaves `p` just past the keyword.
pub fn keyword(s: &[char], i: usize, k: &str) -> (r: Option<usize>)
    requires
        i <= s@.len(),
    ensures
        r matches Some(p) ==> kw_matches(s@, i as int, k@) && p == i + k@.len(),
        r is None ==> !kw_matches(s@, i as int, k@),
{
    let n = k.unicode_len();
    let slen = s.len();
    if n > slen - i {
        return None;
    }
    let mut j: usize = 0;
    while j < n
        invariant
            i + n <= slen,
            slen == s@.len(),
            n == k@.len(),
            j <= n,
            forall|q: int| 0 <= q < j ==> lower_char(s@[i + q]) == lower_char(k@[q]),
        decreases n - j,
    {
        if lower_char_exec(s[i + j]) != lower_char_exec(k.get_char(j)) {
            return None;
        }
        j += 1;
    }
    Some(i + n)
}

/// Exact literal match; `Some(p)` leaves `p` just past the literal.
pub fn tag(s: &[char], i: usize, k: &str) -> (r: Option<usize>)
    requires
        i <= s@.len(),
    ensures
        r matches Some(p) ==> tag_matches(s@, i as int, k@) && p == i + k@.len(),
        r is None ==> !tag_matches(s@, i as int, k@),
{
    let n = k.unicode_len();
    let slen = s.len();
    if n > slen - i {
        return None;
    }
    let mut j: usize = 0;
    while j < n
        invariant
            i + n <= slen,
            slen == s@.len(),
            n == k@.len(),
            j <= n,
            forall|q: int| 0 <= q < j ==> s@[i + q] == k@[q],
        decreases n - j,
    {
        if s[i + j] != k.get_char(j) {
            return None;
        }
        j += 1;
    }
    Some(i + n)
}

/// The numeric value of the decimal digits `s[i..j]`, most significant first.
pub open spec fn digits_val(s: Seq<char>, i: int, j: int) -> nat
    decreases j - i,
{
    if i >= j {
        0
    } else {
        digits_val(s, i, j - 1) * 10 + (if is_digit_char(s[j - 1]) {
            (s[j - 1] as int - '0' as int)
        } else {
            0
        }) as nat
    }
}

/// Appending digits never decreases the value of a digit string.
pub proof fn lemma_digits_val_mono(s: Seq<char>, i: int, k: int, j: int)
    requires
        i <= k <= j,
    ensures
        digits_val(s, i, k) <= digits_val(s, i, j),
    decreases j - k,
{
    if k < j {
        lemma_digits_val_mono(s, i, k, j - 1);
    }
}

/// A decimal `u32` literal: one or more digits whose value fits in `u32`.
/// `None` when there is no digit at `i` or the value overflows.
pub open spec fn sp_u32(s: Seq<char>, i: int) -> Option<(int, u32)> {
    let e = run_end_digit(s, i);
    if e == i {
        None
    } else if digits_val(s, i, e) > u32::MAX {
        None
    } else {
        Some((e, digits_val(s, i, e) as u32))
    }
}

/// Parses a decimal `u32` at `i`, as [`sp_u32`] describes.
pub fn parse_u32_at(s: &[char], i: usize) -> (r: Option<(usize, u32)>)
    requires
        i <= s@.len(),
    ensures
        r matches Some(p) ==> sp_u32(s@, i as int) == Some((p.0 as int, p.1)) && i < p.0
            <= s@.len(),
        r is None ==> sp_u32(s@, i as int) is None,
{
    let e = skip_digits(s, i);
    if e == i {
        return None;
    }
    let mut acc: u64 = 0;
    let mut k = i;
    while k < e
        invariant
            i <= k <= e <= s@.len(),
            e == run_end_digit(s@, i as int),
            acc == digits_val(s@, i as int, k as int),
            acc <= u32::MAX,
        decreases e - k,
    {
        proof {
            lemma_run_end_digit_bounds(s@, i as int);
        }
        let d: u64 = (s[k] as u64) - 48;
        assert(is_digit_char(s@[k as int]));
        acc = acc * 10 + d;
        k += 1;
        if acc > 0xFFFF_FFFF {
            proof {
                lemma_digits_val_mono(s@, i as int, k as int, e as int);
            }
            return None;
        }
    }
    Some((e, acc as u32))
}

/// The characters of `s`, in order.
pub fn to_chars(s: &str) -> (r: Vec<char>)
    ensures
        r@ == s@,
{
    let n = s.unicode_len();
    let mut r: Vec<char> = Vec::new();
    let mut i: usize = 0;
    while i < n
        invariant
            n == s@.len(),
            i <= n,
            r@ == s@.subrange(0, i as int),
        decreases n - i,
    {
        r.push(s.get_char(i));
        i += 1;
        proof {
            assert(r@ =~= s@.subrange(0, i as int));
        }
    }
    proof {
        assert(r@ =~= s@);
    }
    r
}

/// Relies on `String::push`: appends one character to the string.
#[verifier::external_body]
pub(crate) fn push_char(s: &mut String, c: char)
    ensures
        final(s)@ == old(s)@.push(c),
{
    s.push(c)
}

/// A `String` holding exactly the characters `v[from..to]`.
pub fn chars_to_string_range(v: &[char], from: usize, to: usize) -> (r: String)
    requires
        from <= to <= v@.len(),
    ensures
        r@ == v@.subrange(from as int, to as int),
{
    let mut r = String::new();
    let mut i: usize = from;
    while i < to
        invariant
            from <= i <= to <= v@.len(),
            r@ == v@.subrange(from as int, i as int),
        decreases to - i,
    {
        push_char(&mut r, v[i]);
        i += 1;
        proof {
            assert(r@ =~= v@.subrange(from as int, i as int));
        }
    }
    r
}

/// A `String` holding exactly the characters of `v`.
pub fn chars_to_string(v: &[char]) -> (r: String)
    ensures
        r@ == v@,
{
    let mut r = String::new();
    let mut i: usize = 0;
    while i < v.len()
        invariant
            i <= v@.len(),
            r@ == v@.subrange(0, i as int),
        decreases v@.len() - i,
    {
        push_char(&mut r, v[i]);
        i += 1;
        proof {
            assert(r@ =~= v@.subrange(0, i as int));
        }
    }
    proof {
        assert(r@ =~= v@);
    }
    r
}

} // verus!
