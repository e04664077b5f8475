//! A small XML-tag parser: identifiers, literal matchers, repetition,
//! quoted attribute values and attribute lists.  Parsers are values with a
//! `parse` method; each consumes a prefix of its input and returns the
//! remainder and a value, or the input unchanged on failure.

use vstd::prelude::*;

use crate::text::{chars_to_string_range, tag_matches, to_chars};

verus! {

broadcast use vstd::std_specs::vec::axiom_vec_index_decreases;

/// Whether `char::is_alphabetic` holds of a character; it depends on the
/// character alone.
pub uninterp spec fn is_uni_alpha(c: char) -> bool;

/// Whether `char::is_alphanumeric` holds of a character; it depends on
/// the character alone.
pub uninterp spec fn is_uni_alnum(c: char) -> bool;

/// Whether `char::is_whitespace` holds of a character; it depends on the
/// character alone.
pub uninterp spec fn is_uni_ws(c: char) -> bool;

/// Relies on `char::is_alphabetic`: the Unicode `Alphabetic` property,
/// which for ASCII holds exactly of the letters.
#[verifier::external_body]
pub(crate) fn is_uni_alpha_exec(c: char) -> (r: bool)
    ensures
        r == is_uni_alpha(c),
        (c as u32) < 128 ==> (r <==> ('a' <= c && c <= 'z') || ('A' <= c && c <= 'Z')),
{
    c.is_alphabetic()
}

/// Relies on `char::is_alphanumeric`: alphabetic or numeric, which for
/// ASCII holds exactly of the letters and digits.
#[verifier::external_body]
pub(crate) fn is_uni_alnum_exec(c: char) -> (r: bool)
    ensures
        r == is_uni_alnum(c),
        (c as u32) < 128 ==> (r <==> ('a' <= c && c <= 'z') || ('A' <= c && c <= 'Z') || ('0' <= c
            && c <= '9')),
{
    c.is_alphanumeric()
}

/// Relies on `char::is_whitespace`: the Unicode `White_Space` property,
/// which for ASCII holds exactly of space and the control characters
/// `\t`, `\n`, vertical tab, form feed and `\r`.
#[verifier::external_body]
pub(crate) fn is_uni_ws_exec(c: char) -> (r: bool)
    ensures
        r == is_uni_ws(c),
        (c as u32) < 128 ==> (r <==> (c == ' ' || ('\u{9}' <= c && c <= '\u{d}'))),
{
    c.is_whitespace()
}

/// A parsed XML element: its tag name, attributes and child elements.
#[derive(Debug, PartialEq, Eq)]
pub struct Element {
    pub name: String,
    pub attributes: Vec<(String, String)>,
    pub children: Vec<Element>,
}

/// Consumes a single letter `a` at the start of the input.
pub fn the_letter_a(input: &str) -> (r: Result<(String, ()), String>)
    ensures
        r matches Ok(p) ==> input@.len() > 0 && input@[0] == 'a' && p.0@ == input@.skip(1),
        r is Err <==> !(input@.len() > 0 && input@[0] == 'a'),
        r matches Err(e) ==> e@ == input@,
{
    let n = input.unicode_len();
    if n > 0 && input.get_char(0) == 'a' {
        Ok((input.substring_char(1, n).to_owned(), ()))
    } else {
        Err(input.to_owned())
    }
}

/// The characters an identifier may continue with: alphanumeric or `-`.
pub open spec fn is_toy_ident_char(c: char) -> bool {
    is_uni_alnum(c) || c == '-'
}

/// The position of the first character at or after `i` outside the
/// identifier-continuation class.
pub open spec fn run_end_toy_ident(s: Seq<char>, i: int) -> int
    decreases s.len() - i,
{
    if 0 <= i < s.len() && is_toy_ident_char(s[i]) {
        run_end_toy_ident(s, i + 1)
    } else {
        i
    }
}

/// The run scanner stays in bounds.
pub proof fn lemma_run_end_toy_ident_bounds(s: Seq<char>, i: int)
    requires
        0 <= i <= s.len(),
    ensures
        i <= run_end_toy_ident(s, i) <= s.len(),
    decreases s.len() - i,
{
    if i < s.len() && is_toy_ident_char(s[i]) {
        lemma_run_end_toy_ident_bounds(s, i + 1);
    }
}

/// An identifier at `i`: an alphabetic first character, continued by
/// alphanumerics and dashes.
pub open spec fn sp_toy_identifier(s: Seq<char>, i: int) -> Option<(int, Seq<char>)> {
    if 0 <= i < s.len() && is_uni_alpha(s[i]) {
        let e = run_end_toy_ident(s, i + 1);
        Some((e, s.subrange(i, e)))
    } else {
        None
    }
}

/// Scans a toy-identifier continuation run.
fn skip_toy_ident(s: &[char], i: usize) -> (r: usize)
    requires
        i <= s@.len(),
    ensures
        r == run_end_toy_ident(s@, i as int),
        i <= r <= s@.len(),
{
    proof {
        lemma_run_end_toy_ident_bounds(s@, i as int);
    }
    let mut j = i;
    while j < s.len() && (is_uni_alnum_exec(s[j]) || s[j] == '-')
        invariant
            i <= j <= s@.len(),
            run_end_toy_ident(s@, i as int) == run_end_toy_ident(s@, j as int),
        decreases s@.len() - j,
    {
        j += 1;
    }
    j
}

/// Parses an identifier at `i`, as [`sp_toy_identifier`] describes.
fn toy_identifier_at(s: &[char], i: usize) -> (r: Option<(usize, String)>)
    requires
        i <= s@.len(),
    ensures
        r matches Some(p) ==> sp_toy_identifier(s@, i as int) == Some((p.0 as int, p.1@)) && i
            < p.0 <= s@.len(),
        r is None ==> sp_toy_identifier(s@, i as int) is None,
{
    if i < s.len() && is_uni_alpha_exec(s[i]) {
        let e = skip_toy_ident(s, i + 1);
        Some((e, chars_to_string_range(s, i, e)))
    } else {
        None
    }
}

/// Parses an identifier: an alphabetic character followed by
/// alphanumerics and dashes, as [`sp_toy_identifier`] describes.
pub fn identifier(input: &str) -> (r: Result<(String, String), String>)
    ensures
        r matches Ok(p) ==> sp_toy_identifier(input@, 0) matches Some(q) && p.0@ == input@.skip(
            q.0,
        ) && p.1@ == q.1,
        r is Err <==> sp_toy_identifier(input@, 0) is None,
        r matches Err(e) ==> e@ == input@,
{
    let s = to_chars(input);
    let v = s.as_slice();
    match toy_identifier_at(v, 0) {
        Some((j, name)) => {
            let rem = chars_to_string_range(v, j, v.len());
            proof {
                assert(v@.subrange(j as int, v@.len() as int) =~= input@.skip(j as int));
            }
            Ok((rem, name))
        },
        None => Err(input.to_owned()),
    }
}

/// A parser for one fixed piece of text.
pub struct LiteralParser {
    pub expected: String,
}

/// A parser that consumes `expected` exactly, yielding nothing.
pub fn match_literal(expected: &str) -> (r: LiteralParser)
    ensures
        r.expected@ == expected@,
{
    LiteralParser { expected: expected.to_owned() }
}

impl LiteralParser {
    /// Consumes the expected text at the start of `input`, or fails
    /// returning the input unchanged.
    pub fn parse(&self, input: &str) -> (r: Result<(String, ()), String>)
        ensures
            r matches Ok(p) ==> tag_matches(input@, 0, self.expected@) && p.0@ == input@.skip(
                self.expected@.len() as int,
            ),
            r is Err <==> !tag_matches(input@, 0, self.expected@),
            r matches Err(e) ==> e@ == input@,
    {
        let s = to_chars(input);
        let v = s.as_slice();
        match crate::text::tag(v, 0, self.expected.as_str()) {
            Some(j) => {
                let rem = chars_to_string_range(v, j, v.len());
                proof {
                    assert(v@.subrange(j as int, v@.len() as int) =~= input@.skip(j as int));
                }
                Ok((rem, ()))
            },
            None => Err(input.to_owned()),
        }
    }
}

/// How many times the expected text repeats at the start of `s`, and
/// where the repetition ends.
pub open spec fn sp_repeat(s: Seq<char>, i: int, k: Seq<char>) -> (int, int)
    decreases s.len() - i,
    when 0 <= i <= s.len() && k.len() > 0
{
    if tag_matches(s, i, k) && i + k.len() <= s.len() {
        let r = sp_repeat(s, i + k.len(), k);
        (r.0, r.1 + 1)
    } else {
        (i, 0)
    }
}

/// A parser applying a literal parser as many times as it matches.  The
/// value is one unit per repetition; with `at_least_one` the whole parse
/// fails unless the first repetition matches.
pub struct RepeatParser {
    pub item: LiteralParser,
    pub at_least_one: bool,
}

/// One or more repetitions of a literal.
pub fn one_or_more(item: LiteralParser) -> (r: RepeatParser)
    ensures
        r.item == item,
        r.at_least_one,
{
    RepeatParser { item, at_least_one: true }
}

/// Zero or more repetitions of a literal.
pub fn zero_or_more(item: LiteralParser) -> (r: RepeatParser)
    ensures
        r.item == item,
        !r.at_least_one,
{
    RepeatParser { item, at_least_one: false }
}

impl RepeatParser {
    /// Applies the literal repeatedly, as [`sp_repeat`] describes;
    /// an empty literal never matches.
    pub fn parse(&self, input: &str) -> (r: Result<(String, Vec<()>), String>)
        ensures
            self.item.expected@.len() == 0 ==> (r matches Err(e) && e@ == input@),
            self.item.expected@.len() > 0 && (self.at_least_one ==> sp_repeat(
                input@,
                0,
                self.item.expected@,
            ).1 > 0) ==> (r matches Ok(p) && p.0@ == input@.skip(
                sp_repeat(input@, 0, self.item.expected@).0,
            ) && p.1@.len() == sp_repeat(input@, 0, self.item.expected@).1),
            self.item.expected@.len() > 0 && self.at_least_one && sp_repeat(
                input@,
                0,
                self.item.expected@,
            ).1 == 0 ==> (r matches Err(e) && e@ == input@),
    {
        let s = to_chars(input);
        let v = s.as_slice();
        let k = self.item.expected.as_str();
        let klen = k.unicode_len();
        if klen == 0 {
            return Err(input.to_owned());
        }
        let mut j: usize = 0;
        let mut acc: Vec<()> = Vec::new();
        loop
            invariant
                j <= v@.len(),
                klen == k@.len(),
                k@ == self.item.expected@,
                klen > 0,
                sp_repeat(v@, 0, k@).0 == sp_repeat(v@, j as int, k@).0,
                sp_repeat(v@, 0, k@).1 == acc@.len() + sp_repeat(v@, j as int, k@).1,
            ensures
                sp_repeat(v@, 0, k@).0 == j,
                sp_repeat(v@, 0, k@).1 == acc@.len(),
                j <= v@.len(),
            decreases v@.len() - j,
        {
            match crate::text::tag(v, j, k) {
                Some(j2) => {
                    acc.push(());
                    j = j2;
                },
                None => {
                    break;
                },
            }
        }
        if self.at_least_one && acc.len() == 0 {
            return Err(input.to_owned());
        }
        let rem = chars_to_string_range(v, j, v.len());
        proof {
            assert(v@.subrange(j as int, v@.len() as int) =~= input@.skip(j as int));
        }
        Ok((rem, acc))
    }
}

/// The position of the first quote character at or after `i` (or the end
/// of `s`).
pub open spec fn run_end_unquoted(s: Seq<char>, i: int) -> int
    decreases s.len() - i,
{
    if 0 <= i < s.len() && s[i] != '"' {
        run_end_unquoted(s, i + 1)
    } else {
        i
    }
}

/// The scanner stays in bounds and stops at a quote or the end.
pub proof fn lemma_run_end_unquoted_bounds(s: Seq<char>, i: int)
    requires
        0 <= i <= s.len(),
    ensures
        i <= run_end_unquoted(s, i) <= s.len(),
        run_end_unquoted(s, i) < s.len() ==> s[run_end_unquoted(s, i)] == '"',
    decreases s.len() - i,
{
    if i < s.len() && s[i] != '"' {
        lemma_run_end_unquoted_bounds(s, i + 1);
    }
}

/// A double-quoted value with no escapes: `"` up to the next `"`.
pub open spec fn sp_xml_quoted(s: Seq<char>, i: int) -> Option<(int, Seq<char>)> {
    if 0 <= i < s.len() && s[i] == '"' {
        let e = run_end_unquoted(s, i + 1);
        if e < s.len() {
            Some((e + 1, s.subrange(i + 1, e)))
        } else {
            None
        }
    } else {
        None
    }
}

/// Parses a quoted value at `i`, as [`sp_xml_quoted`] describes.
fn xml_quoted_at(s: &[char], i: usize) -> (r: Option<(usize, String)>)
    requires
        i <= s@.len(),
    ensures
        r matches Some(p) ==> sp_xml_quoted(s@, i as int) == Some((p.0 as int, p.1@)) && i < p.0
            <= s@.len(),
        r is None ==> sp_xml_quoted(s@, i as int) is None,
{
    if i < s.len() && s[i] == '"' {
        proof {
            lemma_run_end_unquoted_bounds(s@, i as int + 1);
        }
        let mut e = i + 1;
        while e < s.len() && s[e] != '"'
            invariant
                i + 1 <= e <= s@.len(),
                run_end_unquoted(s@, i as int + 1) == run_end_unquoted(s@, e as int),
            decreases s@.len() - e,
        {
            e += 1;
        }
        if e < s.len() {
            Some((e + 1, chars_to_string_range(s, i + 1, e)))
        } else {
            None
        }
    } else {
        None
    }
}

/// A parser for one double-quoted attribute value.
pub struct QuotedStringParser {
}

/// A parser for a double-quoted value without escapes.
pub fn quoted_string() -> QuotedStringParser {
    QuotedStringParser {  }
}

impl QuotedStringParser {
    /// Parses a quoted value at the start of `input`, as
    /// [`sp_xml_quoted`] describes.
    pub fn parse(&self, input: &str) -> (r: Result<(String, String), String>)
        ensures
            r matches Ok(p) ==> sp_xml_quoted(input@, 0) matches Some(q) && p.0@ == input@.skip(
                q.0,
            ) && p.1@ == q.1,
            r is Err <==> sp_xml_quoted(input@, 0) is None,
            r matches Err(e) ==> e@ == input@,
    {
        let s = to_chars(input);
        let v = s.as_slice();
        match xml_quoted_at(v, 0) {
            Some((j, value)) => {
                let rem = chars_to_string_range(v, j, v.len());
                proof {
                    assert(v@.subrange(j as int, v@.len() as int) =~= input@.skip(j as int));
                }
                Ok((rem, value))
            },
            None => Err(input.to_owned()),
        }
    }
}

/// The position of the first non-whitespace character at or after `i`.
pub open spec fn run_end_uni_ws(s: Seq<char>, i: int) -> int
    decreases s.len() - i,
{
    if 0 <= i < s.len() && is_uni_ws(s[i]) {
        run_end_uni_ws(s, i + 1)
    } else {
        i
    }
}

/// The scanner stays in bounds.
pub proof fn lemma_run_end_uni_ws_bounds(s: Seq<char>, i: int)
    requires
        0 <= i <= s.len(),
    ensures
        i <= run_end_uni_ws(s, i) <= s.len(),
    decreases s.len() - i,
{
    if i < s.len() && is_uni_ws(s[i]) {
        lemma_run_end_uni_ws_bounds(s, i + 1);
    }
}

/// One attribute after mandatory whitespace: `name="value"`.
pub open spec fn sp_attr_item(s: Seq<char>, i: int) -> Option<(int, (Seq<char>, Seq<char>))> {
    if 0 <= i < s.len() && is_uni_ws(s[i]) {
        let a = run_end_uni_ws(s, i);
        match sp_toy_identifier(s, a) {
            None => None,
            Some((b, name)) => {
                if b < s.len() && s[b] == '=' {
                    match sp_xml_quoted(s, b + 1) {
                        None => None,
                        Some((c, value)) => Some((c, (name, value))),
                    }
                } else {
                    None
                }
            },
        }
    } else {
        None
    }
}

/// A matched attribute consumes at least one character.
pub proof fn lemma_sp_attr_item_bounds(s: Seq<char>, i: int)
    requires
        0 <= i <= s.len(),
    ensures
        sp_attr_item(s, i) matches Some(r) ==> i < r.0 <= s.len(),
{
    if 0 <= i < s.len() && is_uni_ws(s[i]) {
        lemma_run_end_uni_ws_bounds(s, i);
        let a = run_end_uni_ws(s, i);
        match sp_toy_identifier(s, a) {
            None => {},
            Some((b, _name)) => {
                lemma_run_end_toy_ident_bounds(s, a + 1);
                if b < s.len() && s[b] == '=' {
                    if b + 1 < s.len() && s[b + 1] == '"' {
                        lemma_run_end_unquoted_bounds(s, b + 2);
                    }
                }
            },
        }
    }
}

/// Zero or more whitespace-separated attributes, committed greedily.
pub open spec fn sp_attr_list(s: Seq<char>, i: int) -> (int, Seq<(Seq<char>, Seq<char>)>)
    decreases s.len() - i,
    when 0 <= i <= s.len()
    via sp_attr_list_dec
{
    match sp_attr_item(s, i) {
        Some((j, kv)) => {
            let r = sp_attr_list(s, j);
            (r.0, seq![kv] + r.1)
        },
        None => (i, Seq::empty()),
    }
}

#[via_fn]
proof fn sp_attr_list_dec(s: Seq<char>, i: int) {
    lemma_sp_attr_item_bounds(s, i);
}

/// The views of a vector of attribute pairs, in order.
pub open spec fn pairs_view(v: Seq<(String, String)>) -> Seq<(Seq<char>, Seq<char>)> {
    Seq::new(v.len(), |k: int| (v[k].0@, v[k].1@))
}

/// Parses one attribute at `i`, as [`sp_attr_item`] describes.
fn attr_item_at(s: &[char], i: usize) -> (r: Option<(usize, (String, String))>)
    requires
        i <= s@.len(),
    ensures
        r matches Some(p) ==> sp_attr_item(s@, i as int) == Some((p.0 as int, (p.1.0@, p.1.1@)))
            && i < p.0 <= s@.len(),
        r is None ==> sp_attr_item(s@, i as int) is None,
{
    if i < s.len() && is_uni_ws_exec(s[i]) {
        proof {
            lemma_run_end_uni_ws_bounds(s@, i as int);
        }
        let mut a = i;
        while a < s.len() && is_uni_ws_exec(s[a])
            invariant
                i <= a <= s@.len(),
                run_end_uni_ws(s@, i as int) == run_end_uni_ws(s@, a as int),
            decreases s@.len() - a,
        {
            a += 1;
        }
        let (b, name) = match toy_identifier_at(s, a) {
            Some(p) => p,
            None => {
                return None;
            },
        };
        if b < s.len() && s[b] == '=' {
            match xml_quoted_at(s, b + 1) {
                Some((c, value)) => Some((c, (name, value))),
                None => None,
            }
        } else {
            None
        }
    } else {
        None
    }
}

/// A parser for a whitespace-separated attribute list.
pub struct AttributesParser {
}

/// A parser for zero or more attributes, each preceded by whitespace.
pub fn attributes() -> AttributesParser {
    AttributesParser {  }
}

impl AttributesParser {
    /// Parses the attribute list at the start of `input`, as
    /// [`sp_attr_list`] describes; it never fails.
    pub fn parse(&self, input: &str) -> (r: Result<(String, Vec<(String, String)>), String>)
        ensures
            r matches Ok(p) ==> p.0@ == input@.skip(sp_attr_list(input@, 0).0) && pairs_view(
                p.1@,
            ) == sp_attr_list(input@, 0).1,
            r is Ok,
    {
        let s = to_chars(input);
        let v = s.as_slice();
        let mut j: usize = 0;
        let mut acc: Vec<(String, String)> = Vec::new();
        loop
            invariant
                j <= v@.len(),
                sp_attr_list(v@, 0).0 == sp_attr_list(v@, j as int).0,
                sp_attr_list(v@, 0).1 == pairs_view(acc@) + sp_attr_list(v@, j as int).1,
            ensures
                sp_attr_list(v@, 0).0 == j,
                sp_attr_list(v@, 0).1 == pairs_view(acc@),
                j <= v@.len(),
            decreases v@.len() - j,
        {
            let ghost acc0 = acc@;
            match attr_item_at(v, j) {
                Some((j2, kv)) => {
                    let ghost kvv = (kv.0@, kv.1@);
                    acc.push(kv);
                    proof {
                        assert(pairs_view(acc@) + sp_attr_list(v@, j2 as int).1 =~= pairs_view(
                            acc0,
                        ) + (seq![kvv] + sp_attr_list(v@, j2 as int).1));
                    }
                    j = j2;
                },
                None => {
                    proof {
                        assert(pairs_view(acc@) + sp_attr_list(v@, j as int).1 =~= pairs_view(
                            acc@,
                        ));
                    }
                    break;
                },
            }
        }
        let rem = chars_to_string_range(v, j, v.len());
        proof {
            assert(v@.subrange(j as int, v@.len() as int) =~= input@.skip(j as int));
        }
        Ok((rem, acc))
    }
}

/// Consumes any single character.
pub fn any_char(input: &str) -> (r: Result<(String, char), String>)
    ensures
        r matches Ok(p) ==> input@.len() > 0 && p.1 == input@[0] && p.0@ == input@.skip(1),
        r is Err <==> input@.len() == 0,
        r matches Err(e) ==> e@ == input@,
{
    let n = input.unicode_len();
    if n > 0 {
        Ok((input.substring_char(1, n).to_owned(), input.get_char(0)))
    } else {
        Err(input.to_owned())
    }
}

/// A parser filtered by a predicate on its value.
pub struct PredParser<P, F> {
    pub inner: P,
    pub test: F,
}

/// Keeps only the results of `inner` whose value satisfies `test`; any
/// other outcome fails with the input unchanged.
pub fn pred<P: Fn(&str) -> Result<(String, char), String>, F: Fn(&char) -> bool>(
    inner: P,
    test: F,
) -> (r: PredParser<P, F>)
    ensures
        r.inner == inner,
        r.test == test,
{
    PredParser { inner, test }
}

impl<P: Fn(&str) -> Result<(String, char), String>, F: Fn(&char) -> bool> PredParser<P, F> {
    /// Runs the inner parser; succeeds with its result exactly when the
    /// predicate accepts the parsed value.
    pub fn parse(&self, input: &str) -> (r: Result<(String, char), String>)
        requires
            call_requires(self.inner, (input,)),
            forall|c: &char| call_requires(self.test, (c,)),
        ensures
            r matches Ok(p) ==> (call_ensures(self.inner, (input,), Ok(p)) && call_ensures(
                self.test,
                (&p.1,),
                true,
            )),
            r matches Err(e) ==> e@ == input@,
    {
        match (self.inner)(input) {
            Ok((rest, c)) => {
                if (self.test)(&c) {
                    Ok((rest, c))
                } else {
                    Err(input.to_owned())
                }
            },
            Err(_e) => Err(input.to_owned()),
        }
    }
}

/// The sequence of a literal and a second parser, keeping only the
/// second parser's value.
pub struct RightParser<F> {
    pub first: LiteralParser,
    pub second: F,
}

/// After `first` matches, hands the remainder to `second` and keeps its
/// value.
pub fn right<F: Fn(&str) -> Result<(String, String), String>>(first: LiteralParser, second: F) -> (r:
    RightParser<F>)
    ensures
        r.first == first,
        r.second == second,
{
    RightParser { first, second }
}

impl<F: Fn(&str) -> Result<(String, String), String>> RightParser<F> {
    /// Consumes the literal, then returns whatever the second parser
    /// returns on the remainder; fails with the input unchanged when the
    /// literal does not match.
    pub fn parse(&self, input: &str) -> (r: Result<(String, String), String>)
        requires
            forall|x: &str| call_requires(self.second, (x,)),
        ensures
            tag_matches(input@, 0, self.first.expected@) ==> (exists|mid: &str|
                mid@ == input@.skip(self.first.expected@.len() as int) && call_ensures(
                    self.second,
                    (mid,),
                    r,
                )),
            !tag_matches(input@, 0, self.first.expected@) ==> (r matches Err(e) && e@ == input@),
    {
        let s = to_chars(input);
        let v = s.as_slice();
        match crate::text::tag(v, 0, self.first.expected.as_str()) {
            Some(j) => {
                let mid = chars_to_string_range(v, j, v.len());
                proof {
                    assert(v@.subrange(j as int, v@.len() as int) =~= input@.skip(j as int));
                }
                (self.second)(mid.as_str())
            },
            None => Err(input.to_owned()),
        }
    }
}

/// The sequence of a literal and a second parser, keeping both values.
pub struct PairParser<F> {
    pub first: LiteralParser,
    pub second: F,
}

/// After `first` matches, hands the remainder to `second` and pairs the
/// two values.
pub fn pair<F: Fn(&str) -> Result<(String, String), String>>(first: LiteralParser, second: F) -> (r:
    PairParser<F>)
    ensures
        r.first == first,
        r.second == second,
{
    PairParser { first, second }
}

impl<F: Fn(&str) -> Result<(String, String), String>> PairParser<F> {
    /// Consumes the literal, then the second parser's input; the value
    /// pairs the literal's unit value with the second parser's value.
    pub fn parse(&self, input: &str) -> (r: Result<(String, ((), String)), String>)
        requires
            forall|x: &str| call_requires(self.second, (x,)),
        ensures
            tag_matches(input@, 0, self.first.expected@) ==> (exists|
                mid: &str,
                rr: Result<(String, String), String>,
            |
                mid@ == input@.skip(self.first.expected@.len() as int) && #[trigger] call_ensures(
                    self.second,
                    (mid,),
                    rr,
                ) && (match rr {
                    Ok(q) => r == Ok::<(String, ((), String)), String>((q.0, ((), q.1))),
                    Err(e) => r == Err::<(String, ((), String)), String>(e),
                })),
            !tag_matches(input@, 0, self.first.expected@) ==> (r matches Err(e) && e@ == input@),
    {
        let s = to_chars(input);
        let v = s.as_slice();
        match crate::text::tag(v, 0, self.first.expected.as_str()) {
            Some(j) => {
                let mid = chars_to_string_range(v, j, v.len());
                proof {
                    assert(v@.subrange(j as int, v@.len() as int) =~= input@.skip(j as int));
                }
                match (self.second)(mid.as_str()) {
                    Ok((rest, value)) => Ok((rest, ((), value))),
                    Err(e) => Err(e),
                }
            },
            None => Err(input.to_owned()),
        }
    }
}

/// Spec-level mirror of [`Element`].
pub struct SpecElement {
    pub name: Seq<char>,
    pub attributes: Seq<(Seq<char>, Seq<char>)>,
    pub children: Seq<SpecElement>,
}

/// The view of an element, children included.
pub open spec fn elem_view(e: Element) -> SpecElement
    decreases e,
{
    SpecElement {
        name: e.name@,
        attributes: pairs_view(e.attributes@),
        children: Seq::new(
            e.children.len() as nat,
            |k: int|
                if 0 <= k < e.children.len() {
                    elem_view(e.children[k])
                } else {
                    SpecElement {
                        name: Seq::empty(),
                        attributes: Seq::empty(),
                        children: Seq::empty(),
                    }
                },
        ),
    }
}

/// The views of a vector of elements, in order.
pub open spec fn elems_view(v: Vec<Element>) -> Seq<SpecElement> {
    Seq::new(v.len() as nat, |k: int| elem_view(v[k]))
}

/// A closing tag `</name>`; the name is the value.
pub open spec fn sp_close_tag(s: Seq<char>, i: int) -> Option<(int, Seq<char>)> {
    if 0 <= i < s.len() && s[i] == '<' {
        if i + 1 < s.len() && s[i + 1] == '/' {
            match sp_toy_identifier(s, i + 2) {
                None => None,
                Some((c, name)) => if c < s.len() && s[c] == '>' {
                    Some((c + 1, name))
                } else {
                    None
                },
            }
        } else {
            None
        }
    } else {
        None
    }
}

/// An element without surrounding whitespace: `<name attrs...`, closed
/// either at once by `/>`, or by `>`, child elements, and a matching
/// `</name>` tag.
pub open spec fn sp_element_core(s: Seq<char>, i: int) -> Option<(int, SpecElement)>
    decreases s.len() - i, 0int,
    when 0 <= i <= s.len()
{
    if i < s.len() && s[i] == '<' {
        match sp_toy_identifier(s, i + 1) {
            None => None,
            Some((b, name)) => {
                let attrs = sp_attr_list(s, b);
                let c = attrs.0;
                if b <= c && c <= s.len() {
                    if c + 1 < s.len() && s[c] == '/' && s[c + 1] == '>' {
                        Some(
                            (
                                c + 2,
                                SpecElement { name, attributes: attrs.1, children: Seq::empty() },
                            ),
                        )
                    } else if c < s.len() && s[c] == '>' {
                        let d = c + 1;
                        if i < d <= s.len() {
                            let kids = sp_children(s, d);
                            let e = kids.0;
                            if d <= e && e <= s.len() {
                                match sp_close_tag(s, e) {
                                    None => None,
                                    Some((f, cname)) => if cname == name {
                                        Some(
                                            (
                                                f,
                                                SpecElement {
                                                    name,
                                                    attributes: attrs.1,
                                                    children: kids.1,
                                                },
                                            ),
                                        )
                                    } else {
                                        None
                                    },
                                }
                            } else {
                                None
                            }
                        } else {
                            None
                        }
                    } else {
                        None
                    }
                } else {
                    None
                }
            },
        }
    } else {
        None
    }
}

/// An element with leading and trailing whitespace skipped.
pub open spec fn sp_element(s: Seq<char>, i: int) -> Option<(int, SpecElement)>
    decreases s.len() - i, 1int,
    when 0 <= i <= s.len()
{
    let a = run_end_uni_ws(s, i);
    if i <= a && a <= s.len() {
        match sp_element_core(s, a) {
            Some((j, el)) => if j <= s.len() {
                Some((run_end_uni_ws(s, j), el))
            } else {
                None
            },
            None => None,
        }
    } else {
        None
    }
}

/// Zero or more whole elements, committed greedily.
pub open spec fn sp_children(s: Seq<char>, i: int) -> (int, Seq<SpecElement>)
    decreases s.len() - i, 2int,
    when 0 <= i <= s.len()
{
    match sp_element(s, i) {
        Some((j, el)) => if i < j && j <= s.len() {
            let r = sp_children(s, j);
            (r.0, seq![el] + r.1)
        } else {
            (i, Seq::empty())
        },
        None => (i, Seq::empty()),
    }
}

/// Skips whitespace, returning [`run_end_uni_ws`].
fn skip_uni_ws(s: &[char], i: usize) -> (r: usize)
    requires
        i <= s@.len(),
    ensures
        r == run_end_uni_ws(s@, i as int),
        i <= r <= s@.len(),
{
    proof {
        lemma_run_end_uni_ws_bounds(s@, i as int);
    }
    let mut j = i;
    while j < s.len() && is_uni_ws_exec(s[j])
        invariant
            i <= j <= s@.len(),
            run_end_uni_ws(s@, i as int) == run_end_uni_ws(s@, j as int),
        decreases s@.len() - j,
    {
        j += 1;
    }
    j
}

/// Parses an element without surrounding whitespace, as
/// [`sp_element_core`] describes.
fn element_core_at(s: &[char], i: usize) -> (r: Option<(usize, Element)>)
    requires
        i <= s@.len(),
    ensures
        r matches Some(p) ==> sp_element_core(s@, i as int) == Some((p.0 as int, elem_view(p.1)))
            && i < p.0 <= s@.len(),
        r is None ==> sp_element_core(s@, i as int) is None,
    decreases s@.len() - i, 0int,
{
    if !(i < s.len() && s[i] == '<') {
        return None;
    }
    let (b, name) = match toy_identifier_at(s, i + 1) {
        Some(p) => p,
        None => {
            return None;
        },
    };
    let mut attrs: Vec<(String, String)> = Vec::new();
    let mut c = b;
    loop
        invariant
            b <= c <= s@.len(),
            sp_attr_list(s@, b as int).0 == sp_attr_list(s@, c as int).0,
            sp_attr_list(s@, b as int).1 == pairs_view(attrs@) + sp_attr_list(s@, c as int).1,
        ensures
            sp_attr_list(s@, b as int).0 == c,
            sp_attr_list(s@, b as int).1 == pairs_view(attrs@),
            b <= c <= s@.len(),
        decreases s@.len() - c,
    {
        let ghost attrs0 = attrs@;
        match attr_item_at(s, c) {
            Some((c2, kv)) => {
                let ghost kvv = (kv.0@, kv.1@);
                attrs.push(kv);
                proof {
                    assert(pairs_view(attrs@) + sp_attr_list(s@, c2 as int).1 =~= pairs_view(
                        attrs0,
                    ) + (seq![kvv] + sp_attr_list(s@, c2 as int).1));
                }
                c = c2;
            },
            None => {
                proof {
                    assert(pairs_view(attrs@) + sp_attr_list(s@, c as int).1 =~= pairs_view(
                        attrs@,
                    ));
                }
                break;
            },
        }
    }
    if c < s.len() && c + 1 < s.len() && s[c] == '/' && s[c + 1] == '>' {
        let el = Element { name, attributes: attrs, children: Vec::new() };
        proof {
            assert(elem_view(el).children =~= Seq::<SpecElement>::empty());
            assert(elem_view(el).attributes =~= pairs_view(el.attributes@));
        }
        return Some((c + 2, el));
    }
    if !(c < s.len() && s[c] == '>') {
        return None;
    }
    let d = c + 1;
    let mut kids: Vec<Element> = Vec::new();
    let mut j = d;
    loop
        invariant
            i < d <= j <= s@.len(),
            sp_children(s@, d as int).0 == sp_children(s@, j as int).0,
            sp_children(s@, d as int).1 == elems_view(kids) + sp_children(s@, j as int).1,
        ensures
            sp_children(s@, d as int).0 == j,
            sp_children(s@, d as int).1 == elems_view(kids),
            d <= j <= s@.len(),
        decreases s@.len() - j, 3int,
    {
        let ghost kids0 = kids;
        match element_at(s, j) {
            Some((j2, el)) => {
                let ghost elv = elem_view(el);
                kids.push(el);
                proof {
                    assert(elems_view(kids) + sp_children(s@, j2 as int).1 =~= elems_view(kids0)
                        + (seq![elv] + sp_children(s@, j2 as int).1));
                }
                j = j2;
            },
            None => {
                proof {
                    assert(elems_view(kids) + sp_children(s@, j as int).1 =~= elems_view(kids));
                }
                break;
            },
        }
    }
    if !(j < s.len() && s[j] == '<') {
        return None;
    }
    if !(j + 1 < s.len() && s[j + 1] == '/') {
        return None;
    }
    let (f0, cname) = match toy_identifier_at(s, j + 2) {
        Some(p) => p,
        None => {
            return None;
        },
    };
    if !(f0 < s.len() && s[f0] == '>') {
        return None;
    }
    if !(cname == name) {
        return None;
    }
    let el = Element { name, attributes: attrs, children: kids };
    proof {
        assert(elem_view(el).children =~= elems_view(el.children));
        assert(elem_view(el).attributes =~= pairs_view(el.attributes@));
    }
    Some((f0 + 1, el))
}

/// Parses an element with surrounding whitespace skipped, as
/// [`sp_element`] describes.
fn element_at(s: &[char], i: usize) -> (r: Option<(usize, Element)>)
    requires
        i <= s@.len(),
    ensures
        r matches Some(p) ==> sp_element(s@, i as int) == Some((p.0 as int, elem_view(p.1))) && i
            < p.0 <= s@.len(),
        r is None ==> sp_element(s@, i as int) is None,
    decreases s@.len() - i, 1int,
{
    let a = skip_uni_ws(s, i);
    match element_core_at(s, a) {
        Some((j, el)) => Some((skip_uni_ws(s, j), el)),
        None => None,
    }
}

/// A parser for one whole XML element tree.
pub struct ElementParser {
}

/// A parser for an element and all its children, with whitespace
/// tolerated around every tag.
pub fn element() -> ElementParser {
    ElementParser {  }
}

impl ElementParser {
    /// Parses an element tree at the start of `input`, as [`sp_element`]
    /// describes.
    pub fn parse(&self, input: &str) -> (r: Result<(String, Element), String>)
        ensures
            r matches Ok(p) ==> sp_element(input@, 0) matches Some(q) && p.0@ == input@.skip(
                q.0,
            ) && elem_view(p.1) == q.1,
            r is Err <==> sp_element(input@, 0) is None,
            r matches Err(e) ==> e@ == input@,
    {
        let s = to_chars(input);
        let v = s.as_slice();
        match element_at(v, 0) {
            Some((j, el)) => {
                let rem = chars_to_string_range(v, j, v.len());
                proof {
                    assert(v@.subrange(j as int, v@.len() as int) =~= input@.skip(j as int));
                }
                Ok((rem, el))
            },
            None => Err(input.to_owned()),
        }
    }
}

} // verus!
