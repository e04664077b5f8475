//! Quoted string literals with backslash escapes.
//!
//! A string literal is delimited by quotes and may contain plain characters
//! and the escapes `\n \r \t \\ \/ \"`, which decode to their literal
//! characters.  Decoding stops at the first character that is neither a
//! supported escape nor a plain character; the closing quote must follow
//! immediately, or the whole literal fails to parse.

use vstd::prelude::*;

use crate::text::{chars_to_string_range, to_chars};

verus! {

/// The characters allowed after a backslash.
pub open spec fn is_escape_code(c: char) -> bool {
    c == 'n' || c == 'r' || c == 't' || c == '\\' || c == '/' || c == '"'
}

/// What an escape code decodes to: `n`, `r` and `t` become control
/// characters; `\\`, `/` and `"` stand for themselves.
pub open spec fn escape_value(c: char) -> char {
    if c == 'n' {
        '\n'
    } else if c == 'r' {
        '\r'
    } else if c == 't' {
        '\t'
    } else {
        c
    }
}

/// A character that may appear unescaped inside a string literal: anything
/// but a quote, a backslash, a control character or a slash.
pub open spec fn is_plain_str_char(c: char) -> bool {
    c != '\'' && c != '"' && c != '\\' && c != '\n' && c != '\r' && c != '\t' && c != '/'
}

/// Decodes the body of a string literal starting at `i`: the longest
/// sequence of escapes and plain characters.  Returns the position where
/// decoding stopped and the decoded characters.
pub open spec fn sp_content(s: Seq<char>, i: int) -> (int, Seq<char>)
    decreases s.len() - i,
{
    if 0 <= i && i + 1 < s.len() && s[i] == '\\' && is_escape_code(s[i + 1]) {
        let r = sp_content(s, i + 2);
        (r.0, seq![escape_value(s[i + 1])] + r.1)
    } else if 0 <= i < s.len() && is_plain_str_char(s[i]) {
        let r = sp_content(s, i + 1);
        (r.0, seq![s[i]] + r.1)
    } else {
        (i, Seq::empty())
    }
}

/// The decoded body never moves backwards and never passes the end.
pub proof fn lemma_sp_content_bounds(s: Seq<char>, i: int)
    requires
        0 <= i <= s.len(),
    ensures
        i <= sp_content(s, i).0 <= s.len(),
    decreases s.len() - i,
{
    if i + 1 < s.len() && s[i] == '\\' && is_escape_code(s[i + 1]) {
        lemma_sp_content_bounds(s, i + 2);
    } else if i < s.len() && is_plain_str_char(s[i]) {
        lemma_sp_content_bounds(s, i + 1);
    }
}

/// A double-quoted string literal at `i`: `"` body `"`.
pub open spec fn sp_quoted_double(s: Seq<char>, i: int) -> Option<(int, Seq<char>)> {
    if 0 <= i < s.len() && s[i] == '"' {
        let r = sp_content(s, i + 1);
        if r.0 < s.len() && s[r.0] == '"' {
            Some((r.0 + 1, r.1))
        } else {
            None
        }
    } else {
        None
    }
}

/// A string literal at `i` whose opening and closing delimiters are each,
/// independently, a single or a double quote.
pub open spec fn sp_quoted_any(s: Seq<char>, i: int) -> Option<(int, Seq<char>)> {
    if 0 <= i < s.len() && (s[i] == '\'' || s[i] == '"') {
        let r = sp_content(s, i + 1);
        if r.0 < s.len() && (s[r.0] == '\'' || s[r.0] == '"') {
            Some((r.0 + 1, r.1))
        } else {
            None
        }
    } else {
        None
    }
}

/// Whether a character must be written as an escape inside a quoted
/// string literal.
pub open spec fn needs_escape(c: char) -> bool {
    c == '"' || c == '\\' || c == '\n' || c == '\r' || c == '\t' || c == '/'
}

/// The encoded form of one character: control characters become their
/// letter escapes, the other escapable characters are preceded by a
/// backslash, everything else stands for itself.
pub open spec fn escape_char(c: char) -> Seq<char> {
    if c == '\n' {
        seq!['\\', 'n']
    } else if c == '\r' {
        seq!['\\', 'r']
    } else if c == '\t' {
        seq!['\\', 't']
    } else if needs_escape(c) {
        seq!['\\', c]
    } else {
        seq![c]
    }
}

/// The encoded body of a string literal: each character in turn.
pub open spec fn sp_escape(s: Seq<char>) -> Seq<char>
    decreases s.len(),
{
    if s.len() == 0 {
        Seq::empty()
    } else {
        escape_char(s[0]) + sp_escape(s.drop_first())
    }
}

/// Decoding an encoded body recovers it exactly: when `u` holds the
/// encoding of `s` starting at `i`, followed by a closing double quote,
/// the body decoder stops exactly at that quote and returns `s`.
/// Single quotes cannot be encoded, so `s` must not contain one.
pub proof fn lemma_content_escaped(s: Seq<char>, u: Seq<char>, i: int)
    requires
        0 <= i,
        i + sp_escape(s).len() < u.len(),
        u.subrange(i, i + sp_escape(s).len()) == sp_escape(s),
        u[i + sp_escape(s).len()] == '"',
        forall|k: int| 0 <= k < s.len() ==> s[k] != '\'',
    ensures
        sp_content(u, i) == (i + sp_escape(s).len(), s),
    decreases s.len(),
{
    let n = sp_escape(s).len() as int;
    if s.len() == 0 {
        assert(sp_content(u, i) == (i, Seq::<char>::empty()));
        assert(sp_content(u, i).1 =~= s);
    } else {
        let c = s[0];
        let e = escape_char(c);
        let rest = s.drop_first();
        let elen = e.len() as int;
        let m = sp_escape(rest).len() as int;
        assert(sp_escape(s) == e + sp_escape(rest));
        assert(n == elen + m);
        let sub = u.subrange(i, i + n);
        assert(forall|k: int| 0 <= k < n ==> u[i + k] == #[trigger] sp_escape(s)[k]) by {
            assert(forall|k: int| 0 <= k < n ==> #[trigger] sp_escape(s)[k] == sub[k]);
        }
        assert(forall|k: int| 0 <= k < m ==> #[trigger] sp_escape(rest)[k] == sp_escape(s)[k
            + elen]);
        assert(u.subrange(i + elen, i + elen + m) =~= sp_escape(rest)) by {
            assert(forall|k: int| 0 <= k < m ==> #[trigger] u.subrange(i + elen, i + elen + m)[k]
                == u[i + elen + k]);
        }
        lemma_content_escaped(rest, u, i + elen);
        assert(u[i] == sp_escape(s)[0]);
        assert(sp_escape(s)[0] == e[0]);
        if needs_escape(c) {
            assert(elen == 2);
            assert(u[i + 1] == sp_escape(s)[1]);
            assert(sp_escape(s)[1] == e[1]);
            assert(u[i] == '\\');
            assert(is_escape_code(u[i + 1]));
            assert(escape_value(u[i + 1]) == c);
            assert(sp_content(u, i).0 == i + n);
            assert(sp_content(u, i).1 =~= s);
        } else {
            assert(u[i] == c);
            assert(is_plain_str_char(c));
            assert(c != '\\');
            assert(sp_content(u, i).0 == i + n);
            assert(sp_content(u, i).1 =~= s);
        }
    }
}

/// Round trip: decoding the double-quoted encoding of any string without
/// a single quote consumes the whole literal and recovers the string.
/// An unescaped quote cannot survive the encoding, so no valid encoding
/// is silently truncated.
pub proof fn lemma_quoted_round_trip(s: Seq<char>)
    requires
        forall|k: int| 0 <= k < s.len() ==> s[k] != '\'',
    ensures
        sp_quoted_double(seq!['"'] + sp_escape(s) + seq!['"'], 0) == Some(
            (sp_escape(s).len() as int + 2, s),
        ),
{
    let u = seq!['"'] + sp_escape(s) + seq!['"'];
    assert(u[0] == '"');
    assert(u.subrange(1, 1 + sp_escape(s).len() as int) =~= sp_escape(s));
    assert(u[1 + sp_escape(s).len() as int] == '"');
    lemma_content_escaped(s, u, 1);
}

/// A matched literal ends past its opening quote and within the input.
pub broadcast proof fn lemma_sp_quoted_any_bounds(s: Seq<char>, i: int)
    ensures
        0 <= i <= s.len() ==> ((#[trigger] sp_quoted_any(s, i)) matches Some(r) ==> i < r.0
            <= s.len()),
{
    if 0 <= i < s.len() {
        lemma_sp_content_bounds(s, i + 1);
    }
}

/// Executable test for [`is_escape_code`].
fn is_escape_code_exec(c: char) -> (r: bool)
    ensures
        r == is_escape_code(c),
{
    c == 'n' || c == 'r' || c == 't' || c == '\\' || c == '/' || c == '"'
}

/// Executable [`escape_value`].
fn escape_value_exec(c: char) -> (r: char)
    ensures
        r == escape_value(c),
{
    if c == 'n' {
        '\n'
    } else if c == 'r' {
        '\r'
    } else if c == 't' {
        '\t'
    } else {
        c
    }
}

/// Executable test for [`is_plain_str_char`].
fn is_plain_str_char_exec(c: char) -> (r: bool)
    ensures
        r == is_plain_str_char(c),
{
    c != '\'' && c != '"' && c != '\\' && c != '\n' && c != '\r' && c != '\t' && c != '/'
}

/// Decodes a literal body, as [`sp_content`] describes.
pub fn content_at(s: &[char], i: usize) -> (r: (usize, Vec<char>))
    requires
        i <= s@.len(),
    ensures
        r.0 == sp_content(s@, i as int).0,
        r.1@ == sp_content(s@, i as int).1,
        i <= r.0 <= s@.len(),
{
    let mut j = i;
    let mut acc: Vec<char> = Vec::new();
    loop
        invariant
            i <= j <= s@.len(),
            sp_content(s@, i as int).0 == sp_content(s@, j as int).0,
            sp_content(s@, i as int).1 == acc@ + sp_content(s@, j as int).1,
        ensures
            sp_content(s@, i as int).0 == j,
            sp_content(s@, i as int).1 == acc@,
            i <= j <= s@.len(),
        decreases s@.len() - j,
    {
        let ghost acc0 = acc@;
        if j < s.len() && j + 1 < s.len() && s[j] == '\\' && is_escape_code_exec(s[j + 1]) {
            let c = escape_value_exec(s[j + 1]);
            acc.push(c);
            proof {
                assert(acc@ + sp_content(s@, j as int + 2).1 =~= acc0 + (seq![c]
                    + sp_content(s@, j as int + 2).1));
            }
            j += 2;
        } else if j < s.len() && is_plain_str_char_exec(s[j]) {
            let c = s[j];
            acc.push(c);
            proof {
                assert(acc@ + sp_content(s@, j as int + 1).1 =~= acc0 + (seq![c]
                    + sp_content(s@, j as int + 1).1));
            }
            j += 1;
        } else {
            proof {
                assert(sp_content(s@, j as int).0 == j);
                assert(acc@ + sp_content(s@, j as int).1 =~= acc@);
            }
            break;
        }
    }
    (j, acc)
}

/// Parses a double-quoted literal, as [`sp_quoted_double`] describes.
pub fn quoted_double_at(s: &[char], i: usize) -> (r: Option<(usize, Vec<char>)>)
    requires
        i <= s@.len(),
    ensures
        r matches Some(p) ==> sp_quoted_double(s@, i as int) == Some((p.0 as int, p.1@)) && i
            < p.0 <= s@.len(),
        r is None ==> sp_quoted_double(s@, i as int) is None,
{
    if i < s.len() && s[i] == '"' {
        let (j, v) = content_at(s, i + 1);
        if j < s.len() && s[j] == '"' {
            Some((j + 1, v))
        } else {
            None
        }
    } else {
        None
    }
}

/// Parses a single- or double-quoted literal, as [`sp_quoted_any`] describes.
pub fn quoted_any_at(s: &[char], i: usize) -> (r: Option<(usize, Vec<char>)>)
    requires
        i <= s@.len(),
    ensures
        r matches Some(p) ==> sp_quoted_any(s@, i as int) == Some((p.0 as int, p.1@)) && i < p.0
            <= s@.len(),
        r is None ==> sp_quoted_any(s@, i as int) is None,
{
    if i < s.len() && (s[i] == '\'' || s[i] == '"') {
        let (j, v) = content_at(s, i + 1);
        if j < s.len() && (s[j] == '\'' || s[j] == '"') {
            Some((j + 1, v))
        } else {
            None
        }
    } else {
        None
    }
}

/// Decodes a double-quoted string literal at the start of `input`.  On
/// success returns the unconsumed remainder and the decoded contents; on
/// failure returns the input unchanged.
pub fn parse_str_with_escaped_and_combine(input: &str) -> (r: Result<(String, String), String>)
    ensures
        r matches Ok(p) ==> sp_quoted_double(input@, 0) matches Some(q) && p.0@ == input@.skip(
            q.0,
        ) && p.1@ == q.1,
        r is Err ==> sp_quoted_double(input@, 0) is None,
        r matches Err(e) ==> e@ == input@,
{
    let s = to_chars(input);
    match quoted_double_at(s.as_slice(), 0) {
        Some((j, v)) => {
            let rem = chars_to_string_range(s.as_slice(), j, s.len());
            proof {
                assert(s@.subrange(j as int, s@.len() as int) =~= input@.skip(j as int));
            }
            Ok((rem, crate::text::chars_to_string(v.as_slice())))
        },
        None => Err(input.to_owned()),
    }
}

/// Decodes a string literal delimited by single or double quotes at the
/// start of `input`, in the same way as [`parse_str_with_escaped_and_combine`].
pub fn parse_str_with_escaped_and_combine_in_single_quote(input: &str) -> (r: Result<
    (String, String),
    String,
>)
    ensures
        r matches Ok(p) ==> sp_quoted_any(input@, 0) matches Some(q) && p.0@ == input@.skip(q.0)
            && p.1@ == q.1,
        r is Err ==> sp_quoted_any(input@, 0) is None,
        r matches Err(e) ==> e@ == input@,
{
    let s = to_chars(input);
    match quoted_any_at(s.as_slice(), 0) {
        Some((j, v)) => {
            let rem = chars_to_string_range(s.as_slice(), j, s.len());
            proof {
                assert(s@.subrange(j as int, s@.len() as int) =~= input@.skip(j as int));
            }
            Ok((rem, crate::text::chars_to_string(v.as_slice())))
        },
        None => Err(input.to_owned()),
    }
}

} // verus!
