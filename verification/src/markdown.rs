//! A small Markdown heading parser: `#` level markers and the title text
//! up to the end of the line.

use vstd::prelude::*;

use crate::text::{chars_to_string_range, to_chars};

verus! {

/// A heading: its level (the number of `#` markers) and its text.
#[derive(Debug, PartialEq, Eq)]
pub struct Title {
    pub level: u8,
    pub title: String,
}

/// Recognizes a title word in the same way as [`crate::xml::identifier`]:
/// an alphabetic character followed by alphanumerics and dashes.
pub fn recog_title(input: &str) -> (r: Result<(String, String), String>)
    ensures
        r matches Ok(p) ==> crate::xml::sp_toy_identifier(input@, 0) matches Some(q) && p.0@
            == input@.skip(q.0) && p.1@ == q.1,
        r is Err <==> crate::xml::sp_toy_identifier(input@, 0) is None,
        r matches Err(e) ==> e@ == input@,
{
    crate::xml::identifier(input)
}

/// The position of the first line feed at or after `i` (or the end).
pub open spec fn run_end_line(s: Seq<char>, i: int) -> int
    decreases s.len() - i,
{
    if 0 <= i < s.len() && s[i] != '\n' {
        run_end_line(s, i + 1)
    } else {
        i
    }
}

/// The scanner stays in bounds and stops at a line feed or the end.
pub proof fn lemma_run_end_line_bounds(s: Seq<char>, i: int)
    requires
        0 <= i <= s.len(),
    ensures
        i <= run_end_line(s, i) <= s.len(),
        run_end_line(s, i) < s.len() ==> s[run_end_line(s, i)] == '\n',
    decreases s.len() - i,
{
    if i < s.len() && s[i] != '\n' {
        lemma_run_end_line_bounds(s, i + 1);
    }
}

/// Scans to the end of the line.
fn skip_line(s: &[char], i: usize) -> (r: usize)
    requires
        i <= s@.len(),
    ensures
        r == run_end_line(s@, i as int),
        i <= r <= s@.len(),
{
    proof {
        lemma_run_end_line_bounds(s@, i as int);
    }
    let mut j = i;
    while j < s.len() && s[j] != '\n'
        invariant
            i <= j <= s@.len(),
            run_end_line(s@, i as int) == run_end_line(s@, j as int),
        decreases s@.len() - j,
    {
        j += 1;
    }
    j
}

/// One or more title-text characters: everything up to the first line
/// feed, which is left unconsumed.
pub open spec fn sp_recog_title_content(s: Seq<char>) -> Option<(int, Seq<char>)> {
    if s.len() > 0 && s[0] != '\n' {
        Some((run_end_line(s, 0), s.subrange(0, run_end_line(s, 0))))
    } else {
        None
    }
}

/// Recognizes non-empty title text up to the end of the line, as
/// [`sp_recog_title_content`] describes.
pub fn recog_title_content(input: &str) -> (r: Result<(String, String), String>)
    ensures
        r matches Ok(p) ==> sp_recog_title_content(input@) matches Some(q) && p.0@
            == input@.skip(q.0) && p.1@ == q.1,
        r is Err <==> sp_recog_title_content(input@) is None,
        r matches Err(e) ==> e@ == input@,
{
    let s = to_chars(input);
    let v = s.as_slice();
    if v.len() > 0 && v[0] != '\n' {
        let e = skip_line(v, 0);
        let rem = chars_to_string_range(v, e, v.len());
        proof {
            assert(v@.subrange(e as int, v@.len() as int) =~= input@.skip(e as int));
        }
        Ok((rem, chars_to_string_range(v, 0, e)))
    } else {
        Err(input.to_owned())
    }
}

/// The position of the first character at or after `i` that is not `#`.
pub open spec fn run_end_hash(s: Seq<char>, i: int) -> int
    decreases s.len() - i,
{
    if 0 <= i < s.len() && s[i] == '#' {
        run_end_hash(s, i + 1)
    } else {
        i
    }
}

/// The scanner stays in bounds.
pub proof fn lemma_run_end_hash_bounds(s: Seq<char>, i: int)
    requires
        0 <= i <= s.len(),
    ensures
        i <= run_end_hash(s, i) <= s.len(),
    decreases s.len() - i,
{
    if i < s.len() && s[i] == '#' {
        lemma_run_end_hash_bounds(s, i + 1);
    }
}

/// Scans a run of `#` markers.
fn skip_hash(s: &[char], i: usize) -> (r: usize)
    requires
        i <= s@.len(),
    ensures
        r == run_end_hash(s@, i as int),
        i <= r <= s@.len(),
{
    proof {
        lemma_run_end_hash_bounds(s@, i as int);
    }
    let mut j = i;
    while j < s.len() && s[j] == '#'
        invariant
            i <= j <= s@.len(),
            run_end_hash(s@, i as int) == run_end_hash(s@, j as int),
        decreases s@.len() - j,
    {
        j += 1;
    }
    j
}

/// Parses one or more `#` markers, returning them as written.
pub fn title_level(input: &str) -> (r: Result<(String, String), String>)
    ensures
        r matches Ok(p) ==> input@.len() > 0 && input@[0] == '#' && p.0@ == input@.skip(
            run_end_hash(input@, 0),
        ) && p.1@ == input@.subrange(0, run_end_hash(input@, 0)),
        r is Err <==> !(input@.len() > 0 && input@[0] == '#'),
        r matches Err(e) ==> e@ == input@,
{
    let s = to_chars(input);
    let v = s.as_slice();
    if v.len() > 0 && v[0] == '#' {
        let e = skip_hash(v, 0);
        let rem = chars_to_string_range(v, e, v.len());
        proof {
            assert(v@.subrange(e as int, v@.len() as int) =~= input@.skip(e as int));
        }
        Ok((rem, chars_to_string_range(v, 0, e)))
    } else {
        Err(input.to_owned())
    }
}

/// Parses zero or more `#` markers, returning their count; it never
/// fails.  At most 255 markers fit the returned level.
pub fn title_level2(input: &str) -> (r: Result<(String, u8), String>)
    requires
        run_end_hash(input@, 0) <= 255,
    ensures
        r matches Ok(p) ==> p.0@ == input@.skip(run_end_hash(input@, 0)) && p.1 == run_end_hash(
            input@,
            0,
        ),
        r is Ok,
{
    let s = to_chars(input);
    let v = s.as_slice();
    let e = skip_hash(v, 0);
    let rem = chars_to_string_range(v, e, v.len());
    proof {
        assert(v@.subrange(e as int, v@.len() as int) =~= input@.skip(e as int));
    }
    Ok((rem, e as u8))
}

/// The title text of a heading line: everything up to the line feed,
/// which is consumed but not part of the text.  The line feed must be
/// there.
pub open spec fn sp_title_content(s: Seq<char>, i: int) -> Option<(int, Seq<char>)> {
    if 0 <= i <= s.len() {
        let e = run_end_line(s, i);
        if e < s.len() {
            Some((e + 1, s.subrange(i, e)))
        } else {
            None
        }
    } else {
        None
    }
}

/// A parser for a heading line's text.
pub struct TitleContentParser {
}

/// A parser for title text terminated by a line feed.
pub fn title_content() -> TitleContentParser {
    TitleContentParser {  }
}

impl TitleContentParser {
    /// Parses the title text at the start of `input`, as
    /// [`sp_title_content`] describes.
    pub fn parse(&self, input: &str) -> (r: Result<(String, String), String>)
        ensures
            r matches Ok(p) ==> sp_title_content(input@, 0) matches Some(q) && p.0@
                == input@.skip(q.0) && p.1@ == q.1,
            r is Err <==> sp_title_content(input@, 0) is None,
            r matches Err(e) ==> e@ == input@,
    {
        let s = to_chars(input);
        let v = s.as_slice();
        let e = skip_line(v, 0);
        if e < v.len() {
            let rem = chars_to_string_range(v, e + 1, v.len());
            proof {
                assert(v@.subrange(e as int + 1, v@.len() as int) =~= input@.skip(e as int + 1));
            }
            Ok((rem, chars_to_string_range(v, 0, e)))
        } else {
            Err(input.to_owned())
        }
    }
}

/// A parser for a whole heading line: the level markers, then the text.
pub struct TitlePairParser {
}

/// A parser for the `#` level followed by the title text.
pub fn title_pair() -> TitlePairParser {
    TitlePairParser {  }
}

impl TitlePairParser {
    /// Parses the heading level and title text, as [`run_end_hash`] and
    /// [`sp_title_content`] describe.
    pub fn parse(&self, input: &str) -> (r: Result<(String, (u8, String)), String>)
        requires
            run_end_hash(input@, 0) <= 255,
        ensures
            r matches Ok(p) ==> sp_title_content(input@, run_end_hash(input@, 0)) matches Some(q)
                && p.0@ == input@.skip(q.0) && p.1.0 == run_end_hash(input@, 0) && p.1.1@ == q.1,
            r is Err <==> sp_title_content(input@, run_end_hash(input@, 0)) is None,
            r matches Err(e) ==> e@ == input@,
    {
        let s = to_chars(input);
        let v = s.as_slice();
        let h = skip_hash(v, 0);
        let e = skip_line(v, h);
        if e < v.len() {
            let rem = chars_to_string_range(v, e + 1, v.len());
            proof {
                assert(v@.subrange(e as int + 1, v@.len() as int) =~= input@.skip(e as int + 1));
            }
            Ok((rem, (h as u8, chars_to_string_range(v, h, e))))
        } else {
            Err(input.to_owned())
        }
    }
}

} // verus!
