//! The HTTP request method token, recognized case-insensitively from raw
//! bytes.

use vstd::prelude::*;

verus! {

/// An HTTP method; unrecognized tokens are kept verbatim.
#[derive(PartialEq, Debug, Clone)]
pub enum Method {
    Get,
    Post,
    Head,
    Options,
    Put,
    Delete,
    Trace,
    Connect,
    Custom(String),
}

/// Case-insensitive equality of two bytes: ASCII letters compare with
/// their case bit masked off; other bytes compare exactly, and only
/// within the same band of the ASCII table (below the letters, between
/// the cases, or above them).
pub open spec fn byte_eq_nc(a: u8, b: u8) -> bool {
    if a <= 64 && b <= 64 {
        a == b
    } else if 91 <= a <= 96 && 91 <= b <= 96 {
        a == b
    } else if 123 <= a && 123 <= b {
        a == b
    } else if (65 <= a <= 90 || 97 <= a <= 122) && (65 <= b <= 90 || 97 <= b <= 122) {
        (a | 0x20) == (b | 0x20)
    } else {
        false
    }
}

/// Whether two byte strings are equal up to ASCII case, per
/// [`byte_eq_nc`]; strings of different lengths never compare equal.
pub open spec fn spec_compare_no_case(l: Seq<u8>, r: Seq<u8>) -> bool {
    l.len() == r.len() && forall|i: int| 0 <= i < l.len() ==> byte_eq_nc(l[i], r[i])
}

/// Compares two byte strings case-insensitively, as
/// [`spec_compare_no_case`] describes.
pub fn compare_no_case(left: &[u8], right: &[u8]) -> (r: bool)
    ensures
        r == spec_compare_no_case(left@, right@),
{
    if left.len() != right.len() {
        return false;
    }
    let mut i: usize = 0;
    while i < left.len()
        invariant
            left@.len() == right@.len(),
            i <= left@.len(),
            forall|k: int| 0 <= k < i ==> byte_eq_nc(left@[k], right@[k]),
        decreases left@.len() - i,
    {
        let a = left[i];
        let b = right[i];
        let ok = if a <= 64 && b <= 64 {
            a == b
        } else if 91 <= a && a <= 96 && 91 <= b && b <= 96 {
            a == b
        } else if 123 <= a && 123 <= b {
            a == b
        } else if ((65 <= a && a <= 90) || (97 <= a && a <= 122)) && ((65 <= b && b <= 90) || (97
            <= b && b <= 122)) {
            (a | 0x20) == (b | 0x20)
        } else {
            false
        };
        if !ok {
            return false;
        }
        i += 1;
    }
    true
}

/// What `String::from_utf8_lossy` yields for a byte string; the result
/// depends on the bytes alone.
pub uninterp spec fn utf8_lossy(b: Seq<u8>) -> Seq<char>;

/// Relies on `String::from_utf8_lossy`: the decoding depends on the bytes
/// alone, and a byte string that is entirely ASCII decodes to exactly
/// those characters.
#[verifier::external_body]
fn utf8_lossy_exec(s: &[u8]) -> (r: String)
    ensures
        r@ == utf8_lossy(s@),
        (forall|i: int| 0 <= i < s@.len() ==> s@[i] < 128) ==> r@ == Seq::new(
            s@.len(),
            |i: int| s@[i] as char,
        ),
{
    String::from_utf8_lossy(s).into_owned()
}

impl Method {
    /// Recognizes `GET` and `POST` case-insensitively; any other token is
    /// kept verbatim as a custom method.
    pub fn new(s: &[u8]) -> (r: Method)
        ensures
            spec_compare_no_case(s@, seq![71u8, 69u8, 84u8]) ==> r == Method::Get,
            !spec_compare_no_case(s@, seq![71u8, 69u8, 84u8]) && spec_compare_no_case(
                s@,
                seq![80u8, 79u8, 83u8, 84u8],
            ) ==> r == Method::Post,
            !spec_compare_no_case(s@, seq![71u8, 69u8, 84u8]) && !spec_compare_no_case(
                s@,
                seq![80u8, 79u8, 83u8, 84u8],
            ) ==> (r matches Method::Custom(m) && m@ == utf8_lossy(s@)),
    {
        let get: [u8; 3] = [71, 69, 84];
        let post: [u8; 4] = [80, 79, 83, 84];
        proof {
            assert(get@ =~= seq![71u8, 69u8, 84u8]);
            assert(post@ =~= seq![80u8, 79u8, 83u8, 84u8]);
        }
        if compare_no_case(s, get.as_slice()) {
            return Method::Get;
        } else if compare_no_case(s, post.as_slice()) {
            return Method::Post;
        }
        Method::Custom(utf8_lossy_exec(s))
    }
}

} // verus!
