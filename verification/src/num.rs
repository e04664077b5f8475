//! A parenthesized decimal number over raw bytes: `(12345)`.

use vstd::prelude::*;

verus! {

/// An ASCII decimal digit byte.
pub open spec fn is_digit_byte(b: u8) -> bool {
    48 <= b <= 57
}

/// The position of the first byte at or after `i` that is not a digit.
pub open spec fn run_end_digit_u8(s: Seq<u8>, i: int) -> int
    decreases s.len() - i,
{
    if 0 <= i < s.len() && is_digit_byte(s[i]) {
        run_end_digit_u8(s, i + 1)
    } else {
        i
    }
}

/// The scanner stays in bounds and every byte in the run is a digit.
pub proof fn lemma_run_end_digit_u8_bounds(s: Seq<u8>, i: int)
    requires
        0 <= i <= s.len(),
    ensures
        i <= run_end_digit_u8(s, i) <= s.len(),
        forall|j: int| i <= j < run_end_digit_u8(s, i) ==> is_digit_byte(s[j]),
    decreases s.len() - i,
{
    if i < s.len() && is_digit_byte(s[i]) {
        lemma_run_end_digit_u8_bounds(s, i + 1);
    }
}

/// The numeric value of the digit bytes `s[i..j]`, most significant first.
pub open spec fn digits_val_u8(s: Seq<u8>, i: int, j: int) -> nat
    decreases j - i,
{
    if i >= j {
        0
    } else {
        digits_val_u8(s, i, j - 1) * 10 + (if is_digit_byte(s[j - 1]) {
            (s[j - 1] - 48) as int
        } else {
            0
        }) as nat
    }
}

/// The shape `(digits)` at the start of `s`: an opening parenthesis, a
/// possibly empty run of digits, and a closing parenthesis.  The value is
/// the position just past the closing parenthesis and the digit run.
pub open spec fn sp_paren_digits(s: Seq<u8>) -> Option<(int, Seq<u8>)> {
    if s.len() > 0 && s[0] == 40 {
        let e = run_end_digit_u8(s, 1);
        if e < s.len() && s[e] == 41 {
            Some((e + 1, s.subrange(1, e)))
        } else {
            None
        }
    } else {
        None
    }
}

/// Scans a run of digit bytes.
fn skip_digit_bytes(s: &[u8], i: usize) -> (r: usize)
    requires
        i <= s@.len(),
    ensures
        r == run_end_digit_u8(s@, i as int),
        i <= r <= s@.len(),
{
    proof {
        lemma_run_end_digit_u8_bounds(s@, i as int);
    }
    let mut j = i;
    while j < s.len() && 48 <= s[j] && s[j] <= 57
        invariant
            i <= j <= s@.len(),
            run_end_digit_u8(s@, i as int) == run_end_digit_u8(s@, j as int),
        decreases s@.len() - j,
    {
        j += 1;
    }
    j
}

/// Parses `(digits)` and returns the unconsumed remainder and the raw
/// digit bytes, as [`sp_paren_digits`] describes.
pub fn parse_u32(input: &[u8]) -> (r: Result<(Vec<u8>, Vec<u8>), Vec<u8>>)
    ensures
        r matches Ok(p) ==> sp_paren_digits(input@) matches Some(q) && p.0@ == input@.skip(q.0)
            && p.1@ == q.1,
        r is Err <==> sp_paren_digits(input@) is None,
        r matches Err(e) ==> e@ == input@,
{
    if input.len() > 0 && input[0] == 40 {
        let e = skip_digit_bytes(input, 1);
        if e < input.len() && input[e] == 41 {
            let raw = slice_range_to_vec(input, 1, e);
            let rem = slice_range_to_vec(input, e + 1, input.len());
            proof {
                assert(input@.subrange(e as int + 1, input@.len() as int) =~= input@.skip(
                    e as int + 1,
                ));
            }
            Ok((rem, raw))
        } else {
            Err(slice_range_to_vec(input, 0, input.len()))
        }
    } else {
        Err(slice_range_to_vec(input, 0, input.len()))
    }
}

/// Copies the bytes `s[from..to]` into a fresh vector.
fn slice_range_to_vec(s: &[u8], from: usize, to: usize) -> (r: Vec<u8>)
    requires
        from <= to <= s@.len(),
    ensures
        r@ == s@.subrange(from as int, to as int),
{
    let mut r: Vec<u8> = Vec::new();
    let mut k = from;
    while k < to
        invariant
            from <= k <= to <= s@.len(),
            r@ == s@.subrange(from as int, k as int),
        decreases to - k,
    {
        r.push(s[k]);
        k += 1;
        proof {
            assert(r@ =~= s@.subrange(from as int, k as int));
        }
    }
    r
}

/// Parses `(digits)` into the number the digits spell.  The digit run
/// must be non-empty and its value must fit in a `u32`.
pub fn parse_u32_ver1(input: &[u8]) -> (r: Result<(Vec<u8>, u32), Vec<u8>>)
    requires
        sp_paren_digits(input@) matches Some(q) ==> q.1.len() > 0 && digits_val_u8(
            input@,
            1,
            1 + q.1.len() as int,
        ) <= u32::MAX,
    ensures
        r matches Ok(p) ==> sp_paren_digits(input@) matches Some(q) && p.0@ == input@.skip(q.0)
            && p.1 == digits_val_u8(input@, 1, 1 + q.1.len() as int),
        r is Err <==> sp_paren_digits(input@) is None,
        r matches Err(e) ==> e@ == input@,
{
    if !(input.len() > 0 && input[0] == 40) {
        return Err(slice_range_to_vec(input, 0, input.len()));
    }
    let e = skip_digit_bytes(input, 1);
    if !(e < input.len() && input[e] == 41) {
        return Err(slice_range_to_vec(input, 0, input.len()));
    }
    proof {
        assert(sp_paren_digits(input@) matches Some(q) && q.1.len() == e - 1);
    }
    let mut acc: u32 = 0;
    let mut k: usize = 1;
    while k < e
        invariant
            1 <= k <= e < input@.len(),
            e == run_end_digit_u8(input@, 1),
            acc == digits_val_u8(input@, 1, k as int),
            digits_val_u8(input@, 1, e as int) <= u32::MAX,
        decreases e - k,
    {
        proof {
            lemma_run_end_digit_u8_bounds(input@, 1);
            lemma_digits_val_u8_mono(input@, 1, k as int + 1, e as int);
            assert(is_digit_byte(input@[k as int]));
        }
        let d = input[k] - 48;
        acc = acc * 10 + (d as u32);
        k += 1;
    }
    let rem = slice_range_to_vec(input, e + 1, input.len());
    proof {
        assert(input@.subrange(e as int + 1, input@.len() as int) =~= input@.skip(e as int + 1));
    }
    Ok((rem, acc))
}

/// The value of a digit string never shrinks as digits are appended.
proof fn lemma_digits_val_u8_mono(s: Seq<u8>, i: int, k: int, j: int)
    requires
        i <= k <= j,
    ensures
        digits_val_u8(s, i, j) >= digits_val_u8(s, i, k),
    decreases j - k,
{
    if k < j {
        lemma_digits_val_u8_mono(s, i, k + 1, j);
    }
}

} // verus!
