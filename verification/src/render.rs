//! Text helpers for turning a parsed schema into source code: case
//! conversion of identifiers and the printable name of a data type.

use vstd::prelude::*;

use crate::ast::DataTypeEnum;
use crate::text::push_char;

verus! {

/// The Unicode uppercase mapping of one character, as `char::to_uppercase`
/// yields it.  It depends on the character alone.
pub uninterp spec fn upper_chars(c: char) -> Seq<char>;

/// The Unicode lowercase mapping of one character, as `char::to_lowercase`
/// yields it.  It depends on the character alone.
pub uninterp spec fn lower_chars(c: char) -> Seq<char>;

/// Relies on `char::to_uppercase`: the Unicode uppercase mapping of the
/// character, which depends on the character alone; an ASCII lower-case
/// letter maps to the single corresponding upper-case letter.
#[verifier::external_body]
fn char_upper(c: char) -> (r: String)
    ensures
        r@ == upper_chars(c),
        'a' <= c && c <= 'z' ==> r@ =~= seq![(((c as u8) - 32) as char)],
{
    c.to_uppercase().collect::<String>()
}

/// Relies on `char::to_lowercase`: the Unicode lowercase mapping of the
/// character, which depends on the character alone; an ASCII upper-case
/// letter maps to the single corresponding lower-case letter.
#[verifier::external_body]
fn char_lower(c: char) -> (r: String)
    ensures
        r@ == lower_chars(c),
        'A' <= c && c <= 'Z' ==> r@ =~= seq![(((c as u8) + 32) as char)],
{
    c.to_lowercase().collect::<String>()
}

/// A string with its first character uppercased (empty stays empty).
pub open spec fn spec_uppercase_first(s: Seq<char>) -> Seq<char> {
    if s.len() == 0 {
        Seq::empty()
    } else {
        upper_chars(s[0]) + s.skip(1)
    }
}

/// A string with its first character lowercased (empty stays empty).
pub open spec fn spec_lowercase_first(s: Seq<char>) -> Seq<char> {
    if s.len() == 0 {
        Seq::empty()
    } else {
        lower_chars(s[0]) + s.skip(1)
    }
}

/// Uppercases the first character of `input`, leaving the rest unchanged.
pub fn uppercase_first(input: &str) -> (r: String)
    ensures
        r@ == spec_uppercase_first(input@),
{
    let n = input.unicode_len();
    if n == 0 {
        String::new()
    } else {
        let first = input.get_char(0);
        let up = char_upper(first);
        let rest = input.substring_char(1, n);
        proof {
            assert(rest@ =~= input@.skip(1));
        }
        up.concat(rest)
    }
}

/// Lowercases the first character of `input`, leaving the rest unchanged.
pub fn lowercase_first(input: &str) -> (r: String)
    ensures
        r@ == spec_lowercase_first(input@),
{
    let n = input.unicode_len();
    if n == 0 {
        String::new()
    } else {
        let first = input.get_char(0);
        let low = char_lower(first);
        let rest = input.substring_char(1, n);
        proof {
            assert(rest@ =~= input@.skip(1));
        }
        low.concat(rest)
    }
}

/// Camel casing as a scan: underscores are dropped, and each character
/// that starts a new word is case-mapped (up or down per `upper`); all
/// other characters pass through unchanged.  This equals splitting on
/// `_`, case-mapping each part's first character, and joining.
pub open spec fn spec_camel(s: Seq<char>, upper: bool, at_start: bool) -> Seq<char>
    decreases s.len(),
{
    if s.len() == 0 {
        Seq::empty()
    } else if s[0] == '_' {
        spec_camel(s.drop_first(), upper, true)
    } else if at_start {
        (if upper {
            upper_chars(s[0])
        } else {
            lower_chars(s[0])
        }) + spec_camel(s.drop_first(), upper, false)
    } else {
        seq![s[0]] + spec_camel(s.drop_first(), upper, false)
    }
}

/// The shared loop of the two camel-casing functions.
fn camel_case(input: &str, upper: bool) -> (r: String)
    ensures
        r@ == spec_camel(input@, upper, true),
{
    let n = input.unicode_len();
    let mut acc = String::new();
    let mut at_start = true;
    let mut k: usize = 0;
    proof {
        assert(input@.skip(0) =~= input@);
    }
    while k < n
        invariant
            k <= n == input@.len(),
            spec_camel(input@, upper, true) == acc@ + spec_camel(
                input@.skip(k as int),
                upper,
                at_start,
            ),
        decreases n - k,
    {
        let ghost acc0 = acc@;
        let ghost tail = input@.skip(k as int);
        proof {
            assert(tail.len() > 0);
            assert(tail[0] == input@[k as int]);
            assert(tail.drop_first() =~= input@.skip(k as int + 1));
        }
        let c = input.get_char(k);
        if c == '_' {
            at_start = true;
        } else if at_start {
            let mapped = if upper {
                char_upper(c)
            } else {
                char_lower(c)
            };
            acc.append(mapped.as_str());
            at_start = false;
            proof {
                assert(acc@ + spec_camel(input@.skip(k as int + 1), upper, false) =~= acc0
                    + (mapped@ + spec_camel(input@.skip(k as int + 1), upper, false)));
            }
        } else {
            push_char(&mut acc, c);
            proof {
                assert(acc@ + spec_camel(input@.skip(k as int + 1), upper, false) =~= acc0
                    + (seq![c] + spec_camel(input@.skip(k as int + 1), upper, false)));
            }
        }
        k += 1;
    }
    proof {
        assert(input@.skip(k as int) =~= Seq::<char>::empty());
        assert(acc@ + spec_camel(input@.skip(k as int), upper, at_start) =~= acc@);
    }
    acc
}

/// Turns an underscore-separated identifier into lower camel case.
pub fn to_small_case_camel(input: &str) -> (r: String)
    ensures
        r@ == spec_camel(input@, false, true),
{
    camel_case(input, false)
}

/// Turns an underscore-separated identifier into upper camel case.
pub fn to_big_case_camel(input: &str) -> (r: String)
    ensures
        r@ == spec_camel(input@, true, true),
{
    camel_case(input, true)
}

/// The decimal digit character for a value below ten.
pub open spec fn dec_digit(d: int) -> char {
    (((d + 48) as u8) as char)
}

/// The decimal numeral of `n`, most significant digit first.
pub open spec fn spec_dec(n: int) -> Seq<char>
    decreases n,
{
    if n < 10 {
        seq![dec_digit(if 0 <= n {
            n % 10
        } else {
            0
        })]
    } else {
        spec_dec(n / 10) + seq![dec_digit(n % 10)]
    }
}

/// Appends the decimal numeral of `n` to `out`.
fn push_dec(n: u32, out: &mut String)
    ensures
        final(out)@ == old(out)@ + spec_dec(n as int),
    decreases n,
{
    let ghost out0 = out@;
    if n >= 10 {
        push_dec(n / 10, out);
    }
    push_char(out, ((48 + (n % 10)) as u8) as char);
    proof {
        if n >= 10 {
            assert(out@ =~= out0 + (spec_dec(n as int / 10) + seq![dec_digit(n as int % 10)]));
        } else {
            assert(out@ =~= out0 + seq![dec_digit(n as int % 10)]);
        }
    }
}

/// The printable SQL name of a data type, width or precision included.
pub open spec fn spec_transfer_type(t: DataTypeEnum) -> Seq<char> {
    match t {
        DataTypeEnum::TinyInt => ("tinyint")@,
        DataTypeEnum::SmallInt => ("smallint")@,
        DataTypeEnum::Int => ("int")@,
        DataTypeEnum::Bigint => ("bigint")@,
        DataTypeEnum::VarChar(n) => ("varchar(")@ + spec_dec(n as int) + (")")@,
        DataTypeEnum::DateTime(_) => ("datetime")@,
        DataTypeEnum::Text => ("text")@,
        DataTypeEnum::BigText => ("bigtext")@,
        DataTypeEnum::Decimal(n) => ("decimal(")@ + spec_dec(n as int) + (")")@,
        DataTypeEnum::Unknown => ("Unknown")@,
    }
}

/// The SQL spelling of a data type, as [`spec_transfer_type`] describes.
pub fn transfer_type(typ: DataTypeEnum) -> (r: String)
    ensures
        r@ == spec_transfer_type(typ),
{
    match typ {
        DataTypeEnum::TinyInt => String::from_str("tinyint"),
        DataTypeEnum::SmallInt => String::from_str("smallint"),
        DataTypeEnum::Int => String::from_str("int"),
        DataTypeEnum::Bigint => String::from_str("bigint"),
        DataTypeEnum::VarChar(n) => {
            let mut s = String::from_str("varchar(");
            push_dec(n, &mut s);
            s.append(")");
            proof {
                assert(s@ =~= ("varchar(")@ + spec_dec(n as int) + (")")@);
            }
            s
        },
        DataTypeEnum::DateTime(_) => String::from_str("datetime"),
        DataTypeEnum::Text => String::from_str("text"),
        DataTypeEnum::BigText => String::from_str("bigtext"),
        DataTypeEnum::Decimal(n) => {
            let mut s = String::from_str("decimal(");
            push_dec(n as u32, &mut s);
            s.append(")");
            proof {
                assert(s@ =~= ("decimal(")@ + spec_dec(n as int) + (")")@);
            }
            s
        },
        DataTypeEnum::Unknown => String::from_str("Unknown"),
    }
}

/// How rendered field names are cased.
#[derive(Debug, Clone, Copy, PartialEq, Eq)]
pub enum FieldNameStyleEnum {
    SmallCaseCamel,
    BigCaseCamel,
    Underline,
}

/// Settings for the rendering step: the field-name style and which tags
/// the rendered structure carries.
#[derive(Debug, Clone, Copy, PartialEq, Eq)]
pub struct RenderSetting {
    pub field_name_style: FieldNameStyleEnum,
    pub need_json_tag: bool,
    pub need_form_tag: bool,
    pub need_gorm_tag: bool,
}

} // verus!
