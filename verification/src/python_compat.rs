//! The decisions of Python natsort's key factories, for a host that runs
//! Python natsort's own tests against this library: which input transforms
//! apply for a set of `ns` bits, how bytes and path components are read,
//! and decoding by encoding name.
use vstd::prelude::*;

use crate::chars::{char_from_u32, chars_of, scalar_of, string_from_chars};
use crate::number::{nat_digits, push_nat_digits};
use crate::value::FloatClass;
use crate::token::{decimal_char, decimal_digit_char, is_decimal, is_decimal_digit};
use crate::unicode_numeric::{
    spec_unicode_digit, spec_unicode_numeric, unicode_digit_value, unicode_numeric_value,
};
use crate::decode::{
    DecodeEncoding, DecodeError, ascii_result, decode_ascii_bytes, decode_error_message, decode_latin1_bytes,
    decode_utf8_bytes, decoder, encoding_named, latin1_text, normalized_encoding, utf8_result,
};
use crate::locale::{LocaleProfile, fixed_identifier, trimmed, trimmed_chars, localized_numbers, normalize_localized_numbers,
    normalized_identifier};
use crate::options::has_flag;
use crate::path::{extensions_of, stem_of};
use crate::text::{
    case_fold_chars, group_letters, normalize_form, spec_case_fold, spec_group_letters,
    spec_normalize, spec_swap_case, swap_case_chars,
};

verus! {

/// Python natsort's internal flag for a locale that collates by code point.
pub const PYTHON_NS_DUMB: i64 = 2147483648;

/// The Unicode code points that the numeric tables list: numeric
/// characters, digits and decimal digits (ASCII digits left out).
#[derive(Debug, Clone, PartialEq, Eq)]
pub struct PythonUnicodeTables {
    pub numeric: Vec<u32>,
    pub digits: Vec<u32>,
    pub decimals: Vec<u32>,
}

fn flag(bits: i64, f: i64) -> (r: bool)
    ensures
        r == has_flag(bits, f),
{
    bits & f != 0
}

/// Which of the three tables lists a character: `0` numeric characters, `1`
/// digits, `2` decimal digits. Every decimal digit is also a digit and
/// numeric.
pub open spec fn in_table(c: char, table: int) -> bool {
    let decimal = is_decimal(c);
    if table == 0 {
        decimal || spec_unicode_numeric(c) is Some
    } else if table == 1 {
        decimal || spec_unicode_digit(c) is Some
    } else {
        decimal
    }
}

/// The code points below `n`, in increasing order, that are characters
/// other than the ASCII digits and that the table lists.
pub open spec fn listed_below(n: nat, table: int) -> Seq<u32>
    decreases n,
{
    if n == 0 {
        Seq::empty()
    } else {
        let prev = listed_below((n - 1) as nat, table);
        let cp = n - 1;
        match scalar_of(cp) {
            Some(c) => if !(48 <= cp <= 57) && in_table(c, table) {
                prev.push(cp as u32)
            } else {
                prev
            },
            None => prev,
        }
    }
}

/// The numeric, digit and decimal tables: every character outside the
/// ASCII digits that each lists, in code point order.
pub fn python_unicode_tables() -> (r: PythonUnicodeTables)
    ensures
        r.numeric@ == listed_below(0x110000, 0),
        r.digits@ == listed_below(0x110000, 1),
        r.decimals@ == listed_below(0x110000, 2),
{
    let mut numeric: Vec<u32> = Vec::new();
    let mut digits: Vec<u32> = Vec::new();
    let mut decimals: Vec<u32> = Vec::new();
    let mut cp: u32 = 0;
    while cp <= 0x10FFFF
        invariant
            cp <= 0x110000,
            numeric@ == listed_below(cp as nat, 0),
            digits@ == listed_below(cp as nat, 1),
            decimals@ == listed_below(cp as nat, 2),
        decreases 0x110000 - cp,
    {
        if cp < 48 || cp > 57 {
            if let Some(c) = char_from_u32(cp) {
                let decimal = is_decimal_digit(c);
                let number = decimal || unicode_numeric_value(c).is_some();
                let digit = decimal || unicode_digit_value(c).is_some();
                if number {
                    numeric.push(cp);
                }
                if digit {
                    digits.push(cp);
                }
                if decimal {
                    decimals.push(cp);
                }
            }
        }
        cp += 1;
    }
    PythonUnicodeTables { numeric, digits, decimals }
}

/// A decimal digit of any script as the ASCII digit of its value; any
/// other character as it is.
pub open spec fn ascii_decimal(c: char) -> char {
    if is_decimal(c) {
        decimal_char(c)
    } else {
        c
    }
}

/// A text with its decimal digits written in ASCII.
pub open spec fn ascii_decimals(s: Seq<char>) -> Seq<char> {
    s.map_values(|c: char| ascii_decimal(c))
}

fn ascii_decimal_chars(s: &Vec<char>) -> (r: Vec<char>)
    ensures
        r@ == ascii_decimals(s@),
{
    let mut out: Vec<char> = Vec::new();
    let mut i: usize = 0;
    while i < s.len()
        invariant
            i <= s.len(),
            out@ =~= s@.subrange(0, i as int).map_values(|c: char| ascii_decimal(c)),
        decreases s.len() - i,
    {
        let c = s[i];
        if is_decimal_digit(c) {
            out.push(decimal_digit_char(c));
        } else {
            out.push(c);
        }
        proof {
            assert(s@.subrange(0, i + 1) =~= s@.subrange(0, i as int).push(c));
        }
        i += 1;
    }
    assert(s@.subrange(0, i as int) =~= s@);
    out
}

/// A text with its decimal digits of any script written in ASCII (see
/// [`ascii_decimals`]).
pub fn normalize_decimal_digits(input: &str) -> (r: String)
    ensures
        r@ == ascii_decimals(input@),
{
    let s = chars_of(input);
    let out = ascii_decimal_chars(&s);
    string_from_chars(out.as_slice())
}

/// Where a signed integer parse finds its sign and digits: a `-` not
/// followed by `+` makes the number negative, then a `+` not followed by
/// `+` is skipped.
pub open spec fn integer_parts(s: Seq<char>) -> (bool, Seq<char>) {
    let neg = s.len() > 0 && s[0] == '-' && !(s.len() > 1 && s[1] == '+');
    let t = if neg {
        s.subrange(1, s.len() as int)
    } else {
        s
    };
    let u = if t.len() > 0 && t[0] == '+' && !(t.len() > 1 && t[1] == '+') {
        t.subrange(1, t.len() as int)
    } else {
        t
    };
    (neg, u)
}

/// `d` without its leading zeros.
pub open spec fn without_leading_zeros(d: Seq<char>) -> Seq<char>
    decreases d.len(),
{
    if d.len() > 0 && d[0] == '0' {
        without_leading_zeros(d.subrange(1, d.len() as int))
    } else {
        d
    }
}

/// The decimal text of the integer that `num_bigint` reads from `s`, if it
/// reads one: after the sign, at least one character, the first not `_`,
/// and only ASCII digits and `_` (which is skipped); the text has no
/// leading zeros and a `-` only before a value other than zero.
pub open spec fn big_integer_text(s: Seq<char>) -> Option<Seq<char>> {
    let (neg, u) = integer_parts(s);
    if u.len() == 0 || u[0] == '_' || !(forall|k: int|
        0 <= k < u.len() ==> ('0' <= #[trigger] u[k] <= '9' || u[k] == '_')) {
        None
    } else {
        let d = without_leading_zeros(u.filter(|c: char| c != '_'));
        if d.len() == 0 {
            Some(seq!['0'])
        } else if neg {
            Some(seq!['-'] + d)
        } else {
            Some(d)
        }
    }
}

/// `BigInt::from_str` (radix 10), then `to_string` on what it reads. In
/// its source the parse takes the sign as [`integer_parts`] says, rejects
/// an empty rest, a leading `_` and any character but digits and `_`, and
/// skips each `_`; `to_string` writes the value in decimal with a `-` for
/// a negative value only.
#[verifier::external_body]
fn big_integer_decimal(s: &str) -> (r: Option<String>)
    ensures
        match r {
            Some(t) => big_integer_text(s@) == Some(t@),
            None => big_integer_text(s@) is None,
        },
{
    match s.parse::<num_bigint::BigInt>() {
        Ok(value) => Some(value.to_string()),
        Err(_) => None,
    }
}

/// What Python natsort's `fast_int` makes of a text, as decimal text: the
/// trimmed text with its decimal digits in ASCII, read as an integer; else
/// the digit value of a text that is one Unicode digit; else nothing.
pub open spec fn fast_int_text(input: Seq<char>) -> Option<Seq<char>> {
    let t = trimmed(input);
    if t.len() == 0 {
        None
    } else {
        match big_integer_text(ascii_decimals(t)) {
            Some(v) => Some(v),
            None => if input.len() == 1 && spec_unicode_digit(input[0]) is Some {
                Some(nat_digits(spec_unicode_digit(input[0])->0 as nat))
            } else {
                None
            },
        }
    }
}

/// Python natsort's `fast_int` conversion decision: the integer a text
/// stands for, as decimal text, or `None` where the Python side falls back
/// to its own handling (see [`fast_int_text`]).
pub fn python_fast_int(input: &str) -> (r: Option<String>)
    ensures
        match r {
            Some(t) => fast_int_text(input@) == Some(t@),
            None => fast_int_text(input@) is None,
        },
{
    let t = trimmed_chars(input);
    if t.len() == 0 {
        return None;
    }
    let normalized = ascii_decimal_chars(&t);
    let text = string_from_chars(normalized.as_slice());
    if let Some(v) = big_integer_decimal(text.as_str()) {
        return Some(v);
    }
    let cs = chars_of(input);
    if cs.len() == 1 {
        if let Some(d) = unicode_digit_value(cs[0]) {
            let mut out: Vec<char> = Vec::new();
            push_nat_digits(d as u64, &mut out);
            assert(out@ =~= nat_digits(d as nat));
            return Some(string_from_chars(out.as_slice()));
        }
    }
    None
}

/// What a value is, as far as the number plan goes.
#[derive(Debug, Clone, PartialEq, Eq)]
pub enum PlanValue {
    /// No value (Python's `None`).
    Missing,
    /// An integer.
    Integer,
    /// A floating-point value.
    Float(FloatClass),
    /// Text, bytes or a sequence.
    Other,
}

/// The number plan `(wrapper, kind, positive infinity, suffix)`: the
/// wrapper is `0` plain, `1` path, `2` capital first, `3` both; kind `1`
/// with a suffix replaces NaN, `None` and the infinity on NaN's side, kind
/// `0` keeps the value. `None` for a value that is not a number.
pub open spec fn number_plan(value: PlanValue, bits: i64) -> Option<(u8, u8, bool, u8)> {
    let path = has_flag(bits, 8);
    let capital = has_flag(bits, 512) && has_flag(bits, 16);
    let wrapper: u8 = if path {
        if capital {
            3
        } else {
            1
        }
    } else if capital {
        2
    } else {
        0
    };
    let nan_last = has_flag(bits, 1024);
    let suffix: Option<u8> = match value {
        PlanValue::Missing => Some(2u8),
        PlanValue::Float(FloatClass::NotANumber) => Some(
            if nan_last {
                3u8
            } else {
                1u8
            },
        ),
        PlanValue::Float(FloatClass::NegativeInfinity) => if !nan_last {
            Some(3u8)
        } else {
            None
        },
        PlanValue::Float(FloatClass::PositiveInfinity) => if nan_last {
            Some(1u8)
        } else {
            None
        },
        _ => None,
    };
    match value {
        PlanValue::Other => None,
        _ => Some(
            match suffix {
                Some(x) => (wrapper, 1u8, nan_last, x),
                None => (wrapper, 0u8, nan_last, 0u8),
            },
        ),
    }
}

/// The number plan for a value (see [`number_plan`]); a value that is not
/// a number is an error.
pub fn python_number_plan(value: &PlanValue, bits: i64) -> (r: Result<(u8, u8, bool, u8), String>)
    ensures
        match number_plan(*value, bits) {
            Some(p) => r == Ok::<(u8, u8, bool, u8), String>(p),
            None => r matches Err(m) && m@
                == "parse-number-plan requires an integer, float, or None value"@,
        },
{
    let path = flag(bits, 8);
    let capital = flag(bits, 512) && flag(bits, 16);
    let wrapper: u8 = if path {
        if capital {
            3
        } else {
            1
        }
    } else if capital {
        2
    } else {
        0
    };
    let nan_last = flag(bits, 1024);
    let suffix: Option<u8> = match value {
        PlanValue::Missing => Some(2),
        PlanValue::Float(FloatClass::NotANumber) => Some(
            if nan_last {
                3
            } else {
                1
            },
        ),
        PlanValue::Float(FloatClass::NegativeInfinity) => if !nan_last {
            Some(3)
        } else {
            None
        },
        PlanValue::Float(FloatClass::PositiveInfinity) => if nan_last {
            Some(1)
        } else {
            None
        },
        PlanValue::Other => {
            return Err(
                String::from_str("parse-number-plan requires an integer, float, or None value"),
            );
        },
        _ => None,
    };
    Ok(
        match suffix {
            Some(x) => (wrapper, 1, nan_last, x),
            None => (wrapper, 0, nan_last, 0),
        },
    )
}

/// Case is swapped: exactly one of the code point locale and lowercase
/// first.
pub open spec fn swaps_case(bits: i64) -> bool {
    has_flag(bits, 2147483648) != has_flag(bits, 128)
}

/// Python's input transform does nothing: no case swap, no case folding, no
/// locale numbers.
pub fn python_input_transform_is_noop(bits: i64) -> (r: bool)
    ensures
        r == (!swaps_case(bits) && !has_flag(bits, 64) && !has_flag(bits, 32)),
{
    let swap = flag(bits, PYTHON_NS_DUMB) != flag(bits, 128);
    !swap && !flag(bits, 64) && !flag(bits, 32)
}

/// What Python's input transform makes of a text: case swapped, case
/// folded, localized numbers rewritten, as the bits ask.
pub open spec fn python_transformed(s: Seq<char>, bits: i64, identifier: Seq<char>) -> Seq<char> {
    let a = if swaps_case(bits) {
        spec_swap_case(s)
    } else {
        s
    };
    let b = if has_flag(bits, 64) {
        spec_case_fold(a)
    } else {
        a
    };
    if has_flag(bits, 32) {
        localized_numbers(b, normalized_identifier(identifier), has_flag(bits, 1))
    } else {
        b
    }
}

/// Python's input transform of a text.
pub fn python_input_transform(input: &str, bits: i64, locale_profile: LocaleProfile) -> (r: String)
    ensures
        locale_profile != LocaleProfile::System || !has_flag(bits, 32) ==> r@ == python_transformed(
            input@,
            bits,
            fixed_identifier(locale_profile),
        ),
        exists|id: Seq<char>| r@ == #[trigger] python_transformed(input@, bits, id),
{
    let chars = chars_of(input);
    let a = if flag(bits, PYTHON_NS_DUMB) != flag(bits, 128) {
        swap_case_chars(&chars)
    } else {
        chars
    };
    let b = if flag(bits, 64) {
        case_fold_chars(&a)
    } else {
        a
    };
    let text = string_from_chars(b.as_slice());
    if flag(bits, 32) {
        let r = normalize_localized_numbers(text.as_str(), locale_profile, flag(bits, 1));
        proof {
            let id = choose|id: Seq<char>|
                r@ == #[trigger] localized_numbers(text@, normalized_identifier(id), has_flag(bits, 1));
            assert(r@ == python_transformed(input@, bits, id));
        }
        r
    } else {
        assert(text@ == python_transformed(input@, bits, Seq::empty()));
        text
    }
}

/// The final-data mode: 0 plain; capital first (ungrouped letters under
/// locale collation) 1 without and 2 with the prefix's case swapped (code
/// point locale and lowercase first).
pub fn python_final_transform_mode(bits: i64) -> (r: u8)
    ensures
        r == if !(has_flag(bits, 512) && has_flag(bits, 16)) {
            0u8
        } else if has_flag(bits, 2147483648) && has_flag(bits, 128) {
            2u8
        } else {
            1u8
        },
{
    if !(flag(bits, 512) && flag(bits, 16)) {
        return 0;
    }
    if flag(bits, PYTHON_NS_DUMB) && flag(bits, 128) {
        2
    } else {
        1
    }
}

/// Every character preceded by its case fold.
pub fn python_group_letters(input: &str) -> (r: String)
    ensures
        r@ == spec_group_letters(input@),
{
    group_letters(input)
}

/// For each value, whether a separator goes before it: before a number
/// (tag 1) that comes first or right after another number.
pub open spec fn separator_before(tags: Seq<u8>, i: int) -> bool {
    tags[i] == 1 && (i == 0 || tags[i - 1] == 1)
}

/// Where Python inserts separators between values.
pub fn python_separator_plan(type_tags: &[u8]) -> (r: Vec<u8>)
    ensures
        r@.len() == type_tags@.len(),
        forall|i: int|
            0 <= i < r@.len() ==> #[trigger] r@[i] == if separator_before(type_tags@, i) {
                1u8
            } else {
                0u8
            },
{
    let mut out: Vec<u8> = Vec::new();
    let mut previous_numeric = false;
    let mut i: usize = 0;
    while i < type_tags.len()
        invariant
            i <= type_tags@.len(),
            out@.len() == i,
            i > 0 ==> previous_numeric == (type_tags@[i - 1] == 1),
            forall|j: int|
                0 <= j < i ==> #[trigger] out@[j] == if separator_before(type_tags@, j) {
                    1u8
                } else {
                    0u8
                },
        decreases type_tags@.len() - i,
    {
        let numeric = type_tags[i] == 1;
        let insert = numeric && (i == 0 || previous_numeric);
        out.push(if insert { 1 } else { 0 });
        previous_numeric = numeric;
        i += 1;
    }
    out
}

/// A separator of Python's paths: `/`, and `\` on a Windows host.
pub open spec fn python_separator(c: char, windows_host: bool) -> bool {
    c == '/' || (windows_host && c == '\\')
}

/// The first separator at or after `i`, or the length.
pub open spec fn python_separator_from(s: Seq<char>, i: int, windows_host: bool) -> int
    decreases s.len() - i,
{
    if i < 0 || i >= s.len() {
        s.len() as int
    } else if python_separator(s[i], windows_host) {
        i
    } else {
        python_separator_from(s, i + 1, windows_host)
    }
}

/// The components of `s[i..]` other than empty ones and `.`.
pub open spec fn python_parts_from(s: Seq<char>, i: int, windows_host: bool) -> Seq<Seq<char>>
    decreases s.len() - i,
{
    if i < 0 || i > s.len() {
        Seq::empty()
    } else {
        let j = python_separator_from(s, i, windows_host);
        let part = s.subrange(i, j);
        let head: Seq<Seq<char>> = if j > i && part != seq!['.'] {
            seq![part]
        } else {
            Seq::empty()
        };
        if i <= j < s.len() {
            head + python_parts_from(s, j + 1, windows_host)
        } else {
            head
        }
    }
}

/// The components of a path as Python's pure paths give them: `.` for an
/// empty or dot path, the root separator, the names, and (when asked) the
/// base name split into stem and extensions.
pub open spec fn python_components(s: Seq<char>, windows_host: bool, treat_base: bool) -> Seq<
    Seq<char>,
> {
    if s.len() == 0 || s == seq!['.'] {
        seq![seq!['.']]
    } else {
        let root: Seq<Seq<char>> = if python_separator(s[0], windows_host) {
            seq![seq![s[0]]]
        } else {
            Seq::empty()
        };
        let parts = python_parts_from(s, 0, windows_host);
        if parts.len() == 0 {
            if root.len() == 0 {
                seq![seq!['.']]
            } else {
                root
            }
        } else {
            let base = parts.last();
            let tail: Seq<Seq<char>> = if treat_base {
                (if stem_of(base).len() > 0 {
                    seq![stem_of(base)]
                } else {
                    Seq::empty()
                }) + extensions_of(base)
            } else {
                seq![base]
            };
            root + parts.drop_last() + tail
        }
    }
}

fn copy_range(s: &Vec<char>, lo: usize, hi: usize) -> (r: Vec<char>)
    requires
        lo <= hi <= s.len(),
    ensures
        r@ == s@.subrange(lo as int, hi as int),
{
    let mut out: Vec<char> = Vec::new();
    let mut k = lo;
    while k < hi
        invariant
            lo <= k <= hi <= s.len(),
            out@ == s@.subrange(lo as int, k as int),
        decreases hi - k,
    {
        out.push(s[k]);
        proof {
            assert(s@.subrange(lo as int, k + 1) =~= s@.subrange(lo as int, k as int).push(
                s@[k as int],
            ));
        }
        k += 1;
    }
    out
}

fn python_parts(s: &Vec<char>, windows_host: bool) -> (r: Vec<Vec<char>>)
    ensures
        r@.map_values(|v: Vec<char>| v@) == python_parts_from(s@, 0, windows_host),
{
    let mut out: Vec<Vec<char>> = Vec::new();
    let mut i: usize = 0;
    let ghost whole = python_parts_from(s@, 0, windows_host);
    assert(out@.map_values(|v: Vec<char>| v@) + python_parts_from(s@, 0, windows_host) =~= whole);
    loop
        invariant
            i <= s.len(),
            whole == python_parts_from(s@, 0, windows_host),
            out@.map_values(|v: Vec<char>| v@) + python_parts_from(s@, i as int, windows_host)
                == whole,
        decreases s.len() - i,
    {
        let ghost before = out@.map_values(|v: Vec<char>| v@);
        let mut j = i;
        while j < s.len() && !(s[j] == '/' || (windows_host && s[j] == '\\'))
            invariant
                i <= j <= s.len(),
                python_separator_from(s@, i as int, windows_host) == python_separator_from(
                    s@,
                    j as int,
                    windows_host,
                ),
            decreases s.len() - j,
        {
            j += 1;
        }
        let ghost part = s@.subrange(i as int, j as int);
        let ghost head: Seq<Seq<char>> = if j > i && part != seq!['.'] {
            seq![part]
        } else {
            Seq::empty()
        };
        let dot = j > i && j - i == 1 && s[i] == '.';
        assert(dot == (j > i && part == seq!['.'])) by {
            assert(part.len() == j - i);
            if j > i && part == seq!['.'] {
                assert(part[0] == s@[i as int]);
            }
            if dot {
                assert(part =~= seq!['.']);
            }
        }
        if j > i && !dot {
            let seg = copy_range(s, i, j);
            out.push(seg);
        }
        assert(out@.map_values(|v: Vec<char>| v@) =~= before + head);
        if j >= s.len() {
            assert(python_parts_from(s@, i as int, windows_host) == head);
            return out;
        }
        assert(python_parts_from(s@, i as int, windows_host) == head + python_parts_from(
            s@,
            j + 1,
            windows_host,
        ));
        assert(before + (head + python_parts_from(s@, j + 1, windows_host)) =~= (before + head)
            + python_parts_from(s@, j + 1, windows_host));
        i = j + 1;
    }
}

/// The components of a path as Python's pure paths give them (see
/// [`python_components`]).
pub fn python_path_components(input: &str, windows_host: bool, treat_base: bool) -> (r: Vec<String>)
    ensures
        r@.map_values(|v: String| v@) == python_components(input@, windows_host, treat_base),
{
    let s = chars_of(input);
    let mut parts_out: Vec<Vec<char>> = Vec::new();
    let is_dot = s.len() == 1 && s[0] == '.';
    assert(is_dot == (s@ == seq!['.'])) by {
        if s@ == seq!['.'] {
            assert(s@[0] == '.');
        }
        if is_dot {
            assert(s@ =~= seq!['.']);
        }
    }
    if s.len() == 0 || is_dot {
        let dot = vec!['.'];
        assert(dot@ =~= seq!['.']);
        parts_out.push(dot);
        assert(parts_out@.map_values(|v: Vec<char>| v@) =~= seq![seq!['.']]);
        return strings_of(&parts_out);
    }
    if s[0] == '/' || (windows_host && s[0] == '\\') {
        let root = vec![s[0]];
        assert(root@ =~= seq![s@[0]]);
        parts_out.push(root);
    }
    let ghost root_part = parts_out@.map_values(|v: Vec<char>| v@);
    assert(root_part =~= if python_separator(s@[0], windows_host) {
        seq![seq![s@[0]]]
    } else {
        Seq::<Seq<char>>::empty()
    });
    let parts = python_parts(&s, windows_host);
    let ghost pv = parts@.map_values(|v: Vec<char>| v@);
    if parts.len() == 0 {
        if parts_out.len() == 0 {
            let dot = vec!['.'];
            assert(dot@ =~= seq!['.']);
            parts_out.push(dot);
            assert(parts_out@.map_values(|v: Vec<char>| v@) =~= seq![seq!['.']]);
        }
        return strings_of(&parts_out);
    }
    let n = parts.len();
    let mut i: usize = 0;
    while i + 1 < n
        invariant
            n == parts.len(),
            n > 0,
            i + 1 <= n,
            pv == parts@.map_values(|v: Vec<char>| v@),
            parts_out@.map_values(|v: Vec<char>| v@) =~= root_part + pv.subrange(0, i as int),
        decreases n - i,
    {
        let copy = copy_range(&parts[i], 0, parts[i].len());
        assert(copy@ =~= pv[i as int]);
        let ghost before = parts_out@.map_values(|v: Vec<char>| v@);
        parts_out.push(copy);
        proof {
            assert(pv.subrange(0, i + 1) =~= pv.subrange(0, i as int).push(pv[i as int]));
            assert(parts_out@.map_values(|v: Vec<char>| v@) =~= before.push(pv[i as int]));
        }
        i += 1;
    }
    assert(pv.subrange(0, i as int) =~= pv.drop_last());
    let ghost mid = parts_out@.map_values(|v: Vec<char>| v@);
    let base = copy_range(&parts[n - 1], 0, parts[n - 1].len());
    assert(base@ =~= pv.last());
    if treat_base {
        let (stem, extensions) = crate::path::split_base_extensions(&base);
        let ghost stem_part: Seq<Seq<char>> = if stem_of(pv.last()).len() > 0 {
            seq![stem_of(pv.last())]
        } else {
            Seq::empty()
        };
        if stem.len() > 0 {
            parts_out.push(stem);
        }
        let ghost with_stem = parts_out@.map_values(|v: Vec<char>| v@);
        assert(with_stem =~= mid + stem_part);
        let mut e: usize = 0;
        while e < extensions.len()
            invariant
                e <= extensions.len(),
                parts_out@.map_values(|v: Vec<char>| v@) =~= with_stem
                    + extensions@.map_values(|v: Vec<char>| v@).subrange(0, e as int),
            decreases extensions.len() - e,
        {
            let copy = copy_range(&extensions[e], 0, extensions[e].len());
            assert(copy@ =~= extensions@.map_values(|v: Vec<char>| v@)[e as int]);
            let ghost before = parts_out@.map_values(|v: Vec<char>| v@);
            parts_out.push(copy);
            proof {
                let ev = extensions@.map_values(|v: Vec<char>| v@);
                assert(ev.subrange(0, e + 1) =~= ev.subrange(0, e as int).push(ev[e as int]));
                assert(parts_out@.map_values(|v: Vec<char>| v@) =~= before.push(ev[e as int]));
            }
            e += 1;
        }
        assert(extensions@.map_values(|v: Vec<char>| v@).subrange(0, e as int)
            =~= extensions@.map_values(|v: Vec<char>| v@));
        assert(parts_out@.map_values(|v: Vec<char>| v@) =~= root_part + pv.drop_last() + (stem_part
            + extensions_of(pv.last())));
    } else {
        parts_out.push(base);
        assert(parts_out@.map_values(|v: Vec<char>| v@) =~= root_part + pv.drop_last() + seq![
            pv.last(),
        ]);
    }
    strings_of(&parts_out)
}

fn strings_of(parts: &Vec<Vec<char>>) -> (r: Vec<String>)
    ensures
        r@.map_values(|t: String| t@) == parts@.map_values(|v: Vec<char>| v@),
{
    let mut out: Vec<String> = Vec::new();
    let mut i: usize = 0;
    while i < parts.len()
        invariant
            i <= parts.len(),
            out@.map_values(|t: String| t@) =~= parts@.map_values(|v: Vec<char>| v@).subrange(
                0,
                i as int,
            ),
        decreases parts.len() - i,
    {
        let t = string_from_chars(parts[i].as_slice());
        let ghost before = out@.map_values(|t: String| t@);
        out.push(t);
        proof {
            let pv = parts@.map_values(|v: Vec<char>| v@);
            assert(pv.subrange(0, i + 1) =~= pv.subrange(0, i as int).push(pv[i as int]));
            assert(out@.map_values(|t: String| t@) =~= before.push(pv[i as int]));
        }
        i += 1;
    }
    assert(parts@.map_values(|v: Vec<char>| v@).subrange(0, i as int) =~= parts@.map_values(
        |v: Vec<char>| v@,
    ));
    out
}

/// An ASCII uppercase letter as lowercase.
pub open spec fn ascii_lower_byte(b: u8) -> u8 {
    if 65 <= b <= 90 {
        (b + 32) as u8
    } else {
        b
    }
}

/// Bytes as Python's key reads them (ASCII lowercased when case is
/// ignored), and whether the key is wrapped for path mode.
pub fn python_parse_bytes(input: &[u8], bits: i64) -> (r: (Vec<u8>, bool))
    ensures
        r.0@ == if has_flag(bits, 64) {
            input@.map_values(|b: u8| ascii_lower_byte(b))
        } else {
            input@
        },
        r.1 == has_flag(bits, 8),
{
    let lower = flag(bits, 64);
    let mut out: Vec<u8> = Vec::new();
    let mut i: usize = 0;
    while i < input.len()
        invariant
            i <= input@.len(),
            out@ =~= (if lower {
                input@.map_values(|b: u8| ascii_lower_byte(b))
            } else {
                input@
            }).subrange(0, i as int),
        decreases input@.len() - i,
    {
        let b = input[i];
        out.push(
            if lower && 65 <= b && b <= 90 {
                b + 32
            } else {
                b
            },
        );
        i += 1;
    }
    (out, flag(bits, 8))
}

/// Normalization at Python's boundary: compatibility forms when the bits ask
/// for them, composed forms when `compose` is set.
pub fn python_normalize_string(input: &str, bits: i64, compose: bool) -> (r: String)
    ensures
        r@ == spec_normalize(input@, has_flag(bits, 2048), compose),
{
    normalize_form(input, flag(bits, 2048), compose)
}

/// Whether the original text is kept after the input transform (not under
/// code point locale collation), and whether text is composed (locale
/// collation).
pub fn python_parse_string_plan(bits: i64) -> (r: (bool, bool))
    ensures
        r == (!(has_flag(bits, 2147483648) && has_flag(bits, 16)), has_flag(bits, 16)),
{
    let locale = flag(bits, 16);
    let dumb = flag(bits, PYTHON_NS_DUMB);
    (!(dumb && locale), locale)
}

/// What decoding bytes by an encoding's name gives: what the decoder that
/// the normalized name selects gives (its error in words), or the error of
/// an unsupported encoding.
pub open spec fn python_decoded(input: Seq<u8>, encoding: Seq<char>, r: Result<String, String>) -> bool {
    match encoding_named(normalized_encoding(encoding)) {
        Some(DecodeEncoding::Ascii) => match r {
            Ok(s) => ascii_result(input, Ok(s)),
            Err(m) => exists|e| ascii_result(input, Err(e)) && m@ == decode_error_message(e),
        },
        Some(DecodeEncoding::Latin1) => r matches Ok(s) && s@ == latin1_text(input),
        Some(DecodeEncoding::Utf8) => match r {
            Ok(s) => utf8_result(input, Ok(s)),
            Err(m) => exists|e| utf8_result(input, Err(e)) && m@ == decode_error_message(e),
        },
        None => r matches Err(m) && m@ == "unsupported decoder encoding: "@ + encoding,
    }
}

/// Decode bytes in the named encoding, or say why not.
pub fn python_decode_bytes(input: &[u8], encoding: &str) -> (r: Result<String, String>)
    ensures
        python_decoded(input@, encoding@, r),
{
    match decoder(encoding) {
        Ok(d) => match d.encoding() {
            DecodeEncoding::Ascii => match decode_ascii_bytes(input) {
                Ok(s) => Ok(s),
                Err(e) => Err(e.message()),
            },
            DecodeEncoding::Latin1 => Ok(decode_latin1_bytes(input)),
            DecodeEncoding::Utf8 => match decode_utf8_bytes(input) {
                Ok(s) => Ok(s),
                Err(e) => Err(e.message()),
            },
        },
        Err(e) => Err(e.message()),
    }
}

/// Decoding by name is decoding with the decoder that the name selects:
/// for ASCII the same text or the same error, in words; for UTF-8 the same
/// text, or an error at the same position that has a length exactly when
/// the decoder's has one (which length, one to three, both leave open).
pub proof fn law_python_decode_selects_decoder(
    input: Seq<u8>,
    encoding: Seq<char>,
    r: Result<String, String>,
    d: Result<String, DecodeError>,
)
    requires
        python_decoded(input, encoding, r),
        encoding_named(normalized_encoding(encoding)) == Some(DecodeEncoding::Ascii) ==> ascii_result(
            input,
            d,
        ),
        encoding_named(normalized_encoding(encoding)) == Some(DecodeEncoding::Utf8) ==> utf8_result(
            input,
            d,
        ),
    ensures
        encoding_named(normalized_encoding(encoding)) == Some(DecodeEncoding::Ascii) ==> match (r, d) {
            (Ok(s), Ok(t)) => s@ == t@,
            (Err(m), Err(e)) => m@ == decode_error_message(e),
            _ => false,
        },
        encoding_named(normalized_encoding(encoding)) == Some(DecodeEncoding::Utf8) ==> match (r, d) {
            (Ok(s), Ok(t)) => s@ == t@,
            (Err(m), Err(e)) => exists|e2: DecodeError|
                {
                    &&& m@ == decode_error_message(e2)
                    &&& utf8_result(input, Err(e2))
                    &&& e2->valid_up_to == e->valid_up_to
                    &&& (e2->error_length is None <==> e->error_length is None)
                },
            _ => false,
        },
        encoding_named(normalized_encoding(encoding)) == Some(DecodeEncoding::Latin1) ==> (r matches Ok(
            s,
        ) && s@ == latin1_text(input)),
        encoding_named(normalized_encoding(encoding)) is None ==> r is Err,
{
    let kind = encoding_named(normalized_encoding(encoding));
    if kind == Some(DecodeEncoding::Ascii) {
        match (r, d) {
            (Ok(s), Err(e)) => {
                let p = e->position;
                assert(input[p as int] < 128);
            },
            (Err(m), Ok(t)) => {
                let e1 = choose|e| ascii_result(input, Err(e)) && m@ == decode_error_message(e);
                let p = e1->position;
                assert(input[p as int] < 128);
            },
            (Err(m), Err(e)) => {
                let e1 = choose|e| ascii_result(input, Err(e)) && m@ == decode_error_message(e);
                let p1 = e1->position;
                let p2 = e->position;
                if p1 < p2 {
                    assert(input[p1 as int] < 128);
                } else if p2 < p1 {
                    assert(input[p2 as int] < 128);
                }
                assert(e1 == e);
            },
            _ => {},
        }
    } else if kind == Some(DecodeEncoding::Utf8) {
        match (r, d) {
            (Err(m), Err(e)) => {
                let e1 = choose|e| utf8_result(input, Err(e)) && m@ == decode_error_message(e);
                let v1 = e1->valid_up_to;
                let v2 = e->valid_up_to;
                if v1 < v2 {
                    assert(!vstd::utf8::valid_utf8(input.subrange(0, v2 as int)));
                } else if v2 < v1 {
                    assert(!vstd::utf8::valid_utf8(input.subrange(0, v1 as int)));
                }
                assert(v1 == v2);
            },
            _ => {},
        }
    }
}

} // verus!
