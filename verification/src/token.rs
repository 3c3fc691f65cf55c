//! Splitting strings into text runs and numbers.
use vstd::prelude::*;

use crate::chars::{chars_of, string_from_chars};
use crate::unicode_numeric::{
    spec_unicode_digit, spec_unicode_numeric, unicode_digit_value, unicode_numeric_value,
};

verus! {

/// `grift_unicode::digit_value`: the digit value that the crate assigns to a
/// character, found by walking back through a run of numeric characters.
pub uninterp spec fn spec_grift_digit(c: char) -> Option<u32>;

/// `grift_unicode::digit_value`. Its source returns the ASCII value for
/// `'0'..='9'`, `None` for any character that `char::is_numeric` rejects
/// (every other ASCII character among them), and never a value above nine.
/// Which non-ASCII characters get a value is named, not described.
#[verifier::external_body]
fn grift_digit_value(c: char) -> (r: Option<u32>)
    ensures
        r == spec_grift_digit(c),
        '0' <= c <= '9' ==> r == Some((c as u32 - 48) as u32),
        (c as u32) < 128 && !('0' <= c <= '9') ==> r is None,
        r matches Some(v) ==> v <= 9,
{
    grift_unicode::digit_value(c)
}

/// A Unicode decimal digit (general category `Nd`): a character that
/// `grift_unicode` gives a digit value and that has no value of its own in
/// the non-decimal numeric table.
pub open spec fn is_decimal(c: char) -> bool {
    spec_grift_digit(c) is Some && spec_unicode_numeric(c) is None
}

/// The ASCII digit with the value of a decimal digit character.
pub open spec fn decimal_char(c: char) -> char {
    (48 + spec_grift_digit(c)->0) as char
}

/// A character that is a number on its own: a non-decimal digit in integer
/// mode, a non-decimal numeric character in float mode.
pub open spec fn is_single_number(c: char, float: bool) -> bool {
    !is_decimal(c) && if float {
        spec_unicode_numeric(c) is Some
    } else {
        spec_unicode_digit(c) is Some
    }
}

pub open spec fn is_sign(c: char) -> bool {
    c == '+' || c == '-'
}

/// A decimal number (no sign) starts at `i`.
pub open spec fn starts_decimal(s: Seq<char>, i: int, float: bool) -> bool {
    0 <= i < s.len() && (is_decimal(s[i]) || (float && s[i] == '.' && i + 1 < s.len() && is_decimal(
        s[i + 1],
    )))
}

/// Some number starts at `i`.
pub open spec fn starts_number(s: Seq<char>, i: int, signed: bool, float: bool) -> bool {
    0 <= i < s.len() && (starts_decimal(s, i, float) || is_single_number(s[i], float) || (signed
        && is_sign(s[i]) && starts_decimal(s, i + 1, float)))
}

/// The end of the run of decimal digits that starts at `j`.
pub open spec fn run_end(s: Seq<char>, j: int) -> int
    decreases s.len() - j,
{
    if 0 <= j < s.len() && is_decimal(s[j]) {
        run_end(s, j + 1)
    } else {
        j
    }
}

/// Decimal digits rewritten as ASCII digits.
pub open spec fn ascii_digits(t: Seq<char>) -> Seq<char> {
    t.map_values(|c: char| decimal_char(c))
}

/// The exponent that follows a float at `j`, if one does: a marker, an
/// optional sign and at least one digit.
pub open spec fn exponent_follows(s: Seq<char>, j: int) -> bool {
    let k0 = j + 1;
    let k1 = if k0 < s.len() && is_sign(s[k0]) {
        k0 + 1
    } else {
        k0
    };
    0 <= j < s.len() && (s[j] == 'e' || s[j] == 'E') && k1 < s.len() && is_decimal(s[k1])
}

/// The end of the sign, integer digits and fraction of the decimal number
/// that starts at `i`, and their text with the digits in ASCII.
pub open spec fn scan_mantissa(s: Seq<char>, i: int, signed: bool, float: bool) -> (
    int,
    Seq<char>,
) {
    let has_sign = signed && 0 <= i < s.len() && is_sign(s[i]);
    let j0 = if has_sign {
        i + 1
    } else {
        i
    };
    let sign = if has_sign {
        seq![s[i]]
    } else {
        Seq::empty()
    };
    let j1 = run_end(s, j0);
    let int_part = ascii_digits(s.subrange(j0, j1));
    let has_frac = float && 0 <= j1 < s.len() && s[j1] == '.' && (j1 > j0 || (j1 + 1 < s.len()
        && is_decimal(s[j1 + 1])));
    let j2 = if has_frac {
        run_end(s, j1 + 1)
    } else {
        j1
    };
    let frac = if has_frac {
        seq!['.'] + ascii_digits(s.subrange(j1 + 1, j2))
    } else {
        Seq::empty()
    };
    (j2, sign + int_part + frac)
}

/// The end and the text of the exponent that follows a float at `j`, if
/// exponents are read there; `(j, [])` where none is.
pub open spec fn scan_exponent(s: Seq<char>, j: int, float: bool, no_exp: bool) -> (
    int,
    Seq<char>,
) {
    if float && !no_exp && exponent_follows(s, j) {
        let k0 = j + 1;
        let exp_sign = k0 < s.len() && is_sign(s[k0]);
        let k1 = if exp_sign {
            k0 + 1
        } else {
            k0
        };
        let k2 = run_end(s, k1);
        let sign = if exp_sign {
            seq![s[k0]]
        } else {
            Seq::empty()
        };
        (k2, seq![s[j]] + sign + ascii_digits(s.subrange(k1, k2)))
    } else {
        (j, Seq::empty())
    }
}

/// The end and the text of the decimal number that starts at `i`, digits in
/// ASCII.
pub open spec fn scan_number(s: Seq<char>, i: int, signed: bool, float: bool, no_exp: bool) -> (
    int,
    Seq<char>,
) {
    let m = scan_mantissa(s, i, signed, float);
    let e = scan_exponent(s, m.0, float, no_exp);
    (e.0, m.1 + e.1)
}

/// A run of decimal digits ends inside the string, after its start, and past
/// its first digit.
pub proof fn lemma_run_end(s: Seq<char>, j: int)
    requires
        0 <= j <= s.len(),
    ensures
        j <= run_end(s, j) <= s.len(),
        j < s.len() && is_decimal(s[j]) ==> j < run_end(s, j),
    decreases s.len() - j,
{
    if j < s.len() && is_decimal(s[j]) {
        lemma_run_end(s, j + 1);
    }
}

/// The end of the text run that starts at `i`: the next position where a
/// number starts, or the end of the input.
pub open spec fn text_end(s: Seq<char>, i: int, signed: bool, float: bool) -> int
    decreases s.len() - i,
{
    if 0 <= i < s.len() && !starts_number(s, i, signed, float) {
        text_end(s, i + 1, signed, float)
    } else {
        i
    }
}

/// The abstract value of a token.
pub enum SpecToken {
    Text(Seq<char>),
    Number(Seq<char>),
}

/// The tokens of `s` from position `i` on.
pub open spec fn tokenize_from(s: Seq<char>, i: int, signed: bool, float: bool, no_exp: bool) -> Seq<
    SpecToken,
>
    decreases s.len() - i,
{
    if i < 0 || i >= s.len() {
        Seq::empty()
    } else if starts_number(s, i, signed, float) {
        if is_single_number(s[i], float) {
            seq![SpecToken::Number(seq![s[i]])] + tokenize_from(s, i + 1, signed, float, no_exp)
        } else {
            let (e, t) = scan_number(s, i, signed, float, no_exp);
            let next = if i < e <= s.len() {
                e
            } else {
                i + 1
            };
            seq![SpecToken::Number(t)] + tokenize_from(s, next, signed, float, no_exp)
        }
    } else {
        let e = text_end(s, i, signed, float);
        let next = if i < e <= s.len() {
            e
        } else {
            i + 1
        };
        seq![SpecToken::Text(s.subrange(i, next))] + tokenize_from(s, next, signed, float, no_exp)
    }
}

/// The tokens of a string: maximal text runs and numbers, left to right.
/// Decimal digits of any script become ASCII digits; a non-decimal digit or
/// numeric character stands alone as a number token and is kept as it is.
pub open spec fn spec_tokenize(s: Seq<char>, signed: bool, float: bool, no_exp: bool) -> Seq<
    SpecToken,
> {
    tokenize_from(s, 0, signed, float, no_exp)
}

/// A piece of a tokenized string.
#[derive(Debug, Clone, PartialEq, Eq)]
pub enum Token {
    Text(String),
    Number(String),
}

impl View for Token {
    type V = SpecToken;

    open spec fn view(&self) -> SpecToken {
        match self {
            Token::Text(s) => SpecToken::Text(s@),
            Token::Number(s) => SpecToken::Number(s@),
        }
    }
}

pub open spec fn tokens_view(tokens: Seq<Token>) -> Seq<SpecToken> {
    tokens.map_values(|t: Token| t@)
}

pub fn is_decimal_digit(c: char) -> (r: bool)
    ensures
        r == is_decimal(c),
        (c as u32) < 128 && !('0' <= c <= '9') ==> !r,
{
    match grift_digit_value(c) {
        Some(_) => unicode_numeric_value(c).is_none(),
        None => false,
    }
}

/// The ASCII digit with the value of a decimal digit character.
pub fn decimal_digit_char(c: char) -> (r: char)
    requires
        is_decimal(c),
    ensures
        r == decimal_char(c),
{
    let v = grift_digit_value(c).unwrap();
    (48u8 + v as u8) as char
}

fn single_number(c: char, float: bool) -> (r: bool)
    ensures
        r == is_single_number(c, float),
{
    if is_decimal_digit(c) {
        false
    } else if float {
        unicode_numeric_value(c).is_some()
    } else {
        unicode_digit_value(c).is_some()
    }
}

fn starts_decimal_at(s: &Vec<char>, i: usize, float: bool) -> (r: bool)
    ensures
        r == starts_decimal(s@, i as int, float),
{
    if i >= s.len() {
        return false;
    }
    if is_decimal_digit(s[i]) {
        return true;
    }
    float && s[i] == '.' && i + 1 < s.len() && is_decimal_digit(s[i + 1])
}

fn starts_number_at(s: &Vec<char>, i: usize, signed: bool, float: bool) -> (r: bool)
    ensures
        r == starts_number(s@, i as int, signed, float),
{
    if i >= s.len() {
        return false;
    }
    if starts_decimal_at(s, i, float) || single_number(s[i], float) {
        return true;
    }
    signed && (s[i] == '+' || s[i] == '-') && starts_decimal_at(s, i + 1, float)
}

/// Append the ASCII forms of the decimal run at `j`; return its end.
fn push_digit_run(s: &Vec<char>, j: usize, out: &mut Vec<char>) -> (e: usize)
    requires
        j <= s.len(),
    ensures
        e == run_end(s@, j as int),
        j <= e <= s.len(),
        final(out)@ == old(out)@ + ascii_digits(s@.subrange(j as int, e as int)),
{
    let mut k = j;
    while k < s.len() && is_decimal_digit(s[k])
        invariant
            j <= k <= s.len(),
            run_end(s@, j as int) == run_end(s@, k as int),
            out@ == old(out)@ + ascii_digits(s@.subrange(j as int, k as int)),
        decreases s.len() - k,
    {
        let d = decimal_digit_char(s[k]);
        out.push(d);
        proof {
            assert(ascii_digits(s@.subrange(j as int, k + 1)) =~= ascii_digits(
                s@.subrange(j as int, k as int),
            ).push(decimal_char(s@[k as int])));
        }
        k += 1;
    }
    k
}

fn scan_mantissa_at(s: &Vec<char>, i: usize, signed: bool, float: bool) -> (r: (usize, Vec<char>))
    requires
        i < s.len(),
        starts_number(s@, i as int, signed, float),
        !is_single_number(s@[i as int], float),
    ensures
        r.0 as int == scan_mantissa(s@, i as int, signed, float).0,
        r.1@ == scan_mantissa(s@, i as int, signed, float).1,
        i < r.0 <= s.len(),
{
    let ghost sv = s@;
    let mut text: Vec<char> = Vec::new();
    let has_sign = signed && (s[i] == '+' || s[i] == '-');
    let j0 = if has_sign {
        text.push(s[i]);
        i + 1
    } else {
        i
    };
    let ghost sign = text@;
    let j1 = push_digit_run(s, j0, &mut text);
    proof {
        lemma_run_end(sv, j0 as int);
    }
    let has_frac = float && j1 < s.len() && s[j1] == '.' && (j1 > j0 || (j1 + 1 < s.len()
        && is_decimal_digit(s[j1 + 1])));
    let j2 = if has_frac {
        text.push('.');
        let e = push_digit_run(s, j1 + 1, &mut text);
        proof {
            lemma_run_end(sv, j1 + 1);
            assert(text@ =~= sign + ascii_digits(sv.subrange(j0 as int, j1 as int)) + (seq!['.']
                + ascii_digits(sv.subrange(j1 + 1, e as int))));
        }
        e
    } else {
        j1
    };
    (j2, text)
}

fn scan_exponent_at(s: &Vec<char>, j: usize, float: bool, no_exp: bool, text: &mut Vec<char>) -> (e: usize)
    requires
        j <= s.len(),
    ensures
        e as int == scan_exponent(s@, j as int, float, no_exp).0,
        final(text)@ == old(text)@ + scan_exponent(s@, j as int, float, no_exp).1,
        j <= e <= s.len(),
{
    let ghost sv = s@;
    if !float || no_exp || j >= s.len() || !(s[j] == 'e' || s[j] == 'E') {
        assert(old(text)@ + Seq::<char>::empty() =~= old(text)@);
        return j;
    }
    let k0 = j + 1;
    let exp_sign = k0 < s.len() && (s[k0] == '+' || s[k0] == '-');
    let k1 = if exp_sign {
        k0 + 1
    } else {
        k0
    };
    if !(k1 < s.len() && is_decimal_digit(s[k1])) {
        assert(old(text)@ + Seq::<char>::empty() =~= old(text)@);
        return j;
    }
    let ghost before = text@;
    text.push(s[j]);
    if exp_sign {
        text.push(s[k0]);
    }
    let k2 = push_digit_run(s, k1, text);
    proof {
        lemma_run_end(sv, k1 as int);
        let sign = if exp_sign {
            seq![sv[k0 as int]]
        } else {
            Seq::<char>::empty()
        };
        assert(text@ =~= before + (seq![sv[j as int]] + sign + ascii_digits(
            sv.subrange(k1 as int, k2 as int),
        )));
    }
    k2
}

fn scan_number_at(s: &Vec<char>, i: usize, signed: bool, float: bool, no_exp: bool) -> (r: (
    usize,
    Vec<char>,
))
    requires
        i < s.len(),
        starts_number(s@, i as int, signed, float),
        !is_single_number(s@[i as int], float),
    ensures
        r.0 as int == scan_number(s@, i as int, signed, float, no_exp).0,
        r.1@ == scan_number(s@, i as int, signed, float, no_exp).1,
        i < r.0 <= s.len(),
{
    let (j, mut text) = scan_mantissa_at(s, i, signed, float);
    let end = scan_exponent_at(s, j, float, no_exp, &mut text);
    (end, text)
}

fn text_end_at(s: &Vec<char>, i: usize, signed: bool, float: bool) -> (e: usize)
    requires
        i < s.len(),
        !starts_number(s@, i as int, signed, float),
    ensures
        e as int == text_end(s@, i as int, signed, float),
        i < e <= s.len(),
{
    let mut k = i;
    while k < s.len() && !starts_number_at(s, k, signed, float)
        invariant
            i <= k <= s.len(),
            text_end(s@, i as int, signed, float) == text_end(s@, k as int, signed, float),
            k == i ==> !starts_number(s@, i as int, signed, float),
        decreases s.len() - k,
    {
        k += 1;
    }
    k
}

/// Split a string into text runs and numbers (see [`spec_tokenize`]).
pub fn tokenize(input: &str, signed: bool, float: bool, no_exp: bool) -> (r: Vec<Token>)
    ensures
        tokens_view(r@) == spec_tokenize(input@, signed, float, no_exp),
{
    let chars = chars_of(input);
    let ghost s = chars@;
    let mut tokens: Vec<Token> = Vec::new();
    let mut index: usize = 0;
    assert(tokens_view(tokens@) + tokenize_from(s, 0, signed, float, no_exp) =~= tokenize_from(
        s,
        0,
        signed,
        float,
        no_exp,
    ));
    while index < chars.len()
        invariant
            s == chars@,
            index <= chars.len(),
            tokens_view(tokens@) + tokenize_from(s, index as int, signed, float, no_exp)
                == tokenize_from(s, 0, signed, float, no_exp),
        decreases chars.len() - index,
    {
        let ghost before = tokens@;
        let ghost i0 = index as int;
        if starts_number_at(&chars, index, signed, float) {
            if single_number(chars[index], float) {
                let one = vec![chars[index]];
                let text = string_from_chars(one.as_slice());
                assert(text@ =~= seq![s[i0]]);
                tokens.push(Token::Number(text));
                index += 1;
            } else {
                let (end, text) = scan_number_at(&chars, index, signed, float, no_exp);
                tokens.push(Token::Number(string_from_chars(text.as_slice())));
                index = end;
            }
        } else {
            let end = text_end_at(&chars, index, signed, float);
            let mut piece: Vec<char> = Vec::new();
            let mut k = index;
            while k < end
                invariant
                    index <= k <= end <= chars.len(),
                    piece@ == chars@.subrange(index as int, k as int),
                decreases end - k,
            {
                piece.push(chars[k]);
                proof {
                    assert(chars@.subrange(index as int, k + 1) =~= chars@.subrange(
                        index as int,
                        k as int,
                    ).push(chars@[k as int]));
                }
                k += 1;
            }
            let text = string_from_chars(piece.as_slice());
            assert(text@ =~= s.subrange(i0, end as int));
            tokens.push(Token::Text(text));
            index = end;
        }
        proof {
            assert(tokenize_from(s, i0, signed, float, no_exp) == seq![tokens@.last()@]
                + tokenize_from(s, index as int, signed, float, no_exp));
            assert(tokens_view(tokens@) =~= tokens_view(before).push(tokens@.last()@));
            assert(tokens_view(tokens@) + tokenize_from(s, index as int, signed, float, no_exp)
                =~= tokens_view(before) + tokenize_from(s, i0, signed, float, no_exp));
        }
    }
    assert(tokens_view(tokens@) =~= tokens_view(tokens@) + tokenize_from(
        s,
        index as int,
        signed,
        float,
        no_exp,
    ));
    tokens
}

} // verus!
