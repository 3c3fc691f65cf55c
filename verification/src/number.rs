//! Numbers read from number tokens, and their order.
//!
//! A number is kept as a sign, its significant digits and the position of
//! the decimal point: `0.d1 d2 ... dn × 10^position`. Zero is the digit
//! string `"0"`. Numbers of any size and precision compare exactly.
use vstd::prelude::*;

use std::cmp::Ordering;

use crate::chars::chars_of;
use crate::order::{by_order, char_order, int_order, lemma_by_order, lemma_char_order, lemma_int_order, lemma_lex_order, lemma_then_order, lex_compare, lex_order, sign, then_order, total_preorder};
use crate::unicode_numeric::{
    spec_unicode_digit, spec_unicode_numeric, unicode_digit_value, unicode_numeric_value,
};

verus! {

/// The abstract value of a parsed number.
pub struct SpecNumber {
    pub negative: bool,
    pub digits: Seq<char>,
    pub position: int,
}

/// The first position at or after `i` that holds `c1` or `c2`, or the length.
pub open spec fn find_either(s: Seq<char>, i: int, c1: char, c2: char) -> int
    decreases s.len() - i,
{
    if i < 0 || i >= s.len() {
        s.len() as int
    } else if s[i] == c1 || s[i] == c2 {
        i
    } else {
        find_either(s, i + 1, c1, c2)
    }
}

/// The end of the run of `'0'` characters that starts at `i`.
pub open spec fn zeros_end(s: Seq<char>, i: int) -> int
    decreases s.len() - i,
{
    if 0 <= i < s.len() && s[i] == '0' {
        zeros_end(s, i + 1)
    } else {
        i
    }
}

/// The end of `s[lo..j]` without its trailing `'0'` characters.
pub open spec fn trim_zeros_end(s: Seq<char>, lo: int, j: int) -> int
    decreases j - lo,
{
    if lo < j && j <= s.len() && s[j - 1] == '0' {
        trim_zeros_end(s, lo, j - 1)
    } else {
        j
    }
}

pub open spec fn is_ascii_digit(c: char) -> bool {
    '0' <= c <= '9'
}

/// Every character is an ASCII digit.
pub open spec fn all_ascii_digits(s: Seq<char>) -> bool {
    forall|k: int| 0 <= k < s.len() ==> is_ascii_digit(#[trigger] s[k])
}

/// The value of a string of ASCII digits.
pub open spec fn digits_value(s: Seq<char>) -> int
    decreases s.len(),
{
    if s.len() == 0 {
        0
    } else {
        10 * digits_value(s.drop_last()) + (s.last() as int - 48)
    }
}

/// `str::parse::<i64>`: an optional sign and at least one ASCII digit, with
/// a value that fits.
pub open spec fn parse_i64(s: Seq<char>) -> Option<int> {
    let neg = s.len() > 0 && s[0] == '-';
    let signed = s.len() > 0 && (s[0] == '-' || s[0] == '+');
    let body = if signed {
        s.subrange(1, s.len() as int)
    } else {
        s
    };
    let v = digits_value(body);
    let value = if neg {
        -v
    } else {
        v
    };
    if body.len() > 0 && all_ascii_digits(body) && i64::MIN <= value <= i64::MAX {
        Some(value)
    } else {
        None
    }
}

/// The value of a number token written with ASCII digits: an optional sign,
/// integer digits, an optional fraction and an optional exponent. An
/// exponent that does not fit in an `i64` counts as zero.
pub open spec fn parse_decimal(t: Seq<char>) -> SpecNumber {
    let neg = t.len() > 0 && t[0] == '-';
    let start: int = if t.len() > 0 && (t[0] == '-' || t[0] == '+') {
        1
    } else {
        0
    };
    let e = find_either(t, start, 'e', 'E');
    let exp = if e < t.len() {
        match parse_i64(t.subrange(e + 1, t.len() as int)) {
            Some(v) => v,
            None => 0,
        }
    } else {
        0
    };
    let mantissa = t.subrange(start, e);
    let d = find_either(mantissa, 0, '.', '.');
    let integer = mantissa.subrange(0, d);
    let fraction = if d < mantissa.len() {
        mantissa.subrange(d + 1, mantissa.len() as int)
    } else {
        Seq::empty()
    };
    let combined = integer + fraction;
    let lz = zeros_end(combined, 0);
    let digits = if lz == combined.len() {
        seq!['0']
    } else {
        combined.subrange(lz, trim_zeros_end(combined, lz, combined.len() as int))
    };
    SpecNumber { negative: neg && digits != seq!['0'], digits, position: integer.len() - lz + exp }
}

/// The ASCII digit for a value below ten.
pub open spec fn digit_char(d: int) -> char {
    (48 + d) as char
}

/// The decimal digits of a natural number, most significant first.
pub open spec fn nat_digits(n: nat) -> Seq<char>
    decreases n,
{
    if n < 10 {
        seq![digit_char(n as int)]
    } else {
        nat_digits(n / 10).push(digit_char((n % 10) as int))
    }
}

/// The number `m × 10^e`.
pub open spec fn scaled_number(m: int, e: int) -> SpecNumber {
    let ds = nat_digits(if m < 0 {
        (-m) as nat
    } else {
        m as nat
    });
    if m == 0 {
        SpecNumber { negative: false, digits: seq!['0'], position: e }
    } else {
        SpecNumber {
            negative: m < 0,
            digits: ds.subrange(0, trim_zeros_end(ds, 0, ds.len() as int)),
            position: ds.len() + e,
        }
    }
}

/// The value of a one-character token that is a number on its own: its digit
/// value in integer mode, its numeric value in float mode.
pub open spec fn single_char_number(t: Seq<char>, float: bool) -> Option<SpecNumber> {
    if t.len() != 1 {
        None
    } else if float {
        match spec_unicode_numeric(t[0]) {
            Some(v) => Some(scaled_number(v.0 as int, v.1 as int)),
            None => None,
        }
    } else {
        match spec_unicode_digit(t[0]) {
            Some(d) => Some(scaled_number(d as int, 0)),
            None => None,
        }
    }
}

/// The value of a number token.
pub open spec fn parse_number(t: Seq<char>, float: bool) -> SpecNumber {
    match single_char_number(t, float) {
        Some(n) => n,
        None => parse_decimal(t),
    }
}

/// Negative numbers, zero, positive numbers.
pub open spec fn number_class(n: SpecNumber) -> int {
    if n.digits == seq!['0'] {
        0
    } else if n.negative {
        -1
    } else {
        1
    }
}

/// The order of magnitudes of nonzero numbers: the decimal point's position,
/// then the significant digits.
pub open spec fn magnitude_order() -> spec_fn(SpecNumber, SpecNumber) -> int {
    then_order(
        by_order(|n: SpecNumber| n.position, int_order()),
        by_order(|n: SpecNumber| n.digits, lex_order(char_order())),
    )
}

/// Three-way comparison of numbers by value.
pub open spec fn number_compare(a: SpecNumber, b: SpecNumber) -> int {
    let ca = number_class(a);
    let cb = number_class(b);
    if ca != cb {
        sign(ca - cb)
    } else if ca == 0 {
        0
    } else if ca == 1 {
        magnitude_order()(a, b)
    } else {
        magnitude_order()(b, a)
    }
}

pub open spec fn number_order() -> spec_fn(SpecNumber, SpecNumber) -> int {
    |a: SpecNumber, b: SpecNumber| number_compare(a, b)
}

/// The magnitude order is a total preorder.
pub proof fn lemma_magnitude_order()
    ensures
        total_preorder(magnitude_order()),
{
    lemma_int_order();
    lemma_char_order();
    lemma_lex_order(char_order());
    lemma_by_order(|n: SpecNumber| n.position, int_order());
    lemma_by_order(|n: SpecNumber| n.digits, lex_order(char_order()));
    lemma_then_order(
        by_order(|n: SpecNumber| n.position, int_order()),
        by_order(|n: SpecNumber| n.digits, lex_order(char_order())),
    );
}

/// The order of numbers is a total preorder: comparing is antisymmetric and
/// transitive, so sorting by it is well defined.
pub proof fn lemma_number_order()
    ensures
        total_preorder(number_order()),
{
    let m = magnitude_order();
    let o = number_order();
    lemma_magnitude_order();
    assert forall|x: SpecNumber, y: SpecNumber| #[trigger] o(x, y) == -o(y, x) && -1 <= o(x, y)
        <= 1 by {
        assert(m(x, y) == -m(y, x));
    }
    assert forall|x: SpecNumber, y: SpecNumber, z: SpecNumber| #[trigger]
        o(x, y) <= 0 && #[trigger] o(y, z) <= 0 implies o(x, z) <= 0 by {
        assert(m(x, y) <= 0 && m(y, z) <= 0 ==> m(x, z) <= 0);
        assert(m(z, y) <= 0 && m(y, x) <= 0 ==> m(z, x) <= 0);
    }
}

/// A parsed number: sign, significant digits (ASCII), and the position of
/// the decimal point before them.
#[derive(Debug)]
pub struct NumericParts {
    pub negative: bool,
    pub digits: Vec<char>,
    pub decimal_position: i128,
}

impl View for NumericParts {
    type V = SpecNumber;

    open spec fn view(&self) -> SpecNumber {
        SpecNumber {
            negative: self.negative,
            digits: self.digits@,
            position: self.decimal_position as int,
        }
    }
}

fn find_either_at(s: &Vec<char>, i: usize, c1: char, c2: char) -> (r: usize)
    requires
        i <= s.len(),
    ensures
        r as int == find_either(s@, i as int, c1, c2),
        i <= r <= s.len(),
{
    let mut k = i;
    while k < s.len() && s[k] != c1 && s[k] != c2
        invariant
            i <= k <= s.len(),
            find_either(s@, i as int, c1, c2) == find_either(s@, k as int, c1, c2),
        decreases s.len() - k,
    {
        k += 1;
    }
    k
}

fn zeros_end_at(s: &Vec<char>, i: usize) -> (r: usize)
    requires
        i <= s.len(),
    ensures
        r as int == zeros_end(s@, i as int),
        i <= r <= s.len(),
{
    let mut k = i;
    while k < s.len() && s[k] == '0'
        invariant
            i <= k <= s.len(),
            zeros_end(s@, i as int) == zeros_end(s@, k as int),
        decreases s.len() - k,
    {
        k += 1;
    }
    k
}

fn trim_zeros_end_at(s: &Vec<char>, lo: usize, j: usize) -> (r: usize)
    requires
        lo <= j <= s.len(),
    ensures
        r as int == trim_zeros_end(s@, lo as int, j as int),
        lo <= r <= j,
{
    let mut k = j;
    while k > lo && s[k - 1] == '0'
        invariant
            lo <= k <= j <= s.len(),
            trim_zeros_end(s@, lo as int, j as int) == trim_zeros_end(s@, lo as int, k as int),
        decreases k,
    {
        k -= 1;
    }
    k
}

proof fn lemma_digits_value_push(s: Seq<char>, c: char)
    ensures
        digits_value(s.push(c)) == 10 * digits_value(s) + (c as int - 48),
{
    assert(s.push(c).drop_last() =~= s);
}

proof fn lemma_digits_value_nonneg(s: Seq<char>)
    requires
        forall|k: int| 0 <= k < s.len() ==> is_ascii_digit(#[trigger] s[k]),
    ensures
        digits_value(s) >= 0,
    decreases s.len(),
{
    if s.len() > 0 {
        lemma_digits_value_nonneg(s.drop_last());
    }
}

/// A longer run of digits is worth at least as much as its prefix.
proof fn lemma_digits_value_grows(s: Seq<char>, i: int)
    requires
        0 <= i <= s.len(),
        forall|k: int| 0 <= k < s.len() ==> is_ascii_digit(#[trigger] s[k]),
    ensures
        digits_value(s.subrange(0, i)) <= digits_value(s),
    decreases s.len() - i,
{
    if i < s.len() {
        lemma_digits_value_grows(s, i + 1);
        let p = s.subrange(0, i);
        assert(s.subrange(0, i + 1) =~= p.push(s[i]));
        lemma_digits_value_push(p, s[i]);
        lemma_digits_value_nonneg(p);
    } else {
        assert(s.subrange(0, i) =~= s);
    }
}

/// `str::parse::<i64>` of `s[lo..hi]`, or zero where it fails.
fn parse_i64_or_zero(s: &Vec<char>, lo: usize, hi: usize) -> (r: i64)
    requires
        lo <= hi <= s.len(),
    ensures
        r as int == match parse_i64(s@.subrange(lo as int, hi as int)) {
            Some(v) => v,
            None => 0,
        },
{
    let ghost t = s@.subrange(lo as int, hi as int);
    if lo == hi {
        return 0;
    }
    assert(t[0] == s@[lo as int]);
    let neg = s[lo] == '-';
    let signed = s[lo] == '-' || s[lo] == '+';
    let start = if signed {
        lo + 1
    } else {
        lo
    };
    let ghost body = s@.subrange(start as int, hi as int);
    assert(body =~= if signed {
        t.subrange(1, t.len() as int)
    } else {
        t
    });
    if start == hi {
        return 0;
    }
    let limit: i128 = 9223372036854775808;
    let mut acc: i128 = 0;
    let mut k = start;
    while k < hi
        invariant
            lo <= start <= k <= hi <= s.len(),
            body == s@.subrange(start as int, hi as int),
            t == s@.subrange(lo as int, hi as int),
            body == if signed {
                t.subrange(1, t.len() as int)
            } else {
                t
            },
            neg == (t.len() > 0 && t[0] == '-'),
            signed == (t.len() > 0 && (t[0] == '-' || t[0] == '+')),
            forall|j: int| start <= j < k ==> is_ascii_digit(#[trigger] s@[j]),
            acc == digits_value(s@.subrange(start as int, k as int)),
            0 <= acc <= limit,
            limit == 9223372036854775808,
        decreases hi - k,
    {
        let c = s[k];
        if !('0' <= c && c <= '9') {
            proof {
                assert(body[k - start] == s@[k as int]);
                assert(!is_ascii_digit(body[k - start]));
            }
            return 0;
        }
        let d = (c as u32 - 48) as i128;
        proof {
            assert(s@.subrange(start as int, k + 1) =~= s@.subrange(start as int, k as int).push(c));
            lemma_digits_value_push(s@.subrange(start as int, k as int), c);
        }
        if acc * 10 + d > limit {
            proof {
                // Every further digit only makes the value larger.
                if all_ascii_digits(body) {
                    lemma_digits_value_grows(body, k + 1 - start);
                    assert(body.subrange(0, k + 1 - start) =~= s@.subrange(start as int, k + 1));
                }
            }
            return 0;
        }
        acc = acc * 10 + d;
        k += 1;
    }
    proof {
        assert(s@.subrange(start as int, k as int) =~= body);
        assert(all_ascii_digits(body)) by {
            assert forall|q: int| 0 <= q < body.len() implies is_ascii_digit(#[trigger] body[q]) by {
                assert(body[q] == s@[start + q]);
            }
        }
    }
    let value: i128 = if neg {
        -acc
    } else {
        acc
    };
    if value > 9223372036854775807 {
        return 0;
    }
    value as i64
}

/// Append the decimal digits of `n`.
pub fn push_nat_digits(n: u64, out: &mut Vec<char>)
    ensures
        final(out)@ == old(out)@ + nat_digits(n as nat),
    decreases n,
{
    if n >= 10 {
        push_nat_digits(n / 10, out);
    }
    let d = (n % 10) as u8;
    out.push((48u8 + d) as char);
    proof {
        if n >= 10 {
            assert(nat_digits(n as nat) == nat_digits((n / 10) as nat).push(
                digit_char((n % 10) as int),
            ));
        }
    }
}

/// The number `m × 10^e`.
fn scaled_parts(m: i64, e: i32) -> (r: NumericParts)
    ensures
        r@ == scaled_number(m as int, e as int),
{
    if m == 0 {
        let zero = vec!['0'];
        assert(zero@ =~= seq!['0']);
        return NumericParts { negative: false, digits: zero, decimal_position: e as i128 };
    }
    let magnitude: u64 = if m < 0 {
        if m == i64::MIN {
            9223372036854775808u64
        } else {
            (-m) as u64
        }
    } else {
        m as u64
    };
    let mut ds: Vec<char> = Vec::new();
    push_nat_digits(magnitude, &mut ds);
    assert(ds@ =~= nat_digits(magnitude as nat));
    let end = trim_zeros_end_at(&ds, 0, ds.len());
    let mut digits: Vec<char> = Vec::new();
    let mut k: usize = 0;
    while k < end
        invariant
            k <= end <= ds.len(),
            digits@ == ds@.subrange(0, k as int),
        decreases end - k,
    {
        digits.push(ds[k]);
        proof {
            assert(ds@.subrange(0, k + 1) =~= ds@.subrange(0, k as int).push(ds@[k as int]));
        }
        k += 1;
    }
    NumericParts { negative: m < 0, digits, decimal_position: ds.len() as i128 + e as i128 }
}

/// The characters `s[lo..hi]` appended to `out`.
fn push_range(s: &Vec<char>, lo: usize, hi: usize, out: &mut Vec<char>)
    requires
        lo <= hi <= s.len(),
    ensures
        final(out)@ == old(out)@ + s@.subrange(lo as int, hi as int),
{
    let mut k = lo;
    while k < hi
        invariant
            lo <= k <= hi <= s.len(),
            out@ == old(out)@ + s@.subrange(lo as int, k as int),
        decreases hi - k,
    {
        out.push(s[k]);
        proof {
            assert(s@.subrange(lo as int, k + 1) =~= s@.subrange(lo as int, k as int).push(
                s@[k as int],
            ));
        }
        k += 1;
    }
}

/// The value of a number token written with ASCII digits.
#[verifier::rlimit(30)]
fn parse_decimal_parts(t: &Vec<char>) -> (r: NumericParts)
    ensures
        r@ == parse_decimal(t@),
{
    let neg = t.len() > 0 && t[0] == '-';
    let start: usize = if t.len() > 0 && (t[0] == '-' || t[0] == '+') {
        1
    } else {
        0
    };
    let e = find_either_at(t, start, 'e', 'E');
    let exp: i64 = if e < t.len() {
        parse_i64_or_zero(t, e + 1, t.len())
    } else {
        0
    };
    let mut mantissa: Vec<char> = Vec::new();
    push_range(t, start, e, &mut mantissa);
    assert(mantissa@ =~= t@.subrange(start as int, e as int));
    let d = find_either_at(&mantissa, 0, '.', '.');
    let mut combined: Vec<char> = Vec::new();
    push_range(&mantissa, 0, d, &mut combined);
    if d < mantissa.len() {
        push_range(&mantissa, d + 1, mantissa.len(), &mut combined);
    }
    let ghost integer = mantissa@.subrange(0, d as int);
    let ghost fraction = if d < mantissa.len() {
        mantissa@.subrange(d + 1, mantissa.len() as int)
    } else {
        Seq::empty()
    };
    assert(combined@ =~= integer + fraction);
    let lz = zeros_end_at(&combined, 0);
    let digits = if lz == combined.len() {
        vec!['0']
    } else {
        let end = trim_zeros_end_at(&combined, lz, combined.len());
        let mut ds: Vec<char> = Vec::new();
        push_range(&combined, lz, end, &mut ds);
        assert(ds@ =~= combined@.subrange(lz as int, end as int));
        ds
    };
    let zero = digits.len() == 1 && digits[0] == '0';
    assert(zero <==> digits@ == seq!['0']) by {
        if digits@ == seq!['0'] {
            assert(digits@[0] == '0');
        }
        if zero {
            assert(digits@ =~= seq!['0']);
        }
    }
    let position: i128 = d as i128 - lz as i128 + exp as i128;
    NumericParts { negative: neg && !zero, digits, decimal_position: position }
}

/// The value of a number token: a one-character number by its Unicode value,
/// anything else as decimal text.
pub fn parse_numeric_parts(t: &Vec<char>, float: bool) -> (r: NumericParts)
    ensures
        r@ == parse_number(t@, float),
{
    if t.len() == 1 {
        if float {
            if let Some(v) = unicode_numeric_value(t[0]) {
                return scaled_parts(v.0, v.1);
            }
        } else {
            if let Some(d) = unicode_digit_value(t[0]) {
                return scaled_parts(d as i64, 0);
            }
        }
    }
    parse_decimal_parts(t)
}

/// Three-way comparison of two character strings by code point.
pub fn compare_char_slices(a: &[char], b: &[char]) -> (r: i8)
    ensures
        r as int == lex_compare(a@, b@, char_order()),
{
    let mut i: usize = 0;
    assert(a@.subrange(0, a@.len() as int) =~= a@);
    assert(b@.subrange(0, b@.len() as int) =~= b@);
    while i < a.len() && i < b.len() && a[i] == b[i]
        invariant
            i <= a.len(),
            i <= b.len(),
            lex_compare(a@, b@, char_order()) == lex_compare(
                a@.subrange(i as int, a@.len() as int),
                b@.subrange(i as int, b@.len() as int),
                char_order(),
            ),
        decreases a.len() - i,
    {
        proof {
            let sa = a@.subrange(i as int, a@.len() as int);
            let sb = b@.subrange(i as int, b@.len() as int);
            assert(sa.drop_first() =~= a@.subrange(i + 1, a@.len() as int));
            assert(sb.drop_first() =~= b@.subrange(i + 1, b@.len() as int));
        }
        i += 1;
    }
    if i == a.len() && i == b.len() {
        0
    } else if i == a.len() {
        -1
    } else if i == b.len() {
        1
    } else if a[i] < b[i] {
        -1
    } else {
        1
    }
}

/// Three-way comparison of two numbers by value.
pub fn compare_numbers(a: &NumericParts, b: &NumericParts) -> (r: i8)
    ensures
        r as int == number_compare(a@, b@),
{
    let za = a.digits.len() == 1 && a.digits[0] == '0';
    let zb = b.digits.len() == 1 && b.digits[0] == '0';
    assert(za <==> a@.digits == seq!['0']) by {
        if a@.digits == seq!['0'] {
            assert(a.digits@[0] == '0');
        }
        if za {
            assert(a.digits@ =~= seq!['0']);
        }
    }
    assert(zb <==> b@.digits == seq!['0']) by {
        if b@.digits == seq!['0'] {
            assert(b.digits@[0] == '0');
        }
        if zb {
            assert(b.digits@ =~= seq!['0']);
        }
    }
    let ca: i8 = if za {
        0
    } else if a.negative {
        -1
    } else {
        1
    };
    let cb: i8 = if zb {
        0
    } else if b.negative {
        -1
    } else {
        1
    };
    if ca < cb {
        return -1;
    }
    if ca > cb {
        return 1;
    }
    if ca == 0 {
        return 0;
    }
    let (x, y) = if ca == 1 {
        (a, b)
    } else {
        (b, a)
    };
    if x.decimal_position < y.decimal_position {
        -1
    } else if x.decimal_position > y.decimal_position {
        1
    } else {
        compare_char_slices(x.digits.as_slice(), y.digits.as_slice())
    }
}

/// Three-way comparison of two number strings (as number tokens hold them)
/// by value.
pub fn compare_number_texts(left: &str, right: &str) -> (r: i8)
    ensures
        r as int == number_compare(parse_number(left@, true), parse_number(right@, true)),
{
    let l = chars_of(left);
    let r = chars_of(right);
    let a = parse_numeric_parts(&l, true);
    let b = parse_numeric_parts(&r, true);
    compare_numbers(&a, &b)
}

/// The [`Ordering`] of a three-way comparison result.
pub open spec fn ordering_of(c: int) -> Ordering {
    if c < 0 {
        Ordering::Less
    } else if c > 0 {
        Ordering::Greater
    } else {
        Ordering::Equal
    }
}

/// Compare two number strings by value: signs, any number of digits,
/// fractions and exponents; `-0` equals `0`.
pub fn compare_numeric_strings(left: &str, right: &str) -> (r: Ordering)
    ensures
        r == ordering_of(number_compare(parse_number(left@, true), parse_number(right@, true))),
{
    let c = compare_number_texts(left, right);
    if c < 0 {
        Ordering::Less
    } else if c > 0 {
        Ordering::Greater
    } else {
        Ordering::Equal
    }
}

} // verus!
