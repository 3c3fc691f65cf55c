//! Comparing numbers is comparing their values: the order of signs,
//! decimal-point positions and significant digits is the order of the
//! numbers `± digits × 10^(position - digit count)`.
use vstd::prelude::*;

use crate::number::{
    SpecNumber, all_ascii_digits, digits_value, find_either, magnitude_order, number_compare,
    parse_decimal, parse_i64, trim_zeros_end, zeros_end,
};
use crate::order::{char_order, lex_compare, sign};

verus! {

/// Ten to the power `n`.
pub open spec fn pow10(n: int) -> int
    decreases n,
{
    if n <= 0 {
        1
    } else {
        10 * pow10(n - 1)
    }
}

/// A number in normal form: ASCII digits, either `"0"` or starting and
/// ending with a digit other than `'0'`.
pub open spec fn normalized(n: SpecNumber) -> bool {
    &&& n.digits.len() >= 1
    &&& all_ascii_digits(n.digits)
    &&& n.digits == seq!['0'] || (n.digits[0] != '0' && n.digits[n.digits.len() - 1] != '0')
}

/// The exponent of the last significant digit.
pub open spec fn low_exponent(n: SpecNumber) -> int {
    n.position - n.digits.len()
}

/// The value of a number in units of `10^e`: `± digits × 10^(position -
/// digit count - e)`, zero for the number zero.
pub open spec fn value_in_units(n: SpecNumber, e: int) -> int {
    if n.digits == seq!['0'] {
        0
    } else if n.negative {
        -(digits_value(n.digits) * pow10(low_exponent(n) - e))
    } else {
        digits_value(n.digits) * pow10(low_exponent(n) - e)
    }
}

proof fn lemma_pow10_positive(n: int)
    ensures
        pow10(n) >= 1,
    decreases n,
{
    if n > 0 {
        lemma_pow10_positive(n - 1);
    }
}

proof fn lemma_pow10_add(a: int, b: int)
    requires
        a >= 0,
        b >= 0,
    ensures
        pow10(a + b) == pow10(a) * pow10(b),
    decreases a,
{
    if a > 0 {
        lemma_pow10_add(a - 1, b);
        assert(pow10(a + b) == 10 * pow10(a - 1 + b));
        assert(10 * (pow10(a - 1) * pow10(b)) == (10 * pow10(a - 1)) * pow10(b)) by (nonlinear_arith);
    }
}

proof fn lemma_pow10_monotonic(a: int, b: int)
    requires
        0 <= a <= b,
    ensures
        pow10(a) <= pow10(b),
    decreases b,
{
    if a < b {
        lemma_pow10_monotonic(a, b - 1);
        lemma_pow10_positive(b - 1);
    }
}

proof fn lemma_digits_bounds(s: Seq<char>)
    requires
        all_ascii_digits(s),
    ensures
        0 <= digits_value(s) < pow10(s.len() as int),
        s.len() > 0 && s[0] != '0' ==> digits_value(s) >= pow10(s.len() - 1),
        s.len() > 0 && s[s.len() - 1] != '0' ==> digits_value(s) > 0,
    decreases s.len(),
{
    if s.len() > 0 {
        let t = s.drop_last();
        assert(all_ascii_digits(t)) by {
            assert forall|k: int| 0 <= k < t.len() implies crate::number::is_ascii_digit(
                #[trigger] t[k],
            ) by {
                assert(t[k] == s[k]);
            }
        }
        assert(crate::number::is_ascii_digit(s[s.len() - 1]));
        lemma_digits_bounds(t);
        lemma_pow10_positive(t.len() as int);
        if s.len() > 1 && s[0] != '0' {
            assert(t[0] == s[0]);
        }
        if s.len() == 1 {
            assert(digits_value(t) == 0);
        }
    }
}

proof fn lemma_digits_front(s: Seq<char>)
    requires
        s.len() > 0,
    ensures
        digits_value(s) == (s[0] as int - 48) * pow10(s.len() - 1) + digits_value(s.drop_first()),
    decreases s.len(),
{
    if s.len() > 1 {
        let t = s.drop_last();
        lemma_digits_front(t);
        assert(t.drop_first() =~= s.drop_first().drop_last());
        assert(s.drop_first().last() == s.last());
        let d = s[0] as int - 48;
        let p = pow10(t.len() - 1);
        assert(t[0] == s[0]);
        assert(pow10(s.len() - 1) == 10 * p);
        let u = s.drop_first();
        assert(u.len() > 0);
        assert(digits_value(u) == 10 * digits_value(u.drop_last()) + (u.last() as int - 48));
        assert(digits_value(u) == 10 * digits_value(t.drop_first()) + (s.last() as int - 48));
        assert(digits_value(s) == 10 * digits_value(t) + (s.last() as int - 48));
        assert(10 * (d * p + digits_value(t.drop_first())) == d * (10 * p) + 10 * digits_value(
            t.drop_first(),
        )) by (nonlinear_arith);
    } else {
        assert(s[0] == s.last());
        assert(digits_value(s) == 10 * digits_value(s.drop_last()) + (s.last() as int - 48));
        assert(s.drop_first().len() == 0);
        assert(s.drop_last().len() == 0);
    }
}

/// Digit strings without trailing zeros compare lexicographically as the
/// fractions `0.digits` compare.
proof fn lemma_fraction_order(a: Seq<char>, b: Seq<char>)
    requires
        all_ascii_digits(a),
        all_ascii_digits(b),
        a.len() > 0 ==> a[a.len() - 1] != '0',
        b.len() > 0 ==> b[b.len() - 1] != '0',
    ensures
        lex_compare(a, b, char_order()) == sign(
            digits_value(a) * pow10(b.len() as int) - digits_value(b) * pow10(a.len() as int),
        ),
    decreases a.len(),
{
    lemma_digits_bounds(a);
    lemma_digits_bounds(b);
    if a.len() == 0 || b.len() == 0 {
        lemma_pow10_positive(a.len() as int);
        lemma_pow10_positive(b.len() as int);
        if a.len() == 0 {
            assert(digits_value(a) == 0);
        }
        if b.len() == 0 {
            assert(digits_value(b) == 0);
        }
        if a.len() == 0 && b.len() > 0 {
            assert(digits_value(b) * pow10(0) > 0) by (nonlinear_arith)
                requires
                    digits_value(b) > 0,
                    pow10(0) == 1,
            ;
        }
        if b.len() == 0 && a.len() > 0 {
            assert(digits_value(a) * pow10(0) > 0) by (nonlinear_arith)
                requires
                    digits_value(a) > 0,
                    pow10(0) == 1,
            ;
        }
    } else {
        let a1 = a.drop_first();
        let b1 = b.drop_first();
        assert(all_ascii_digits(a1)) by {
            assert forall|k: int| 0 <= k < a1.len() implies crate::number::is_ascii_digit(
                #[trigger] a1[k],
            ) by {
                assert(a1[k] == a[k + 1]);
            }
        }
        assert(all_ascii_digits(b1)) by {
            assert forall|k: int| 0 <= k < b1.len() implies crate::number::is_ascii_digit(
                #[trigger] b1[k],
            ) by {
                assert(b1[k] == b[k + 1]);
            }
        }
        if a1.len() > 0 {
            assert(a1[a1.len() - 1] == a[a.len() - 1]);
        }
        if b1.len() > 0 {
            assert(b1[b1.len() - 1] == b[b.len() - 1]);
        }
        lemma_fraction_order(a1, b1);
        lemma_digits_front(a);
        lemma_digits_front(b);
        lemma_digits_bounds(a1);
        lemma_digits_bounds(b1);
        assert(crate::number::is_ascii_digit(a[0]));
        assert(crate::number::is_ascii_digit(b[0]));
        let x = a[0] as int - 48;
        let y = b[0] as int - 48;
        let pa = pow10(a1.len() as int);
        let pb = pow10(b1.len() as int);
        let va = digits_value(a1);
        let vb = digits_value(b1);
        lemma_pow10_positive(a1.len() as int);
        lemma_pow10_positive(b1.len() as int);
        assert(pow10(a.len() as int) == 10 * pa);
        assert(pow10(b.len() as int) == 10 * pb);
        let big_a = (x * pa + va) * (10 * pb);
        let big_b = (y * pb + vb) * (10 * pa);
        assert((x * pa + va) * (10 * pb) == 10 * (x * pa * pb) + 10 * (va * pb)) by (nonlinear_arith);
        assert((y * pb + vb) * (10 * pa) == 10 * (y * pa * pb) + 10 * (vb * pa)) by (nonlinear_arith);
        assert((x - y) * pa * pb == x * pa * pb - y * pa * pb) by (nonlinear_arith);
        assert(big_a - big_b == 10 * ((x - y) * pa * pb + (va * pb - vb * pa)));
        assert(digits_value(a) == x * pa + va);
        assert(digits_value(b) == y * pb + vb);
        assert(digits_value(a) * pow10(b.len() as int) - digits_value(b) * pow10(a.len() as int)
            == big_a - big_b);
        assert(char_order()(a[0], b[0]) == sign(x - y));
        if x == y {
            assert(a[0] == b[0]);
        } else if x < y {
            assert(va * pb < pa * pb) by (nonlinear_arith)
                requires
                    0 <= va < pa,
                    pb >= 1,
            ;
            assert(vb * pa >= 0) by (nonlinear_arith)
                requires
                    vb >= 0,
                    pa >= 1,
            ;
            assert((x - y) * pa * pb <= -(pa * pb)) by (nonlinear_arith)
                requires
                    x - y <= -1,
                    pa >= 1,
                    pb >= 1,
            ;
        } else {
            assert(vb * pa < pa * pb) by (nonlinear_arith)
                requires
                    0 <= vb < pb,
                    pa >= 1,
            ;
            assert(va * pb >= 0) by (nonlinear_arith)
                requires
                    va >= 0,
                    pb >= 1,
            ;
            assert((x - y) * pa * pb >= pa * pb) by (nonlinear_arith)
                requires
                    x - y >= 1,
                    pa >= 1,
                    pb >= 1,
            ;
        }
    }
}

proof fn lemma_scale_sign(u: int, v: int, k: int)
    requires
        k >= 1,
    ensures
        sign(u * k - v * k) == sign(u - v),
{
    assert(u * k - v * k == (u - v) * k) by (nonlinear_arith);
    if u - v > 0 {
        assert((u - v) * k > 0) by (nonlinear_arith)
            requires
                u - v > 0,
                k >= 1,
        ;
    } else if u - v < 0 {
        assert((u - v) * k < 0) by (nonlinear_arith)
            requires
                u - v < 0,
                k >= 1,
        ;
    }
}

/// For positive numbers in normal form, the magnitude order is the order
/// of their values.
proof fn lemma_magnitude_is_value(a: SpecNumber, b: SpecNumber, e: int)
    requires
        normalized(a),
        normalized(b),
        a.digits != seq!['0'],
        b.digits != seq!['0'],
        e <= low_exponent(a),
        e <= low_exponent(b),
    ensures
        magnitude_order()(a, b) == sign(
            digits_value(a.digits) * pow10(low_exponent(a) - e) - digits_value(b.digits) * pow10(
                low_exponent(b) - e,
            ),
        ),
{
    let la = a.digits.len() as int;
    let lb = b.digits.len() as int;
    let ma = digits_value(a.digits);
    let mb = digits_value(b.digits);
    lemma_digits_bounds(a.digits);
    lemma_digits_bounds(b.digits);
    let ka = low_exponent(a) - e;
    let kb = low_exponent(b) - e;
    let va = ma * pow10(ka);
    let vb = mb * pow10(kb);
    lemma_pow10_positive(ka);
    lemma_pow10_positive(kb);
    // bounds: 10^(position - 1 - e) <= value < 10^(position - e)
    lemma_pow10_add(la, ka);
    lemma_pow10_add(lb, kb);
    lemma_pow10_add(la - 1, ka);
    lemma_pow10_add(lb - 1, kb);
    assert(va < pow10(la) * pow10(ka)) by (nonlinear_arith)
        requires
            va == ma * pow10(ka),
            0 <= ma < pow10(la),
            pow10(ka) >= 1,
    ;
    assert(va >= pow10(la - 1) * pow10(ka)) by (nonlinear_arith)
        requires
            va == ma * pow10(ka),
            ma >= pow10(la - 1),
            pow10(ka) >= 1,
    ;
    assert(vb < pow10(lb) * pow10(kb)) by (nonlinear_arith)
        requires
            vb == mb * pow10(kb),
            0 <= mb < pow10(lb),
            pow10(kb) >= 1,
    ;
    assert(vb >= pow10(lb - 1) * pow10(kb)) by (nonlinear_arith)
        requires
            vb == mb * pow10(kb),
            mb >= pow10(lb - 1),
            pow10(kb) >= 1,
    ;
    if a.position < b.position {
        lemma_pow10_monotonic(la + ka, lb - 1 + kb);
    } else if a.position > b.position {
        lemma_pow10_monotonic(lb + kb, la - 1 + ka);
    } else {
        lemma_fraction_order(a.digits, b.digits);
        lemma_value_order_equal_position(ma, mb, la, lb, ka, kb);
    }
}

/// With equal decimal-point positions, the values compare as the
/// fractions do.
proof fn lemma_value_order_equal_position(ma: int, mb: int, la: int, lb: int, ka: int, kb: int)
    requires
        la >= 1,
        lb >= 1,
        ka >= 0,
        kb >= 0,
        la + ka == lb + kb,
    ensures
        sign(ma * pow10(lb) - mb * pow10(la)) == sign(ma * pow10(ka) - mb * pow10(kb)),
{
    // ma·10^lb vs mb·10^la; multiply both by 10^ka·10^kb / ... : with
    // t = la + ka = lb + kb, ma·10^ka·10^la = ma·10^t and mb·10^kb·10^lb = mb·10^t.
    if ka <= kb {
        let d = kb - ka;
        assert(la == lb + d);
        lemma_pow10_add(d, lb);
        lemma_pow10_add(d, ka);
        lemma_pow10_positive(d);
        lemma_pow10_positive(lb);
        lemma_pow10_positive(ka);
        // left: ma·10^lb - mb·10^(d + lb) = (ma - mb·10^d)·10^lb
        // right: ma·10^ka - mb·10^(d + ka) = (ma - mb·10^d)·10^ka
        assert(ma * pow10(lb) - mb * pow10(la) == (ma - mb * pow10(d)) * pow10(lb)) by (
        nonlinear_arith)
            requires
                pow10(la) == pow10(d) * pow10(lb),
        ;
        assert(ma * pow10(ka) - mb * pow10(kb) == (ma - mb * pow10(d)) * pow10(ka)) by (
        nonlinear_arith)
            requires
                pow10(kb) == pow10(d) * pow10(ka),
                kb == d + ka,
        ;
        lemma_scale_sign(ma - mb * pow10(d), 0, pow10(lb));
        lemma_scale_sign(ma - mb * pow10(d), 0, pow10(ka));
    } else {
        let d = ka - kb;
        assert(lb == la + d);
        lemma_pow10_add(d, la);
        lemma_pow10_add(d, kb);
        lemma_pow10_positive(d);
        lemma_pow10_positive(la);
        lemma_pow10_positive(kb);
        assert(ma * pow10(lb) - mb * pow10(la) == (ma * pow10(d) - mb) * pow10(la)) by (
        nonlinear_arith)
            requires
                pow10(lb) == pow10(d) * pow10(la),
        ;
        assert(ma * pow10(ka) - mb * pow10(kb) == (ma * pow10(d) - mb) * pow10(kb)) by (
        nonlinear_arith)
            requires
                pow10(ka) == pow10(d) * pow10(kb),
        ;
        lemma_scale_sign(ma * pow10(d) - mb, 0, pow10(la));
        lemma_scale_sign(ma * pow10(d) - mb, 0, pow10(kb));
    }
}

/// Comparing numbers is comparing their values: for numbers in normal
/// form, measured in any common unit `10^e` fine enough for both, the
/// comparison is the sign of the difference of the values. So `1.5`,
/// `1.50` and `15e-1` are equal, `-0` equals `0`, and `0` is below `0.05`.
pub proof fn law_numbers_compare_by_value(a: SpecNumber, b: SpecNumber, e: int)
    requires
        normalized(a),
        normalized(b),
        a.digits != seq!['0'] ==> e <= low_exponent(a),
        b.digits != seq!['0'] ==> e <= low_exponent(b),
    ensures
        number_compare(a, b) == sign(value_in_units(a, e) - value_in_units(b, e)),
{
    let za = a.digits == seq!['0'];
    let zb = b.digits == seq!['0'];
    if !za {
        lemma_digits_bounds(a.digits);
        assert(a.digits[a.digits.len() - 1] != '0');
        lemma_pow10_positive(low_exponent(a) - e);
        assert(digits_value(a.digits) * pow10(low_exponent(a) - e) > 0) by (nonlinear_arith)
            requires
                digits_value(a.digits) > 0,
                pow10(low_exponent(a) - e) >= 1,
        ;
    }
    if !zb {
        lemma_digits_bounds(b.digits);
        assert(b.digits[b.digits.len() - 1] != '0');
        lemma_pow10_positive(low_exponent(b) - e);
        assert(digits_value(b.digits) * pow10(low_exponent(b) - e) > 0) by (nonlinear_arith)
            requires
                digits_value(b.digits) > 0,
                pow10(low_exponent(b) - e) >= 1,
        ;
    }
    if !za && !zb && a.negative == b.negative {
        if a.negative {
            lemma_magnitude_is_value(b, a, e);
        } else {
            lemma_magnitude_is_value(a, b, e);
        }
    }
}


/// The digits of a number token's mantissa: its integer and fraction
/// digits, the decimal point left out (as `parse_decimal` reads them).
pub open spec fn mantissa_digits(t: Seq<char>) -> Seq<char> {
    let start: int = if t.len() > 0 && (t[0] == '-' || t[0] == '+') {
        1
    } else {
        0
    };
    let e = find_either(t, start, 'e', 'E');
    let mantissa = t.subrange(start, e);
    let d = find_either(mantissa, 0, '.', '.');
    let integer = mantissa.subrange(0, d);
    let fraction = if d < mantissa.len() {
        mantissa.subrange(d + 1, mantissa.len() as int)
    } else {
        Seq::empty()
    };
    integer + fraction
}

proof fn lemma_find_either_bounds(s: Seq<char>, i: int, c1: char, c2: char)
    requires
        0 <= i <= s.len(),
    ensures
        i <= find_either(s, i, c1, c2) <= s.len(),
    decreases s.len() - i,
{
    if i < s.len() && s[i] != c1 && s[i] != c2 {
        lemma_find_either_bounds(s, i + 1, c1, c2);
    }
}

proof fn lemma_zeros_end(s: Seq<char>, i: int)
    requires
        0 <= i <= s.len(),
    ensures
        i <= zeros_end(s, i) <= s.len(),
        zeros_end(s, i) < s.len() ==> s[zeros_end(s, i)] != '0',
    decreases s.len() - i,
{
    if i < s.len() && s[i] == '0' {
        lemma_zeros_end(s, i + 1);
    }
}

proof fn lemma_trim_zeros_end(s: Seq<char>, lo: int, j: int)
    requires
        0 <= lo < j <= s.len(),
        s[lo] != '0',
    ensures
        lo < trim_zeros_end(s, lo, j) <= j,
        s[trim_zeros_end(s, lo, j) - 1] != '0',
    decreases j - lo,
{
    if s[j - 1] == '0' {
        assert(j - 1 > lo);
        lemma_trim_zeros_end(s, lo, j - 1);
    }
}

/// A number token whose mantissa digits are ASCII digits is read into
/// normal form.
pub proof fn lemma_parse_decimal_normalized(t: Seq<char>)
    requires
        all_ascii_digits(mantissa_digits(t)),
    ensures
        normalized(parse_decimal(t)),
{
    let start: int = if t.len() > 0 && (t[0] == '-' || t[0] == '+') {
        1
    } else {
        0
    };
    lemma_find_either_bounds(t, start, 'e', 'E');
    let e = find_either(t, start, 'e', 'E');
    let mantissa = t.subrange(start, e);
    lemma_find_either_bounds(mantissa, 0, '.', '.');
    let c = mantissa_digits(t);
    lemma_zeros_end(c, 0);
    let lz = zeros_end(c, 0);
    let n = parse_decimal(t);
    if lz < c.len() {
        lemma_trim_zeros_end(c, lz, c.len() as int);
        let j = trim_zeros_end(c, lz, c.len() as int);
        let ds = c.subrange(lz, j);
        assert(n.digits == ds);
        assert(ds[0] == c[lz]);
        assert(ds[ds.len() - 1] == c[j - 1]);
        assert forall|k: int| 0 <= k < ds.len() implies crate::number::is_ascii_digit(
            #[trigger] ds[k],
        ) by {
            assert(ds[k] == c[lz + k]);
        }
        assert(ds != seq!['0']) by {
            assert(ds[0] != '0');
        }
    } else {
        assert(n.digits == seq!['0']);
        assert forall|k: int| 0 <= k < n.digits.len() implies crate::number::is_ascii_digit(
            #[trigger] n.digits[k],
        ) by {}
    }
}

/// Number tokens compare by value: for tokens whose mantissa digits are
/// ASCII digits, comparing them is comparing their values in any common
/// unit `10^e` fine enough for both.
pub proof fn law_number_texts_compare_by_value(x: Seq<char>, y: Seq<char>, e: int)
    requires
        all_ascii_digits(mantissa_digits(x)),
        all_ascii_digits(mantissa_digits(y)),
        parse_decimal(x).digits != seq!['0'] ==> e <= low_exponent(parse_decimal(x)),
        parse_decimal(y).digits != seq!['0'] ==> e <= low_exponent(parse_decimal(y)),
    ensures
        number_compare(parse_decimal(x), parse_decimal(y)) == sign(
            value_in_units(parse_decimal(x), e) - value_in_units(parse_decimal(y), e),
        ),
{
    lemma_parse_decimal_normalized(x);
    lemma_parse_decimal_normalized(y);
    law_numbers_compare_by_value(parse_decimal(x), parse_decimal(y), e);
}


/// The exponent that a number token gives, as `parse_decimal` reads it.
pub open spec fn text_exponent(t: Seq<char>) -> int {
    let start: int = if t.len() > 0 && (t[0] == '-' || t[0] == '+') {
        1
    } else {
        0
    };
    let e = find_either(t, start, 'e', 'E');
    if e < t.len() {
        match parse_i64(t.subrange(e + 1, t.len() as int)) {
            Some(v) => v,
            None => 0,
        }
    } else {
        0
    }
}

/// The number of fraction digits of a number token.
pub open spec fn fraction_length(t: Seq<char>) -> int {
    let start: int = if t.len() > 0 && (t[0] == '-' || t[0] == '+') {
        1
    } else {
        0
    };
    let e = find_either(t, start, 'e', 'E');
    let mantissa = t.subrange(start, e);
    let d = find_either(mantissa, 0, '.', '.');
    if d < mantissa.len() {
        mantissa.len() - d - 1
    } else {
        0
    }
}

/// The token is written with a minus sign.
pub open spec fn text_negative(t: Seq<char>) -> bool {
    t.len() > 0 && t[0] == '-'
}

proof fn lemma_digits_concat(a: Seq<char>, b: Seq<char>)
    ensures
        digits_value(a + b) == digits_value(a) * pow10(b.len() as int) + digits_value(b),
    decreases b.len(),
{
    if b.len() == 0 {
        assert(a + b =~= a);
    } else {
        let b1 = b.drop_last();
        lemma_digits_concat(a, b1);
        assert((a + b).drop_last() =~= a + b1);
        assert((a + b).last() == b.last());
        assert(pow10(b.len() as int) == 10 * pow10(b1.len() as int));
        assert(10 * (digits_value(a) * pow10(b1.len() as int) + digits_value(b1)) == digits_value(a)
            * (10 * pow10(b1.len() as int)) + 10 * digits_value(b1)) by (nonlinear_arith);
    }
}

proof fn lemma_zero_digits(z: Seq<char>)
    requires
        forall|k: int| 0 <= k < z.len() ==> #[trigger] z[k] == '0',
    ensures
        digits_value(z) == 0,
    decreases z.len(),
{
    if z.len() > 0 {
        let z1 = z.drop_last();
        assert forall|k: int| 0 <= k < z1.len() implies #[trigger] z1[k] == '0' by {
            assert(z1[k] == z[k]);
        }
        lemma_zero_digits(z1);
        assert(z.last() == '0');
    }
}

proof fn lemma_zeros_end_prefix(s: Seq<char>, i: int)
    requires
        0 <= i <= s.len(),
    ensures
        forall|k: int| i <= k < zeros_end(s, i) ==> s[k] == '0',
    decreases s.len() - i,
{
    if i < s.len() && s[i] == '0' {
        lemma_zeros_end_prefix(s, i + 1);
    }
}

proof fn lemma_trim_zeros_suffix(s: Seq<char>, lo: int, j: int)
    requires
        0 <= lo <= j <= s.len(),
    ensures
        lo <= trim_zeros_end(s, lo, j) <= j,
        forall|k: int| trim_zeros_end(s, lo, j) <= k < j ==> s[k] == '0',
    decreases j - lo,
{
    if lo < j && s[j - 1] == '0' {
        lemma_trim_zeros_suffix(s, lo, j - 1);
    }
}

/// The value that `parse_decimal` reads from a token is the value of its
/// text: the mantissa digits times ten to the exponent less the fraction
/// length, with the token's sign (and none for zero).
pub proof fn lemma_parse_decimal_value(t: Seq<char>, e: int)
    requires
        all_ascii_digits(mantissa_digits(t)),
        e <= text_exponent(t) - fraction_length(t),
    ensures
        parse_decimal(t).digits != seq!['0'] ==> e <= low_exponent(parse_decimal(t)),
        value_in_units(parse_decimal(t), e) == (if text_negative(t) {
            -digits_value(mantissa_digits(t))
        } else {
            digits_value(mantissa_digits(t))
        }) * pow10(text_exponent(t) - fraction_length(t) - e),
{
    let start: int = if t.len() > 0 && (t[0] == '-' || t[0] == '+') {
        1
    } else {
        0
    };
    lemma_find_either_bounds(t, start, 'e', 'E');
    let ee = find_either(t, start, 'e', 'E');
    let mantissa = t.subrange(start, ee);
    lemma_find_either_bounds(mantissa, 0, '.', '.');
    let d = find_either(mantissa, 0, '.', '.');
    let integer = mantissa.subrange(0, d);
    let c = mantissa_digits(t);
    assert(c.len() == integer.len() + fraction_length(t));
    lemma_zeros_end(c, 0);
    lemma_zeros_end_prefix(c, 0);
    let lz = zeros_end(c, 0);
    let n = parse_decimal(t);
    let x = text_exponent(t);
    let f = fraction_length(t);
    let k = x - f - e;
    lemma_pow10_positive(k);
    if lz == c.len() {
        lemma_zero_digits(c);
        assert(n.digits == seq!['0']);
        assert(0 * pow10(k) == 0) by (nonlinear_arith);
        assert(-0 * pow10(k) == 0) by (nonlinear_arith);
    } else {
        lemma_trim_zeros_end(c, lz, c.len() as int);
        lemma_trim_zeros_suffix(c, lz, c.len() as int);
        let j = trim_zeros_end(c, lz, c.len() as int);
        let ds = c.subrange(lz, j);
        assert(n.digits == ds);
        assert(ds[0] == c[lz]);
        assert(ds != seq!['0']);
        assert(n.negative == text_negative(t));
        assert(n.position == integer.len() - lz + x);
        assert(low_exponent(n) == integer.len() + x - j);
        // c = zeros ++ ds ++ zeros
        let pre = c.subrange(0, lz);
        let post = c.subrange(j, c.len() as int);
        assert(c =~= pre + ds + post);
        assert forall|i: int| 0 <= i < pre.len() implies #[trigger] pre[i] == '0' by {
            assert(pre[i] == c[i]);
        }
        assert forall|i: int| 0 <= i < post.len() implies #[trigger] post[i] == '0' by {
            assert(post[i] == c[j + i]);
        }
        lemma_zero_digits(pre);
        lemma_zero_digits(post);
        lemma_digits_concat(pre, ds);
        lemma_digits_concat(pre + ds, post);
        lemma_pow10_positive(ds.len() as int);
        assert(0 * pow10(ds.len() as int) == 0) by (nonlinear_arith);
        let m = digits_value(ds);
        let z = c.len() - j;
        assert(digits_value(c) == m * pow10(z));
        // value: m · 10^(low_exponent - e), and low_exponent - e = z + k
        assert(low_exponent(n) - e == z + k);
        lemma_pow10_add(z, k);
        assert(m * pow10(z + k) == (m * pow10(z)) * pow10(k)) by (nonlinear_arith)
            requires
                pow10(z + k) == pow10(z) * pow10(k),
        ;
        assert((-(m * pow10(z))) * pow10(k) == -((m * pow10(z)) * pow10(k))) by (nonlinear_arith);
    }
}

/// Number tokens compare by the values of their texts: with `v(t)` the
/// token's mantissa digits, signed, times `10^(exponent - fraction length
/// - e)` in a unit `10^e` fine enough for both, comparing two tokens is the
/// sign of `v(x) - v(y)`. So `1.5`, `1.50`, `001.5000` and `15e-1` are
/// equal, `-0.0` equals `0`, and `0` is below `0.05`.
pub proof fn law_number_tokens_compare_by_value(x: Seq<char>, y: Seq<char>, e: int)
    requires
        all_ascii_digits(mantissa_digits(x)),
        all_ascii_digits(mantissa_digits(y)),
        e <= text_exponent(x) - fraction_length(x),
        e <= text_exponent(y) - fraction_length(y),
    ensures
        number_compare(parse_decimal(x), parse_decimal(y)) == sign(
            (if text_negative(x) {
                -digits_value(mantissa_digits(x))
            } else {
                digits_value(mantissa_digits(x))
            }) * pow10(text_exponent(x) - fraction_length(x) - e) - (if text_negative(y) {
                -digits_value(mantissa_digits(y))
            } else {
                digits_value(mantissa_digits(y))
            }) * pow10(text_exponent(y) - fraction_length(y) - e),
        ),
{
    lemma_parse_decimal_value(x, e);
    lemma_parse_decimal_value(y, e);
    law_number_texts_compare_by_value(x, y, e);
}

} // verus!
