//! The decisions of the command-line tool that need no I/O: the number
//! types it accepts, the sort options its flags select, and how standard
//! input is cut into entries.
use vstd::prelude::*;

use crate::chars::{ascii_lower, chars_of, push_str_chars, string_from_chars, to_ascii_lower};
use crate::number::find_either;
use crate::options::{SortOptions, default_options};

verus! {

/// Numeric mode accepted by the command-line interface.
#[derive(Debug, Clone, Copy, PartialEq, Eq, Structural)]
pub enum CliNumberType {
    Integer,
    Float,
    Real,
}

impl Default for CliNumberType {
    fn default() -> (r: Self)
        ensures
            r == CliNumberType::Integer,
    {
        CliNumberType::Integer
    }
}

/// The number type a command-line word names: `int` or `i`, `float` or
/// `f`, `real` or `r`.
pub open spec fn number_type_named(s: Seq<char>) -> Option<CliNumberType> {
    if s == seq!['i', 'n', 't'] || s == seq!['i'] {
        Some(CliNumberType::Integer)
    } else if s == seq!['f', 'l', 'o', 'a', 't'] || s == seq!['f'] {
        Some(CliNumberType::Float)
    } else if s == seq!['r', 'e', 'a', 'l'] || s == seq!['r'] {
        Some(CliNumberType::Real)
    } else {
        None
    }
}

fn chars_equal(a: &Vec<char>, b: &[char]) -> (r: bool)
    ensures
        r == (a@ == b@),
{
    if a.len() != b.len() {
        return false;
    }
    let mut i: usize = 0;
    while i < a.len()
        invariant
            i <= a.len(),
            a.len() == b.len(),
            forall|k: int| 0 <= k < i ==> a@[k] == b@[k],
        decreases a.len() - i,
    {
        if a[i] != b[i] {
            return false;
        }
        i += 1;
    }
    assert(a@ =~= b@);
    true
}

impl CliNumberType {
    /// The number type a command-line word names (see
    /// [`number_type_named`]).
    pub fn parse(value: &str) -> (r: Option<Self>)
        ensures
            r == number_type_named(value@),
    {
        let v = chars_of(value);
        let int_word = ['i', 'n', 't'];
        let i_word = ['i'];
        let float_word = ['f', 'l', 'o', 'a', 't'];
        let f_word = ['f'];
        let real_word = ['r', 'e', 'a', 'l'];
        let r_word = ['r'];
        assert(int_word@ =~= seq!['i', 'n', 't']);
        assert(i_word@ =~= seq!['i']);
        assert(float_word@ =~= seq!['f', 'l', 'o', 'a', 't']);
        assert(f_word@ =~= seq!['f']);
        assert(real_word@ =~= seq!['r', 'e', 'a', 'l']);
        assert(r_word@ =~= seq!['r']);
        if chars_equal(&v, &int_word) || chars_equal(&v, &i_word) {
            Some(CliNumberType::Integer)
        } else if chars_equal(&v, &float_word) || chars_equal(&v, &f_word) {
            Some(CliNumberType::Float)
        } else if chars_equal(&v, &real_word) || chars_equal(&v, &r_word) {
            Some(CliNumberType::Real)
        } else {
            None
        }
    }

    /// Numbers may have a fraction: float and real.
    pub fn uses_float(self) -> (r: bool)
        ensures
            r == (self != CliNumberType::Integer),
    {
        !matches!(self, CliNumberType::Integer)
    }

    /// Numbers carry their sign: real.
    pub fn forces_sign(self) -> (r: bool)
        ensures
            r == (self == CliNumberType::Real),
    {
        matches!(self, CliNumberType::Real)
    }
}

/// The sort options that the command-line flags select.
pub open spec fn cli_options(
    paths: bool,
    reverse: bool,
    number_type: CliNumberType,
    signed: bool,
    exponent: bool,
    locale: bool,
) -> SortOptions {
    SortOptions {
        path: paths,
        reverse: reverse,
        float: number_type != CliNumberType::Integer,
        signed: signed || number_type == CliNumberType::Real,
        no_exp: !exponent,
        locale_alpha: locale,
        locale_numeric: locale,
        ..default_options()
    }
}

/// The sort options that the command-line flags select (see
/// [`cli_options`]).
pub fn cli_sort_options(
    paths: bool,
    reverse: bool,
    number_type: CliNumberType,
    signed: bool,
    exponent: bool,
    locale: bool,
) -> (r: SortOptions)
    ensures
        r == cli_options(paths, reverse, number_type, signed, exponent, locale),
{
    SortOptions::new().path(paths).reverse(reverse).float(number_type.uses_float()).signed(
        signed || number_type.forces_sign(),
    ).no_exp(!exponent).locale(locale)
}

/// The end of the run of ASCII digits that starts at `i`.
pub open spec fn digit_run(s: Seq<char>, i: int) -> int
    decreases s.len() - i,
{
    if i < 0 || i >= s.len() {
        s.len() as int
    } else if '0' <= s[i] <= '9' {
        digit_run(s, i + 1)
    } else {
        i
    }
}

/// Digits, a point and digits, with at least one digit.
pub open spec fn is_mantissa(s: Seq<char>) -> bool {
    let k = digit_run(s, 0);
    ||| k == s.len() && k > 0
    ||| k < s.len() && s[k] == '.' && digit_run(s, k + 1) == s.len() && (k > 0 || s.len() > k
        + 1)
}

/// An optional sign and at least one digit.
pub open spec fn is_exponent(t: Seq<char>) -> bool {
    let d = if t.len() > 0 && (t[0] == '+' || t[0] == '-') {
        t.subrange(1, t.len() as int)
    } else {
        t
    };
    d.len() > 0 && digit_run(d, 0) == d.len()
}

/// A sign-less decimal number in the floating-point grammar: a mantissa,
/// then optionally `e` or `E` and an exponent.
pub open spec fn is_decimal_literal(s: Seq<char>) -> bool {
    let e = find_either(s, 0, 'e', 'E');
    is_mantissa(s.subrange(0, e)) && (e == s.len() || is_exponent(
        s.subrange(e + 1, s.len() as int),
    ))
}

/// A text in the grammar that Rust documents for parsing a floating-point
/// number: an optional
/// sign, then `inf`, `infinity`, `nan` (in any case) or a decimal number.
pub open spec fn is_float_literal(s: Seq<char>) -> bool {
    let body = if s.len() > 0 && (s[0] == '+' || s[0] == '-') {
        s.subrange(1, s.len() as int)
    } else {
        s
    };
    let lower = body.map_values(|c: char| ascii_lower(c));
    ||| lower == seq!['i', 'n', 'f']
    ||| lower == seq!['i', 'n', 'f', 'i', 'n', 'i', 't', 'y']
    ||| lower == seq!['n', 'a', 'n']
    ||| is_decimal_literal(body)
}

fn digit_run_of(s: &Vec<char>, i: usize) -> (r: usize)
    requires
        i <= s.len(),
    ensures
        r == digit_run(s@, i as int),
        i <= r <= s.len(),
{
    let mut k = i;
    while k < s.len() && '0' <= s[k] && s[k] <= '9'
        invariant
            i <= k <= s.len(),
            digit_run(s@, i as int) == digit_run(s@, k as int),
        decreases s.len() - k,
    {
        k += 1;
    }
    k
}

fn mantissa_ok(s: &Vec<char>) -> (r: bool)
    ensures
        r == is_mantissa(s@),
{
    let k = digit_run_of(s, 0);
    if k == s.len() {
        k > 0
    } else if s[k] == '.' {
        digit_run_of(s, k + 1) == s.len() && (k > 0 || s.len() > k + 1)
    } else {
        false
    }
}

fn exponent_ok(t: &Vec<char>) -> (r: bool)
    ensures
        r == is_exponent(t@),
{
    let d = if t.len() > 0 && (t[0] == '+' || t[0] == '-') {
        copy_range(t, 1, t.len())
    } else {
        copy_range(t, 0, t.len())
    };
    assert(t@.subrange(0, t@.len() as int) =~= t@);
    d.len() > 0 && digit_run_of(&d, 0) == d.len()
}

fn decimal_ok(s: &Vec<char>) -> (r: bool)
    ensures
        r == is_decimal_literal(s@),
{
    let mut e: usize = 0;
    while e < s.len() && s[e] != 'e' && s[e] != 'E'
        invariant
            e <= s.len(),
            find_either(s@, 0, 'e', 'E') == find_either(s@, e as int, 'e', 'E'),
        decreases s.len() - e,
    {
        e += 1;
    }
    let m = copy_range(s, 0, e);
    if !mantissa_ok(&m) {
        return false;
    }
    if e == s.len() {
        return true;
    }
    let x = copy_range(s, e + 1, s.len());
    exponent_ok(&x)
}

fn lower_is(body: &Vec<char>, w: &[char]) -> (r: bool)
    ensures
        r == (body@.map_values(|c: char| ascii_lower(c)) == w@),
{
    let ghost lower = body@.map_values(|c: char| ascii_lower(c));
    if body.len() != w.len() {
        assert(lower.len() != w@.len());
        return false;
    }
    let mut i: usize = 0;
    while i < body.len()
        invariant
            i <= body.len(),
            body.len() == w.len(),
            lower == body@.map_values(|c: char| ascii_lower(c)),
            forall|k: int| 0 <= k < i ==> lower[k] == w@[k],
        decreases body.len() - i,
    {
        if to_ascii_lower(body[i]) != w[i] {
            assert(lower[i as int] != w@[i as int]);
            return false;
        }
        i += 1;
    }
    assert(lower =~= w@);
    true
}

/// Whether a text is in the grammar that Rust documents for parsing a
/// floating-point number
/// (see [`is_float_literal`]).
pub fn is_float_text(text: &str) -> (r: bool)
    ensures
        r == is_float_literal(text@),
{
    let s = chars_of(text);
    let body = if s.len() > 0 && (s[0] == '+' || s[0] == '-') {
        copy_range(&s, 1, s.len())
    } else {
        copy_range(&s, 0, s.len())
    };
    assert(s@.subrange(0, s@.len() as int) =~= s@);
    let inf = ['i', 'n', 'f'];
    let infinity = ['i', 'n', 'f', 'i', 'n', 'i', 't', 'y'];
    let nan = ['n', 'a', 'n'];
    assert(inf@ =~= seq!['i', 'n', 'f']);
    assert(infinity@ =~= seq!['i', 'n', 'f', 'i', 'n', 'i', 't', 'y']);
    assert(nan@ =~= seq!['n', 'a', 'n']);
    lower_is(&body, &inf) || lower_is(&body, &infinity) || lower_is(&body, &nan) || decimal_ok(
        &body,
    )
}

/// What the command line sets, with the numbers of ranges and exclusions
/// as the texts given (each accepted by the float parser).
#[derive(Debug, Clone, PartialEq)]
pub struct CliArguments {
    pub paths: bool,
    pub reverse: bool,
    pub number_type: CliNumberType,
    pub signed: bool,
    pub exponent: bool,
    pub locale: bool,
    pub zero_terminated: bool,
    pub filters: Vec<(String, String)>,
    pub reverse_filters: Vec<(String, String)>,
    pub exclude: Vec<String>,
    pub entries: Vec<String>,
}

/// What [`CliArguments`] holds.
pub struct SpecCliArguments {
    pub paths: bool,
    pub reverse: bool,
    pub number_type: CliNumberType,
    pub signed: bool,
    pub exponent: bool,
    pub locale: bool,
    pub zero_terminated: bool,
    pub filters: Seq<(Seq<char>, Seq<char>)>,
    pub reverse_filters: Seq<(Seq<char>, Seq<char>)>,
    pub exclude: Seq<Seq<char>>,
    pub entries: Seq<Seq<char>>,
}

pub open spec fn strings_view(v: Seq<String>) -> Seq<Seq<char>> {
    v.map_values(|s: String| s@)
}

pub open spec fn ranges_view(v: Seq<(String, String)>) -> Seq<(Seq<char>, Seq<char>)> {
    v.map_values(|p: (String, String)| (p.0@, p.1@))
}

impl View for CliArguments {
    type V = SpecCliArguments;

    open spec fn view(&self) -> SpecCliArguments {
        SpecCliArguments {
            paths: self.paths,
            reverse: self.reverse,
            number_type: self.number_type,
            signed: self.signed,
            exponent: self.exponent,
            locale: self.locale,
            zero_terminated: self.zero_terminated,
            filters: ranges_view(self.filters@),
            reverse_filters: ranges_view(self.reverse_filters@),
            exclude: strings_view(self.exclude@),
            entries: strings_view(self.entries@),
        }
    }
}

/// What the command line asks for.
#[derive(Debug, Clone, PartialEq)]
pub enum CliCommand {
    Help,
    Version,
    Run(CliArguments),
}

pub enum SpecCliCommand {
    Help,
    Version,
    Run(SpecCliArguments),
}

impl View for CliCommand {
    type V = SpecCliCommand;

    open spec fn view(&self) -> SpecCliCommand {
        match self {
            CliCommand::Help => SpecCliCommand::Help,
            CliCommand::Version => SpecCliCommand::Version,
            CliCommand::Run(a) => SpecCliCommand::Run(a@),
        }
    }
}

/// The settings before any flag: integers, exponents on, nothing else.
pub open spec fn initial_arguments() -> SpecCliArguments {
    SpecCliArguments {
        paths: false,
        reverse: false,
        number_type: CliNumberType::Integer,
        signed: false,
        exponent: true,
        locale: false,
        zero_terminated: false,
        filters: Seq::empty(),
        reverse_filters: Seq::empty(),
        exclude: Seq::empty(),
        entries: Seq::empty(),
    }
}

pub open spec fn invalid_float_message(option: Seq<char>, value: Seq<char>) -> Seq<char> {
    "argument "@ + option + ": invalid float value: '"@ + value + "'"@
}

pub open spec fn invalid_choice_message(value: Seq<char>) -> Seq<char> {
    "argument -t/--number-type/--number_type: invalid choice: '"@ + value
        + "' (choose from int, float, real, f, i, r)"@
}

pub open spec fn one_argument_message(option: Seq<char>) -> Seq<char> {
    "argument "@ + option + ": expected one argument"@
}

pub open spec fn two_arguments_message(option: Seq<char>) -> Seq<char> {
    "argument "@ + option + ": expected 2 arguments"@
}

pub open spec fn unrecognized_message(argument: Seq<char>) -> Seq<char> {
    "unrecognized arguments: "@ + argument
}

/// `s` starts with `p`.
pub open spec fn has_prefix(s: Seq<char>, p: Seq<char>) -> bool {
    p.len() <= s.len() && s.subrange(0, p.len() as int) == p
}

/// The settings after a flag that takes no value, or `None` for any other
/// argument.
pub open spec fn simple_flag(a: Seq<char>, st: SpecCliArguments) -> Option<SpecCliArguments> {
    if a == "-p"@ || a == "--paths"@ {
        Some(SpecCliArguments { paths: true, ..st })
    } else if a == "-r"@ || a == "--reverse"@ {
        Some(SpecCliArguments { reverse: true, ..st })
    } else if a == "-s"@ || a == "--sign"@ {
        Some(SpecCliArguments { signed: true, ..st })
    } else if a == "--nosign"@ {
        Some(SpecCliArguments { signed: false, ..st })
    } else if a == "--noexp"@ {
        Some(SpecCliArguments { exponent: false, ..st })
    } else if a == "-l"@ || a == "--locale"@ {
        Some(SpecCliArguments { locale: true, ..st })
    } else if a == "-z"@ || a == "--zero-terminated"@ {
        Some(SpecCliArguments { zero_terminated: true, ..st })
    } else {
        None
    }
}

/// The two numbers that follow a range flag at `i`, or the error for them.
pub open spec fn range_values(args: Seq<Seq<char>>, i: int, option: Seq<char>) -> Result<
    (Seq<char>, Seq<char>),
    Seq<char>,
> {
    if i + 2 >= args.len() {
        Err(two_arguments_message(option))
    } else if !is_float_literal(args[i + 1]) {
        Err(invalid_float_message(option, args[i + 1]))
    } else if !is_float_literal(args[i + 2]) {
        Err(invalid_float_message(option, args[i + 2]))
    } else {
        Ok((args[i + 1], args[i + 2]))
    }
}

/// One step of reading the arguments: go on at a later argument with new
/// settings, or stop with an outcome.
pub enum SpecStep {
    Next(int, bool, SpecCliArguments),
    Stop(Result<SpecCliCommand, Seq<char>>),
}

/// What the argument at `i` does, with the settings so far and
/// `positional` once `--` was seen.
pub open spec fn parse_step(
    args: Seq<Seq<char>>,
    i: int,
    positional: bool,
    st: SpecCliArguments,
) -> SpecStep {
    let a = args[i];
    if positional {
        SpecStep::Next(i + 1, true, SpecCliArguments { entries: st.entries.push(a), ..st })
    } else if a == "--"@ {
        SpecStep::Next(i + 1, true, st)
    } else if a == "-h"@ || a == "--help"@ {
        SpecStep::Stop(Ok(SpecCliCommand::Help))
    } else if a == "--version"@ {
        SpecStep::Stop(Ok(SpecCliCommand::Version))
    } else if simple_flag(a, st) is Some {
        SpecStep::Next(i + 1, false, simple_flag(a, st)->0)
    } else if a == "-t"@ || a == "--number-type"@ || a == "--number_type"@ {
        if i + 1 >= args.len() {
            SpecStep::Stop(Err(one_argument_message(a)))
        } else {
            match number_type_named(args[i + 1]) {
                Some(t) => SpecStep::Next(i + 2, false, SpecCliArguments { number_type: t, ..st }),
                None => SpecStep::Stop(Err(invalid_choice_message(args[i + 1]))),
            }
        }
    } else if a == "-f"@ || a == "--filter"@ {
        match range_values(args, i, "-f/--filter"@) {
            Ok(r) => SpecStep::Next(
                i + 3,
                false,
                SpecCliArguments { filters: st.filters.push(r), ..st },
            ),
            Err(m) => SpecStep::Stop(Err(m)),
        }
    } else if a == "-F"@ || a == "--reverse-filter"@ {
        match range_values(args, i, "-F/--reverse-filter"@) {
            Ok(r) => SpecStep::Next(
                i + 3,
                false,
                SpecCliArguments { reverse_filters: st.reverse_filters.push(r), ..st },
            ),
            Err(m) => SpecStep::Stop(Err(m)),
        }
    } else if a == "-e"@ || a == "--exclude"@ {
        if i + 1 >= args.len() {
            SpecStep::Stop(Err(one_argument_message(a)))
        } else if !is_float_literal(args[i + 1]) {
            SpecStep::Stop(Err(invalid_float_message("-e/--exclude"@, args[i + 1])))
        } else {
            SpecStep::Next(
                i + 2,
                false,
                SpecCliArguments { exclude: st.exclude.push(args[i + 1]), ..st },
            )
        }
    } else if has_prefix(a, "--number-type="@) || has_prefix(a, "--number_type="@) {
        let v = a.subrange("--number-type="@.len() as int, a.len() as int);
        match number_type_named(v) {
            Some(t) => SpecStep::Next(i + 1, false, SpecCliArguments { number_type: t, ..st }),
            None => SpecStep::Stop(Err(invalid_choice_message(v))),
        }
    } else if has_prefix(a, "-"@) && !is_float_literal(a) {
        SpecStep::Stop(Err(unrecognized_message(a)))
    } else {
        SpecStep::Next(i + 1, false, SpecCliArguments { entries: st.entries.push(a), ..st })
    }
}

/// A step goes on to a later argument, at most one past the last.
pub proof fn lemma_step_advances(
    args: Seq<Seq<char>>,
    i: int,
    positional: bool,
    st: SpecCliArguments,
)
    requires
        0 <= i < args.len(),
    ensures
        parse_step(args, i, positional, st) matches SpecStep::Next(j, _, _) ==> i < j <= args.len(),
{
}

/// The outcome of reading the arguments from `i` on: help and version stop
/// at once, an error stops with its message, and the end of the arguments
/// runs with the settings.
pub open spec fn parse_from(
    args: Seq<Seq<char>>,
    i: int,
    positional: bool,
    st: SpecCliArguments,
) -> Result<SpecCliCommand, Seq<char>>
    decreases args.len() - i,
{
    if i < 0 || i >= args.len() {
        Ok(SpecCliCommand::Run(st))
    } else {
        match parse_step(args, i, positional, st) {
            SpecStep::Next(j, p, next) => {
                proof {
                    lemma_step_advances(args, i, positional, st);
                }
                parse_from(args, j, p, next)
            },
            SpecStep::Stop(r) => r,
        }
    }
}

/// The outcome of reading all the command-line arguments (see
/// [`parse_from`]).
pub open spec fn parsed_command(args: Seq<Seq<char>>) -> Result<SpecCliCommand, Seq<char>> {
    parse_from(args, 0, false, initial_arguments())
}

fn is_word(a: &Vec<char>, w: &str) -> (r: bool)
    ensures
        r == (a@ == w@),
{
    let wc = chars_of(w);
    chars_equal(a, wc.as_slice())
}

fn starts_with_word(a: &Vec<char>, w: &str) -> (r: bool)
    ensures
        r == has_prefix(a@, w@),
{
    let wc = chars_of(w);
    if wc.len() > a.len() {
        return false;
    }
    let mut i: usize = 0;
    while i < wc.len()
        invariant
            i <= wc.len() <= a.len(),
            wc@ == w@,
            forall|k: int| 0 <= k < i ==> a@[k] == wc@[k],
        decreases wc.len() - i,
    {
        if a[i] != wc[i] {
            assert(a@.subrange(0, wc@.len() as int)[i as int] != wc@[i as int]);
            return false;
        }
        i += 1;
    }
    assert(a@.subrange(0, wc@.len() as int) =~= wc@);
    true
}

fn message_of(before: &str, value: &Vec<char>, after: &str) -> (r: String)
    ensures
        r@ == before@ + value@ + after@,
{
    let mut out: Vec<char> = Vec::new();
    push_str_chars(&mut out, before);
    let ghost mid = out@;
    let mut k: usize = 0;
    while k < value.len()
        invariant
            k <= value.len(),
            out@ =~= mid + value@.subrange(0, k as int),
        decreases value.len() - k,
    {
        out.push(value[k]);
        k += 1;
    }
    assert(value@.subrange(0, k as int) =~= value@);
    push_str_chars(&mut out, after);
    string_from_chars(out.as_slice())
}

fn float_message(option: &str, value: &Vec<char>) -> (r: String)
    ensures
        r@ == invalid_float_message(option@, value@),
{
    let mut out: Vec<char> = Vec::new();
    push_str_chars(&mut out, "argument ");
    push_str_chars(&mut out, option);
    let text = message_of(": invalid float value: '", value, "'");
    push_str_chars(&mut out, text.as_str());
    assert(out@ =~= invalid_float_message(option@, value@));
    string_from_chars(out.as_slice())
}

fn option_message(option: &Vec<char>, after: &str) -> (r: String)
    ensures
        r@ == "argument "@ + option@ + after@,
{
    message_of("argument ", option, after)
}

fn number_type_of(value: &Vec<char>) -> (r: Option<CliNumberType>)
    ensures
        r == number_type_named(value@),
{
    let text = string_from_chars(value.as_slice());
    CliNumberType::parse(text.as_str())
}

fn float_ok(value: &Vec<char>) -> (r: bool)
    ensures
        r == is_float_literal(value@),
{
    let text = string_from_chars(value.as_slice());
    is_float_text(text.as_str())
}

fn range_of(args: &Vec<String>, i: usize, option: &str) -> (r: Result<(String, String), String>)
    requires
        i < args.len(),
    ensures
        match (r, range_values(strings_view(args@), i as int, option@)) {
            (Ok(p), Ok(q)) => p.0@ == q.0 && p.1@ == q.1,
            (Err(m), Err(n)) => m@ == n,
            _ => false,
        },
{
    let ghost av = strings_view(args@);
    if args.len() - i <= 2 {
        let o = chars_of(option);
        return Err(option_message(&o, ": expected 2 arguments"));
    }
    let low = chars_of(args[i + 1].as_str());
    let high = chars_of(args[i + 2].as_str());
    assert(low@ == av[i + 1]);
    assert(high@ == av[i + 2]);
    if !float_ok(&low) {
        return Err(float_message(option, &low));
    }
    if !float_ok(&high) {
        return Err(float_message(option, &high));
    }
    Ok((args[i + 1].clone(), args[i + 2].clone()))
}

/// One step of reading the arguments.
pub enum Step {
    Next(usize, bool),
    Stop(Result<CliCommand, String>),
}

fn step(arguments: &Vec<String>, i: usize, positional: bool, st: &mut CliArguments) -> (r: Step)
    requires
        i < arguments.len(),
    ensures
        match (r, parse_step(strings_view(arguments@), i as int, positional, old(st)@)) {
            (Step::Next(j, p), SpecStep::Next(k, q, next)) => j == k && p == q && final(st)@ == next,
            (Step::Stop(Ok(c)), SpecStep::Stop(Ok(d))) => c@ == d,
            (Step::Stop(Err(m)), SpecStep::Stop(Err(n))) => m@ == n,
            _ => false,
        },
{
    let ghost args = strings_view(arguments@);
    let a = chars_of(arguments[i].as_str());
    assert(a@ == args[i as int]);
    let ghost before = st@;
    if positional {
        st.entries.push(arguments[i].clone());
        assert(st@.entries =~= before.entries.push(a@));
        Step::Next(i + 1, true)
    } else if is_word(&a, "--") {
        Step::Next(i + 1, true)
    } else if is_word(&a, "-h") || is_word(&a, "--help") {
        Step::Stop(Ok(CliCommand::Help))
    } else if is_word(&a, "--version") {
        Step::Stop(Ok(CliCommand::Version))
    } else if is_word(&a, "-p") || is_word(&a, "--paths") {
        st.paths = true;
        Step::Next(i + 1, false)
    } else if is_word(&a, "-r") || is_word(&a, "--reverse") {
        st.reverse = true;
        Step::Next(i + 1, false)
    } else if is_word(&a, "-s") || is_word(&a, "--sign") {
        st.signed = true;
        Step::Next(i + 1, false)
    } else if is_word(&a, "--nosign") {
        st.signed = false;
        Step::Next(i + 1, false)
    } else if is_word(&a, "--noexp") {
        st.exponent = false;
        Step::Next(i + 1, false)
    } else if is_word(&a, "-l") || is_word(&a, "--locale") {
        st.locale = true;
        Step::Next(i + 1, false)
    } else if is_word(&a, "-z") || is_word(&a, "--zero-terminated") {
        st.zero_terminated = true;
        Step::Next(i + 1, false)
    } else {
        assert(simple_flag(a@, before) is None);
        value_step(arguments, i, &a, st)
    }
}

fn value_step(arguments: &Vec<String>, i: usize, a: &Vec<char>, st: &mut CliArguments) -> (r: Step)
    requires
        i < arguments.len(),
        a@ == strings_view(arguments@)[i as int],
        a@ != "--"@,
        a@ != "-h"@,
        a@ != "--help"@,
        a@ != "--version"@,
        simple_flag(a@, old(st)@) is None,
    ensures
        match (r, parse_step(strings_view(arguments@), i as int, false, old(st)@)) {
            (Step::Next(j, p), SpecStep::Next(k, q, next)) => j == k && p == q && final(st)@ == next,
            (Step::Stop(Ok(c)), SpecStep::Stop(Ok(d))) => c@ == d,
            (Step::Stop(Err(m)), SpecStep::Stop(Err(n))) => m@ == n,
            _ => false,
        },
{
    let ghost args = strings_view(arguments@);
    let ghost before = st@;
    if is_word(a, "-t") || is_word(a, "--number-type") || is_word(a, "--number_type") {
        if arguments.len() - i <= 1 {
            return Step::Stop(Err(option_message(a, ": expected one argument")));
        }
        let v = chars_of(arguments[i + 1].as_str());
        assert(v@ == args[i + 1]);
        match number_type_of(&v) {
            Some(t) => {
                st.number_type = t;
                Step::Next(i + 2, false)
            },
            None => Step::Stop(
                Err(
                    message_of(
                        "argument -t/--number-type/--number_type: invalid choice: '",
                        &v,
                        "' (choose from int, float, real, f, i, r)",
                    ),
                ),
            ),
        }
    } else if is_word(a, "-f") || is_word(a, "--filter") {
        match range_of(arguments, i, "-f/--filter") {
            Ok(r) => {
                let ghost rv = (r.0@, r.1@);
                st.filters.push(r);
                assert(st@.filters =~= before.filters.push(rv));
                Step::Next(i + 3, false)
            },
            Err(m) => Step::Stop(Err(m)),
        }
    } else if is_word(a, "-F") || is_word(a, "--reverse-filter") {
        match range_of(arguments, i, "-F/--reverse-filter") {
            Ok(r) => {
                let ghost rv = (r.0@, r.1@);
                st.reverse_filters.push(r);
                assert(st@.reverse_filters =~= before.reverse_filters.push(rv));
                Step::Next(i + 3, false)
            },
            Err(m) => Step::Stop(Err(m)),
        }
    } else if is_word(a, "-e") || is_word(a, "--exclude") {
        if arguments.len() - i <= 1 {
            return Step::Stop(Err(option_message(a, ": expected one argument")));
        }
        let v = chars_of(arguments[i + 1].as_str());
        assert(v@ == args[i + 1]);
        if !float_ok(&v) {
            return Step::Stop(Err(float_message("-e/--exclude", &v)));
        }
        st.exclude.push(arguments[i + 1].clone());
        assert(st@.exclude =~= before.exclude.push(v@));
        Step::Next(i + 2, false)
    } else if starts_with_word(a, "--number-type=") || starts_with_word(a, "--number_type=") {
        proof {
            reveal_strlit("--number-type=");
            reveal_strlit("--number_type=");
        }
        let v = copy_range(a, 14, a.len());
        match number_type_of(&v) {
            Some(t) => {
                st.number_type = t;
                Step::Next(i + 1, false)
            },
            None => Step::Stop(
                Err(
                    message_of(
                        "argument -t/--number-type/--number_type: invalid choice: '",
                        &v,
                        "' (choose from int, float, real, f, i, r)",
                    ),
                ),
            ),
        }
    } else if starts_with_word(a, "-") && !float_ok(a) {
        proof {
            reveal_strlit("");
        }
        let m = message_of("unrecognized arguments: ", a, "");
        assert(m@ =~= unrecognized_message(a@));
        Step::Stop(Err(m))
    } else {
        st.entries.push(arguments[i].clone());
        assert(st@.entries =~= before.entries.push(a@));
        Step::Next(i + 1, false)
    }
}

/// Reads the command-line arguments (see [`parsed_command`]).
pub fn parse_cli_arguments(arguments: &Vec<String>) -> (r: Result<CliCommand, String>)
    ensures
        match (r, parsed_command(strings_view(arguments@))) {
            (Ok(c), Ok(d)) => c@ == d,
            (Err(m), Err(n)) => m@ == n,
            _ => false,
        },
{
    let ghost args = strings_view(arguments@);
    let mut st = CliArguments {
        paths: false,
        reverse: false,
        number_type: CliNumberType::Integer,
        signed: false,
        exponent: true,
        locale: false,
        zero_terminated: false,
        filters: Vec::new(),
        reverse_filters: Vec::new(),
        exclude: Vec::new(),
        entries: Vec::new(),
    };
    assert(st@.filters =~= Seq::<(Seq<char>, Seq<char>)>::empty());
    assert(st@.reverse_filters =~= Seq::<(Seq<char>, Seq<char>)>::empty());
    assert(st@.exclude =~= Seq::<Seq<char>>::empty());
    assert(st@.entries =~= Seq::<Seq<char>>::empty());
    assert(st@ == initial_arguments());
    let mut positional = false;
    let mut i: usize = 0;
    while i < arguments.len()
        invariant
            i <= arguments.len(),
            args == strings_view(arguments@),
            args.len() == arguments.len(),
            parsed_command(args) == parse_from(args, i as int, positional, st@),
        decreases arguments.len() - i,
    {
        let ghost before = st@;
        proof {
            lemma_step_advances(args, i as int, positional, before);
        }
        match step(arguments, i, positional, &mut st) {
            Step::Next(j, p) => {
                i = j;
                positional = p;
            },
            Step::Stop(r) => {
                return r;
            },
        }
    }
    Ok(CliCommand::Run(st))
}

/// The usage text's part after the program name, without the final
/// newline.
pub open spec fn usage_tail() -> Seq<char> {
    " [-h] [--version] [-p] [-f LOW HIGH] [-F LOW HIGH]\n\
         \x20              [-e EXCLUDE] [-r] [-t {int,float,real,f,i,r}]\n\
         \x20              [--nosign] [-s] [--noexp] [-l] [-z]\n\
         \x20              [entries ...]"@
}

/// The help text's part after the usage line.
pub open spec fn help_tail() -> Seq<char> {
    "\nPerform a natural sort on entries given on the command-line.\n\n\
         Arguments are read from sys.argv.\n\n\
         positional arguments:\n\
         \x20 entries               The entries to sort. Taken from stdin if nothing is\n\
         \x20                       given on the command line.\n\n\
         options:\n\
         \x20 -h, --help            show this help message and exit\n\
         \x20 --version             show program's version number and exit\n\
         \x20 -p, --paths           Interpret the input as file paths.\n\
         \x20 -f, --filter LOW HIGH\n\
         \x20                       Keep entries containing a number in this range.\n\
         \x20 -F, --reverse-filter LOW HIGH\n\
         \x20                       Exclude entries containing a number in this range.\n\
         \x20 -e, --exclude EXCLUDE Exclude entries containing this number.\n\
         \x20 -r, --reverse         Return entries in reversed order.\n\
         \x20 -t, --number-type, --number_type {int,float,real,f,i,r}\n\
         \x20                       Choose integer, float, or real-number parsing.\n\
         \x20 --nosign              Do not consider signs as part of a number.\n\
         \x20 -s, --sign            Consider signs as part of a number.\n\
         \x20 --noexp               Do not consider exponents as part of a float.\n\
         \x20 -l, --locale          Use locale-aware sorting.\n\
         \x20 -z, --zero-terminated Split stdin entries on nulls instead of newlines.\n"@
}

fn usage_tail_text() -> (r: &'static str)
    ensures
        r@ == usage_tail(),
{
    " [-h] [--version] [-p] [-f LOW HIGH] [-F LOW HIGH]\n\
         \x20              [-e EXCLUDE] [-r] [-t {int,float,real,f,i,r}]\n\
         \x20              [--nosign] [-s] [--noexp] [-l] [-z]\n\
         \x20              [entries ...]"
}

fn help_tail_text() -> (r: &'static str)
    ensures
        r@ == help_tail(),
{
    "\nPerform a natural sort on entries given on the command-line.\n\n\
         Arguments are read from sys.argv.\n\n\
         positional arguments:\n\
         \x20 entries               The entries to sort. Taken from stdin if nothing is\n\
         \x20                       given on the command line.\n\n\
         options:\n\
         \x20 -h, --help            show this help message and exit\n\
         \x20 --version             show program's version number and exit\n\
         \x20 -p, --paths           Interpret the input as file paths.\n\
         \x20 -f, --filter LOW HIGH\n\
         \x20                       Keep entries containing a number in this range.\n\
         \x20 -F, --reverse-filter LOW HIGH\n\
         \x20                       Exclude entries containing a number in this range.\n\
         \x20 -e, --exclude EXCLUDE Exclude entries containing this number.\n\
         \x20 -r, --reverse         Return entries in reversed order.\n\
         \x20 -t, --number-type, --number_type {int,float,real,f,i,r}\n\
         \x20                       Choose integer, float, or real-number parsing.\n\
         \x20 --nosign              Do not consider signs as part of a number.\n\
         \x20 -s, --sign            Consider signs as part of a number.\n\
         \x20 --noexp               Do not consider exponents as part of a float.\n\
         \x20 -l, --locale          Use locale-aware sorting.\n\
         \x20 -z, --zero-terminated Split stdin entries on nulls instead of newlines.\n"
}

/// The usage text of the command line for a program name.
pub fn cli_usage(program: &str) -> (r: String)
    ensures
        r@ == "usage: "@ + program@ + usage_tail() + "\n"@,
{
    let mut out: Vec<char> = Vec::new();
    push_str_chars(&mut out, "usage: ");
    push_str_chars(&mut out, program);
    push_str_chars(&mut out, usage_tail_text());
    push_str_chars(&mut out, "\n");
    string_from_chars(out.as_slice())
}

/// The help text of the command line for a program name: the usage line
/// and what each option does.
pub fn cli_help(program: &str) -> (r: String)
    ensures
        r@ == "usage: "@ + program@ + usage_tail() + help_tail(),
{
    let mut out: Vec<char> = Vec::new();
    push_str_chars(&mut out, "usage: ");
    push_str_chars(&mut out, program);
    push_str_chars(&mut out, usage_tail_text());
    push_str_chars(&mut out, help_tail_text());
    string_from_chars(out.as_slice())
}

/// The first position at or after `i` that holds `sep`, or the length.
pub open spec fn find_from(s: Seq<char>, i: int, sep: char) -> int
    decreases s.len() - i,
{
    if i >= s.len() {
        s.len() as int
    } else if s[i] == sep {
        i
    } else {
        find_from(s, i + 1, sep)
    }
}

/// A piece without one trailing carriage return, when asked to drop it.
pub open spec fn without_cr(p: Seq<char>, strip: bool) -> Seq<char> {
    if strip && p.len() > 0 && p[p.len() - 1] == '\r' {
        p.drop_last()
    } else {
        p
    }
}

/// The pieces of `s` from position `i` on, each ended by `sep` or by the
/// end of `s`; no piece after a final `sep`. With `strip`, a piece ended
/// by `sep` loses a trailing carriage return.
pub open spec fn pieces_from(s: Seq<char>, i: int, sep: char, strip: bool) -> Seq<Seq<char>>
    decreases s.len() - i,
{
    if i >= s.len() || i < 0 {
        Seq::empty()
    } else {
        let j = find_from(s, i, sep);
        if j >= s.len() {
            seq![s.subrange(i, s.len() as int)]
        } else {
            proof {
                lemma_find_from(s, i, sep);
            }
            seq![without_cr(s.subrange(i, j), strip)] + pieces_from(s, j + 1, sep, strip)
        }
    }
}

/// The entries of standard input: one empty entry for empty input; else
/// the pieces ended by NUL (zero-terminated) or the lines, where a line
/// ends with a newline or a carriage return and newline.
pub open spec fn input_entries(s: Seq<char>, zero_terminated: bool) -> Seq<Seq<char>> {
    if s.len() == 0 {
        seq![Seq::empty()]
    } else if zero_terminated {
        pieces_from(s, 0, '\0', false)
    } else {
        pieces_from(s, 0, '\n', true)
    }
}

/// `find_from` finds the first `sep` at or after `i`, if there is one.
pub proof fn lemma_find_from(s: Seq<char>, i: int, sep: char)
    requires
        0 <= i <= s.len(),
    ensures
        i <= find_from(s, i, sep) <= s.len(),
        forall|k: int| i <= k < find_from(s, i, sep) ==> s[k] != sep,
        find_from(s, i, sep) < s.len() ==> s[find_from(s, i, sep)] == sep,
    decreases s.len() - i,
{
    if i < s.len() && s[i] != sep {
        lemma_find_from(s, i + 1, sep);
    }
}

fn copy_range(s: &Vec<char>, from: usize, to: usize) -> (r: Vec<char>)
    requires
        from <= to <= s.len(),
    ensures
        r@ == s@.subrange(from as int, to as int),
{
    let mut out: Vec<char> = Vec::new();
    let mut k: usize = from;
    while k < to
        invariant
            from <= k <= to <= s.len(),
            out@ =~= s@.subrange(from as int, k as int),
        decreases to - k,
    {
        out.push(s[k]);
        k += 1;
    }
    out
}

/// Standard input cut into entries (see [`input_entries`]).
pub fn split_entries(input: &str, zero_terminated: bool) -> (r: Vec<String>)
    ensures
        r@.map_values(|e: String| e@) == input_entries(input@, zero_terminated),
{
    let s = chars_of(input);
    let mut out: Vec<String> = Vec::new();
    if s.len() == 0 {
        let empty: Vec<char> = Vec::new();
        out.push(string_from_chars(empty.as_slice()));
        assert(out@.map_values(|e: String| e@) =~= input_entries(input@, zero_terminated));
        return out;
    }
    let sep = if zero_terminated {
        '\0'
    } else {
        '\n'
    };
    let strip = !zero_terminated;
    let ghost whole = pieces_from(s@, 0, sep, strip);
    let mut i: usize = 0;
    while i < s.len()
        invariant
            i <= s.len(),
            s@ == input@,
            whole == pieces_from(s@, 0, sep, strip),
            whole =~= out@.map_values(|e: String| e@) + pieces_from(s@, i as int, sep, strip),
        decreases s.len() - i,
    {
        let ghost start = i as int;
        let mut j: usize = i;
        while j < s.len() && s[j] != sep
            invariant
                i <= j <= s.len(),
                find_from(s@, i as int, sep) == find_from(s@, j as int, sep),
            decreases s.len() - j,
        {
            j += 1;
        }
        proof {
            lemma_find_from(s@, j as int, sep);
        }
        let ghost before = out@.map_values(|e: String| e@);
        let mut end = j;
        if strip && j < s.len() && end > i && s[end - 1] == '\r' {
            end -= 1;
        }
        let piece_chars = copy_range(&s, i, end);
        let piece = string_from_chars(piece_chars.as_slice());
        proof {
            if j < s.len() {
                if strip && j > i && s@[j - 1] == '\r' {
                    assert(s@.subrange(i as int, j as int).drop_last() =~= s@.subrange(
                        i as int,
                        j - 1,
                    ));
                }
                assert(piece@ == without_cr(s@.subrange(i as int, j as int), strip));
                assert(pieces_from(s@, start, sep, strip) =~= seq![piece@] + pieces_from(
                    s@,
                    j + 1,
                    sep,
                    strip,
                ));
            }
        }
        out.push(piece);
        proof {
            assert(out@.map_values(|e: String| e@) =~= before.push(piece@));
        }
        if j < s.len() {
            i = j + 1;
        } else {
            assert(pieces_from(s@, start, sep, strip) =~= seq![s@.subrange(start, s@.len() as int)]);
            assert(pieces_from(s@, s@.len() as int, sep, strip) =~= Seq::<Seq<char>>::empty());
            i = j;
        }
    }
    assert(out@.map_values(|e: String| e@) =~= input_entries(input@, zero_terminated));
    out
}

} // verus!
