//! The decisions of the benchmark tool that need no clock and no file: its
//! arguments, the sort options of each mode, and how it writes text into
//! its JSON report.
use vstd::prelude::*;

use crate::chars::{chars_of, flat_map_chars, lemma_flat_map_step, push_str_chars, string_from_chars};
use crate::options::{SortOptions, default_options};

verus! {

/// The sort options of a benchmark mode, if the mode exists.
pub open spec fn mode_options(mode: Seq<char>) -> Option<SortOptions> {
    if mode == "default"@ {
        Some(default_options())
    } else if mode == "float"@ {
        Some(SortOptions { float: true, ..default_options() })
    } else if mode == "real"@ {
        Some(SortOptions { float: true, signed: true, ..default_options() })
    } else if mode == "path"@ {
        Some(SortOptions { path: true, ..default_options() })
    } else if mode == "locale"@ {
        Some(SortOptions { locale_alpha: true, locale_numeric: true, ..default_options() })
    } else {
        None
    }
}

fn same_text(a: &Vec<char>, w: &str) -> (r: bool)
    ensures
        r == (a@ == w@),
{
    let b = chars_of(w);
    if a.len() != b.len() {
        return false;
    }
    let mut i: usize = 0;
    while i < a.len()
        invariant
            i <= a.len(),
            a.len() == b.len(),
            b@ == w@,
            forall|k: int| 0 <= k < i ==> a@[k] == b@[k],
        decreases a.len() - i,
    {
        if a[i] != b[i] {
            return false;
        }
        i += 1;
    }
    assert(a@ =~= b@);
    true
}

/// The sort options of a benchmark mode (see [`mode_options`]); an unknown
/// mode is an error.
pub fn options_for_mode(mode: &str) -> (r: Result<SortOptions, String>)
    ensures
        match mode_options(mode@) {
            Some(o) => r == Ok::<SortOptions, String>(o),
            None => r matches Err(m) && m@ == "unsupported mode: "@ + mode@,
        },
{
    let m = chars_of(mode);
    if same_text(&m, "default") {
        Ok(SortOptions::new())
    } else if same_text(&m, "float") {
        Ok(SortOptions::new().float(true))
    } else if same_text(&m, "real") {
        Ok(SortOptions::new().float(true).signed(true))
    } else if same_text(&m, "path") {
        Ok(SortOptions::new().path(true))
    } else if same_text(&m, "locale") {
        Ok(SortOptions::new().locale(true))
    } else {
        let mut out: Vec<char> = Vec::new();
        push_str_chars(&mut out, "unsupported mode: ");
        push_str_chars(&mut out, mode);
        Err(string_from_chars(out.as_slice()))
    }
}

/// A control character (general category `Cc`), as `char::is_control`
/// documents it.
pub open spec fn is_control(c: char) -> bool {
    (c as int) <= 0x1F || (0x7F <= (c as int) && (c as int) <= 0x9F)
}

/// The lowercase hexadecimal digit of a value below sixteen.
pub open spec fn hex_digit(v: int) -> char {
    if v < 10 {
        (48 + v) as char
    } else {
        (87 + v) as char
    }
}

/// A character as JSON writes it in a string: quote, backslash, newline,
/// carriage return and tab by their escapes, other control characters as
/// `\u` and four hexadecimal digits, everything else as it is.
pub open spec fn json_char(c: char) -> Seq<char> {
    if c == '"' {
        seq!['\\', '"']
    } else if c == '\\' {
        seq!['\\', '\\']
    } else if c == '\n' {
        seq!['\\', 'n']
    } else if c == '\r' {
        seq!['\\', 'r']
    } else if c == '\t' {
        seq!['\\', 't']
    } else if is_control(c) {
        let v = c as int;
        seq![
            '\\',
            'u',
            hex_digit(v / 4096),
            hex_digit((v / 256) % 16),
            hex_digit((v / 16) % 16),
            hex_digit(v % 16),
        ]
    } else {
        seq![c]
    }
}

fn hex_char(v: u32) -> (r: char)
    requires
        v < 16,
    ensures
        r == hex_digit(v as int),
{
    if v < 10 {
        (48u8 + v as u8) as char
    } else {
        (87u8 + v as u8) as char
    }
}

fn push_json_char(out: &mut Vec<char>, c: char)
    ensures
        final(out)@ == old(out)@ + json_char(c),
{
    let ghost start = out@;
    if c == '"' {
        out.push('\\');
        out.push('"');
    } else if c == '\\' {
        out.push('\\');
        out.push('\\');
    } else if c == '\n' {
        out.push('\\');
        out.push('n');
    } else if c == '\r' {
        out.push('\\');
        out.push('r');
    } else if c == '\t' {
        out.push('\\');
        out.push('t');
    } else if c <= '\u{1f}' || ('\u{7f}' <= c && c <= '\u{9f}') {
        let v = c as u32;
        out.push('\\');
        out.push('u');
        out.push(hex_char(v / 4096));
        out.push(hex_char((v / 256) % 16));
        out.push(hex_char((v / 16) % 16));
        out.push(hex_char(v % 16));
    } else {
        out.push(c);
    }
    assert(out@ =~= start + json_char(c));
}

/// A text as JSON writes it inside a string (see [`json_char`]).
pub fn json_escape(input: &str) -> (r: String)
    ensures
        r@ == flat_map_chars(input@, |c: char| json_char(c)),
{
    let s = chars_of(input);
    let ghost f = |c: char| json_char(c);
    let mut out: Vec<char> = Vec::new();
    let mut i: usize = 0;
    assert(s@.take(0) =~= Seq::<char>::empty());
    while i < s.len()
        invariant
            i <= s.len(),
            s@ == input@,
            f == (|c: char| json_char(c)),
            out@ == flat_map_chars(s@.take(i as int), f),
        decreases s.len() - i,
    {
        proof {
            lemma_flat_map_step(s@, i as int, f);
        }
        push_json_char(&mut out, s[i]);
        i += 1;
    }
    assert(s@.take(i as int) =~= s@);
    string_from_chars(out.as_slice())
}

/// What the benchmark reads from its arguments: the dataset's path, the
/// mode, the warm-up runs and the timed runs.
#[derive(Debug, Clone, PartialEq, Eq)]
pub struct BenchmarkArguments {
    pub dataset: String,
    pub mode: String,
    pub warmups: usize,
    pub runs: usize,
}

/// The value of a count: an optional `+` and at least one ASCII digit,
/// with a value that fits in `usize` (the grammar `str::parse` documents
/// for unsigned integers).
pub open spec fn count_value(s: Seq<char>) -> Option<usize> {
    let d = if s.len() > 0 && s[0] == '+' {
        s.subrange(1, s.len() as int)
    } else {
        s
    };
    if d.len() > 0 && all_digit_chars(d) && digits_number(d) <= usize::MAX {
        Some(digits_number(d) as usize)
    } else {
        None
    }
}

/// Every character is an ASCII digit.
pub open spec fn all_digit_chars(d: Seq<char>) -> bool {
    forall|k: int| 0 <= k < d.len() ==> '0' <= #[trigger] d[k] <= '9'
}

/// The number that a run of ASCII digits writes.
pub open spec fn digits_number(d: Seq<char>) -> int
    decreases d.len(),
{
    if d.len() == 0 {
        0
    } else {
        digits_number(d.drop_last()) * 10 + (d.last() as int - 48)
    }
}

/// A prefix of a run of ASCII digits writes a number no greater than the
/// whole run does.
proof fn lemma_digits_number_prefix(d: Seq<char>, k: int)
    requires
        0 <= k <= d.len(),
        forall|j: int| 0 <= j < d.len() ==> '0' <= #[trigger] d[j] <= '9',
    ensures
        0 <= digits_number(d.subrange(0, k)) <= digits_number(d),
    decreases d.len(),
{
    if d.len() > 0 {
        let e = d.drop_last();
        assert forall|j: int| 0 <= j < e.len() implies '0' <= #[trigger] e[j] <= '9' by {
            assert(e[j] == d[j]);
        }
        lemma_digits_number_prefix(e, e.len() as int);
        assert(e.subrange(0, e.len() as int) =~= e);
        if k < d.len() {
            lemma_digits_number_prefix(e, k);
            assert(e.subrange(0, k) =~= d.subrange(0, k));
        } else {
            assert(d.subrange(0, k) =~= d);
        }
    } else {
        assert(d.subrange(0, k) =~= d);
    }
}

/// A count: an optional `+`, then ASCII digits whose number fits in `usize`
/// (the grammar of `str::parse::<usize>`).
fn parse_count(s: &str) -> (r: Option<usize>)
    ensures
        r == count_value(s@),
{
    let c = chars_of(s);
    let start: usize = if c.len() > 0 && c[0] == '+' {
        1
    } else {
        0
    };
    let ghost d = c@.subrange(start as int, c@.len() as int);
    assert(d == (if s@.len() > 0 && s@[0] == '+' {
        s@.subrange(1, s@.len() as int)
    } else {
        s@
    }));
    if start == c.len() {
        return None;
    }
    let mut value: usize = 0;
    let mut i: usize = start;
    assert(c@.subrange(start as int, start as int) =~= Seq::<char>::empty());
    while i < c.len()
        invariant
            start <= i <= c@.len(),
            start < c@.len(),
            c@ == s@,
            d == c@.subrange(start as int, c@.len() as int),
            d == (if s@.len() > 0 && s@[0] == '+' {
                s@.subrange(1, s@.len() as int)
            } else {
                s@
            }),
            forall|j: int| start <= j < i ==> '0' <= #[trigger] c@[j] <= '9',
            value == digits_number(c@.subrange(start as int, i as int)),
        decreases c@.len() - i,
    {
        let ch = c[i];
        if !('0' <= ch && ch <= '9') {
            assert(d[i - start] == ch);
            assert(!all_digit_chars(d));
            assert(count_value(s@) is None);
            return None;
        }
        let ghost next = c@.subrange(start as int, i + 1);
        assert(next.drop_last() =~= c@.subrange(start as int, i as int));
        assert(next.last() == ch);
        let digit: usize = (ch as u32 - 48) as usize;
        let grown = match value.checked_mul(10) {
            Some(t) => t.checked_add(digit),
            None => None,
        };
        match grown {
            Some(v) => {
                value = v;
            },
            None => {
                proof {
                    assert(digits_number(next) > usize::MAX);
                    if all_digit_chars(d) {
                        lemma_digits_number_prefix(d, i + 1 - start);
                        assert(d.subrange(0, i + 1 - start) =~= next);
                        assert(digits_number(d) > usize::MAX);
                    }
                    assert(count_value(s@) is None);
                }
                return None;
            },
        }
        i += 1;
    }
    assert(c@.subrange(start as int, i as int) =~= d);
    assert forall|k: int| 0 <= k < d.len() implies '0' <= #[trigger] d[k] <= '9' by {
        assert(d[k] == c@[start + k]);
    }
    assert(all_digit_chars(d));
    Some(value)
}

/// The usage text of the benchmark tool.
pub open spec fn benchmark_usage(program: Seq<char>) -> Seq<char> {
    "usage: "@ + program
        + " --dataset PATH --mode MODE [--warmups N] [--runs N]\nmodes: default, float, real, path, locale"@
}

/// What the benchmark has read so far.
pub struct BenchmarkState {
    pub dataset: Option<Seq<char>>,
    pub mode: Option<Seq<char>>,
    pub warmups: usize,
    pub runs: usize,
}

/// Reading the benchmark's options from position `i` on (the program name
/// at position `0` is not read here).
pub open spec fn benchmark_from(
    args: Seq<Seq<char>>,
    i: int,
    program: Seq<char>,
    st: BenchmarkState,
) -> Result<BenchmarkState, Seq<char>>
    decreases args.len() - i,
{
    if i < 1 || i >= args.len() {
        Ok(st)
    } else {
        let a = args[i];
        if a == "-h"@ || a == "--help"@ {
            Err(benchmark_usage(program))
        } else if a == "--dataset"@ {
            if i + 1 >= args.len() {
                Err("--dataset requires a path"@)
            } else {
                benchmark_from(args, i + 2, program, BenchmarkState { dataset: Some(args[i + 1]), ..st })
            }
        } else if a == "--mode"@ {
            if i + 1 >= args.len() {
                Err("--mode requires a value"@)
            } else {
                benchmark_from(args, i + 2, program, BenchmarkState { mode: Some(args[i + 1]), ..st })
            }
        } else if a == "--warmups"@ || a == "--runs"@ {
            if i + 1 >= args.len() {
                Err(a + " requires a value"@)
            } else {
                match count_value(args[i + 1]) {
                    Some(n) => benchmark_from(
                        args,
                        i + 2,
                        program,
                        if a == "--warmups"@ {
                            BenchmarkState { warmups: n, ..st }
                        } else {
                            BenchmarkState { runs: n, ..st }
                        },
                    ),
                    None => Err(a + " expects a non-negative integer"@),
                }
            }
        } else {
            Err("unknown argument: "@ + a + "\n"@ + benchmark_usage(program))
        }
    }
}

/// The program name: the first argument, `benchmark` without one.
pub open spec fn program_of(args: Seq<Seq<char>>) -> Seq<char> {
    if args.len() > 0 {
        args[0]
    } else {
        "benchmark"@
    }
}

/// What the benchmark makes of its arguments (the program name first): a
/// dataset and a mode are needed, at least one timed run, and two warm-up
/// and seven timed runs unless set.
pub open spec fn benchmark_arguments(args: Seq<Seq<char>>) -> Result<
    (Seq<char>, Seq<char>, usize, usize),
    Seq<char>,
> {
    let program = program_of(args);
    match benchmark_from(
        args,
        1,
        program,
        BenchmarkState { dataset: None, mode: None, warmups: 2, runs: 7 },
    ) {
        Err(m) => Err(m),
        Ok(st) => match (st.dataset, st.mode) {
            (None, _) => Err("missing --dataset\n"@ + benchmark_usage(program)),
            (Some(_), None) => Err("missing --mode\n"@ + benchmark_usage(program)),
            (Some(d), Some(m)) => if st.runs == 0 {
                Err("--runs must be greater than zero"@)
            } else {
                Ok((d, m, st.warmups, st.runs))
            },
        },
    }
}

/// The state that the values read so far stand for.
pub open spec fn state_of(
    dataset: Option<String>,
    mode: Option<String>,
    warmups: usize,
    runs: usize,
) -> BenchmarkState {
    BenchmarkState {
        dataset: match dataset {
            Some(d) => Some(d@),
            None => None,
        },
        mode: match mode {
            Some(m) => Some(m@),
            None => None,
        },
        warmups: warmups,
        runs: runs,
    }
}

fn usage_text(program: &str) -> (r: Vec<char>)
    ensures
        r@ == benchmark_usage(program@),
{
    let mut out: Vec<char> = Vec::new();
    push_str_chars(&mut out, "usage: ");
    push_str_chars(&mut out, program);
    push_str_chars(
        &mut out,
        " --dataset PATH --mode MODE [--warmups N] [--runs N]\nmodes: default, float, real, path, locale",
    );
    assert(out@ =~= benchmark_usage(program@));
    out
}

fn joined(first: &str, middle: &str, rest: &Vec<char>) -> (r: String)
    ensures
        r@ == first@ + middle@ + rest@,
{
    let mut out: Vec<char> = Vec::new();
    push_str_chars(&mut out, first);
    push_str_chars(&mut out, middle);
    let ghost start = out@;
    let mut k: usize = 0;
    while k < rest.len()
        invariant
            k <= rest.len(),
            out@ =~= start + rest@.subrange(0, k as int),
        decreases rest.len() - k,
    {
        out.push(rest[k]);
        k += 1;
    }
    assert(rest@.subrange(0, k as int) =~= rest@);
    string_from_chars(out.as_slice())
}

/// Reads the benchmark's arguments, the program name first (see
/// [`benchmark_arguments`]).
#[verifier::rlimit(40)]
pub fn parse_benchmark_arguments(args: &Vec<String>) -> (r: Result<BenchmarkArguments, String>)
    ensures
        match (r, benchmark_arguments(args@.map_values(|s: String| s@))) {
            (Ok(b), Ok((d, m, w, n))) => b.dataset@ == d && b.mode@ == m && b.warmups == w
                && b.runs == n,
            (Err(e), Err(f)) => e@ == f,
            _ => false,
        },
{
    let ghost av = args@.map_values(|s: String| s@);
    let program: String = if args.len() > 0 {
        args[0].clone()
    } else {
        String::from_str("benchmark")
    };
    assert(program@ == program_of(av));
    let mut dataset: Option<String> = None;
    let mut mode: Option<String> = None;
    let mut warmups: usize = 2;
    let mut runs: usize = 7;
    let ghost start = BenchmarkState { dataset: None, mode: None, warmups: 2, runs: 7 };
    let mut i: usize = 1;
    if args.len() == 0 {
        i = 0;
    }
    assert(benchmark_from(av, 1, program@, start) == benchmark_from(
        av,
        i as int,
        program@,
        state_of(dataset, mode, warmups, runs),
    ));
    while i < args.len()
        invariant
            i <= args.len(),
            args.len() > 0 ==> 1 <= i,
            av == args@.map_values(|s: String| s@),
            av.len() == args.len(),
            program@ == program_of(av),
            start == (BenchmarkState { dataset: None, mode: None, warmups: 2, runs: 7 }),
            benchmark_from(av, 1, program@, start) == benchmark_from(
                av,
                i as int,
                program@,
                state_of(dataset, mode, warmups, runs),
            ),
        decreases args.len() - i,
    {
        let a = chars_of(args[i].as_str());
        assert(a@ == av[i as int]);
        let ghost cur = state_of(dataset, mode, warmups, runs);
        if same_text(&a, "-h") || same_text(&a, "--help") {
            let u = usage_text(program.as_str());
            let e = string_from_chars(u.as_slice());
            assert(benchmark_from(av, i as int, program@, cur) == Err::<BenchmarkState, Seq<char>>(
                e@,
            ));
            return Err(e);
        } else if same_text(&a, "--dataset") {
            if args.len() - i <= 1 {
                let e = String::from_str("--dataset requires a path");
                assert(benchmark_from(av, i as int, program@, cur) == Err::<BenchmarkState, Seq<char>>(
                    e@,
                ));
                return Err(e);
            }
            dataset = Some(args[i + 1].clone());
            i += 2;
        } else if same_text(&a, "--mode") {
            if args.len() - i <= 1 {
                let e = String::from_str("--mode requires a value");
                assert(benchmark_from(av, i as int, program@, cur) == Err::<BenchmarkState, Seq<char>>(
                    e@,
                ));
                return Err(e);
            }
            mode = Some(args[i + 1].clone());
            i += 2;
        } else if same_text(&a, "--warmups") || same_text(&a, "--runs") {
            let warm = same_text(&a, "--warmups");
            if args.len() - i <= 1 {
                let none: Vec<char> = Vec::new();
                let e = joined(args[i].as_str(), " requires a value", &none);
                assert(e@ =~= a@ + " requires a value"@);
                assert(benchmark_from(av, i as int, program@, cur) == Err::<BenchmarkState, Seq<char>>(
                    e@,
                ));
                return Err(e);
            }
            match parse_count(args[i + 1].as_str()) {
                Some(n) => {
                    if warm {
                        warmups = n;
                    } else {
                        runs = n;
                    }
                    i += 2;
                },
                None => {
                    let none: Vec<char> = Vec::new();
                    let e = joined(args[i].as_str(), " expects a non-negative integer", &none);
                    assert(e@ =~= a@ + " expects a non-negative integer"@);
                    assert(benchmark_from(av, i as int, program@, cur) == Err::<
                        BenchmarkState,
                        Seq<char>,
                    >(e@));
                    return Err(e);
                },
            }
        } else {
            let mut rest: Vec<char> = Vec::new();
            push_str_chars(&mut rest, "\n");
            let u = usage_text(program.as_str());
            let ghost before = rest@;
            let mut k: usize = 0;
            while k < u.len()
                invariant
                    k <= u.len(),
                    rest@ =~= before + u@.subrange(0, k as int),
                decreases u.len() - k,
            {
                rest.push(u[k]);
                k += 1;
            }
            assert(u@.subrange(0, k as int) =~= u@);
            let e = joined("unknown argument: ", args[i].as_str(), &rest);
            assert(e@ =~= "unknown argument: "@ + a@ + "\n"@ + benchmark_usage(program@));
            assert(benchmark_from(av, i as int, program@, cur) == Err::<BenchmarkState, Seq<char>>(
                e@,
            ));
            return Err(e);
        }
    }
    let u = usage_text(program.as_str());
    assert(benchmark_from(av, 1, program@, start) == Ok::<BenchmarkState, Seq<char>>(
        state_of(dataset, mode, warmups, runs),
    ));
    proof {
        reveal_strlit("");
    }
    match (dataset, mode) {
        (None, _) => Err(joined("missing --dataset\n", "", &u)),
        (Some(_), None) => Err(joined("missing --mode\n", "", &u)),
        (Some(d), Some(m)) => {
            if runs == 0 {
                Err(String::from_str("--runs must be greater than zero"))
            } else {
                Ok(BenchmarkArguments { dataset: d, mode: m, warmups, runs })
            }
        },
    }
}

} // verus!
