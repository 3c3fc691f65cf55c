//! Locales: naming them, their number symbols, undoing their digit grouping,
//! and collation keys.
use vstd::prelude::*;

use vstd::utf8::encode_utf8;

use crate::chars::{ascii_lower, chars_of, string_from_chars, to_ascii_lower};
use crate::number::{all_ascii_digits, is_ascii_digit};

verus! {

/// The locales whose collation and number formats the library knows.
#[derive(Debug, Clone, Copy, PartialEq, Eq, Structural, PartialOrd, Ord)]
pub enum LocaleProfile {
    System,
    C,
    EnglishIndia,
    EnglishUnitedStates,
    GermanGermany,
    FrenchFrance,
}

impl Default for LocaleProfile {
    fn default() -> (r: Self)
        ensures
            r == LocaleProfile::System,
    {
        LocaleProfile::System
    }
}

/// A character of the Unicode `White_Space` property, which `str::trim`
/// removes.
pub open spec fn is_white_space(c: char) -> bool {
    ('\u{9}' <= c && c <= '\u{d}') || c == ' ' || c == '\u{85}' || c == '\u{a0}' || c
        == '\u{1680}' || ('\u{2000}' <= c && c <= '\u{200a}') || c == '\u{2028}' || c
        == '\u{2029}' || c == '\u{202f}' || c == '\u{205f}' || c == '\u{3000}'
}

/// The first position at or after `i` that is not white space.
pub open spec fn space_skip(s: Seq<char>, i: int) -> int
    decreases s.len() - i,
{
    if 0 <= i < s.len() && is_white_space(s[i]) {
        space_skip(s, i + 1)
    } else {
        i
    }
}

/// The end of `s[lo..j]` without its trailing white space.
pub open spec fn space_trim_end(s: Seq<char>, lo: int, j: int) -> int
    decreases j - lo,
{
    if lo < j && j <= s.len() && is_white_space(s[j - 1]) {
        space_trim_end(s, lo, j - 1)
    } else {
        j
    }
}

/// `s` without leading and trailing white space.
pub open spec fn trimmed(s: Seq<char>) -> Seq<char> {
    let a = space_skip(s, 0);
    s.subrange(a, space_trim_end(s, a, s.len() as int))
}

/// The first position at or after `i` that holds `c`, or the length.
pub open spec fn find_char(s: Seq<char>, i: int, c: char) -> int
    decreases s.len() - i,
{
    if i < 0 || i >= s.len() {
        s.len() as int
    } else if s[i] == c {
        i
    } else {
        find_char(s, i + 1, c)
    }
}

/// A character of an identifier as it is compared: `_` read as `-`, ASCII
/// letters lowercased.
pub open spec fn identifier_char(c: char) -> char {
    ascii_lower(
        if c == '_' {
            '-'
        } else {
            c
        },
    )
}

/// A locale identifier as it is matched: trimmed, cut at the first `.`
/// (a code set), `_` read as `-` and ASCII letters lowercased.
pub open spec fn normalized_identifier(s: Seq<char>) -> Seq<char> {
    let t = trimmed(s);
    t.subrange(0, find_char(t, 0, '.')).map_values(|c: char| identifier_char(c))
}

pub open spec fn has_prefix(s: Seq<char>, p: Seq<char>) -> bool {
    p.len() <= s.len() && s.subrange(0, p.len() as int) == p
}

pub open spec fn has_infix(s: Seq<char>, p: Seq<char>) -> bool {
    exists|i: int| 0 <= i && i + p.len() <= s.len() && #[trigger] s.subrange(i, i + p.len()) == p
}

/// The C or POSIX locale, which collates by code point.
pub open spec fn is_c_locale(n: Seq<char>) -> bool {
    n == seq!['c'] || n == seq!['p', 'o', 's', 'i', 'x']
}

pub open spec fn is_en_in(n: Seq<char>) -> bool {
    has_prefix(n, seq!['e', 'n', '-', 'i', 'n'])
}

pub open spec fn is_de(n: Seq<char>) -> bool {
    has_prefix(n, seq!['d', 'e'])
}

pub open spec fn is_fr(n: Seq<char>) -> bool {
    has_prefix(n, seq!['f', 'r'])
}

pub open spec fn is_de_ch(n: Seq<char>) -> bool {
    has_prefix(n, seq!['d', 'e', '-', 'c', 'h'])
}

/// The profile that a normalized identifier names: C and POSIX, then
/// English (India), German and French by language tag or Windows name, and
/// English (United States) for everything else.
pub open spec fn profile_of(n: Seq<char>) -> LocaleProfile {
    if is_c_locale(n) {
        LocaleProfile::C
    } else if is_en_in(n) || has_infix(
        n,
        seq!['e', 'n', 'g', 'l', 'i', 's', 'h', '-', 'i', 'n', 'd', 'i', 'a'],
    ) {
        LocaleProfile::EnglishIndia
    } else if is_de(n) || has_infix(
        n,
        seq!['g', 'e', 'r', 'm', 'a', 'n', '-', 'g', 'e', 'r', 'm', 'a', 'n', 'y'],
    ) {
        LocaleProfile::GermanGermany
    } else if is_fr(n) || has_infix(
        n,
        seq!['f', 'r', 'e', 'n', 'c', 'h', '-', 'f', 'r', 'a', 'n', 'c', 'e'],
    ) {
        LocaleProfile::FrenchFrance
    } else {
        LocaleProfile::EnglishUnitedStates
    }
}

/// The identifier of a profile other than `System`.
pub open spec fn fixed_identifier(p: LocaleProfile) -> Seq<char> {
    match p {
        LocaleProfile::System => seq!['e', 'n', '-', 'U', 'S'],
        LocaleProfile::C => seq!['C'],
        LocaleProfile::EnglishIndia => seq!['e', 'n', '-', 'I', 'N'],
        LocaleProfile::EnglishUnitedStates => seq!['e', 'n', '-', 'U', 'S'],
        LocaleProfile::GermanGermany => seq!['d', 'e', '-', 'D', 'E'],
        LocaleProfile::FrenchFrance => seq!['f', 'r', '-', 'F', 'R'],
    }
}

/// The number symbols of a locale: the decimal point, the thousands
/// separator, and the sizes of digit groups (as C's `lconv` gives them).
#[derive(Debug, Clone, Copy, PartialEq, Eq)]
pub struct LocaleSymbols {
    pub decimal_point: char,
    pub thousands_separator: &'static str,
    pub grouping: &'static [u8],
}

/// The abstract value of a locale's number symbols.
pub struct SpecSymbols {
    pub decimal_point: char,
    pub thousands_separator: Seq<char>,
    pub grouping: Seq<u8>,
}

impl View for LocaleSymbols {
    type V = SpecSymbols;

    open spec fn view(&self) -> SpecSymbols {
        SpecSymbols {
            decimal_point: self.decimal_point,
            thousands_separator: self.thousands_separator@,
            grouping: self.grouping@,
        }
    }
}

/// The number symbols for a normalized identifier.
pub open spec fn symbols_of(n: Seq<char>) -> SpecSymbols {
    if is_c_locale(n) {
        SpecSymbols { decimal_point: '.', thousands_separator: Seq::empty(), grouping: Seq::empty() }
    } else if is_en_in(n) {
        SpecSymbols {
            decimal_point: '.',
            thousands_separator: seq![','],
            grouping: seq![3u8, 2u8, 0u8],
        }
    } else if is_de(n) {
        SpecSymbols { decimal_point: ',', thousands_separator: seq!['.'], grouping: seq![3u8, 0u8] }
    } else if is_fr(n) {
        SpecSymbols {
            decimal_point: ',',
            thousands_separator: seq!['\u{202f}'],
            grouping: seq![3u8, 0u8],
        }
    } else {
        SpecSymbols { decimal_point: '.', thousands_separator: seq![','], grouping: seq![3u8, 0u8] }
    }
}

/// The characters that may separate digit groups in numbers of a locale:
/// for French the narrow and the ordinary no-break space and a plain space,
/// for Swiss German the apostrophes, else the thousands separator when it is
/// a comma or a full stop.
pub open spec fn grouping_candidates(n: Seq<char>) -> Seq<char> {
    if is_fr(n) {
        seq!['\u{202f}', '\u{a0}', ' ']
    } else if is_de_ch(n) {
        seq!['\'', '\u{2019}']
    } else {
        let t = symbols_of(n).thousands_separator;
        if t.len() > 0 && t[0] == ',' {
            seq![',']
        } else if t.len() > 0 && t[0] == '.' {
            seq!['.']
        } else {
            Seq::empty()
        }
    }
}

/// `sys_locale::get_locale`: the first locale that the operating system
/// reports for the user. It reads the environment, so nothing is stated of
/// its result.
#[verifier::external_body]
fn os_locale() -> (r: Option<String>) {
    sys_locale::get_locale()
}

/// The identifier that stands for a reported system locale: the report, or
/// `en-US` when there is none.
pub fn locale_identifier_or_default(reported: Option<String>) -> (r: String)
    ensures
        r@ == match reported {
            Some(s) => s@,
            None => seq!['e', 'n', '-', 'U', 'S'],
        },
{
    match reported {
        Some(s) => s,
        None => {
            let r = string_from_chars(&['e', 'n', '-', 'U', 'S']);
            r
        },
    }
}

/// The identifier of the system's locale, `en-US` when it reports none.
pub fn system_locale_identifier() -> String {
    locale_identifier_or_default(os_locale())
}

fn is_white_space_char(c: char) -> (r: bool)
    ensures
        r == is_white_space(c),
{
    ('\u{9}' <= c && c <= '\u{d}') || c == ' ' || c == '\u{85}' || c == '\u{a0}' || c
        == '\u{1680}' || ('\u{2000}' <= c && c <= '\u{200a}') || c == '\u{2028}' || c
        == '\u{2029}' || c == '\u{202f}' || c == '\u{205f}' || c == '\u{3000}'
}

/// A text without leading and trailing white space (see [`trimmed`]).
pub fn trimmed_chars(text: &str) -> (r: Vec<char>)
    ensures
        r@ == trimmed(text@),
{
    let s = chars_of(text);
    let mut a: usize = 0;
    while a < s.len() && is_white_space_char(s[a])
        invariant
            a <= s.len(),
            space_skip(s@, 0) == space_skip(s@, a as int),
        decreases s.len() - a,
    {
        a += 1;
    }
    let mut b: usize = s.len();
    while b > a && is_white_space_char(s[b - 1])
        invariant
            a <= b <= s.len(),
            space_trim_end(s@, a as int, s@.len() as int) == space_trim_end(s@, a as int, b as int),
        decreases b,
    {
        b -= 1;
    }
    let mut out: Vec<char> = Vec::new();
    let mut k = a;
    while k < b
        invariant
            a <= k <= b <= s.len(),
            out@ =~= s@.subrange(a as int, k as int),
        decreases b - k,
    {
        out.push(s[k]);
        k += 1;
    }
    out
}

/// A locale identifier as it is matched (see [`normalized_identifier`]).
pub fn normalize_identifier(identifier: &str) -> (r: Vec<char>)
    ensures
        r@ == normalized_identifier(identifier@),
{
    let s = chars_of(identifier);
    let mut a: usize = 0;
    while a < s.len() && is_white_space_char(s[a])
        invariant
            a <= s.len(),
            space_skip(s@, 0) == space_skip(s@, a as int),
        decreases s.len() - a,
    {
        a += 1;
    }
    let mut b: usize = s.len();
    while b > a && is_white_space_char(s[b - 1])
        invariant
            a <= b <= s.len(),
            space_trim_end(s@, a as int, s@.len() as int) == space_trim_end(s@, a as int, b as int),
        decreases b,
    {
        b -= 1;
    }
    let ghost t = s@.subrange(a as int, b as int);
    let mut out: Vec<char> = Vec::new();
    let mut k = a;
    while k < b && s[k] != '.'
        invariant
            a <= k <= b <= s.len(),
            t == s@.subrange(a as int, b as int),
            find_char(t, 0, '.') == find_char(t, k - a, '.'),
            out@ == t.subrange(0, k - a).map_values(|c: char| identifier_char(c)),
        decreases b - k,
    {
        let c = s[k];
        let mapped = to_ascii_lower(
            if c == '_' {
                '-'
            } else {
                c
            },
        );
        out.push(mapped);
        proof {
            assert(t.subrange(0, k + 1 - a) =~= t.subrange(0, k - a).push(c));
            assert(t.subrange(0, k + 1 - a).map_values(|c: char| identifier_char(c))
                =~= t.subrange(0, k - a).map_values(|c: char| identifier_char(c)).push(
                identifier_char(c),
            ));
        }
        k += 1;
    }
    out
}

/// `p` occurs in `s` at position `i`.
fn occurs_at(s: &Vec<char>, i: usize, p: &[char]) -> (r: bool)
    ensures
        r == (i + p@.len() <= s@.len() && s@.subrange(i as int, i + p@.len()) == p@),
{
    if i > s.len() || p.len() > s.len() - i {
        return false;
    }
    let mut k: usize = 0;
    while k < p.len()
        invariant
            i + p@.len() <= s@.len(),
            i + p.len() <= s.len(),
            k <= p.len(),
            forall|j: int| 0 <= j < k ==> s@[i + j] == p@[j],
        decreases p.len() - k,
    {
        if s[i + k] != p[k] {
            assert(s@.subrange(i as int, i + p@.len())[k as int] != p@[k as int]);
            return false;
        }
        k += 1;
    }
    assert(s@.subrange(i as int, i + p@.len()) =~= p@);
    true
}

fn starts_with_chars(s: &Vec<char>, p: &[char]) -> (r: bool)
    ensures
        r == has_prefix(s@, p@),
{
    occurs_at(s, 0, p)
}

fn contains_chars(s: &Vec<char>, p: &[char]) -> (r: bool)
    ensures
        r == has_infix(s@, p@),
{
    let mut i: usize = 0;
    while i < s.len() && p.len() <= s.len() - i
        invariant
            i <= s.len(),
            forall|j: int| 0 <= j < i ==> #[trigger] s@.subrange(j, j + p@.len()) != p@,
        decreases s.len() - i,
    {
        if occurs_at(s, i, p) {
            return true;
        }
        i += 1;
    }
    if p.len() == 0 {
        assert(s@.subrange(i as int, i + p@.len()) =~= p@);
        return true;
    }
    false
}

fn equals_chars(s: &Vec<char>, p: &[char]) -> (r: bool)
    ensures
        r == (s@ == p@),
{
    if s.len() != p.len() {
        return false;
    }
    let r = occurs_at(s, 0, p);
    assert(s@.subrange(0, p@.len() as int) =~= s@);
    r
}

pub fn c_locale(n: &Vec<char>) -> (r: bool)
    ensures
        r == is_c_locale(n@),
{
    let c = equals_chars(n, &['c']);
    let posix = equals_chars(n, &['p', 'o', 's', 'i', 'x']);
    assert(['c']@ =~= seq!['c']);
    assert(['p', 'o', 's', 'i', 'x']@ =~= seq!['p', 'o', 's', 'i', 'x']);
    c || posix
}

fn en_in(n: &Vec<char>) -> (r: bool)
    ensures
        r == is_en_in(n@),
{
    assert(['e', 'n', '-', 'i', 'n']@ =~= seq!['e', 'n', '-', 'i', 'n']);
    starts_with_chars(n, &['e', 'n', '-', 'i', 'n'])
}

fn de(n: &Vec<char>) -> (r: bool)
    ensures
        r == is_de(n@),
{
    assert(['d', 'e']@ =~= seq!['d', 'e']);
    starts_with_chars(n, &['d', 'e'])
}

fn fr(n: &Vec<char>) -> (r: bool)
    ensures
        r == is_fr(n@),
{
    assert(['f', 'r']@ =~= seq!['f', 'r']);
    starts_with_chars(n, &['f', 'r'])
}

fn de_ch(n: &Vec<char>) -> (r: bool)
    ensures
        r == is_de_ch(n@),
{
    assert(['d', 'e', '-', 'c', 'h']@ =~= seq!['d', 'e', '-', 'c', 'h']);
    starts_with_chars(n, &['d', 'e', '-', 'c', 'h'])
}

/// The profile that a normalized identifier names (see [`profile_of`]).
pub fn profile_for_normalized(n: &Vec<char>) -> (r: LocaleProfile)
    ensures
        r == profile_of(n@),
{
    if c_locale(n) {
        return LocaleProfile::C;
    }
    let india = ['e', 'n', 'g', 'l', 'i', 's', 'h', '-', 'i', 'n', 'd', 'i', 'a'];
    assert(india@ =~= seq!['e', 'n', 'g', 'l', 'i', 's', 'h', '-', 'i', 'n', 'd', 'i', 'a']);
    if en_in(n) || contains_chars(n, &india) {
        return LocaleProfile::EnglishIndia;
    }
    let germany = ['g', 'e', 'r', 'm', 'a', 'n', '-', 'g', 'e', 'r', 'm', 'a', 'n', 'y'];
    assert(germany@ =~= seq!['g', 'e', 'r', 'm', 'a', 'n', '-', 'g', 'e', 'r', 'm', 'a', 'n', 'y']);
    if de(n) || contains_chars(n, &germany) {
        return LocaleProfile::GermanGermany;
    }
    let france = ['f', 'r', 'e', 'n', 'c', 'h', '-', 'f', 'r', 'a', 'n', 'c', 'e'];
    assert(france@ =~= seq!['f', 'r', 'e', 'n', 'c', 'h', '-', 'f', 'r', 'a', 'n', 'c', 'e']);
    if fr(n) || contains_chars(n, &france) {
        return LocaleProfile::FrenchFrance;
    }
    LocaleProfile::EnglishUnitedStates
}

/// The number symbols for a normalized identifier (see [`symbols_of`]).
pub fn symbols_for_normalized(n: &Vec<char>) -> (r: LocaleSymbols)
    ensures
        r@ == symbols_of(n@),
{
    proof {
        reveal_strlit("");
        reveal_strlit(",");
        reveal_strlit(".");
        reveal_strlit("\u{202F}");
    }
    if c_locale(n) {
        let grouping: &'static [u8] = &[];
        assert(grouping@ =~= Seq::<u8>::empty());
        let r = LocaleSymbols { decimal_point: '.', thousands_separator: "", grouping };
        assert(r@.thousands_separator =~= Seq::<char>::empty());
        assert(r@.grouping =~= Seq::<u8>::empty());
        return r;
    }
    if en_in(n) {
        let grouping: &'static [u8] = &[3, 2, 0];
        assert(grouping@ =~= seq![3u8, 2u8, 0u8]);
        let r = LocaleSymbols { decimal_point: '.', thousands_separator: ",", grouping };
        assert(r@.thousands_separator =~= seq![',']);
        return r;
    }
    let western: &'static [u8] = &[3, 0];
    assert(western@ =~= seq![3u8, 0u8]);
    if de(n) {
        let r = LocaleSymbols { decimal_point: ',', thousands_separator: ".", grouping: western };
        assert(r@.thousands_separator =~= seq!['.']);
        return r;
    }
    if fr(n) {
        let r = LocaleSymbols {
            decimal_point: ',',
            thousands_separator: "\u{202F}",
            grouping: western,
        };
        assert(r@.thousands_separator =~= seq!['\u{202f}']);
        return r;
    }
    let r = LocaleSymbols { decimal_point: '.', thousands_separator: ",", grouping: western };
    assert(r@.thousands_separator =~= seq![',']);
    r
}

/// The grouping characters for a normalized identifier (see
/// [`grouping_candidates`]).
pub fn grouping_candidates_for(n: &Vec<char>) -> (r: Vec<char>)
    ensures
        r@ == grouping_candidates(n@),
{
    if fr(n) {
        let r = vec!['\u{202f}', '\u{a0}', ' '];
        assert(r@ =~= seq!['\u{202f}', '\u{a0}', ' ']);
        return r;
    }
    if de_ch(n) {
        let r = vec!['\'', '\u{2019}'];
        assert(r@ =~= seq!['\'', '\u{2019}']);
        return r;
    }
    let symbols = symbols_for_normalized(n);
    let t = chars_of(symbols.thousands_separator);
    if t.len() > 0 && t[0] == ',' {
        let r = vec![','];
        assert(r@ =~= seq![',']);
        r
    } else if t.len() > 0 && t[0] == '.' {
        let r = vec!['.'];
        assert(r@ =~= seq!['.']);
        r
    } else {
        Vec::new()
    }
}

impl LocaleProfile {
    /// The profile that a locale identifier names: `C`/`POSIX`, English
    /// (India), German, French, or English (United States) otherwise.
    /// Windows names such as `German_Germany.1252` are understood.
    pub fn from_identifier(identifier: &str) -> (r: Self)
        ensures
            r == profile_of(normalized_identifier(identifier@)),
    {
        let n = normalize_identifier(identifier);
        profile_for_normalized(&n)
    }

    /// The identifier of the profile; for `System`, the system's locale.
    pub fn identifier(self) -> (r: String)
        ensures
            self != LocaleProfile::System ==> r@ == fixed_identifier(self),
    {
        match self {
            LocaleProfile::System => system_locale_identifier(),
            LocaleProfile::C => string_from_chars(&['C']),
            LocaleProfile::EnglishIndia => string_from_chars(&['e', 'n', '-', 'I', 'N']),
            LocaleProfile::EnglishUnitedStates => string_from_chars(&['e', 'n', '-', 'U', 'S']),
            LocaleProfile::GermanGermany => string_from_chars(&['d', 'e', '-', 'D', 'E']),
            LocaleProfile::FrenchFrance => string_from_chars(&['f', 'r', '-', 'F', 'R']),
        }
    }

    /// The number symbols of the profile's locale.
    pub fn symbols(self) -> (r: LocaleSymbols)
        ensures
            self != LocaleProfile::System ==> r@ == symbols_of(
                normalized_identifier(fixed_identifier(self)),
            ),
            exists|id: Seq<char>| r@ == #[trigger] symbols_of(normalized_identifier(id)),
    {
        let id = self.identifier();
        let n = normalize_identifier(id.as_str());
        let r = symbols_for_normalized(&n);
        assert(r@ == symbols_of(normalized_identifier(id@)));
        r
    }

    /// Whether the profile's locale collates by code point (C or POSIX).
    pub fn uses_dumb_collation(self) -> (r: bool)
        ensures
            self != LocaleProfile::System ==> r == is_c_locale(
                normalized_identifier(fixed_identifier(self)),
            ),
            exists|id: Seq<char>| r == #[trigger] is_c_locale(normalized_identifier(id)),
    {
        let id = self.identifier();
        let n = normalize_identifier(id.as_str());
        let r = c_locale(&n);
        assert(r == is_c_locale(normalized_identifier(id@)));
        r
    }
}


/// The start of the run of ASCII digits that ends at `j`.
pub open spec fn digit_run_start(s: Seq<char>, j: int) -> int
    decreases j,
{
    if 0 < j <= s.len() && is_ascii_digit(s[j - 1]) {
        digit_run_start(s, j - 1)
    } else {
        j
    }
}

/// A decimal point sits `fd + 1` places before the separator at `sep`, with
/// only ASCII digits between them.
pub open spec fn decimal_guard_at(s: Seq<char>, sep: int, dp: char, fd: int) -> bool {
    sep > fd && sep <= s.len() && s[sep - fd - 1] == dp && all_ascii_digits(s.subrange(sep - fd, sep))
}

/// The separator at `sep` follows a fraction of one to three digits, so it
/// is not a thousands separator.
pub open spec fn decimal_guard(s: Seq<char>, sep: int, dp: char) -> bool {
    decimal_guard_at(s, sep, dp, 1) || decimal_guard_at(s, sep, dp, 2) || decimal_guard_at(
        s,
        sep,
        dp,
        3,
    )
}

/// A grouping character at `sep` separates thousands: one to three digits
/// before it, exactly three after it, and (in float mode) no fraction just
/// before it.
pub open spec fn removable_separator(s: Seq<char>, sep: int, dp: char, float: bool) -> bool {
    let before = sep - digit_run_start(s, sep);
    &&& 1 <= before <= 3
    &&& sep + 3 < s.len()
    &&& is_ascii_digit(s[sep + 1]) && is_ascii_digit(s[sep + 2]) && is_ascii_digit(s[sep + 3])
    &&& !(sep + 4 < s.len() && is_ascii_digit(s[sep + 4]))
    &&& !(float && decimal_guard(s, sep, dp))
}

/// The characters of `s[..k]` without the thousands separators.
pub open spec fn strip_grouping(s: Seq<char>, k: int, candidates: Seq<char>, dp: char, float: bool) -> Seq<
    char,
>
    decreases k,
{
    if k <= 0 || k > s.len() {
        Seq::empty()
    } else {
        let rest = strip_grouping(s, k - 1, candidates, dp, float);
        if candidates.contains(s[k - 1]) && removable_separator(s, k - 1, dp, float) {
            rest
        } else {
            rest.push(s[k - 1])
        }
    }
}

/// A decimal point of the locale next to an ASCII digit.
pub open spec fn numeric_point(s: Seq<char>, i: int, dp: char) -> bool {
    s[i] == dp && ((i > 0 && is_ascii_digit(s[i - 1])) || (i + 1 < s.len() && is_ascii_digit(
        s[i + 1],
    )))
}

/// `s[..k]` with every decimal point of the locale that touches a digit
/// written as `.`.
pub open spec fn point_to_dot(s: Seq<char>, k: int, dp: char) -> Seq<char>
    decreases k,
{
    if k <= 0 || k > s.len() {
        Seq::empty()
    } else {
        point_to_dot(s, k - 1, dp).push(
            if numeric_point(s, k - 1, dp) {
                '.'
            } else {
                s[k - 1]
            },
        )
    }
}

/// Numbers written in a locale's format rewritten in the plain format: digit
/// group separators removed, and in float mode the decimal point as `.`.
pub open spec fn localized_numbers(s: Seq<char>, n: Seq<char>, float: bool) -> Seq<char> {
    let dp = symbols_of(n).decimal_point;
    let w = strip_grouping(s, s.len() as int, grouping_candidates(n), dp, float);
    if !float || dp == '.' {
        w
    } else {
        point_to_dot(w, w.len() as int, dp)
    }
}

fn ascii_digit_at(s: &Vec<char>, i: usize) -> (r: bool)
    ensures
        r == (i < s@.len() && is_ascii_digit(s@[i as int])),
{
    i < s.len() && '0' <= s[i] && s[i] <= '9'
}

fn decimal_guard_at_exec(s: &Vec<char>, sep: usize, dp: char, fd: usize) -> (r: bool)
    requires
        sep <= s.len(),
        1 <= fd <= 3,
    ensures
        r == decimal_guard_at(s@, sep as int, dp, fd as int),
{
    if sep <= fd {
        return false;
    }
    let d = sep - fd - 1;
    if s[d] != dp {
        return false;
    }
    let mut k = d + 1;
    while k < sep
        invariant
            d + 1 <= k <= sep <= s.len(),
            d == sep - fd - 1,
            1 <= fd <= 3,
            forall|j: int| d + 1 <= j < k ==> is_ascii_digit(#[trigger] s@[j]),
        decreases sep - k,
    {
        if !ascii_digit_at(s, k) {
            assert(!is_ascii_digit(s@.subrange(sep - fd, sep as int)[k - (sep - fd)]));
            return false;
        }
        k += 1;
    }
    assert forall|q: int| 0 <= q < fd implies is_ascii_digit(
        #[trigger] s@.subrange(sep - fd, sep as int)[q],
    ) by {
        assert(s@.subrange(sep - fd, sep as int)[q] == s@[sep - fd + q]);
    }
    true
}

/// Whether the separator at `sep` follows a fraction (see [`decimal_guard`]).
pub fn decimal_guard_blocks_removal(chars: &Vec<char>, separator_index: usize, decimal_point: char) -> (r: bool)
    requires
        separator_index <= chars.len(),
    ensures
        r == decimal_guard(chars@, separator_index as int, decimal_point),
{
    decimal_guard_at_exec(chars, separator_index, decimal_point, 1) || decimal_guard_at_exec(
        chars,
        separator_index,
        decimal_point,
        2,
    ) || decimal_guard_at_exec(chars, separator_index, decimal_point, 3)
}

/// Whether the grouping character at `separator_index` is a thousands
/// separator to remove (see [`removable_separator`]).
pub fn should_remove_grouping_separator(
    chars: &Vec<char>,
    separator_index: usize,
    decimal_point: char,
    float_mode: bool,
) -> (r: bool)
    requires
        separator_index < chars.len(),
    ensures
        r == removable_separator(chars@, separator_index as int, decimal_point, float_mode),
{
    let sep = separator_index;
    let mut index = sep;
    let mut digits_before: usize = 0;
    while index > 0 && ascii_digit_at(chars, index - 1)
        invariant
            index <= sep < chars.len(),
            digits_before == sep - index,
            digit_run_start(chars@, sep as int) == digit_run_start(chars@, index as int),
        decreases index,
    {
        digits_before += 1;
        index -= 1;
    }
    if !(1 <= digits_before && digits_before <= 3) {
        return false;
    }
    if chars.len() - sep <= 3 {
        return false;
    }
    if !(ascii_digit_at(chars, sep + 1) && ascii_digit_at(chars, sep + 2) && ascii_digit_at(
        chars,
        sep + 3,
    )) {
        return false;
    }
    if sep + 4 < chars.len() && ascii_digit_at(chars, sep + 4) {
        return false;
    }
    if float_mode && decimal_guard_blocks_removal(chars, sep, decimal_point) {
        return false;
    }
    true
}

fn contains_char(s: &Vec<char>, c: char) -> (r: bool)
    ensures
        r == s@.contains(c),
{
    let mut i: usize = 0;
    while i < s.len()
        invariant
            i <= s.len(),
            forall|j: int| 0 <= j < i ==> s@[j] != c,
        decreases s.len() - i,
    {
        if s[i] == c {
            return true;
        }
        i += 1;
    }
    false
}

/// Numbers in the format of the locale that the normalized identifier `n`
/// names rewritten in the plain format (see [`localized_numbers`]).
pub fn normalize_localized_numbers_for(input: &str, n: &Vec<char>, float_mode: bool) -> (r: String)
    ensures
        r@ == localized_numbers(input@, n@, float_mode),
{
    let symbols = symbols_for_normalized(n);
    let dp = symbols.decimal_point;
    let grouping = grouping_candidates_for(n);
    let chars = chars_of(input);
    let mut kept: Vec<char> = Vec::new();
    let mut i: usize = 0;
    while i < chars.len()
        invariant
            i <= chars.len(),
            kept@ == strip_grouping(chars@, i as int, grouping@, dp, float_mode),
        decreases chars.len() - i,
    {
        let c = chars[i];
        if !(contains_char(&grouping, c) && should_remove_grouping_separator(
            &chars,
            i,
            dp,
            float_mode,
        )) {
            kept.push(c);
        }
        i += 1;
    }
    if !float_mode || dp == '.' {
        return string_from_chars(kept.as_slice());
    }
    let mut out: Vec<char> = Vec::new();
    let mut j: usize = 0;
    while j < kept.len()
        invariant
            j <= kept.len(),
            out@ == point_to_dot(kept@, j as int, dp),
        decreases kept.len() - j,
    {
        let c = kept[j];
        let point = c == dp && ((j > 0 && ascii_digit_at(&kept, j - 1)) || ascii_digit_at(
            &kept,
            j + 1,
        ));
        out.push(
            if point {
                '.'
            } else {
                c
            },
        );
        j += 1;
    }
    string_from_chars(out.as_slice())
}

/// Numbers in the format of the profile's locale rewritten in the plain
/// format: digit group separators removed and, in float mode, the decimal
/// point written as `.`.
pub fn normalize_localized_numbers(input: &str, profile: LocaleProfile, float_mode: bool) -> (r: String)
    ensures
        profile != LocaleProfile::System ==> r@ == localized_numbers(
            input@,
            normalized_identifier(fixed_identifier(profile)),
            float_mode,
        ),
        exists|id: Seq<char>|
            r@ == #[trigger] localized_numbers(input@, normalized_identifier(id), float_mode),
{
    let id = profile.identifier();
    let n = normalize_identifier(id.as_str());
    let r = normalize_localized_numbers_for(input, &n, float_mode);
    assert(r@ == localized_numbers(input@, normalized_identifier(id@), float_mode));
    r
}

/// Whether `icu_locale` parses the identifier as a locale.
pub uninterp spec fn spec_locale_parses(identifier: Seq<char>) -> bool;

/// The ICU collation key of a string with a collator for a locale that
/// puts lowercase first, or `None` where `icu_collator` loads no such
/// collator from its compiled data.
pub uninterp spec fn spec_icu_tailored_key(identifier: Seq<char>, s: Seq<char>) -> Option<Seq<u8>>;

/// The ICU collation key of a string with the root collation.
pub uninterp spec fn spec_icu_root_key(s: Seq<char>) -> Seq<u8>;

/// The ICU collation key of a string with a collator for a locale that
/// orders digit runs by numeric value, or `None` where `icu_collator` loads
/// no such collator from its compiled data.
pub uninterp spec fn spec_icu_tailored_numeric_key(identifier: Seq<char>, s: Seq<char>) -> Option<Seq<u8>>;

/// The ICU collation key of a string with the root collation ordering digit
/// runs by numeric value.
pub uninterp spec fn spec_icu_root_numeric_key(s: Seq<char>) -> Seq<u8>;

/// `str::parse::<icu_locale::Locale>`: whether the identifier is a locale
/// that `icu_locale` reads. `en-US` is one; the rest is named.
#[verifier::external_body]
fn locale_parses(identifier: &str) -> (r: bool)
    ensures
        r == spec_locale_parses(identifier@),
        identifier@ == seq!['e', 'n', '-', 'U', 'S'] ==> r,
{
    identifier.parse::<icu_locale::Locale>().is_ok()
}

/// `icu_collator::Collator::try_new` for the parsed locale with lowercase
/// first, then `write_sort_key_to`; `None` where the collator does not load.
/// The key is named, not described.
#[verifier::external_body]
fn icu_tailored_key(identifier: &str, input: &str) -> (r: Option<Vec<u8>>)
    requires
        spec_locale_parses(identifier@),
    ensures
        match r {
            Some(k) => spec_icu_tailored_key(identifier@, input@) == Some(k@),
            None => spec_icu_tailored_key(identifier@, input@) is None,
        },
{
    let locale: icu_locale::Locale = identifier.parse().unwrap();
    let mut prefs: icu_collator::CollatorPreferences = locale.into();
    prefs.case_first = Some(icu_collator::preferences::CollationCaseFirst::Lower);
    let collator = icu_collator::Collator::try_new(prefs, Default::default()).ok()?;
    let mut key = Vec::new();
    let _ = collator.write_sort_key_to(input, &mut key);
    Some(key)
}

/// `icu_collator::Collator::try_new` with default preferences (the root
/// collation, which the compiled data always holds), then
/// `write_sort_key_to`. The key is named, not described.
#[verifier::external_body]
fn icu_root_key(input: &str) -> (r: Vec<u8>)
    ensures
        r@ == spec_icu_root_key(input@),
{
    let collator = icu_collator::Collator::try_new(Default::default(), Default::default()).unwrap();
    let mut key = Vec::new();
    let _ = collator.write_sort_key_to(input, &mut key);
    key
}

/// `icu_collator::Collator::try_new` for the parsed locale with numeric
/// ordering, then `write_sort_key_to`; `None` where the collator does not
/// load. The key is named, not described.
#[verifier::external_body]
fn icu_tailored_numeric_key(identifier: &str, input: &str) -> (r: Option<Vec<u8>>)
    requires
        spec_locale_parses(identifier@),
    ensures
        match r {
            Some(k) => spec_icu_tailored_numeric_key(identifier@, input@) == Some(k@),
            None => spec_icu_tailored_numeric_key(identifier@, input@) is None,
        },
{
    let locale: icu_locale::Locale = identifier.parse().unwrap();
    let mut prefs: icu_collator::CollatorPreferences = locale.into();
    prefs.numeric_ordering = Some(icu_collator::preferences::CollationNumericOrdering::True);
    let collator = icu_collator::Collator::try_new(prefs, Default::default()).ok()?;
    let mut key = Vec::new();
    let _ = collator.write_sort_key_to(input, &mut key);
    Some(key)
}

/// `icu_collator::Collator::try_new` with the root collation and numeric
/// ordering (which the compiled data always holds), then
/// `write_sort_key_to`. The key is named, not described.
#[verifier::external_body]
fn icu_root_numeric_key(input: &str) -> (r: Vec<u8>)
    ensures
        r@ == spec_icu_root_numeric_key(input@),
{
    let mut prefs = icu_collator::CollatorPreferences::default();
    prefs.numeric_ordering = Some(icu_collator::preferences::CollationNumericOrdering::True);
    let collator = icu_collator::Collator::try_new(prefs, Default::default()).unwrap();
    let mut key = Vec::new();
    let _ = collator.write_sort_key_to(input, &mut key);
    key
}

/// The locale that collation uses for an identifier: the identifier where
/// it parses, `en-US` otherwise.
pub open spec fn collation_locale(identifier: Seq<char>) -> Seq<char> {
    if spec_locale_parses(identifier) {
        identifier
    } else {
        seq!['e', 'n', '-', 'U', 'S']
    }
}

/// The ICU collation key of a string for a locale identifier, lowercase
/// first: the collator of its collation locale, or the root collation where
/// that does not load.
pub open spec fn icu_key_of(identifier: Seq<char>, s: Seq<char>) -> Seq<u8> {
    match spec_icu_tailored_key(collation_locale(identifier), s) {
        Some(k) => k,
        None => spec_icu_root_key(s),
    }
}

/// The ICU collation key of a string for a locale identifier with digit
/// runs ordered by value: the collator of its collation locale, or the root
/// collation with numeric ordering where that does not load.
pub open spec fn icu_numeric_key_of(identifier: Seq<char>, s: Seq<char>) -> Seq<u8> {
    match spec_icu_tailored_numeric_key(collation_locale(identifier), s) {
        Some(k) => k,
        None => spec_icu_root_numeric_key(s),
    }
}

fn en_us() -> (r: String)
    ensures
        r@ == seq!['e', 'n', '-', 'U', 'S'],
{
    string_from_chars(&['e', 'n', '-', 'U', 'S'])
}

/// The ICU collation key of a string for a locale identifier (see
/// [`icu_key_of`]).
fn icu_sort_key(identifier: &str, input: &str) -> (r: Vec<u8>)
    ensures
        r@ == icu_key_of(identifier@, input@),
{
    let tailored = if locale_parses(identifier) {
        icu_tailored_key(identifier, input)
    } else {
        let fallback = en_us();
        let parses = locale_parses(fallback.as_str());
        assert(parses);
        assert(fallback@ == collation_locale(identifier@));
        icu_tailored_key(fallback.as_str(), input)
    };
    match tailored {
        Some(k) => k,
        None => icu_root_key(input),
    }
}

/// The ICU collation key of a string for a locale identifier with digit
/// runs ordered by value (see [`icu_numeric_key_of`]).
pub(crate) fn icu_numeric_sort_key(identifier: &str, input: &str) -> (r: Vec<u8>)
    ensures
        r@ == icu_numeric_key_of(identifier@, input@),
{
    let tailored = if locale_parses(identifier) {
        icu_tailored_numeric_key(identifier, input)
    } else {
        let fallback = en_us();
        let parses = locale_parses(fallback.as_str());
        assert(parses);
        assert(fallback@ == collation_locale(identifier@));
        icu_tailored_numeric_key(fallback.as_str(), input)
    };
    match tailored {
        Some(k) => k,
        None => icu_root_numeric_key(input),
    }
}

/// The separator that puts numbers after text: twenty `U+10FFFF`.
pub open spec fn is_max_separator(s: Seq<char>) -> bool {
    s.len() == 20 && forall|i: int| 0 <= i < 20 ==> #[trigger] s[i] == '\u{10FFFF}'
}

/// A key that sorts after every collation key.
pub open spec fn max_key() -> Seq<u8> {
    Seq::new(64, |i: int| 255u8)
}

/// The collation key of a text for a locale identifier: the greatest key for
/// the number-after separator, the UTF-8 bytes (code point order) for C and
/// POSIX, the ICU key otherwise.
pub open spec fn locale_key_for(s: Seq<char>, identifier: Seq<char>) -> Seq<u8> {
    if is_max_separator(s) {
        max_key()
    } else if is_c_locale(normalized_identifier(identifier)) {
        encode_utf8(s)
    } else {
        icu_key_of(identifier, s)
    }
}

fn max_separator(s: &str) -> (r: bool)
    ensures
        r == is_max_separator(s@),
{
    let chars = chars_of(s);
    if chars.len() != 20 {
        return false;
    }
    let mut i: usize = 0;
    while i < 20
        invariant
            chars@ == s@,
            chars@.len() == 20,
            i <= 20,
            forall|j: int| 0 <= j < i ==> #[trigger] chars@[j] == '\u{10FFFF}',
        decreases 20 - i,
    {
        if chars[i] != '\u{10FFFF}' {
            return false;
        }
        i += 1;
    }
    true
}

/// The collation key of a text for a locale identifier (see
/// [`locale_key_for`]).
pub fn locale_sort_key_for(input: &str, identifier: &str) -> (r: Vec<u8>)
    ensures
        r@ == locale_key_for(input@, identifier@),
{
    if max_separator(input) {
        let mut key: Vec<u8> = Vec::new();
        let mut i: usize = 0;
        while i < 64
            invariant
                i <= 64,
                key@ =~= Seq::new(i as nat, |k: int| 255u8),
            decreases 64 - i,
        {
            key.push(255u8);
            i += 1;
        }
        return key;
    }
    let n = normalize_identifier(identifier);
    if c_locale(&n) {
        return vstd::slice::slice_to_vec(input.as_bytes());
    }
    icu_sort_key(identifier, input)
}

/// The collation key of a text in the profile's locale, for comparing texts
/// as that locale sorts them.
pub fn locale_sort_key(input: &str, profile: LocaleProfile) -> (r: Vec<u8>)
    ensures
        profile != LocaleProfile::System ==> r@ == locale_key_for(input@, fixed_identifier(profile)),
        exists|id: Seq<char>| r@ == #[trigger] locale_key_for(input@, id),
{
    let id = profile.identifier();
    let r = locale_sort_key_for(input, id.as_str());
    assert(r@ == locale_key_for(input@, id@));
    r
}

/// The identifier whose numeric collation a profile uses: `en-US` for C.
pub open spec fn numeric_collation_identifier(p: LocaleProfile) -> Seq<char> {
    if p == LocaleProfile::C {
        seq!['e', 'n', '-', 'U', 'S']
    } else {
        fixed_identifier(p)
    }
}

/// The ICU collation key of a text with digit runs ordered by value.
pub fn locale_numeric_sort_key(input: &str, profile: LocaleProfile) -> (r: Vec<u8>)
    ensures
        profile != LocaleProfile::System ==> r@ == icu_numeric_key_of(
            numeric_collation_identifier(profile),
            input@,
        ),
        exists|id: Seq<char>| r@ == #[trigger] icu_numeric_key_of(id, input@),
{
    let id = if let LocaleProfile::C = profile {
        string_from_chars(&['e', 'n', '-', 'U', 'S'])
    } else {
        profile.identifier()
    };
    let r = icu_numeric_sort_key(id.as_str(), input);
    assert(r@ == icu_numeric_key_of(id@, input@));
    r
}

proof fn lemma_plain_identifier(s: Seq<char>)
    requires
        s.len() > 0,
        forall|i: int| 0 <= i < s.len() ==> !is_white_space(#[trigger] s[i]) && s[i] != '.',
    ensures
        normalized_identifier(s) == s.map_values(|c: char| identifier_char(c)),
{
    assert(space_skip(s, 0) == 0);
    assert(space_trim_end(s, 0, s.len() as int) == s.len());
    assert(trimmed(s) =~= s);
    lemma_no_dot(s, 0);
    assert(s.subrange(0, s.len() as int) =~= s);
}

proof fn lemma_no_dot(s: Seq<char>, i: int)
    requires
        0 <= i <= s.len(),
        forall|k: int| 0 <= k < s.len() ==> #[trigger] s[k] != '.',
    ensures
        find_char(s, i, '.') == s.len(),
    decreases s.len() - i,
{
    if i < s.len() {
        lemma_no_dot(s, i + 1);
    }
}

/// The identifier of a profile names that profile again.
pub proof fn law_identifier_names_profile(p: LocaleProfile)
    requires
        p != LocaleProfile::System,
    ensures
        profile_of(normalized_identifier(fixed_identifier(p))) == p,
{
    let s = fixed_identifier(p);
    lemma_plain_identifier(s);
    let n = s.map_values(|c: char| identifier_char(c));
    match p {
        LocaleProfile::C => {
            assert(n =~= seq!['c']);
        },
        LocaleProfile::EnglishIndia => {
            assert(n =~= seq!['e', 'n', '-', 'i', 'n']);
            assert(n.subrange(0, 5) =~= seq!['e', 'n', '-', 'i', 'n']);
        },
        LocaleProfile::EnglishUnitedStates => {
            assert(n =~= seq!['e', 'n', '-', 'u', 's']);
            assert(n.subrange(0, 2) != seq!['d', 'e']) by {
                assert(n.subrange(0, 2)[0] != 'd');
            }
            assert(n.subrange(0, 2) != seq!['f', 'r']) by {
                assert(n.subrange(0, 2)[0] != 'f');
            }
            assert(n.subrange(0, 5) != seq!['e', 'n', '-', 'i', 'n']) by {
                assert(n.subrange(0, 5)[3] != 'i');
            }
            assert(n != seq!['p', 'o', 's', 'i', 'x']) by {
                assert(n[0] != 'p');
            }
        },
        LocaleProfile::GermanGermany => {
            assert(n =~= seq!['d', 'e', '-', 'd', 'e']);
            assert(n.subrange(0, 2) =~= seq!['d', 'e']);
            assert(n.subrange(0, 5) != seq!['e', 'n', '-', 'i', 'n']) by {
                assert(n.subrange(0, 5)[0] != 'e');
            }
            assert(n != seq!['p', 'o', 's', 'i', 'x']) by {
                assert(n[0] != 'p');
            }
        },
        LocaleProfile::FrenchFrance => {
            assert(n =~= seq!['f', 'r', '-', 'f', 'r']);
            assert(n.subrange(0, 2) =~= seq!['f', 'r']);
            assert(n.subrange(0, 2) != seq!['d', 'e']) by {
                assert(n.subrange(0, 2)[0] != 'd');
            }
            assert(n.subrange(0, 5) != seq!['e', 'n', '-', 'i', 'n']) by {
                assert(n.subrange(0, 5)[0] != 'e');
            }
            assert(n != seq!['p', 'o', 's', 'i', 'x']) by {
                assert(n[0] != 'p');
            }
        },
        LocaleProfile::System => {},
    }
}

proof fn lemma_strip_nothing(s: Seq<char>, k: int, candidates: Seq<char>, dp: char, float: bool)
    requires
        0 <= k <= s.len(),
        forall|i: int| 0 <= i < s.len() ==> !candidates.contains(#[trigger] s[i]),
    ensures
        strip_grouping(s, k, candidates, dp, float) == s.take(k),
    decreases k,
{
    if k > 0 {
        lemma_strip_nothing(s, k - 1, candidates, dp, float);
        assert(s.take(k) =~= s.take(k - 1).push(s[k - 1]));
    } else {
        assert(s.take(0) =~= Seq::<char>::empty());
    }
}

/// In a locale whose decimal point is `.`, text without any of its digit
/// group separators is left as it is.
pub proof fn law_plain_numbers_unchanged(s: Seq<char>, n: Seq<char>, float: bool)
    requires
        symbols_of(n).decimal_point == '.',
        forall|i: int| 0 <= i < s.len() ==> !grouping_candidates(n).contains(#[trigger] s[i]),
    ensures
        localized_numbers(s, n, float) == s,
{
    lemma_strip_nothing(s, s.len() as int, grouping_candidates(n), '.', float);
    assert(s.take(s.len() as int) =~= s);
}

} // verus!
