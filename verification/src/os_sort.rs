//! Sorting as a file browser does: Windows Explorer's order (emulated) or a
//! locale's numeric collation of path components (Unix).
use vstd::prelude::*;

use crate::api::{arranged_by, order_by_index};
use crate::chars::{chars_of, string_from_chars};
use crate::locale::{
    LocaleProfile, fixed_identifier, locale_identifier_or_default, locale_key_for,
    locale_sort_key_for, numeric_collation_identifier, icu_numeric_key_of,
};
use crate::number::{compare_char_slices, is_ascii_digit, zeros_end};
use crate::order::{
    by_order, byte_order, char_order, int_order, lemma_by_order, lemma_byte_order,
    lemma_char_order, lemma_int_desc_order, lemma_int_order, lemma_lex_order, lemma_lex_step,
    lemma_same_order, lemma_suffix_zero, lemma_then_order, lex_compare, lex_order, int_desc_order,
    sign, suffix_from, then_order, total_preorder,
};
use crate::path::{is_path_separator, path_component_chars, path_components_of, segments};
use crate::key::compare_byte_slices;
use crate::sort::{
    NaturalText, PositionOrder, indices_view, is_sorted_permutation, sorted_positions, texts_of,
};
use crate::text::{case_fold_chars, spec_case_fold};

verus! {

/// Which file browser's order to follow.
#[derive(Debug, Clone, Copy, PartialEq, Eq, Structural, PartialOrd, Ord)]
pub enum OsSortProfile {
    /// The platform's own (Unix inside this library; see
    /// [`OsSortProfile::resolve_with`]).
    System,
    Windows,
    Unix,
}

impl Default for OsSortProfile {
    fn default() -> (r: Self)
        ensures
            r == OsSortProfile::System,
    {
        OsSortProfile::System
    }
}

/// Options of file-browser sorting.
#[derive(Debug, Clone, Copy, PartialEq, Eq, Structural)]
pub struct OsSortOptions {
    pub reverse: bool,
    pub presort: bool,
    pub profile: OsSortProfile,
    pub locale_profile: LocaleProfile,
}

/// The options every sort starts from: not reversed, no presort, system
/// profile and locale.
pub open spec fn default_os_options() -> OsSortOptions {
    OsSortOptions {
        reverse: false,
        presort: false,
        profile: OsSortProfile::System,
        locale_profile: LocaleProfile::System,
    }
}

impl Default for OsSortOptions {
    fn default() -> (r: Self)
        ensures
            r == default_os_options(),
    {
        Self::new()
    }
}

impl OsSortOptions {
    pub fn new() -> (r: Self)
        ensures
            r == default_os_options(),
    {
        OsSortOptions {
            reverse: false,
            presort: false,
            profile: OsSortProfile::System,
            locale_profile: LocaleProfile::System,
        }
    }

    pub fn reverse(self, enabled: bool) -> (r: Self)
        ensures
            r == (OsSortOptions { reverse: enabled, ..self }),
    {
        OsSortOptions { reverse: enabled, ..self }
    }

    pub fn presort(self, enabled: bool) -> (r: Self)
        ensures
            r == (OsSortOptions { presort: enabled, ..self }),
    {
        OsSortOptions { presort: enabled, ..self }
    }

    pub fn profile(self, profile: OsSortProfile) -> (r: Self)
        ensures
            r == (OsSortOptions { profile, ..self }),
    {
        OsSortOptions { profile, ..self }
    }

    pub fn locale_profile(self, profile: LocaleProfile) -> (r: Self)
        ensures
            r == (OsSortOptions { locale_profile: profile, ..self }),
    {
        OsSortOptions { locale_profile: profile, ..self }
    }
}

/// The profile that is followed: the system profile stands for the one the
/// caller detected.
pub open spec fn resolved_profile(p: OsSortProfile, system: OsSortProfile) -> OsSortProfile {
    if p == OsSortProfile::System {
        if system == OsSortProfile::Windows {
            OsSortProfile::Windows
        } else {
            OsSortProfile::Unix
        }
    } else {
        p
    }
}

/// `std::path::is_separator`: whether the platform this runs on separates
/// path components with `c`. Its documentation shows `/` separating on
/// every platform; the rest depends on the platform and is not stated.
#[verifier::external_body]
fn platform_separates(c: char) -> (r: bool)
    ensures
        c == '/' ==> r,
{
    std::path::is_separator(c)
}

/// The profile that the host follows for the system profile: Windows where
/// `\` separates paths, Unix elsewhere. (Linux under WSL is told apart only
/// by its environment and files, which callers that read them pass on with
/// [`OsSortProfile::resolve_with`].)
pub fn host_os_profile() -> (r: OsSortProfile)
    ensures
        r != OsSortProfile::System,
{
    if platform_separates('\\') {
        OsSortProfile::Windows
    } else {
        OsSortProfile::Unix
    }
}

impl OsSortProfile {
    /// The profile that is followed, with `system` standing for the system
    /// profile (Unix unless it is Windows).
    pub fn resolve_with(self, system: OsSortProfile) -> (r: Self)
        ensures
            r == resolved_profile(self, system),
    {
        match self {
            OsSortProfile::System => match system {
                OsSortProfile::Windows => OsSortProfile::Windows,
                _ => OsSortProfile::Unix,
            },
            profile => profile,
        }
    }
}

/// A character that Windows Explorer treats as punctuation of its own rank.
pub open spec fn is_windows_special(c: char) -> bool {
    c == ' ' || c == '\t' || c == '.' || c == '\'' || c == '-' || c == '!' || c == '#' || c == '$'
        || c == '%' || c == '&' || c == '(' || c == ')' || c == ',' || c == ';' || c == '@' || c
        == '[' || c == ']' || c == '^' || c == '_' || c == '`' || c == '{' || c == '}' || c == '~'
        || c == '\u{b4}' || c == '\u{20ac}' || c == '+' || c == '=' || c == '\u{a7}' || c
        == '\u{b0}' || c == '\u{b5}'
}

/// The rank of a punctuation character in Explorer's order; other
/// characters rank after all of them.
pub open spec fn punctuation_rank(c: char) -> int {
    if c == ' ' || c == '\t' {
        0
    } else if c == '.' {
        1
    } else if c == '\'' {
        2
    } else if c == '-' {
        3
    } else if c == '!' {
        4
    } else if c == '#' {
        5
    } else if c == '$' {
        6
    } else if c == '%' {
        7
    } else if c == '&' {
        8
    } else if c == '(' {
        9
    } else if c == ')' {
        10
    } else if c == ',' {
        11
    } else if c == ';' {
        12
    } else if c == '@' {
        13
    } else if c == '[' {
        14
    } else if c == ']' {
        15
    } else if c == '^' {
        16
    } else if c == '_' {
        17
    } else if c == '`' {
        18
    } else if c == '{' {
        19
    } else if c == '}' {
        20
    } else if c == '~' {
        21
    } else if c == '\u{b4}' {
        22
    } else if c == '\u{20ac}' {
        23
    } else if c == '+' {
        24
    } else if c == '=' {
        25
    } else if c == '\u{a7}' {
        26
    } else if c == '\u{b0}' {
        27
    } else if c == '\u{b5}' {
        28
    } else {
        100
    }
}

/// The order of a punctuation character: its rank, then its code point.
pub open spec fn punctuation_key(c: char) -> int {
    punctuation_rank(c) * 2097152 + c as int
}

/// `char::is_alphabetic` (the Unicode `Alphabetic` property).
pub uninterp spec fn spec_is_alphabetic(c: char) -> bool;

/// `char::is_alphabetic` of std.
#[verifier::external_body]
fn is_alphabetic(c: char) -> (r: bool)
    ensures
        r == spec_is_alphabetic(c),
{
    c.is_alphabetic()
}

/// A token of a name in Explorer's reading.
pub enum SpecWinToken {
    Punct(char),
    Number(Seq<char>),
    Text(Seq<char>),
}

/// The end of the run of ASCII digits at `i`.
pub open spec fn ascii_digits_end(s: Seq<char>, i: int) -> int
    decreases s.len() - i,
{
    if 0 <= i < s.len() && is_ascii_digit(s[i]) {
        ascii_digits_end(s, i + 1)
    } else {
        i
    }
}

/// A character that continues a word: alphabetic, not a digit, not
/// punctuation.
pub open spec fn continues_word(c: char) -> bool {
    spec_is_alphabetic(c) && !is_ascii_digit(c) && !is_windows_special(c)
}

/// The end of the run of word characters at `i`.
pub open spec fn word_end(s: Seq<char>, i: int) -> int
    decreases s.len() - i,
{
    if 0 <= i < s.len() && continues_word(s[i]) {
        word_end(s, i + 1)
    } else {
        i
    }
}

/// The token at `i` and where the next one starts: punctuation one
/// character each, runs of ASCII digits, and words (case folded).
pub open spec fn win_step(s: Seq<char>, i: int) -> (SpecWinToken, int) {
    let c = s[i];
    if is_windows_special(c) {
        (SpecWinToken::Punct(c), i + 1)
    } else if is_ascii_digit(c) {
        let e = ascii_digits_end(s, i);
        (SpecWinToken::Number(s.subrange(i, e)), e)
    } else if spec_is_alphabetic(c) {
        let e = word_end(s, i + 1);
        (SpecWinToken::Text(spec_case_fold(s.subrange(i, e))), e)
    } else {
        (SpecWinToken::Punct(c), i + 1)
    }
}

/// The tokens of `s[i..]`.
pub open spec fn windows_tokens_from(s: Seq<char>, i: int) -> Seq<SpecWinToken>
    decreases s.len() - i,
{
    if i < 0 || i >= s.len() {
        Seq::empty()
    } else {
        let (t, e) = win_step(s, i);
        if i < e <= s.len() {
            seq![t] + windows_tokens_from(s, e)
        } else {
            Seq::empty()
        }
    }
}

/// The digits of a number without leading zeros (`0` for zero).
pub open spec fn significant_digits(d: Seq<char>) -> Seq<char> {
    let z = zeros_end(d, 0);
    if z >= d.len() {
        seq!['0']
    } else {
        d.subrange(z, d.len() as int)
    }
}

/// What a token compares by.
pub enum SpecWinValue {
    Punct(int),
    Number(Seq<char>),
    Text(Seq<u8>),
}

pub open spec fn win_value(t: SpecWinToken, identifier: Seq<char>) -> SpecWinValue {
    match t {
        SpecWinToken::Punct(c) => SpecWinValue::Punct(punctuation_key(c)),
        SpecWinToken::Number(d) => SpecWinValue::Number(significant_digits(d)),
        SpecWinToken::Text(x) => SpecWinValue::Text(locale_key_for(x, identifier)),
    }
}

/// The written length of a number token (more leading zeros come first
/// among equal numbers); zero for other tokens.
pub open spec fn win_length(t: SpecWinToken) -> int {
    match t {
        SpecWinToken::Number(d) => d.len() as int,
        _ => 0,
    }
}

/// A path component in Explorer's reading.
pub struct SpecWinComponent {
    pub values: Seq<SpecWinValue>,
    pub lengths: Seq<int>,
}

pub open spec fn windows_component(c: Seq<char>, identifier: Seq<char>) -> SpecWinComponent {
    let t = windows_tokens_from(c, 0);
    SpecWinComponent {
        values: t.map_values(|x: SpecWinToken| win_value(x, identifier)),
        lengths: t.map_values(|x: SpecWinToken| win_length(x)),
    }
}

/// Numbers by value: fewer significant digits first, then digit by digit.
pub open spec fn digits_order() -> spec_fn(Seq<char>, Seq<char>) -> int {
    then_order(by_order(|d: Seq<char>| d.len() as int, int_order()), lex_order(char_order()))
}

pub open spec fn win_rank(v: SpecWinValue) -> int {
    match v {
        SpecWinValue::Punct(_) => 0,
        SpecWinValue::Number(_) => 1,
        SpecWinValue::Text(_) => 2,
    }
}

/// Punctuation before numbers before words; each kind by its own order.
pub open spec fn win_value_compare(a: SpecWinValue, b: SpecWinValue) -> int {
    if win_rank(a) != win_rank(b) {
        sign(win_rank(a) - win_rank(b))
    } else {
        match (a, b) {
            (SpecWinValue::Punct(x), SpecWinValue::Punct(y)) => sign(x - y),
            (SpecWinValue::Number(x), SpecWinValue::Number(y)) => digits_order()(x, y),
            (SpecWinValue::Text(x), SpecWinValue::Text(y)) => lex_compare(x, y, byte_order()),
            _ => 0,
        }
    }
}

pub open spec fn win_value_order() -> spec_fn(SpecWinValue, SpecWinValue) -> int {
    |a: SpecWinValue, b: SpecWinValue| win_value_compare(a, b)
}

/// Explorer's order of components: token by token, fewer tokens first, and
/// among equal ones the first number written with more leading zeros first.
pub open spec fn windows_component_compare(a: SpecWinComponent, b: SpecWinComponent) -> int {
    let v = lex_compare(a.values, b.values, win_value_order());
    if v != 0 {
        v
    } else {
        lex_compare(a.lengths, b.lengths, int_desc_order())
    }
}

pub open spec fn windows_component_order() -> spec_fn(SpecWinComponent, SpecWinComponent) -> int {
    |a: SpecWinComponent, b: SpecWinComponent| windows_component_compare(a, b)
}

/// A path component as a file browser compares it.
pub enum SpecOsComponent {
    Windows(SpecWinComponent),
    Unix(Seq<u8>),
}

pub open spec fn os_component_compare(a: SpecOsComponent, b: SpecOsComponent) -> int {
    match (a, b) {
        (SpecOsComponent::Windows(x), SpecOsComponent::Windows(y)) => windows_component_order()(
            x,
            y,
        ),
        (SpecOsComponent::Unix(x), SpecOsComponent::Unix(y)) => lex_compare(x, y, byte_order()),
        (SpecOsComponent::Windows(_), SpecOsComponent::Unix(_)) => -1,
        (SpecOsComponent::Unix(_), SpecOsComponent::Windows(_)) => 1,
    }
}

pub open spec fn os_component_order() -> spec_fn(SpecOsComponent, SpecOsComponent) -> int {
    |a: SpecOsComponent, b: SpecOsComponent| os_component_compare(a, b)
}

pub open spec fn profile_rank(p: OsSortProfile) -> int {
    match p {
        OsSortProfile::System => 0,
        OsSortProfile::Windows => 1,
        OsSortProfile::Unix => 2,
    }
}

pub open spec fn locale_rank(p: LocaleProfile) -> int {
    match p {
        LocaleProfile::System => 0,
        LocaleProfile::C => 1,
        LocaleProfile::EnglishIndia => 2,
        LocaleProfile::EnglishUnitedStates => 3,
        LocaleProfile::GermanGermany => 4,
        LocaleProfile::FrenchFrance => 5,
    }
}

/// The abstract value of a file-browser sort key.
pub struct SpecOsKey {
    pub profile: OsSortProfile,
    pub locale_profile: LocaleProfile,
    pub texts: Seq<Seq<char>>,
    pub components: Seq<SpecOsComponent>,
}

/// Keys compare by profile, by locale, then component by component.
pub open spec fn os_key_compare(a: SpecOsKey, b: SpecOsKey) -> int {
    if profile_rank(a.profile) != profile_rank(b.profile) {
        sign(profile_rank(a.profile) - profile_rank(b.profile))
    } else if locale_rank(a.locale_profile) != locale_rank(b.locale_profile) {
        sign(locale_rank(a.locale_profile) - locale_rank(b.locale_profile))
    } else {
        lex_compare(a.components, b.components, os_component_order())
    }
}

pub open spec fn os_key_order() -> spec_fn(SpecOsKey, SpecOsKey) -> int {
    |a: SpecOsKey, b: SpecOsKey| os_key_compare(a, b)
}

/// The components of a path in Explorer's reading: a leading separator,
/// then the non-empty names; `.` for none.
pub open spec fn windows_path_components(s: Seq<char>) -> Seq<Seq<char>> {
    let root: Seq<Seq<char>> = if s.len() > 0 && is_path_separator(s[0]) {
        seq![seq![s[0]]]
    } else {
        Seq::empty()
    };
    let all = root + segments(s);
    if all.len() == 0 {
        seq![seq!['.']]
    } else {
        all
    }
}

/// The texts that a key compares for a profile that is followed.
pub open spec fn os_texts(s: Seq<char>, profile: OsSortProfile) -> Seq<Seq<char>> {
    if profile == OsSortProfile::Windows {
        windows_path_components(s)
    } else {
        path_components_of(s)
    }
}

/// A file-browser key always compares at least one text, and none of them
/// is empty, for either profile that is followed.
pub proof fn law_os_key_texts_are_nonempty(s: Seq<char>, profile: OsSortProfile)
    requires
        profile != OsSortProfile::System,
    ensures
        os_texts(s, profile).len() > 0,
        forall|k: int| 0 <= k < os_texts(s, profile).len() ==> #[trigger] os_texts(s, profile)[k].len() > 0,
{
    if profile == OsSortProfile::Windows {
        let root: Seq<Seq<char>> = if s.len() > 0 && is_path_separator(s[0]) {
            seq![seq![s[0]]]
        } else {
            Seq::empty()
        };
        let segs = segments(s);
        crate::path::lemma_segments_nonempty(s, 0);
        let all = root + segs;
        assert forall|k: int| 0 <= k < all.len() implies #[trigger] all[k].len() > 0 by {
            if k >= root.len() {
                assert(all[k] == segs[k - root.len()]);
            }
        }
    } else {
        crate::path::law_path_components_are_nonempty(s);
    }
}

/// The file-browser key of a string, for a profile that is followed and a
/// locale identifier (for Windows, the one whose collation compares words;
/// for Unix, the one whose numeric collation compares components).
pub open spec fn os_key_of(
    s: Seq<char>,
    profile: OsSortProfile,
    locale_profile: LocaleProfile,
    identifier: Seq<char>,
) -> SpecOsKey {
    let texts = os_texts(s, profile);
    SpecOsKey {
        profile,
        locale_profile,
        texts,
        components: if profile == OsSortProfile::Windows {
            texts.map_values(
                |c: Seq<char>| SpecOsComponent::Windows(windows_component(c, identifier)),
            )
        } else {
            texts.map_values(
                |c: Seq<char>| SpecOsComponent::Unix(icu_numeric_key_of(identifier, c)),
            )
        },
    }
}

/// The identifier a key of a profile that is followed uses in the locale
/// profile, when that is not the system's.
pub open spec fn os_identifier(profile: OsSortProfile, locale_profile: LocaleProfile) -> Seq<char> {
    if profile == OsSortProfile::Windows {
        fixed_identifier(locale_profile)
    } else {
        numeric_collation_identifier(locale_profile)
    }
}

pub proof fn lemma_digits_order()
    ensures
        total_preorder(digits_order()),
{
    lemma_int_order();
    lemma_char_order();
    lemma_lex_order(char_order());
    lemma_by_order(|d: Seq<char>| d.len() as int, int_order());
    lemma_then_order(by_order(|d: Seq<char>| d.len() as int, int_order()), lex_order(char_order()));
}

pub proof fn lemma_win_value_order()
    ensures
        total_preorder(win_value_order()),
{
    let w = win_value_order();
    let d = digits_order();
    let lb = lex_order(byte_order());
    lemma_digits_order();
    lemma_byte_order();
    lemma_lex_order(byte_order());
    assert forall|x: SpecWinValue, y: SpecWinValue| #[trigger] w(x, y) == -w(y, x) && -1 <= w(x, y)
        <= 1 by {
        match (x, y) {
            (SpecWinValue::Number(a), SpecWinValue::Number(b)) => {
                assert(d(a, b) == -d(b, a));
            },
            (SpecWinValue::Text(a), SpecWinValue::Text(b)) => {
                assert(lb(a, b) == -lb(b, a));
            },
            _ => {},
        }
    }
    assert forall|x: SpecWinValue, y: SpecWinValue, z: SpecWinValue| #[trigger]
        w(x, y) <= 0 && #[trigger] w(y, z) <= 0 implies w(x, z) <= 0 by {
        if win_rank(x) == win_rank(y) && win_rank(y) == win_rank(z) {
            match (x, y, z) {
                (SpecWinValue::Number(a), SpecWinValue::Number(b), SpecWinValue::Number(c)) => {
                    assert(d(a, b) <= 0 && d(b, c) <= 0);
                },
                (SpecWinValue::Text(a), SpecWinValue::Text(b), SpecWinValue::Text(c)) => {
                    assert(lb(a, b) <= 0 && lb(b, c) <= 0);
                },
                _ => {},
            }
        }
    }
}

pub proof fn lemma_os_component_order()
    ensures
        total_preorder(os_component_order()),
{
    let o = os_component_order();
    let wc = windows_component_order();
    let lb = lex_order(byte_order());
    lemma_win_value_order();
    lemma_lex_order(win_value_order());
    lemma_by_order(|c: SpecWinComponent| c.values, lex_order(win_value_order()));
    lemma_int_desc_order();
    lemma_lex_order(int_desc_order());
    lemma_by_order(|c: SpecWinComponent| c.lengths, lex_order(int_desc_order()));
    let tf = then_order(
        by_order(|c: SpecWinComponent| c.values, lex_order(win_value_order())),
        by_order(|c: SpecWinComponent| c.lengths, lex_order(int_desc_order())),
    );
    lemma_then_order(
        by_order(|c: SpecWinComponent| c.values, lex_order(win_value_order())),
        by_order(|c: SpecWinComponent| c.lengths, lex_order(int_desc_order())),
    );
    assert forall|x: SpecWinComponent, y: SpecWinComponent| #[trigger] wc(x, y) == tf(x, y) by {}
    lemma_same_order(wc, tf);
    lemma_byte_order();
    lemma_lex_order(byte_order());
    assert forall|x: SpecOsComponent, y: SpecOsComponent| #[trigger] o(x, y) == -o(y, x) && -1
        <= o(x, y) <= 1 by {
        match (x, y) {
            (SpecOsComponent::Windows(a), SpecOsComponent::Windows(b)) => {
                assert(wc(a, b) == -wc(b, a));
            },
            (SpecOsComponent::Unix(a), SpecOsComponent::Unix(b)) => {
                assert(lb(a, b) == -lb(b, a));
            },
            _ => {},
        }
    }
    assert forall|x: SpecOsComponent, y: SpecOsComponent, z: SpecOsComponent| #[trigger]
        o(x, y) <= 0 && #[trigger] o(y, z) <= 0 implies o(x, z) <= 0 by {
        match (x, y, z) {
            (
                SpecOsComponent::Windows(a),
                SpecOsComponent::Windows(b),
                SpecOsComponent::Windows(c),
            ) => {
                assert(wc(a, b) <= 0 && wc(b, c) <= 0);
            },
            (SpecOsComponent::Unix(a), SpecOsComponent::Unix(b), SpecOsComponent::Unix(c)) => {
                assert(lb(a, b) <= 0 && lb(b, c) <= 0);
            },
            _ => {},
        }
    }
}

/// The order of file-browser keys is a total preorder.
pub proof fn lemma_os_key_order()
    ensures
        total_preorder(os_key_order()),
{
    lemma_int_order();
    lemma_by_order(|k: SpecOsKey| profile_rank(k.profile), int_order());
    lemma_by_order(|k: SpecOsKey| locale_rank(k.locale_profile), int_order());
    lemma_os_component_order();
    lemma_lex_order(os_component_order());
    lemma_by_order(|k: SpecOsKey| k.components, lex_order(os_component_order()));
    let inner = then_order(
        by_order(|k: SpecOsKey| locale_rank(k.locale_profile), int_order()),
        by_order(|k: SpecOsKey| k.components, lex_order(os_component_order())),
    );
    lemma_then_order(
        by_order(|k: SpecOsKey| locale_rank(k.locale_profile), int_order()),
        by_order(|k: SpecOsKey| k.components, lex_order(os_component_order())),
    );
    let tf = then_order(by_order(|k: SpecOsKey| profile_rank(k.profile), int_order()), inner);
    lemma_then_order(by_order(|k: SpecOsKey| profile_rank(k.profile), int_order()), inner);
    assert forall|x: SpecOsKey, y: SpecOsKey| #[trigger] os_key_order()(x, y) == tf(x, y) by {}
    lemma_same_order(os_key_order(), tf);
}

/// What a token compares by.
#[derive(Debug)]
pub enum WinValue {
    Punct(u64),
    Number(Vec<char>),
    Text(Vec<u8>),
}

impl View for WinValue {
    type V = SpecWinValue;

    open spec fn view(&self) -> SpecWinValue {
        match self {
            WinValue::Punct(k) => SpecWinValue::Punct(*k as int),
            WinValue::Number(d) => SpecWinValue::Number(d@),
            WinValue::Text(k) => SpecWinValue::Text(k@),
        }
    }
}

/// A path component in Explorer's reading.
#[derive(Debug)]
pub struct WinComponent {
    pub values: Vec<WinValue>,
    pub lengths: Vec<usize>,
}

impl View for WinComponent {
    type V = SpecWinComponent;

    open spec fn view(&self) -> SpecWinComponent {
        SpecWinComponent {
            values: self.values@.map_values(|v: WinValue| v@),
            lengths: self.lengths@.map_values(|l: usize| l as int),
        }
    }
}

/// A path component as a file browser compares it.
#[derive(Debug)]
pub enum OsComponent {
    Windows(WinComponent),
    Unix(Vec<u8>),
}

impl View for OsComponent {
    type V = SpecOsComponent;

    open spec fn view(&self) -> SpecOsComponent {
        match self {
            OsComponent::Windows(w) => SpecOsComponent::Windows(w@),
            OsComponent::Unix(k) => SpecOsComponent::Unix(k@),
        }
    }
}

fn windows_special(c: char) -> (r: bool)
    ensures
        r == is_windows_special(c),
{
    c == ' ' || c == '\t' || c == '.' || c == '\'' || c == '-' || c == '!' || c == '#' || c == '$'
        || c == '%' || c == '&' || c == '(' || c == ')' || c == ',' || c == ';' || c == '@' || c
        == '[' || c == ']' || c == '^' || c == '_' || c == '`' || c == '{' || c == '}' || c == '~'
        || c == '\u{b4}' || c == '\u{20ac}' || c == '+' || c == '=' || c == '\u{a7}' || c
        == '\u{b0}' || c == '\u{b5}'
}

fn punctuation_rank_of(c: char) -> (r: u64)
    ensures
        r as int == punctuation_rank(c),
{
    if c == ' ' || c == '\t' {
        0
    } else if c == '.' {
        1
    } else if c == '\'' {
        2
    } else if c == '-' {
        3
    } else if c == '!' {
        4
    } else if c == '#' {
        5
    } else if c == '$' {
        6
    } else if c == '%' {
        7
    } else if c == '&' {
        8
    } else if c == '(' {
        9
    } else if c == ')' {
        10
    } else if c == ',' {
        11
    } else if c == ';' {
        12
    } else if c == '@' {
        13
    } else if c == '[' {
        14
    } else if c == ']' {
        15
    } else if c == '^' {
        16
    } else if c == '_' {
        17
    } else if c == '`' {
        18
    } else if c == '{' {
        19
    } else if c == '}' {
        20
    } else if c == '~' {
        21
    } else if c == '\u{b4}' {
        22
    } else if c == '\u{20ac}' {
        23
    } else if c == '+' {
        24
    } else if c == '=' {
        25
    } else if c == '\u{a7}' {
        26
    } else if c == '\u{b0}' {
        27
    } else if c == '\u{b5}' {
        28
    } else {
        100
    }
}

fn punctuation_key_of(c: char) -> (r: u64)
    ensures
        r as int == punctuation_key(c),
{
    let rank = punctuation_rank_of(c);
    rank * 2097152 + (c as u32) as u64
}

fn copy_chars(s: &Vec<char>, lo: usize, hi: usize) -> (r: Vec<char>)
    requires
        lo <= hi <= s.len(),
    ensures
        r@ == s@.subrange(lo as int, hi as int),
{
    let mut out: Vec<char> = Vec::new();
    let mut k = lo;
    while k < hi
        invariant
            lo <= k <= hi <= s.len(),
            out@ == s@.subrange(lo as int, k as int),
        decreases hi - k,
    {
        out.push(s[k]);
        proof {
            assert(s@.subrange(lo as int, k + 1) =~= s@.subrange(lo as int, k as int).push(
                s@[k as int],
            ));
        }
        k += 1;
    }
    out
}

/// The digits of a number without leading zeros (see
/// [`significant_digits`]).
fn significant_of(d: &Vec<char>) -> (r: Vec<char>)
    ensures
        r@ == significant_digits(d@),
{
    let mut z: usize = 0;
    while z < d.len() && d[z] == '0'
        invariant
            z <= d.len(),
            zeros_end(d@, 0) == zeros_end(d@, z as int),
        decreases d.len() - z,
    {
        z += 1;
    }
    if z >= d.len() {
        let zero = vec!['0'];
        assert(zero@ =~= seq!['0']);
        zero
    } else {
        copy_chars(d, z, d.len())
    }
}

proof fn lemma_token_step(toks: Seq<SpecWinToken>, tok: SpecWinToken, rest: Seq<SpecWinToken>)
    ensures
        toks.push(tok) + rest == toks + (seq![tok] + rest),
{
    assert(toks.push(tok) + rest =~= toks + (seq![tok] + rest));
}

/// A component in Explorer's reading (see [`windows_component`]).
pub fn windows_component_of(c: &Vec<char>, identifier: &str) -> (r: WinComponent)
    ensures
        r@ == windows_component(c@, identifier@),
{
    let ghost s = c@;
    let ghost id = identifier@;
    let mut values: Vec<WinValue> = Vec::new();
    let mut lengths: Vec<usize> = Vec::new();
    let ghost mut toks: Seq<SpecWinToken> = Seq::empty();
    let mut i: usize = 0;
    assert(toks + windows_tokens_from(s, 0) =~= windows_tokens_from(s, 0));
    while i < c.len()
        invariant
            s == c@,
            id == identifier@,
            i <= c.len(),
            toks + windows_tokens_from(s, i as int) == windows_tokens_from(s, 0),
            values@.map_values(|v: WinValue| v@) =~= toks.map_values(
                |x: SpecWinToken| win_value(x, id),
            ),
            lengths@.map_values(|l: usize| l as int) =~= toks.map_values(
                |x: SpecWinToken| win_length(x),
            ),
        decreases c.len() - i,
    {
        let ch = c[i];
        let ghost i0 = i as int;
        let ghost before_v = values@.map_values(|v: WinValue| v@);
        let ghost before_l = lengths@.map_values(|l: usize| l as int);
        if windows_special(ch) || !(('0' <= ch && ch <= '9') || is_alphabetic(ch)) {
            values.push(WinValue::Punct(punctuation_key_of(ch)));
            lengths.push(0);
            i += 1;
            proof {
                let tok = SpecWinToken::Punct(ch);
                assert(windows_tokens_from(s, i0) == seq![tok] + windows_tokens_from(s, i as int));
                lemma_token_step(toks, tok, windows_tokens_from(s, i as int));
                assert(values@.map_values(|v: WinValue| v@) =~= before_v.push(win_value(tok, id)));
                assert(lengths@.map_values(|l: usize| l as int) =~= before_l.push(win_length(tok)));
                toks = toks.push(tok);
            }
        } else if '0' <= ch && ch <= '9' {
            let mut e = i;
            while e < c.len() && '0' <= c[e] && c[e] <= '9'
                invariant
                    i <= e <= c.len(),
                    s == c@,
                    ascii_digits_end(s, i as int) == ascii_digits_end(s, e as int),
                decreases c.len() - e,
            {
                e += 1;
            }
            let digits = copy_chars(c, i, e);
            let n = e - i;
            values.push(WinValue::Number(significant_of(&digits)));
            lengths.push(n);
            i = e;
            proof {
                let tok = SpecWinToken::Number(s.subrange(i0, e as int));
                assert(windows_tokens_from(s, i0) == seq![tok] + windows_tokens_from(s, i as int));
                lemma_token_step(toks, tok, windows_tokens_from(s, i as int));
                assert(values@.map_values(|v: WinValue| v@) =~= before_v.push(win_value(tok, id)));
                assert(lengths@.map_values(|l: usize| l as int) =~= before_l.push(win_length(tok)));
                toks = toks.push(tok);
            }
        } else {
            let mut e = i + 1;
            while e < c.len() && is_alphabetic(c[e]) && !('0' <= c[e] && c[e] <= '9')
                && !windows_special(c[e])
                invariant
                    i < e <= c.len(),
                    s == c@,
                    word_end(s, i + 1) == word_end(s, e as int),
                decreases c.len() - e,
            {
                e += 1;
            }
            let word = copy_chars(c, i, e);
            let folded = case_fold_chars(&word);
            let text = string_from_chars(folded.as_slice());
            values.push(WinValue::Text(locale_sort_key_for(text.as_str(), identifier)));
            lengths.push(0);
            i = e;
            proof {
                let tok = SpecWinToken::Text(spec_case_fold(s.subrange(i0, e as int)));
                assert(windows_tokens_from(s, i0) == seq![tok] + windows_tokens_from(s, i as int));
                lemma_token_step(toks, tok, windows_tokens_from(s, i as int));
                assert(values@.map_values(|v: WinValue| v@) =~= before_v.push(win_value(tok, id)));
                assert(lengths@.map_values(|l: usize| l as int) =~= before_l.push(win_length(tok)));
                toks = toks.push(tok);
            }
        }
    }
    assert(toks + windows_tokens_from(s, i as int) =~= toks);
    WinComponent { values, lengths }
}

fn compare_win_values(a: &WinValue, b: &WinValue) -> (r: i8)
    ensures
        r as int == win_value_compare(a@, b@),
{
    match (a, b) {
        (WinValue::Punct(x), WinValue::Punct(y)) => {
            if *x < *y {
                -1
            } else if *x > *y {
                1
            } else {
                0
            }
        },
        (WinValue::Number(x), WinValue::Number(y)) => {
            if x.len() < y.len() {
                -1
            } else if x.len() > y.len() {
                1
            } else {
                compare_char_slices(x.as_slice(), y.as_slice())
            }
        },
        (WinValue::Text(x), WinValue::Text(y)) => compare_byte_slices(x.as_slice(), y.as_slice()),
        (WinValue::Punct(_), _) => -1,
        (_, WinValue::Text(_)) => -1,
        _ => 1,
    }
}

fn compare_win_components(a: &WinComponent, b: &WinComponent) -> (r: i8)
    ensures
        r as int == windows_component_order()(a@, b@),
{
    let ghost av = a@.values;
    let ghost bv = b@.values;
    proof {
        lemma_suffix_zero(av);
        lemma_suffix_zero(bv);
    }
    let mut i: usize = 0;
    while i < a.values.len() && i < b.values.len()
        invariant
            i <= a.values.len(),
            i <= b.values.len(),
            av == a@.values,
            bv == b@.values,
            lex_compare(av, bv, win_value_order()) == lex_compare(
                suffix_from(av, i as int),
                suffix_from(bv, i as int),
                win_value_order(),
            ),
        decreases a.values.len() - i,
    {
        let c = compare_win_values(&a.values[i], &b.values[i]);
        proof {
            lemma_lex_step(av, bv, i as int, win_value_order());
        }
        if c != 0 {
            return c;
        }
        i += 1;
    }
    proof {
        lemma_lex_step(av, bv, i as int, win_value_order());
    }
    if i < a.values.len() {
        return 1;
    }
    if i < b.values.len() {
        return -1;
    }
    let ghost al = a@.lengths;
    let ghost bl = b@.lengths;
    proof {
        lemma_suffix_zero(al);
        lemma_suffix_zero(bl);
    }
    let mut j: usize = 0;
    while j < a.lengths.len() && j < b.lengths.len()
        invariant
            j <= a.lengths.len(),
            j <= b.lengths.len(),
            al == a@.lengths,
            bl == b@.lengths,
            lex_compare(a@.values, b@.values, win_value_order()) == 0,
            lex_compare(al, bl, int_desc_order()) == lex_compare(
                suffix_from(al, j as int),
                suffix_from(bl, j as int),
                int_desc_order(),
            ),
        decreases a.lengths.len() - j,
    {
        let x = a.lengths[j];
        let y = b.lengths[j];
        proof {
            lemma_lex_step(al, bl, j as int, int_desc_order());
            assert(al[j as int] == x as int && bl[j as int] == y as int);
        }
        if x != y {
            return if y < x {
                -1
            } else {
                1
            };
        }
        j += 1;
    }
    proof {
        lemma_lex_step(al, bl, j as int, int_desc_order());
    }
    if j < a.lengths.len() {
        1
    } else if j < b.lengths.len() {
        -1
    } else {
        0
    }
}

fn compare_os_components(a: &OsComponent, b: &OsComponent) -> (r: i8)
    ensures
        r as int == os_component_compare(a@, b@),
{
    match (a, b) {
        (OsComponent::Windows(x), OsComponent::Windows(y)) => compare_win_components(x, y),
        (OsComponent::Unix(x), OsComponent::Unix(y)) => compare_byte_slices(
            x.as_slice(),
            y.as_slice(),
        ),
        (OsComponent::Windows(_), OsComponent::Unix(_)) => -1,
        (OsComponent::Unix(_), OsComponent::Windows(_)) => 1,
    }
}

fn profile_rank_of(p: OsSortProfile) -> (r: i8)
    ensures
        r as int == profile_rank(p),
{
    match p {
        OsSortProfile::System => 0,
        OsSortProfile::Windows => 1,
        OsSortProfile::Unix => 2,
    }
}

fn locale_rank_of(p: LocaleProfile) -> (r: i8)
    ensures
        r as int == locale_rank(p),
{
    match p {
        LocaleProfile::System => 0,
        LocaleProfile::C => 1,
        LocaleProfile::EnglishIndia => 2,
        LocaleProfile::EnglishUnitedStates => 3,
        LocaleProfile::GermanGermany => 4,
        LocaleProfile::FrenchFrance => 5,
    }
}

/// A string's key for sorting as a file browser does.
#[derive(Debug)]
pub struct OsSortKey {
    components: Vec<String>,
    profile: OsSortProfile,
    locale_profile: LocaleProfile,
    compared: Vec<OsComponent>,
}

impl View for OsSortKey {
    type V = SpecOsKey;

    closed spec fn view(&self) -> SpecOsKey {
        SpecOsKey {
            profile: self.profile,
            locale_profile: self.locale_profile,
            texts: self.components@.map_values(|t: String| t@),
            components: self.compared@.map_values(|c: OsComponent| c@),
        }
    }
}

/// The components of a path in Explorer's reading (see
/// [`windows_path_components`]).
fn windows_path_component_chars(input: &str) -> (r: Vec<Vec<char>>)
    ensures
        r@.map_values(|v: Vec<char>| v@) == windows_path_components(input@),
{
    let s = chars_of(input);
    let mut out: Vec<Vec<char>> = Vec::new();
    if s.len() > 0 && (s[0] == '/' || s[0] == '\\') {
        let root = vec![s[0]];
        assert(root@ =~= seq![s@[0]]);
        out.push(root);
    }
    let ghost root_part = out@.map_values(|v: Vec<char>| v@);
    let mut i: usize = 0;
    let ghost segs = segments(s@);
    assert(out@.map_values(|v: Vec<char>| v@) + crate::path::segments_from(s@, 0) =~= root_part
        + segs);
    loop
        invariant_except_break
            i <= s.len(),
            segs == segments(s@),
            out@.map_values(|v: Vec<char>| v@) + crate::path::segments_from(s@, i as int)
                == root_part + segs,
        invariant
            root_part == (if s@.len() > 0 && is_path_separator(s@[0]) {
                seq![seq![s@[0]]]
            } else {
                Seq::<Seq<char>>::empty()
            }),
        ensures
            out@.map_values(|v: Vec<char>| v@) == root_part + segs,
        decreases s.len() - i,
    {
        let ghost before = out@.map_values(|v: Vec<char>| v@);
        let mut j = i;
        while j < s.len() && !(s[j] == '/' || s[j] == '\\')
            invariant
                i <= j <= s.len(),
                crate::path::separator_from(s@, i as int) == crate::path::separator_from(
                    s@,
                    j as int,
                ),
            decreases s.len() - j,
        {
            j += 1;
        }
        let ghost head: Seq<Seq<char>> = if j > i {
            seq![s@.subrange(i as int, j as int)]
        } else {
            Seq::empty()
        };
        if j > i {
            let seg = copy_chars(&s, i, j);
            out.push(seg);
        }
        assert(out@.map_values(|v: Vec<char>| v@) =~= before + head);
        if j >= s.len() {
            assert(crate::path::segments_from(s@, i as int) == head);
            break ;
        }
        assert(crate::path::segments_from(s@, i as int) == head + crate::path::segments_from(
            s@,
            j + 1,
        ));
        assert(before + (head + crate::path::segments_from(s@, j + 1)) =~= (before + head)
            + crate::path::segments_from(s@, j + 1));
        i = j + 1;
    }
    if out.len() == 0 {
        let dot = vec!['.'];
        assert(dot@ =~= seq!['.']);
        out.push(dot);
        assert(out@.map_values(|v: Vec<char>| v@) =~= seq![seq!['.']]);
    }
    out
}

fn strings_of(parts: &Vec<Vec<char>>) -> (r: Vec<String>)
    ensures
        r@.map_values(|t: String| t@) == parts@.map_values(|v: Vec<char>| v@),
{
    let mut out: Vec<String> = Vec::new();
    let mut i: usize = 0;
    while i < parts.len()
        invariant
            i <= parts.len(),
            out@.map_values(|t: String| t@) =~= parts@.map_values(|v: Vec<char>| v@).subrange(
                0,
                i as int,
            ),
        decreases parts.len() - i,
    {
        let t = string_from_chars(parts[i].as_slice());
        let ghost before = out@.map_values(|t: String| t@);
        out.push(t);
        proof {
            let pv = parts@.map_values(|v: Vec<char>| v@);
            assert(pv.subrange(0, i + 1) =~= pv.subrange(0, i as int).push(pv[i as int]));
            assert(out@.map_values(|t: String| t@) =~= before.push(pv[i as int]));
        }
        i += 1;
    }
    assert(parts@.map_values(|v: Vec<char>| v@).subrange(0, i as int) =~= parts@.map_values(
        |v: Vec<char>| v@,
    ));
    out
}

/// The identifier that a key uses: the locale's for Windows, the locale's
/// numeric collation's (`en-US` for C) for Unix.
pub fn os_identifier_for(profile: OsSortProfile, locale_profile: LocaleProfile) -> (r: String)
    ensures
        locale_profile != LocaleProfile::System ==> r@ == os_identifier(profile, locale_profile),
{
    if let OsSortProfile::Windows = profile {
        locale_profile.identifier()
    } else if let LocaleProfile::C = locale_profile {
        string_from_chars(&['e', 'n', '-', 'U', 'S'])
    } else {
        locale_profile.identifier()
    }
}

/// The identifier fits the options' locale profile when that is not the
/// system's.
pub open spec fn os_identifier_fits(
    profile: OsSortProfile,
    locale_profile: LocaleProfile,
    identifier: Seq<char>,
) -> bool {
    locale_profile != LocaleProfile::System ==> identifier == os_identifier(
        profile,
        locale_profile,
    )
}

/// `k` is the file-browser key of `s` under `options`: it follows the
/// options' profile, or for the system profile one that a host follows
/// (Windows or Unix), with a locale identifier that fits the options.
pub open spec fn is_os_key_of(k: SpecOsKey, s: Seq<char>, options: OsSortOptions) -> bool {
    exists|system: OsSortProfile, identifier: Seq<char>|
        #![trigger os_key_of(s, resolved_profile(options.profile, system), options.locale_profile, identifier)]
        os_identifier_fits(resolved_profile(options.profile, system), options.locale_profile, identifier)
            && k == os_key_of(s, resolved_profile(options.profile, system), options.locale_profile, identifier)
}

/// A file-browser key is determined by the string and the options when
/// they fix the profile and the locale: two keys that both meet the key
/// contract are equal. So a key generator gives the keys that
/// `os_sort_key_with_options` gives for its options.
pub proof fn law_os_key_is_determined(k1: SpecOsKey, k2: SpecOsKey, s: Seq<char>, options: OsSortOptions)
    requires
        options.profile != OsSortProfile::System,
        options.locale_profile != LocaleProfile::System,
        is_os_key_of(k1, s, options),
        is_os_key_of(k2, s, options),
    ensures
        k1 == k2,
{
}

impl OsSortKey {
    /// The key of a string for a followed profile and a locale identifier
    /// (see [`os_key_of`]).
    pub fn new_in(input: &str, profile: OsSortProfile, locale_profile: LocaleProfile, identifier: &str) -> (r:
        Self)
        requires
            profile != OsSortProfile::System,
        ensures
            r@ == os_key_of(input@, profile, locale_profile, identifier@),
    {
        let parts = if let OsSortProfile::Windows = profile {
            windows_path_component_chars(input)
        } else {
            path_component_chars(input)
        };
        let ghost pv = parts@.map_values(|v: Vec<char>| v@);
        assert(pv == os_texts(input@, profile));
        let mut compared: Vec<OsComponent> = Vec::new();
        let mut i: usize = 0;
        let ghost spec_key = os_key_of(input@, profile, locale_profile, identifier@);
        while i < parts.len()
            invariant
                i <= parts.len(),
                pv == parts@.map_values(|v: Vec<char>| v@),
                profile != OsSortProfile::System,
                spec_key == os_key_of(input@, profile, locale_profile, identifier@),
                spec_key.texts == pv,
                compared@.map_values(|c: OsComponent| c@) =~= spec_key.components.subrange(
                    0,
                    i as int,
                ),
            decreases parts.len() - i,
        {
            let component = if let OsSortProfile::Windows = profile {
                OsComponent::Windows(windows_component_of(&parts[i], identifier))
            } else {
                let text = string_from_chars(parts[i].as_slice());
                OsComponent::Unix(crate::locale::icu_numeric_sort_key(identifier, text.as_str()))
            };
            let ghost before = compared@.map_values(|c: OsComponent| c@);
            compared.push(component);
            proof {
                assert(spec_key.components.subrange(0, i + 1) =~= spec_key.components.subrange(
                    0,
                    i as int,
                ).push(spec_key.components[i as int]));
                assert(compared@.map_values(|c: OsComponent| c@) =~= before.push(component@));
            }
            i += 1;
        }
        assert(spec_key.components.subrange(0, i as int) =~= spec_key.components);
        let components = strings_of(&parts);
        OsSortKey { components, profile, locale_profile, compared }
    }

    /// The key of a string; the system profile is followed as the host
    /// follows it (see [`host_os_profile`]).
    pub fn new(input: &str, options: OsSortOptions) -> (r: Self)
        ensures
            is_os_key_of(r@, input@, options),
            r@.profile != OsSortProfile::System,
            options.profile != OsSortProfile::System ==> r@.profile == options.profile,
            r@.locale_profile == options.locale_profile,
    {
        let system = host_os_profile();
        let profile = options.profile.resolve_with(system);
        let identifier = os_identifier_for(profile, options.locale_profile);
        let r = Self::new_in(input, profile, options.locale_profile, identifier.as_str());
        assert(os_identifier_fits(profile, options.locale_profile, identifier@));
        assert(os_key_of(input@, resolved_profile(options.profile, system), options.locale_profile, identifier@) == r@);
        r
    }

    /// The components the key compares.
    pub fn components(&self) -> (r: &[String])
        ensures
            r@.map_values(|t: String| t@) == self@.texts,
    {
        self.components.as_slice()
    }

    /// The profile the key follows.
    pub fn profile(&self) -> (r: OsSortProfile)
        ensures
            r == self@.profile,
    {
        self.profile
    }

    /// The locale profile the key compares words in.
    pub fn locale_profile(&self) -> (r: LocaleProfile)
        ensures
            r == self@.locale_profile,
    {
        self.locale_profile
    }

    /// Three-way comparison of two keys (see [`os_key_order`]).
    pub fn compare(&self, other: &Self) -> (r: i8)
        ensures
            r as int == os_key_order()(self@, other@),
    {
        let p = profile_rank_of(self.profile);
        let q = profile_rank_of(other.profile);
        if p != q {
            return if p < q {
                -1
            } else {
                1
            };
        }
        let p = locale_rank_of(self.locale_profile);
        let q = locale_rank_of(other.locale_profile);
        if p != q {
            return if p < q {
                -1
            } else {
                1
            };
        }
        let ghost av = self@.components;
        let ghost bv = other@.components;
        proof {
            lemma_suffix_zero(av);
            lemma_suffix_zero(bv);
        }
        let mut i: usize = 0;
        while i < self.compared.len() && i < other.compared.len()
            invariant
                i <= self.compared.len(),
                i <= other.compared.len(),
                av == self@.components,
                bv == other@.components,
                profile_rank(self@.profile) == profile_rank(other@.profile),
                locale_rank(self@.locale_profile) == locale_rank(other@.locale_profile),
                av == self.compared@.map_values(|c: OsComponent| c@),
                bv == other.compared@.map_values(|c: OsComponent| c@),
                lex_compare(av, bv, os_component_order()) == lex_compare(
                    suffix_from(av, i as int),
                    suffix_from(bv, i as int),
                    os_component_order(),
                ),
            decreases self.compared.len() - i,
        {
            let c = compare_os_components(&self.compared[i], &other.compared[i]);
            proof {
                lemma_lex_step(av, bv, i as int, os_component_order());
                assert(av[i as int] == self.compared@[i as int]@);
                assert(bv[i as int] == other.compared@[i as int]@);
            }
            if c != 0 {
                return c;
            }
            i += 1;
        }
        proof {
            lemma_lex_step(av, bv, i as int, os_component_order());
        }
        if i < self.compared.len() {
            1
        } else if i < other.compared.len() {
            -1
        } else {
            0
        }
    }
}

impl PartialEq for OsSortKey {
    fn eq(&self, other: &Self) -> (r: bool) {
        self.compare(other) == 0
    }
}

impl vstd::std_specs::cmp::PartialEqSpecImpl for OsSortKey {
    open spec fn obeys_eq_spec() -> bool {
        true
    }

    open spec fn eq_spec(&self, other: &Self) -> bool {
        os_key_order()(self@, other@) == 0
    }
}

impl Eq for OsSortKey {

}

impl PartialOrd for OsSortKey {
    fn partial_cmp(&self, other: &Self) -> (r: Option<std::cmp::Ordering>) {
        let c = self.compare(other);
        if c < 0 {
            Some(std::cmp::Ordering::Less)
        } else if c > 0 {
            Some(std::cmp::Ordering::Greater)
        } else {
            Some(std::cmp::Ordering::Equal)
        }
    }
}

impl vstd::std_specs::cmp::PartialOrdSpecImpl for OsSortKey {
    open spec fn obeys_partial_cmp_spec() -> bool {
        true
    }

    open spec fn partial_cmp_spec(&self, other: &Self) -> Option<std::cmp::Ordering> {
        Some(crate::number::ordering_of(os_key_order()(self@, other@)))
    }
}


/// Keys for sorting as a file browser does, made with fixed options.
#[derive(Debug, Clone, Copy, PartialEq, Eq, Structural)]
pub struct OsSortKeyGenerator {
    options: OsSortOptions,
}

impl Default for OsSortKeyGenerator {
    fn default() -> (r: Self)
        ensures
            r.spec_options() == default_os_options(),
    {
        OsSortKeyGenerator { options: OsSortOptions::new() }
    }
}

impl OsSortKeyGenerator {
    pub closed spec fn spec_options(self) -> OsSortOptions {
        self.options
    }

    pub fn new(options: OsSortOptions) -> (r: Self)
        ensures
            r.spec_options() == options,
    {
        OsSortKeyGenerator { options }
    }

    /// The key of a string (see [`OsSortKey::new`]).
    pub fn key(&self, value: &str) -> (r: OsSortKey)
        ensures
            is_os_key_of(r@, value@, self.spec_options()),
            r@.profile != OsSortProfile::System,
            self.spec_options().profile != OsSortProfile::System ==> r@.profile == self.spec_options().profile,
            r@.locale_profile == self.spec_options().locale_profile,
    {
        OsSortKey::new(value, self.options)
    }

    pub fn options(&self) -> (r: OsSortOptions)
        ensures
            r == self.spec_options(),
    {
        self.options
    }
}

/// The file-browser key of a string with default options.
pub fn os_sort_key(value: &str) -> (r: OsSortKey)
    ensures
        is_os_key_of(r@, value@, default_os_options()),
        r@.profile != OsSortProfile::System,
        r@.locale_profile == LocaleProfile::System,
{
    OsSortKey::new(value, OsSortOptions::new())
}

/// The file-browser key of a string.
pub fn os_sort_key_with_options(value: &str, options: OsSortOptions) -> (r: OsSortKey)
    ensures
        is_os_key_of(r@, value@, options),
        r@.profile != OsSortProfile::System,
        options.profile != OsSortProfile::System ==> r@.profile == options.profile,
        r@.locale_profile == options.locale_profile,
{
    OsSortKey::new(value, options)
}

/// A key generator with default options.
pub fn os_sort_keygen() -> (r: OsSortKeyGenerator)
    ensures
        r.spec_options() == default_os_options(),
{
    OsSortKeyGenerator::default()
}

/// A key generator with the given options.
pub fn os_sort_keygen_with_options(options: OsSortOptions) -> (r: OsSortKeyGenerator)
    ensures
        r.spec_options() == options,
{
    OsSortKeyGenerator::new(options)
}

/// The file-browser keys of texts.
pub open spec fn os_keys_of(
    texts: Seq<Seq<char>>,
    profile: OsSortProfile,
    locale_profile: LocaleProfile,
    identifier: Seq<char>,
) -> Seq<SpecOsKey> {
    texts.map_values(|t: Seq<char>| os_key_of(t, profile, locale_profile, identifier))
}

/// The order in which file-browser sorting places items whose keys come
/// from `key_texts` and whose presort texts are `texts`, with `system`
/// standing for the host's profile.
pub open spec fn os_item_order(
    key_texts: Seq<Seq<char>>,
    texts: Seq<Seq<char>>,
    options: OsSortOptions,
    system: OsSortProfile,
    identifier: Seq<char>,
) -> spec_fn(int, int) -> int {
    crate::sort::stable_order(
        os_keys_of(
            key_texts,
            resolved_profile(options.profile, system),
            options.locale_profile,
            identifier,
        ),
        os_key_order(),
        texts,
        options.reverse,
        options.presort,
    )
}

/// Items with their file-browser keys and presort texts.
pub struct OsItems {
    pub keys: Vec<OsSortKey>,
    pub texts: Vec<Vec<char>>,
    pub options: OsSortOptions,
}

impl PositionOrder for OsItems {
    open spec fn order(&self) -> spec_fn(int, int) -> int {
        crate::sort::stable_order(
            self.keys@.map_values(|k: OsSortKey| k@),
            os_key_order(),
            self.texts@.map_values(|v: Vec<char>| v@),
            self.options.reverse,
            self.options.presort,
        )
    }

    open spec fn size(&self) -> int {
        if self.keys.len() == self.texts.len() {
            self.keys.len() as int
        } else {
            0
        }
    }

    fn compare_positions(&self, i: usize, j: usize) -> (r: i8) {
        let keys = &self.keys;
        let texts = &self.texts;
        let c = keys[i].compare(&keys[j]);
        proof {
            lemma_os_key_order();
            assert(os_key_order()(keys@[j as int]@, keys@[i as int]@) == -os_key_order()(
                keys@[i as int]@,
                keys@[j as int]@,
            ));
        }
        let c = if self.options.reverse {
            -c
        } else {
            c
        };
        if c != 0 {
            return c;
        }
        if self.options.presort {
            let t = compare_char_slices(texts[i].as_slice(), texts[j].as_slice());
            proof {
                lemma_char_order();
                lemma_lex_order(char_order());
                assert(lex_order(char_order())(texts@[j as int]@, texts@[i as int]@)
                    == -lex_order(char_order())(texts@[i as int]@, texts@[j as int]@));
            }
            let t = if self.options.reverse {
                -t
            } else {
                t
            };
            if t != 0 {
                return t;
            }
        }
        if i < j {
            -1
        } else if i > j {
            1
        } else {
            0
        }
    }
}

fn texts_of_items<T: NaturalText>(items: &[T]) -> (r: Vec<Vec<char>>)
    ensures
        r@.map_values(|v: Vec<char>| v@) == texts_of(items@),
{
    let mut out: Vec<Vec<char>> = Vec::new();
    let mut i: usize = 0;
    while i < items.len()
        invariant
            i <= items.len(),
            out@.map_values(|v: Vec<char>| v@) =~= texts_of(items@).subrange(0, i as int),
        decreases items.len() - i,
    {
        let text = chars_of(items[i].natural_text());
        let ghost before = out@.map_values(|v: Vec<char>| v@);
        out.push(text);
        proof {
            assert(texts_of(items@).subrange(0, i + 1) =~= texts_of(items@).subrange(
                0,
                i as int,
            ).push(items@[i as int].text_view()));
            assert(out@.map_values(|v: Vec<char>| v@) =~= before.push(text@));
        }
        i += 1;
    }
    assert(texts_of(items@).subrange(0, i as int) =~= texts_of(items@));
    out
}

/// Positions in file-browser order of items whose keys come from
/// `key_texts` and whose presort texts are `texts`.
fn os_positions(key_texts: &Vec<Vec<char>>, texts: Vec<Vec<char>>, options: OsSortOptions) -> (r: (
    Vec<usize>,
    OsSortProfile,
    Ghost<Seq<char>>,
))
    requires
        key_texts.len() == texts.len(),
    ensures
        os_identifier_fits(
            resolved_profile(options.profile, r.1),
            options.locale_profile,
            r.2@,
        ),
        is_sorted_permutation(
            indices_view(r.0@),
            key_texts.len() as int,
            os_item_order(
                key_texts@.map_values(|v: Vec<char>| v@),
                texts@.map_values(|v: Vec<char>| v@),
                options,
                r.1,
                r.2@,
            ),
        ),
{
    let system = host_os_profile();
    let profile = options.profile.resolve_with(system);
    let identifier = os_identifier_for(profile, options.locale_profile);
    let ghost kv = key_texts@.map_values(|v: Vec<char>| v@);
    let ghost spec_keys = os_keys_of(kv, profile, options.locale_profile, identifier@);
    let mut keys: Vec<OsSortKey> = Vec::new();
    let mut i: usize = 0;
    while i < key_texts.len()
        invariant
            i <= key_texts.len(),
            kv == key_texts@.map_values(|v: Vec<char>| v@),
            profile != OsSortProfile::System,
            spec_keys == os_keys_of(kv, profile, options.locale_profile, identifier@),
            keys@.map_values(|k: OsSortKey| k@) =~= spec_keys.subrange(0, i as int),
        decreases key_texts.len() - i,
    {
        let text = string_from_chars(key_texts[i].as_slice());
        let key = OsSortKey::new_in(text.as_str(), profile, options.locale_profile, identifier.as_str());
        let ghost before = keys@.map_values(|k: OsSortKey| k@);
        keys.push(key);
        proof {
            assert(spec_keys.subrange(0, i + 1) =~= spec_keys.subrange(0, i as int).push(
                spec_keys[i as int],
            ));
            assert(keys@.map_values(|k: OsSortKey| k@) =~= before.push(key@));
        }
        i += 1;
    }
    assert(spec_keys.subrange(0, i as int) =~= spec_keys);
    let n = keys.len();
    let items = OsItems { keys, texts, options };
    proof {
        lemma_os_key_order();
        crate::sort::lemma_stable_order(
            items.keys@.map_values(|k: OsSortKey| k@),
            os_key_order(),
            items.texts@.map_values(|v: Vec<char>| v@),
            options.reverse,
            options.presort,
        );
        assert(os_identifier_fits(profile, options.locale_profile, identifier@));
    }
    let r = sorted_positions(&items, n);
    (r, system, Ghost(identifier@))
}

/// `r` lists the positions `0..n` in file-browser order for a profile that
/// a host follows (it matters only for the system profile) and a locale
/// identifier that fits the options.
pub open spec fn os_sorted_indexes(
    key_texts: Seq<Seq<char>>,
    texts: Seq<Seq<char>>,
    r: Seq<usize>,
    options: OsSortOptions,
) -> bool {
    exists|system: OsSortProfile, identifier: Seq<char>|
        #![trigger os_item_order(key_texts, texts, options, system, identifier)]
        os_identifier_fits(
            resolved_profile(options.profile, system),
            options.locale_profile,
            identifier,
        ) && is_sorted_permutation(
            indices_view(r),
            key_texts.len() as int,
            os_item_order(key_texts, texts, options, system, identifier),
        )
}

/// `r` is `items` arranged by positions `p` that are a sorted permutation
/// under `ord`, each item cloned.
pub open spec fn arranged_in<T: Clone>(items: Seq<T>, r: Seq<T>, ord: spec_fn(int, int) -> int) -> bool {
    exists|p: Seq<int>|
        #![trigger is_sorted_permutation(p, items.len() as int, ord)]
        is_sorted_permutation(p, items.len() as int, ord) && r.len() == p.len() && forall|k: int|
            0 <= k < r.len() ==> cloned::<T>(items[p[k]], #[trigger] r[k])
}

/// The positions of the items in file-browser order.
pub fn index_os_sorted_with_options<T: NaturalText>(items: &[T], options: OsSortOptions) -> (r: Vec<
    usize,
>)
    ensures
        os_sorted_indexes(texts_of(items@), texts_of(items@), r@, options),
{
    let texts = texts_of_items(items);
    let keys = texts_of_items(items);
    assert(texts@.map_values(|v: Vec<char>| v@).len() == texts@.len());
    let (r, system, Ghost(id)) = os_positions(&keys, texts, options);
    r
}

/// The positions of the items in file-browser order with default options.
pub fn index_os_sorted<T: NaturalText>(items: &[T]) -> (r: Vec<usize>)
    ensures
        os_sorted_indexes(texts_of(items@), texts_of(items@), r@, default_os_options()),
{
    index_os_sorted_with_options(items, OsSortOptions::new())
}

proof fn lemma_positions_in_range(p: Seq<usize>, n: int, ord: spec_fn(int, int) -> int)
    requires
        is_sorted_permutation(indices_view(p), n, ord),
    ensures
        forall|k: int| 0 <= k < p.len() ==> #[trigger] p[k] < n,
        p.len() == n,
{
    assert forall|k: int| 0 <= k < p.len() implies #[trigger] p[k] < n by {
        assert(indices_view(p)[k] == p[k] as int);
    }
}

/// The items in file-browser order, cloned.
pub fn os_sorted_with_options<T: NaturalText + Clone>(items: &[T], options: OsSortOptions) -> (r: Vec<
    T,
>)
    ensures
        exists|system: OsSortProfile, identifier: Seq<char>|
            #![trigger os_item_order(texts_of(items@), texts_of(items@), options, system, identifier)]
            os_identifier_fits(
                resolved_profile(options.profile, system),
                options.locale_profile,
                identifier,
            ) && arranged_in(
                items@,
                r@,
                os_item_order(texts_of(items@), texts_of(items@), options, system, identifier),
            ),
{
    let texts = texts_of_items(items);
    let keys = texts_of_items(items);
    assert(texts@.map_values(|v: Vec<char>| v@).len() == texts@.len());
    let (idx, system, Ghost(id)) = os_positions(&keys, texts, options);
    let ghost ord = os_item_order(texts_of(items@), texts_of(items@), options, system, id);
    proof {
        lemma_positions_in_range(idx@, items@.len() as int, ord);
    }
    let r = order_by_index(items, idx.as_slice());
    proof {
        let p = indices_view(idx@);
        assert(forall|k: int| 0 <= k < r@.len() ==> p[k] == idx@[k] as int);
        assert(arranged_in(items@, r@, ord));
    }
    r
}

/// The items in file-browser order with default options, cloned.
pub fn os_sorted<T: NaturalText + Clone>(items: &[T]) -> (r: Vec<T>)
    ensures
        exists|system: OsSortProfile, identifier: Seq<char>|
            #![trigger os_item_order(texts_of(items@), texts_of(items@), default_os_options(), system, identifier)]
            arranged_in(
                items@,
                r@,
                os_item_order(texts_of(items@), texts_of(items@), default_os_options(), system, identifier),
            ),
{
    os_sorted_with_options(items, OsSortOptions::new())
}

/// The keys of the items, one call of `key` each, as character strings.
fn key_texts_of<'a, T, K: NaturalText, F: Fn(&'a T) -> K>(items: &'a [T], key: &F) -> (r: (
    Vec<Vec<char>>,
    Ghost<Seq<K>>,
))
    requires
        forall|i: int| 0 <= i < items@.len() ==> key.requires((&items@[i],)),
    ensures
        r.1@.len() == items@.len(),
        forall|i: int| 0 <= i < items@.len() ==> key.ensures((&items@[i],), #[trigger] r.1@[i]),
        r.0@.map_values(|v: Vec<char>| v@) == texts_of(r.1@),
{
    let mut out: Vec<Vec<char>> = Vec::new();
    let ghost mut ks: Seq<K> = Seq::empty();
    let mut i: usize = 0;
    while i < items.len()
        invariant
            i <= items@.len(),
            ks.len() == i,
            forall|j: int| 0 <= j < items@.len() ==> key.requires((&items@[j],)),
            forall|j: int| 0 <= j < i ==> key.ensures((&items@[j],), #[trigger] ks[j]),
            out@.map_values(|v: Vec<char>| v@) =~= texts_of(ks),
        decreases items@.len() - i,
    {
        let k = key(&items[i]);
        let text = chars_of(k.natural_text());
        let ghost before = out@.map_values(|v: Vec<char>| v@);
        out.push(text);
        proof {
            assert(texts_of(ks.push(k)) =~= texts_of(ks).push(k.text_view()));
            assert(out@.map_values(|v: Vec<char>| v@) =~= before.push(text@));
            ks = ks.push(k);
        }
        i += 1;
    }
    (out, Ghost(ks))
}

/// The positions of the items in file-browser order of the texts that
/// `key` gives them (items' own texts break ties when presorting).
pub fn index_os_sorted_by_key_with_options<'a, T: NaturalText, K: NaturalText, F: Fn(&'a T) -> K>(
    items: &'a [T],
    key: F,
    options: OsSortOptions,
) -> (r: Vec<usize>)
    requires
        forall|i: int| 0 <= i < items@.len() ==> key.requires((&items@[i],)),
    ensures
        exists|keys: Seq<K>|
            #![trigger os_sorted_indexes(texts_of(keys), texts_of(items@), r@, options)]
            keys.len() == items@.len() && (forall|i: int|
                0 <= i < items@.len() ==> key.ensures((&items@[i],), #[trigger] keys[i]))
                && os_sorted_indexes(texts_of(keys), texts_of(items@), r@, options),
{
    let (key_texts, Ghost(ks)) = key_texts_of(items, &key);
    let texts = texts_of_items(items);
    assert(texts@.map_values(|v: Vec<char>| v@).len() == texts@.len());
    assert(key_texts@.map_values(|v: Vec<char>| v@).len() == key_texts@.len());
    let (r, system, Ghost(id)) = os_positions(&key_texts, texts, options);
    assert(os_sorted_indexes(texts_of(ks), texts_of(items@), r@, options));
    r
}

/// The positions of the items in file-browser order of the texts that
/// `key` gives them, with default options.
pub fn index_os_sorted_by_key<'a, T: NaturalText, K: NaturalText, F: Fn(&'a T) -> K>(
    items: &'a [T],
    key: F,
) -> (r: Vec<usize>)
    requires
        forall|i: int| 0 <= i < items@.len() ==> key.requires((&items@[i],)),
    ensures
        exists|keys: Seq<K>|
            #![trigger os_sorted_indexes(texts_of(keys), texts_of(items@), r@, default_os_options())]
            keys.len() == items@.len() && (forall|i: int|
                0 <= i < items@.len() ==> key.ensures((&items@[i],), #[trigger] keys[i]))
                && os_sorted_indexes(texts_of(keys), texts_of(items@), r@, default_os_options()),
{
    index_os_sorted_by_key_with_options(items, key, OsSortOptions::new())
}

/// The items in file-browser order of the texts that `key` gives them.
pub fn os_sorted_by_key_with_options<'a, T: NaturalText + Clone, K: NaturalText, F: Fn(&'a T) -> K>(
    items: &'a [T],
    key: F,
    options: OsSortOptions,
) -> (r: Vec<T>)
    requires
        forall|i: int| 0 <= i < items@.len() ==> key.requires((&items@[i],)),
    ensures
        exists|keys: Seq<K>, system: OsSortProfile, identifier: Seq<char>|
            #![trigger os_item_order(texts_of(keys), texts_of(items@), options, system, identifier)]
            keys.len() == items@.len() && (forall|i: int|
                0 <= i < items@.len() ==> key.ensures((&items@[i],), #[trigger] keys[i]))
                && os_identifier_fits(
                resolved_profile(options.profile, system),
                options.locale_profile,
                identifier,
            ) && arranged_in(
                items@,
                r@,
                os_item_order(texts_of(keys), texts_of(items@), options, system, identifier),
            ),
{
    let (key_texts, Ghost(ks)) = key_texts_of(items, &key);
    let texts = texts_of_items(items);
    assert(texts@.map_values(|v: Vec<char>| v@).len() == texts@.len());
    assert(key_texts@.map_values(|v: Vec<char>| v@).len() == key_texts@.len());
    let (idx, system, Ghost(id)) = os_positions(&key_texts, texts, options);
    let ghost ord = os_item_order(texts_of(ks), texts_of(items@), options, system, id);
    proof {
        lemma_positions_in_range(idx@, items@.len() as int, ord);
    }
    let r = order_by_index(items, idx.as_slice());
    proof {
        let p = indices_view(idx@);
        assert(forall|k: int| 0 <= k < r@.len() ==> p[k] == idx@[k] as int);
        assert(arranged_in(items@, r@, ord));
    }
    r
}

/// The items in file-browser order of the texts that `key` gives them,
/// with default options.
pub fn os_sorted_by_key<'a, T: NaturalText + Clone, K: NaturalText, F: Fn(&'a T) -> K>(
    items: &'a [T],
    key: F,
) -> (r: Vec<T>)
    requires
        forall|i: int| 0 <= i < items@.len() ==> key.requires((&items@[i],)),
    ensures
        exists|keys: Seq<K>, system: OsSortProfile, identifier: Seq<char>|
            #![trigger os_item_order(texts_of(keys), texts_of(items@), default_os_options(), system, identifier)]
            keys.len() == items@.len() && (forall|i: int|
                0 <= i < items@.len() ==> key.ensures((&items@[i],), #[trigger] keys[i]))
                && arranged_in(
                items@,
                r@,
                os_item_order(texts_of(keys), texts_of(items@), default_os_options(), system, identifier),
            ),
{
    os_sorted_by_key_with_options(items, key, OsSortOptions::new())
}

} // verus!
