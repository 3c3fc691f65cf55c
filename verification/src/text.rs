//! Unicode normalization, case transforms and letter grouping.
use vstd::prelude::*;

use unicode_casefold::UnicodeCaseFold;
use unicode_normalization::UnicodeNormalization;

use crate::chars::{chars_of, flat_map_chars, lemma_flat_map_step, string_from_chars};
use crate::locale::{
    LocaleProfile, c_locale, fixed_identifier, is_c_locale, localized_numbers, normalize_identifier,
    normalize_localized_numbers_for, normalized_identifier,
};
use crate::options::SortOptions;

verus! {

/// Canonical decomposition (NFD) as `unicode_normalization` computes it.
pub uninterp spec fn spec_nfd(s: Seq<char>) -> Seq<char>;

/// Compatibility decomposition (NFKD) as `unicode_normalization` computes it.
pub uninterp spec fn spec_nfkd(s: Seq<char>) -> Seq<char>;

/// Canonical composition (NFC) as `unicode_normalization` computes it.
pub uninterp spec fn spec_nfc(s: Seq<char>) -> Seq<char>;

/// Compatibility composition (NFKC) as `unicode_normalization` computes it.
pub uninterp spec fn spec_nfkc(s: Seq<char>) -> Seq<char>;

/// Full Unicode case folding of one character as `unicode_casefold` computes it.
pub uninterp spec fn spec_case_fold_char(c: char) -> Seq<char>;

/// `char::is_lowercase` (the Unicode `Lowercase` property).
pub uninterp spec fn spec_is_lowercase(c: char) -> bool;

/// `char::is_uppercase` (the Unicode `Uppercase` property).
pub uninterp spec fn spec_is_uppercase(c: char) -> bool;

/// `char::to_uppercase`: the full uppercase mapping of one character.
pub uninterp spec fn spec_to_uppercase(c: char) -> Seq<char>;

/// `char::to_lowercase`: the full lowercase mapping of one character.
pub uninterp spec fn spec_to_lowercase(c: char) -> Seq<char>;

/// `UnicodeNormalization::nfd` of `unicode_normalization`; the result is
/// named, not described.
#[verifier::external_body]
fn nfd(s: &str) -> (r: String)
    ensures
        r@ == spec_nfd(s@),
{
    s.nfd().collect()
}

/// `UnicodeNormalization::nfkd` of `unicode_normalization`; the result is
/// named, not described.
#[verifier::external_body]
fn nfkd(s: &str) -> (r: String)
    ensures
        r@ == spec_nfkd(s@),
{
    s.nfkd().collect()
}

/// `UnicodeNormalization::nfc` of `unicode_normalization`; the result is
/// named, not described.
#[verifier::external_body]
fn nfc(s: &str) -> (r: String)
    ensures
        r@ == spec_nfc(s@),
{
    s.nfc().collect()
}

/// `UnicodeNormalization::nfkc` of `unicode_normalization`; the result is
/// named, not described.
#[verifier::external_body]
fn nfkc(s: &str) -> (r: String)
    ensures
        r@ == spec_nfkc(s@),
{
    s.nfkc().collect()
}

/// `UnicodeCaseFold::case_fold` of `unicode_casefold` on one character
/// (full folding, non-Turkic); the result is named, not described.
#[verifier::external_body]
fn case_fold_char(c: char) -> (r: Vec<char>)
    ensures
        r@ == spec_case_fold_char(c),
{
    c.case_fold().collect()
}

/// `char::is_lowercase` of std.
#[verifier::external_body]
fn is_lowercase(c: char) -> (r: bool)
    ensures
        r == spec_is_lowercase(c),
{
    c.is_lowercase()
}

/// `char::is_uppercase` of std.
#[verifier::external_body]
fn is_uppercase(c: char) -> (r: bool)
    ensures
        r == spec_is_uppercase(c),
{
    c.is_uppercase()
}

/// `char::to_uppercase` of std, collected.
#[verifier::external_body]
fn to_uppercase(c: char) -> (r: Vec<char>)
    ensures
        r@ == spec_to_uppercase(c),
{
    c.to_uppercase().collect()
}

/// `char::to_lowercase` of std, collected.
#[verifier::external_body]
fn to_lowercase(c: char) -> (r: Vec<char>)
    ensures
        r@ == spec_to_lowercase(c),
{
    c.to_lowercase().collect()
}

/// The normalization form that the options select: composed forms under
/// locale collation, decomposed forms otherwise; compatibility forms when
/// asked for.
pub open spec fn spec_normalize(s: Seq<char>, compatibility: bool, compose: bool) -> Seq<char> {
    if compatibility {
        if compose {
            spec_nfkc(s)
        } else {
            spec_nfkd(s)
        }
    } else if compose {
        spec_nfc(s)
    } else {
        spec_nfd(s)
    }
}

/// Unicode normalization of the input: NFD, or NFKD when
/// `compatibility_normalize` is set.
pub fn normalize_input(input: &str, compatibility_normalize: bool) -> (r: String)
    ensures
        r@ == spec_normalize(input@, compatibility_normalize, false),
{
    if compatibility_normalize {
        nfkd(input)
    } else {
        nfd(input)
    }
}

/// Normalization in any of the four forms.
pub fn normalize_form(input: &str, compatibility: bool, compose: bool) -> (r: String)
    ensures
        r@ == spec_normalize(input@, compatibility, compose),
{
    if compatibility {
        if compose {
            nfkc(input)
        } else {
            nfkd(input)
        }
    } else if compose {
        nfc(input)
    } else {
        nfd(input)
    }
}

/// One character with its case swapped.
pub open spec fn swap_char(c: char) -> Seq<char> {
    if spec_is_lowercase(c) {
        spec_to_uppercase(c)
    } else if spec_is_uppercase(c) {
        spec_to_lowercase(c)
    } else {
        seq![c]
    }
}

/// Swapping the case of a one-character string swaps that character.
pub proof fn lemma_swap_case_single(c: char)
    ensures
        spec_swap_case(seq![c]) == swap_char(c),
{
    let s = seq![c];
    lemma_flat_map_step(s, 0, swap_fn());
    assert(s.take(1) =~= s);
    assert(s.take(0) =~= Seq::<char>::empty());
    assert(flat_map_chars(Seq::<char>::empty(), swap_fn()) == Seq::<char>::empty());
    assert(Seq::<char>::empty() + swap_char(c) =~= swap_char(c));
}

/// Every lowercase character uppercased and every uppercase character
/// lowercased (full mappings, so one character may become several).
pub open spec fn spec_swap_case(s: Seq<char>) -> Seq<char> {
    flat_map_chars(s, swap_fn())
}

/// [`swap_char`] as a function value.
pub open spec fn swap_fn() -> spec_fn(char) -> Seq<char> {
    |c: char| swap_char(c)
}

/// Full case folding of a string.
pub open spec fn spec_case_fold(s: Seq<char>) -> Seq<char> {
    flat_map_chars(s, |c: char| spec_case_fold_char(c))
}

/// Each character preceded by its case fold, so that upper and lower case
/// of a letter sort next to each other.
pub open spec fn spec_group_letters(s: Seq<char>) -> Seq<char> {
    flat_map_chars(s, |c: char| spec_case_fold_char(c).push(c))
}

pub fn swap_case_chars(input: &Vec<char>) -> (r: Vec<char>)
    ensures
        r@ == spec_swap_case(input@),
{
    let mut out: Vec<char> = Vec::new();
    let mut i: usize = 0;
    while i < input.len()
        invariant
            i <= input.len(),
            out@ == flat_map_chars(input@.take(i as int), swap_fn()),
        decreases input.len() - i,
    {
        let c = input[i];
        let mut mapped = if is_lowercase(c) {
            to_uppercase(c)
        } else if is_uppercase(c) {
            to_lowercase(c)
        } else {
            vec![c]
        };
        proof {
            lemma_flat_map_step(input@, i as int, swap_fn());
        }
        out.append(&mut mapped);
        i += 1;
    }
    assert(input@.take(input@.len() as int) =~= input@);
    out
}

pub fn case_fold_chars(input: &Vec<char>) -> (r: Vec<char>)
    ensures
        r@ == spec_case_fold(input@),
{
    let mut out: Vec<char> = Vec::new();
    let mut i: usize = 0;
    while i < input.len()
        invariant
            i <= input.len(),
            out@ == flat_map_chars(input@.take(i as int), |c: char| spec_case_fold_char(c)),
        decreases input.len() - i,
    {
        let mut folded = case_fold_char(input[i]);
        proof {
            lemma_flat_map_step(input@, i as int, |c: char| spec_case_fold_char(c));
        }
        out.append(&mut folded);
        i += 1;
    }
    assert(input@.take(input@.len() as int) =~= input@);
    out
}

pub fn group_letters_chars(input: &Vec<char>) -> (r: Vec<char>)
    ensures
        r@ == spec_group_letters(input@),
{
    let mut out: Vec<char> = Vec::new();
    let mut i: usize = 0;
    while i < input.len()
        invariant
            i <= input.len(),
            out@ == flat_map_chars(input@.take(i as int), |c: char| spec_case_fold_char(c).push(c)),
        decreases input.len() - i,
    {
        let c = input[i];
        let mut folded = case_fold_char(c);
        folded.push(c);
        proof {
            lemma_flat_map_step(input@, i as int, |c: char| spec_case_fold_char(c).push(c));
        }
        out.append(&mut folded);
        i += 1;
    }
    assert(input@.take(input@.len() as int) =~= input@);
    out
}

/// Swap upper and lower case.
pub fn swap_case(input: &str) -> (r: String)
    ensures
        r@ == spec_swap_case(input@),
{
    let chars = chars_of(input);
    let swapped = swap_case_chars(&chars);
    string_from_chars(swapped.as_slice())
}

/// Full Unicode case folding.
pub fn case_fold(input: &str) -> (r: String)
    ensures
        r@ == spec_case_fold(input@),
{
    let chars = chars_of(input);
    let folded = case_fold_chars(&chars);
    string_from_chars(folded.as_slice())
}

/// Precede every character with its case fold.
pub fn group_letters(input: &str) -> (r: String)
    ensures
        r@ == spec_group_letters(input@),
{
    let chars = chars_of(input);
    let grouped = group_letters_chars(&chars);
    string_from_chars(grouped.as_slice())
}


/// Locale collation is asked for and the locale collates by code point (C
/// or POSIX): then case is swapped and letters are grouped, so that code
/// point order puts lowercase first and keeps a letter's cases together.
pub open spec fn dumb_collation(o: SortOptions, identifier: Seq<char>) -> bool {
    o.locale_alpha && is_c_locale(normalized_identifier(identifier))
}

/// The input in the normalization form the options select.
pub open spec fn normalized_input(s: Seq<char>, o: SortOptions) -> Seq<char> {
    spec_normalize(s, o.compatibility_normalize, o.locale_alpha)
}

/// A normalized input after the case and locale transforms: case swapped
/// when lowercase-first is asked for (or, under code point collation, when
/// it is not), case folded when case is ignored, localized numbers
/// rewritten when locale numbers are asked for.
pub open spec fn transformed_input(x: Seq<char>, o: SortOptions, identifier: Seq<char>) -> Seq<char> {
    let a = if o.lowercase_first != dumb_collation(o, identifier) {
        spec_swap_case(x)
    } else {
        x
    };
    let b = if o.ignore_case {
        spec_case_fold(a)
    } else {
        a
    };
    if o.locale_numeric {
        localized_numbers(b, normalized_identifier(identifier), o.float)
    } else {
        b
    }
}

/// The text that is split into tokens.
pub open spec fn prepared(s: Seq<char>, o: SortOptions, identifier: Seq<char>) -> Seq<char> {
    transformed_input(normalized_input(s, o), o, identifier)
}

/// Whether the identifier names a code point collation and the options ask
/// for locale collation.
pub fn dumb_collation_for(options: SortOptions, identifier: &str) -> (r: bool)
    ensures
        r == dumb_collation(options, identifier@),
{
    if !options.locale_alpha {
        return false;
    }
    let n = normalize_identifier(identifier);
    c_locale(&n)
}

/// The case and locale transforms (see [`transformed_input`]).
pub fn transform_input(normalized: &str, options: SortOptions, identifier: &str) -> (r: String)
    ensures
        r@ == transformed_input(normalized@, options, identifier@),
{
    let dumb = dumb_collation_for(options, identifier);
    let chars = chars_of(normalized);
    let a = if options.lowercase_first != dumb {
        swap_case_chars(&chars)
    } else {
        chars
    };
    let b = if options.ignore_case {
        case_fold_chars(&a)
    } else {
        a
    };
    let text = string_from_chars(b.as_slice());
    if options.locale_numeric {
        let n = normalize_identifier(identifier);
        normalize_localized_numbers_for(text.as_str(), &n, options.float)
    } else {
        text
    }
}

/// The text that is split into tokens, for a locale identifier (see
/// [`prepared`]).
pub fn prepare_input_in(input: &str, options: SortOptions, identifier: &str) -> (r: String)
    ensures
        r@ == prepared(input@, options, identifier@),
{
    let normalized = normalize_form(input, options.compatibility_normalize, options.locale_alpha);
    transform_input(normalized.as_str(), options, identifier)
}

/// The locale identifier that sorting with these options uses: the profile's
/// identifier, except that a system profile that no locale option consults
/// is not looked up.
pub fn locale_identifier(options: SortOptions) -> (r: String)
    ensures
        options.locale_profile != LocaleProfile::System || !(options.locale_alpha
            || options.locale_numeric) ==> r@ == fixed_identifier(options.locale_profile),
{
    if let LocaleProfile::System = options.locale_profile {
        if !(options.locale_alpha || options.locale_numeric) {
            return string_from_chars(&['e', 'n', '-', 'U', 'S']);
        }
    }
    options.locale_profile.identifier()
}

/// The text that is split into tokens: normalized, case transformed and,
/// with locale numbers, with localized numbers rewritten.
pub fn prepare_input(input: &str, options: SortOptions) -> (r: String)
    ensures
        options.locale_profile != LocaleProfile::System || !(options.locale_alpha
            || options.locale_numeric) ==> r@ == prepared(
            input@,
            options,
            fixed_identifier(options.locale_profile),
        ),
{
    let id = locale_identifier(options);
    prepare_input_in(input, options, id.as_str())
}

/// A text token as it is compared: with its letters grouped when asked for.
pub fn transform_text_component(input: &str, options: SortOptions) -> (r: String)
    ensures
        r@ == if options.group_letters {
            spec_group_letters(input@)
        } else {
            input@
        },
{
    if options.group_letters {
        group_letters(input)
    } else {
        let chars = chars_of(input);
        string_from_chars(chars.as_slice())
    }
}

} // verus!
