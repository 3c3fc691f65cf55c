//! The natural sort key of a string, and the order of keys.
//!
//! A key is a sequence of components (one per path component in path mode,
//! one otherwise). A component is an optional capital-first prefix and a
//! sequence of tokens: text (compared by code point or by a collation key)
//! and numbers (compared by value). A component whose first token is a
//! number starts with an empty text token (or, with numbers after text, a
//! text of twenty `U+10FFFF`), so numbers sort before (or after) text.
use vstd::prelude::*;

use crate::chars::{chars_of, string_from_chars};
use crate::locale::{locale_key_for, locale_sort_key_for};
use crate::number::{
    NumericParts, SpecNumber, compare_char_slices, compare_numbers, lemma_number_order,
    number_compare, number_order, parse_number, parse_numeric_parts,
};
use crate::options::SortOptions;
use crate::order::{
    by_order, byte_order, char_order, lemma_by_order, lemma_byte_order, lemma_char_order,
    lemma_lex_order, lemma_lex_step, lemma_option_order, lemma_suffix_zero, lemma_then_order,
    lex_compare, lex_order, option_order, sign, suffix_from, then_order, total_preorder,
};
use crate::path::{path_component_chars, path_components_of};
use crate::text::{
    dumb_collation, dumb_collation_for, group_letters_chars, normalize_form, normalized_input,
    lemma_swap_case_single, prepare_input_in, prepared, spec_group_letters, swap_char,
    swap_case_chars,
};
use crate::token::{SpecToken, Token, spec_tokenize, tokenize, tokens_view};

verus! {

/// A token of a key.
pub enum SpecKeyToken {
    /// Text compared by code point.
    Text(Seq<char>),
    /// Text compared by its collation key.
    Collated(Seq<u8>),
    /// A number compared by value.
    Number(SpecNumber),
}

/// A component of a key.
pub struct SpecComponent {
    pub prefix: Option<Seq<char>>,
    pub tokens: Seq<SpecKeyToken>,
}

/// The text token put before a leading number: empty, or twenty `U+10FFFF`
/// when numbers go after text.
pub open spec fn number_separator(o: SortOptions) -> Seq<char> {
    if o.num_after {
        Seq::new(20, |i: int| '\u{10FFFF}')
    } else {
        Seq::empty()
    }
}

/// A text as a key token: its collation key under locale collation, the text
/// itself otherwise.
pub open spec fn text_key(x: Seq<char>, o: SortOptions, identifier: Seq<char>) -> SpecKeyToken {
    if o.locale_alpha {
        SpecKeyToken::Collated(locale_key_for(x, identifier))
    } else {
        SpecKeyToken::Text(x)
    }
}

/// A token of the prepared text as a key token: text with its letters
/// grouped when asked for (or under code point collation), numbers by
/// value.
pub open spec fn key_token(t: SpecToken, o: SortOptions, identifier: Seq<char>) -> SpecKeyToken {
    match t {
        SpecToken::Text(x) => text_key(
            if o.group_letters || dumb_collation(o, identifier) {
                spec_group_letters(x)
            } else {
                x
            },
            o,
            identifier,
        ),
        SpecToken::Number(n) => SpecKeyToken::Number(parse_number(n, o.float)),
    }
}

/// The tokens of the prepared text of `s`.
pub open spec fn text_tokens(s: Seq<char>, o: SortOptions, identifier: Seq<char>) -> Seq<SpecToken> {
    spec_tokenize(prepared(s, o, identifier), o.signed, o.float, o.no_exp)
}

/// The key tokens of one component.
pub open spec fn component_tokens(s: Seq<char>, o: SortOptions, identifier: Seq<char>) -> Seq<
    SpecKeyToken,
> {
    let toks = text_tokens(s, o, identifier);
    let mapped = toks.map_values(|t: SpecToken| key_token(t, o, identifier));
    if toks.len() > 0 && toks[0] is Number {
        seq![text_key(number_separator(o), o, identifier)] + mapped
    } else {
        mapped
    }
}

/// With capital-first under locale collation: the first character of the
/// text (case swapped under code point collation with lowercase first), the
/// number separator where the text starts with a number, nothing for an
/// empty text. Without: nothing.
pub open spec fn capital_prefix(s: Seq<char>, o: SortOptions, identifier: Seq<char>) -> Option<
    Seq<char>,
> {
    let toks = text_tokens(s, o, identifier);
    let dumb = dumb_collation(o, identifier);
    let original = if dumb {
        normalized_input(s, o)
    } else {
        prepared(s, o, identifier)
    };
    if !(o.capital_first && o.locale_alpha) || toks.len() == 0 || original.len() == 0 {
        None
    } else if toks[0] is Number {
        Some(number_separator(o))
    } else if dumb && o.lowercase_first {
        Some(swap_char(original[0]))
    } else {
        Some(seq![original[0]])
    }
}

/// The key component of one string.
pub open spec fn component_of(s: Seq<char>, o: SortOptions, identifier: Seq<char>) -> SpecComponent {
    SpecComponent {
        prefix: capital_prefix(s, o, identifier),
        tokens: component_tokens(s, o, identifier),
    }
}

/// The natural sort key of a string: one component per path component in
/// path mode, one component otherwise.
pub open spec fn natural_key(s: Seq<char>, o: SortOptions, identifier: Seq<char>) -> Seq<
    SpecComponent,
> {
    if o.path {
        path_components_of(s).map_values(|c: Seq<char>| component_of(c, o, identifier))
    } else {
        seq![component_of(s, o, identifier)]
    }
}

/// Text before numbers; code point text before collated text (the two never
/// meet in one sort).
pub open spec fn token_rank(t: SpecKeyToken) -> int {
    match t {
        SpecKeyToken::Text(_) => 0,
        SpecKeyToken::Collated(_) => 1,
        SpecKeyToken::Number(_) => 2,
    }
}

/// Three-way comparison of key tokens.
pub open spec fn token_compare(a: SpecKeyToken, b: SpecKeyToken) -> int {
    if token_rank(a) != token_rank(b) {
        sign(token_rank(a) - token_rank(b))
    } else {
        match (a, b) {
            (SpecKeyToken::Text(x), SpecKeyToken::Text(y)) => lex_compare(x, y, char_order()),
            (SpecKeyToken::Collated(x), SpecKeyToken::Collated(y)) => lex_compare(
                x,
                y,
                byte_order(),
            ),
            (SpecKeyToken::Number(x), SpecKeyToken::Number(y)) => number_compare(x, y),
            _ => 0,
        }
    }
}

pub open spec fn token_order() -> spec_fn(SpecKeyToken, SpecKeyToken) -> int {
    |a: SpecKeyToken, b: SpecKeyToken| token_compare(a, b)
}

/// Components compare by prefix, then by their tokens lexicographically.
pub open spec fn component_order() -> spec_fn(SpecComponent, SpecComponent) -> int {
    then_order(
        by_order(|c: SpecComponent| c.prefix, option_order(lex_order(char_order()))),
        by_order(|c: SpecComponent| c.tokens, lex_order(token_order())),
    )
}

/// Keys compare by their components lexicographically.
pub open spec fn key_order() -> spec_fn(Seq<SpecComponent>, Seq<SpecComponent>) -> int {
    lex_order(component_order())
}

/// The text whose first character capital-first sorts by: the normalized
/// input under code point collation, the prepared text otherwise.
pub open spec fn capital_source(s: Seq<char>, o: SortOptions, identifier: Seq<char>) -> Seq<char> {
    if dumb_collation(o, identifier) {
        normalized_input(s, o)
    } else {
        prepared(s, o, identifier)
    }
}

/// The text starts with text, not with a number, and is not empty.
pub open spec fn starts_with_text_token(s: Seq<char>, o: SortOptions, identifier: Seq<char>) -> bool {
    &&& text_tokens(s, o, identifier).len() > 0
    &&& text_tokens(s, o, identifier)[0] is Text
    &&& capital_source(s, o, identifier).len() > 0
}

/// Capital first under locale collation sorts by the first character before
/// anything else: of two texts that start with text (not a number), the one
/// whose first character has the lower code point sorts first, whatever the
/// locale's collation makes of the rest. So every text that starts with an
/// uppercase ASCII letter comes before every text that starts with a
/// lowercase one. (Under code point collation with lowercase first the
/// first characters' cases are swapped instead; that case is left out.)
pub proof fn law_capital_first_sorts_by_first_character(
    s1: Seq<char>,
    s2: Seq<char>,
    o: SortOptions,
    identifier: Seq<char>,
)
    requires
        o.capital_first,
        o.locale_alpha,
        !o.path,
        !(dumb_collation(o, identifier) && o.lowercase_first),
        starts_with_text_token(s1, o, identifier),
        starts_with_text_token(s2, o, identifier),
        capital_source(s1, o, identifier)[0] < capital_source(s2, o, identifier)[0],
    ensures
        key_order()(natural_key(s1, o, identifier), natural_key(s2, o, identifier)) == -1,
{
    let c1 = component_of(s1, o, identifier);
    let c2 = component_of(s2, o, identifier);
    let a = capital_source(s1, o, identifier)[0];
    let b = capital_source(s2, o, identifier)[0];
    assert(c1.prefix == Some(seq![a]));
    assert(c2.prefix == Some(seq![b]));
    assert(char_order()(a, b) == -1);
    assert(lex_compare(seq![a], seq![b], char_order()) == -1);
    let p = by_order(|c: SpecComponent| c.prefix, option_order(lex_order(char_order())));
    assert(p(c1, c2) == -1);
    assert(component_order()(c1, c2) == -1);
    assert(natural_key(s1, o, identifier) == seq![c1]);
    assert(natural_key(s2, o, identifier) == seq![c2]);
    assert(lex_compare(seq![c1], seq![c2], component_order()) == -1);
}

/// The order of key tokens is a total preorder.
pub proof fn lemma_token_order()
    ensures
        total_preorder(token_order()),
{
    let t = token_order();
    let lc = lex_order(char_order());
    let lb = lex_order(byte_order());
    let n = number_order();
    lemma_char_order();
    lemma_byte_order();
    lemma_lex_order(char_order());
    lemma_lex_order(byte_order());
    lemma_number_order();
    assert forall|x: SpecKeyToken, y: SpecKeyToken| #[trigger] t(x, y) == -t(y, x) && -1 <= t(x, y)
        <= 1 by {
        match (x, y) {
            (SpecKeyToken::Text(a), SpecKeyToken::Text(b)) => {
                assert(lc(a, b) == -lc(b, a));
            },
            (SpecKeyToken::Collated(a), SpecKeyToken::Collated(b)) => {
                assert(lb(a, b) == -lb(b, a));
            },
            (SpecKeyToken::Number(a), SpecKeyToken::Number(b)) => {
                assert(n(a, b) == -n(b, a));
            },
            _ => {},
        }
    }
    assert forall|x: SpecKeyToken, y: SpecKeyToken, z: SpecKeyToken| #[trigger]
        t(x, y) <= 0 && #[trigger] t(y, z) <= 0 implies t(x, z) <= 0 by {
        if token_rank(x) == token_rank(y) && token_rank(y) == token_rank(z) {
            match (x, y, z) {
                (SpecKeyToken::Text(a), SpecKeyToken::Text(b), SpecKeyToken::Text(c)) => {
                    assert(lc(a, b) <= 0 && lc(b, c) <= 0);
                },
                (
                    SpecKeyToken::Collated(a),
                    SpecKeyToken::Collated(b),
                    SpecKeyToken::Collated(c),
                ) => {
                    assert(lb(a, b) <= 0 && lb(b, c) <= 0);
                },
                (SpecKeyToken::Number(a), SpecKeyToken::Number(b), SpecKeyToken::Number(c)) => {
                    assert(n(a, b) <= 0 && n(b, c) <= 0);
                },
                _ => {},
            }
        }
    }
}

/// The order of components is a total preorder.
pub proof fn lemma_component_order()
    ensures
        total_preorder(component_order()),
{
    lemma_char_order();
    lemma_lex_order(char_order());
    lemma_option_order(lex_order(char_order()));
    lemma_by_order(|c: SpecComponent| c.prefix, option_order(lex_order(char_order())));
    lemma_token_order();
    lemma_lex_order(token_order());
    lemma_by_order(|c: SpecComponent| c.tokens, lex_order(token_order()));
    lemma_then_order(
        by_order(|c: SpecComponent| c.prefix, option_order(lex_order(char_order()))),
        by_order(|c: SpecComponent| c.tokens, lex_order(token_order())),
    );
}

/// The order of natural sort keys is a total preorder: comparing keys is
/// antisymmetric and transitive.
pub proof fn lemma_key_order()
    ensures
        total_preorder(key_order()),
{
    lemma_component_order();
    lemma_lex_order(component_order());
}

/// A token of a key.
pub enum KeyToken {
    Text(Vec<char>),
    Collated(Vec<u8>),
    Number(NumericParts),
}

impl View for KeyToken {
    type V = SpecKeyToken;

    open spec fn view(&self) -> SpecKeyToken {
        match self {
            KeyToken::Text(x) => SpecKeyToken::Text(x@),
            KeyToken::Collated(x) => SpecKeyToken::Collated(x@),
            KeyToken::Number(n) => SpecKeyToken::Number(n@),
        }
    }
}

pub open spec fn key_tokens_view(t: Seq<KeyToken>) -> Seq<SpecKeyToken> {
    t.map_values(|k: KeyToken| k@)
}

/// A component of a key.
pub struct KeyComponent {
    pub prefix: Option<Vec<char>>,
    pub tokens: Vec<KeyToken>,
}

impl View for KeyComponent {
    type V = SpecComponent;

    open spec fn view(&self) -> SpecComponent {
        SpecComponent {
            prefix: match self.prefix {
                Some(p) => Some(p@),
                None => None,
            },
            tokens: key_tokens_view(self.tokens@),
        }
    }
}

pub open spec fn components_view(c: Seq<KeyComponent>) -> Seq<SpecComponent> {
    c.map_values(|k: KeyComponent| k@)
}

/// The natural sort key of a string, computed once and compared many times.
pub struct SortKey {
    pub components: Vec<KeyComponent>,
}

impl View for SortKey {
    type V = Seq<SpecComponent>;

    open spec fn view(&self) -> Seq<SpecComponent> {
        components_view(self.components@)
    }
}

/// The text put before a leading number: empty, or twenty `U+10FFFF` when
/// numbers go after text.
pub fn numeric_prefix(options: SortOptions) -> (r: &'static str)
    ensures
        r@ == number_separator(options),
{
    if options.num_after {
        let r = "\u{10FFFF}\u{10FFFF}\u{10FFFF}\u{10FFFF}\u{10FFFF}\u{10FFFF}\u{10FFFF}\u{10FFFF}\u{10FFFF}\u{10FFFF}\u{10FFFF}\u{10FFFF}\u{10FFFF}\u{10FFFF}\u{10FFFF}\u{10FFFF}\u{10FFFF}\u{10FFFF}\u{10FFFF}\u{10FFFF}";
        proof {
            reveal_strlit("\u{10FFFF}\u{10FFFF}\u{10FFFF}\u{10FFFF}\u{10FFFF}\u{10FFFF}\u{10FFFF}\u{10FFFF}\u{10FFFF}\u{10FFFF}\u{10FFFF}\u{10FFFF}\u{10FFFF}\u{10FFFF}\u{10FFFF}\u{10FFFF}\u{10FFFF}\u{10FFFF}\u{10FFFF}\u{10FFFF}");
        }
        assert(r@ =~= number_separator(options));
        r
    } else {
        let r = "";
        proof {
            reveal_strlit("");
        }
        assert(r@ =~= number_separator(options));
        r
    }
}

fn number_separator_chars(options: SortOptions) -> (r: Vec<char>)
    ensures
        r@ == number_separator(options),
{
    let mut out: Vec<char> = Vec::new();
    if options.num_after {
        let mut i: usize = 0;
        while i < 20
            invariant
                i <= 20,
                out@ =~= Seq::new(i as nat, |k: int| '\u{10FFFF}'),
            decreases 20 - i,
        {
            out.push('\u{10FFFF}');
            i += 1;
        }
    }
    assert(out@ =~= number_separator(options));
    out
}

fn text_key_token(x: Vec<char>, options: SortOptions, identifier: &str) -> (r: KeyToken)
    ensures
        r@ == text_key(x@, options, identifier@),
{
    if options.locale_alpha {
        let text = string_from_chars(x.as_slice());
        KeyToken::Collated(locale_sort_key_for(text.as_str(), identifier))
    } else {
        KeyToken::Text(x)
    }
}

fn key_token_of(t: &Token, options: SortOptions, identifier: &str, dumb: bool) -> (r: KeyToken)
    requires
        dumb == dumb_collation(options, identifier@),
    ensures
        r@ == key_token(t@, options, identifier@),
{
    match t {
        Token::Text(x) => {
            let chars = chars_of(x.as_str());
            let grouped = if options.group_letters || dumb {
                group_letters_chars(&chars)
            } else {
                chars
            };
            text_key_token(grouped, options, identifier)
        },
        Token::Number(n) => {
            let chars = chars_of(n.as_str());
            KeyToken::Number(parse_numeric_parts(&chars, options.float))
        },
    }
}

/// The key component of one string (see [`component_of`]).
pub fn component_key(s: &str, options: SortOptions, identifier: &str) -> (r: KeyComponent)
    ensures
        r@ == component_of(s@, options, identifier@),
{
    let dumb = dumb_collation_for(options, identifier);
    let text = prepare_input_in(s, options, identifier);
    let toks = tokenize(text.as_str(), options.signed, options.float, options.no_exp);
    let ghost spec_toks = text_tokens(s@, options, identifier@);
    assert(tokens_view(toks@) == spec_toks);
    let mut tokens: Vec<KeyToken> = Vec::new();
    let leading_number = toks.len() > 0 && match &toks[0] {
        Token::Number(_) => true,
        Token::Text(_) => false,
    };
    assert(leading_number == (spec_toks.len() > 0 && spec_toks[0] is Number));
    if leading_number {
        let sep = number_separator_chars(options);
        tokens.push(text_key_token(sep, options, identifier));
    }
    let ghost lead = key_tokens_view(tokens@);
    let mut i: usize = 0;
    while i < toks.len()
        invariant
            i <= toks.len(),
            dumb == dumb_collation(options, identifier@),
            spec_toks == tokens_view(toks@),
            key_tokens_view(tokens@) =~= lead + spec_toks.subrange(0, i as int).map_values(
                |t: SpecToken| key_token(t, options, identifier@),
            ),
        decreases toks.len() - i,
    {
        let k = key_token_of(&toks[i], options, identifier, dumb);
        let ghost before = key_tokens_view(tokens@);
        tokens.push(k);
        proof {
            assert(spec_toks.subrange(0, i + 1) =~= spec_toks.subrange(0, i as int).push(
                spec_toks[i as int],
            ));
            assert(key_tokens_view(tokens@) =~= before.push(k@));
        }
        i += 1;
    }
    assert(spec_toks.subrange(0, i as int) =~= spec_toks);
    let prefix = if !(options.capital_first && options.locale_alpha) || toks.len() == 0 {
        None
    } else if leading_number {
        Some(number_separator_chars(options))
    } else {
        let original = if dumb {
            let normalized = normalize_form(
                s,
                options.compatibility_normalize,
                options.locale_alpha,
            );
            chars_of(normalized.as_str())
        } else {
            chars_of(text.as_str())
        };
        if original.len() == 0 {
            None
        } else if dumb && options.lowercase_first {
            let first = vec![original[0]];
            assert(first@ =~= seq![original@[0]]);
            let swapped = swap_case_chars(&first);
            proof {
                lemma_swap_case_single(original@[0]);
            }
            Some(swapped)
        } else {
            let first = vec![original[0]];
            assert(first@ =~= seq![original@[0]]);
            Some(first)
        }
    };
    let r = KeyComponent { prefix, tokens };
    assert(r@.prefix == capital_prefix(s@, options, identifier@));
    assert(r@.tokens == component_tokens(s@, options, identifier@));
    r
}

/// The natural sort key of a string (see [`natural_key`]).
#[verifier::rlimit(40)]
pub fn sort_key(s: &str, options: SortOptions, identifier: &str) -> (r: SortKey)
    ensures
        r@ == natural_key(s@, options, identifier@),
{
    let mut components: Vec<KeyComponent> = Vec::new();
    if options.path {
        let parts = path_component_chars(s);
        let ghost pv = parts@.map_values(|v: Vec<char>| v@);
        let mut i: usize = 0;
        while i < parts.len()
            invariant
                i <= parts.len(),
                pv == parts@.map_values(|v: Vec<char>| v@),
                pv == path_components_of(s@),
                components_view(components@) =~= pv.subrange(0, i as int).map_values(
                    |c: Seq<char>| component_of(c, options, identifier@),
                ),
            decreases parts.len() - i,
        {
            let text = string_from_chars(parts[i].as_slice());
            let c = component_key(text.as_str(), options, identifier);
            let ghost before = components_view(components@);
            components.push(c);
            proof {
                assert(pv.subrange(0, i + 1) =~= pv.subrange(0, i as int).push(pv[i as int]));
                assert(components_view(components@) =~= before.push(c@));
            }
            i += 1;
        }
        assert(pv.subrange(0, i as int) =~= pv);
    } else {
        let c = component_key(s, options, identifier);
        components.push(c);
        assert(components_view(components@) =~= seq![component_of(s@, options, identifier@)]);
    }
    SortKey { components }
}

/// Three-way comparison of two byte strings.
pub fn compare_byte_slices(a: &[u8], b: &[u8]) -> (r: i8)
    ensures
        r as int == lex_compare(a@, b@, byte_order()),
{
    let mut i: usize = 0;
    proof {
        lemma_suffix_zero(a@);
        lemma_suffix_zero(b@);
    }
    while i < a.len() && i < b.len() && a[i] == b[i]
        invariant
            i <= a.len(),
            i <= b.len(),
            lex_compare(a@, b@, byte_order()) == lex_compare(
                suffix_from(a@, i as int),
                suffix_from(b@, i as int),
                byte_order(),
            ),
        decreases a.len() - i,
    {
        proof {
            lemma_lex_step(a@, b@, i as int, byte_order());
        }
        i += 1;
    }
    proof {
        lemma_lex_step(a@, b@, i as int, byte_order());
    }
    if i == a.len() && i == b.len() {
        0
    } else if i == a.len() {
        -1
    } else if i == b.len() {
        1
    } else if a[i] < b[i] {
        -1
    } else {
        1
    }
}

/// Three-way comparison of two key tokens.
pub fn compare_key_tokens(a: &KeyToken, b: &KeyToken) -> (r: i8)
    ensures
        r as int == token_compare(a@, b@),
{
    match (a, b) {
        (KeyToken::Text(x), KeyToken::Text(y)) => compare_char_slices(x.as_slice(), y.as_slice()),
        (KeyToken::Collated(x), KeyToken::Collated(y)) => compare_byte_slices(
            x.as_slice(),
            y.as_slice(),
        ),
        (KeyToken::Number(x), KeyToken::Number(y)) => compare_numbers(x, y),
        (KeyToken::Text(_), _) => -1,
        (_, KeyToken::Number(_)) => -1,
        _ => 1,
    }
}

fn compare_token_lists(a: &Vec<KeyToken>, b: &Vec<KeyToken>) -> (r: i8)
    ensures
        r as int == lex_compare(key_tokens_view(a@), key_tokens_view(b@), token_order()),
{
    let ghost av = key_tokens_view(a@);
    let ghost bv = key_tokens_view(b@);
    proof {
        lemma_suffix_zero(av);
        lemma_suffix_zero(bv);
    }
    let mut i: usize = 0;
    while i < a.len() && i < b.len()
        invariant
            i <= a.len(),
            i <= b.len(),
            av == key_tokens_view(a@),
            bv == key_tokens_view(b@),
            lex_compare(av, bv, token_order()) == lex_compare(
                suffix_from(av, i as int),
                suffix_from(bv, i as int),
                token_order(),
            ),
        decreases a.len() - i,
    {
        let c = compare_key_tokens(&a[i], &b[i]);
        proof {
            lemma_lex_step(av, bv, i as int, token_order());
        }
        if c != 0 {
            return c;
        }
        i += 1;
    }
    proof {
        lemma_lex_step(av, bv, i as int, token_order());
    }
    if i == a.len() && i == b.len() {
        0
    } else if i == a.len() {
        -1
    } else {
        1
    }
}

fn compare_prefixes(a: &Option<Vec<char>>, b: &Option<Vec<char>>) -> (r: i8)
    ensures
        r as int == option_order(lex_order(char_order()))(
            match a {
                Some(p) => Some(p@),
                None => None,
            },
            match b {
                Some(p) => Some(p@),
                None => None,
            },
        ),
{
    match (a, b) {
        (None, None) => 0,
        (None, Some(_)) => -1,
        (Some(_), None) => 1,
        (Some(x), Some(y)) => compare_char_slices(x.as_slice(), y.as_slice()),
    }
}

/// Three-way comparison of two key components.
pub fn compare_components(a: &KeyComponent, b: &KeyComponent) -> (r: i8)
    ensures
        r as int == component_order()(a@, b@),
{
    let p = compare_prefixes(&a.prefix, &b.prefix);
    if p != 0 {
        return p;
    }
    compare_token_lists(&a.tokens, &b.tokens)
}

/// Three-way comparison of two natural sort keys.
pub fn compare_sort_keys(a: &SortKey, b: &SortKey) -> (r: i8)
    ensures
        r as int == key_order()(a@, b@),
{
    let ghost av = a@;
    let ghost bv = b@;
    proof {
        lemma_suffix_zero(av);
        lemma_suffix_zero(bv);
    }
    let mut i: usize = 0;
    while i < a.components.len() && i < b.components.len()
        invariant
            i <= a.components.len(),
            i <= b.components.len(),
            av == a@,
            bv == b@,
            lex_compare(av, bv, component_order()) == lex_compare(
                suffix_from(av, i as int),
                suffix_from(bv, i as int),
                component_order(),
            ),
        decreases a.components.len() - i,
    {
        let c = compare_components(&a.components[i], &b.components[i]);
        proof {
            lemma_lex_step(av, bv, i as int, component_order());
        }
        if c != 0 {
            return c;
        }
        i += 1;
    }
    proof {
        lemma_lex_step(av, bv, i as int, component_order());
    }
    if i == a.components.len() && i == b.components.len() {
        0
    } else if i == a.components.len() {
        -1
    } else {
        1
    }
}

} // verus!
