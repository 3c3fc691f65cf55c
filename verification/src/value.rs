//! Key generators: sorting options fixed once, for making natural keys of
//! many values.
use vstd::prelude::*;

use crate::number::{number_compare, parse_number};
use crate::options::{SortOptions, default_options};
use crate::order::{
    byte_order, char_order, lemma_byte_order, lemma_char_order, lemma_lex_order,
    lemma_lex_step, lemma_strict_trans, lemma_suffix_zero, lex_compare, lex_order, sign,
    suffix_from, total_preorder,
};
use crate::chars::{chars_of, string_from_chars};
use crate::key::{number_separator, numeric_prefix, text_tokens};
use crate::locale::{locale_key_for, locale_sort_key_for};
use crate::path::{path_components, path_components_of};
use crate::text::{
    dumb_collation, dumb_collation_for, group_letters_chars, prepare_input_in, spec_group_letters,
};
use crate::sort::{
    PositionOrder, indices_view, is_sorted_permutation, lemma_stable_order, sorted_positions,
    stable_order,
};
use crate::token::{SpecToken, Token, tokenize, tokens_view};
use crate::key::compare_byte_slices;
use crate::number::{compare_char_slices, compare_number_texts, lemma_number_order, number_order};

verus! {

/// A number in a key: below every finite number, a finite number given by
/// its text, or above every finite number.
#[derive(Debug, Clone)]
pub enum NumericKey {
    NegativeInfinity,
    Finite(String),
    PositiveInfinity,
}

/// What a [`NumericKey`] holds.
pub enum SpecNumericKey {
    NegativeInfinity,
    Finite(Seq<char>),
    PositiveInfinity,
}

impl View for NumericKey {
    type V = SpecNumericKey;

    open spec fn view(&self) -> SpecNumericKey {
        match self {
            NumericKey::NegativeInfinity => SpecNumericKey::NegativeInfinity,
            NumericKey::Finite(s) => SpecNumericKey::Finite(s@),
            NumericKey::PositiveInfinity => SpecNumericKey::PositiveInfinity,
        }
    }
}

/// One element of an atomic key.
#[derive(Debug, Clone)]
pub enum KeyAtom {
    Text(String),
    LocaleText(Vec<u8>),
    Number(NumericKey),
    Bytes(Vec<u8>),
}

/// What a [`KeyAtom`] holds.
pub enum SpecKeyAtom {
    Text(Seq<char>),
    LocaleText(Seq<u8>),
    Number(SpecNumericKey),
    Bytes(Seq<u8>),
}

impl View for KeyAtom {
    type V = SpecKeyAtom;

    open spec fn view(&self) -> SpecKeyAtom {
        match self {
            KeyAtom::Text(s) => SpecKeyAtom::Text(s@),
            KeyAtom::LocaleText(b) => SpecKeyAtom::LocaleText(b@),
            KeyAtom::Number(n) => SpecKeyAtom::Number(n@),
            KeyAtom::Bytes(b) => SpecKeyAtom::Bytes(b@),
        }
    }
}

/// The natural key of a value: a list of atoms for a string, a number, a
/// byte string or nothing; a list of keys for a sequence of values or the
/// components of a path.
#[derive(Debug)]
pub enum NaturalKey {
    Atomic(Vec<KeyAtom>),
    Sequence(Vec<NaturalKey>),
}

/// What a [`NaturalKey`] holds.
pub enum SpecNaturalKey {
    Atomic(Seq<SpecKeyAtom>),
    Sequence(Seq<SpecNaturalKey>),
}

pub open spec fn atoms_view(v: Seq<KeyAtom>) -> Seq<SpecKeyAtom> {
    v.map_values(|a: KeyAtom| a@)
}

pub open spec fn key_view(k: NaturalKey) -> SpecNaturalKey
    decreases k,
{
    match k {
        NaturalKey::Atomic(v) => SpecNaturalKey::Atomic(atoms_view(v@)),
        NaturalKey::Sequence(v) => SpecNaturalKey::Sequence(keys_view(v@)),
    }
}

pub open spec fn keys_view(s: Seq<NaturalKey>) -> Seq<SpecNaturalKey>
    decreases s,
{
    if s.len() == 0 {
        Seq::empty()
    } else {
        seq![key_view(s[0])] + keys_view(s.subrange(1, s.len() as int))
    }
}


/// Below every finite number, finite numbers, above every finite number.
pub open spec fn numeric_rank(k: SpecNumericKey) -> int {
    match k {
        SpecNumericKey::NegativeInfinity => 0,
        SpecNumericKey::Finite(_) => 1,
        SpecNumericKey::PositiveInfinity => 2,
    }
}

/// Three-way comparison of numbers in keys: finite numbers by value.
pub open spec fn numeric_key_compare(a: SpecNumericKey, b: SpecNumericKey) -> int {
    match (a, b) {
        (SpecNumericKey::Finite(x), SpecNumericKey::Finite(y)) => number_compare(
            parse_number(x, true),
            parse_number(y, true),
        ),
        _ => sign(numeric_rank(a) - numeric_rank(b)),
    }
}

pub open spec fn numeric_key_order() -> spec_fn(SpecNumericKey, SpecNumericKey) -> int {
    |a: SpecNumericKey, b: SpecNumericKey| numeric_key_compare(a, b)
}

/// Atoms of different kinds in the order text, collated text, number,
/// bytes.
pub open spec fn atom_rank(a: SpecKeyAtom) -> int {
    match a {
        SpecKeyAtom::Text(_) => 0,
        SpecKeyAtom::LocaleText(_) => 1,
        SpecKeyAtom::Number(_) => 2,
        SpecKeyAtom::Bytes(_) => 3,
    }
}

/// Three-way comparison of atoms: by kind, then text by code point,
/// collation keys and bytes lexicographically, numbers by value.
pub open spec fn atom_compare(a: SpecKeyAtom, b: SpecKeyAtom) -> int {
    if atom_rank(a) != atom_rank(b) {
        sign(atom_rank(a) - atom_rank(b))
    } else {
        match (a, b) {
            (SpecKeyAtom::Text(x), SpecKeyAtom::Text(y)) => lex_compare(x, y, char_order()),
            (SpecKeyAtom::LocaleText(x), SpecKeyAtom::LocaleText(y)) => lex_compare(
                x,
                y,
                byte_order(),
            ),
            (SpecKeyAtom::Number(x), SpecKeyAtom::Number(y)) => numeric_key_compare(x, y),
            (SpecKeyAtom::Bytes(x), SpecKeyAtom::Bytes(y)) => lex_compare(x, y, byte_order()),
            _ => 0,
        }
    }
}

pub open spec fn atom_order() -> spec_fn(SpecKeyAtom, SpecKeyAtom) -> int {
    |a: SpecKeyAtom, b: SpecKeyAtom| atom_compare(a, b)
}

/// Three-way comparison of natural keys: atomic keys before sequences;
/// atomic keys by their atoms and sequences by their keys,
/// lexicographically.
pub open spec fn natural_key_compare(a: SpecNaturalKey, b: SpecNaturalKey) -> int
    decreases a,
{
    match a {
        SpecNaturalKey::Atomic(x) => match b {
            SpecNaturalKey::Atomic(y) => lex_compare(x, y, atom_order()),
            SpecNaturalKey::Sequence(_) => -1,
        },
        SpecNaturalKey::Sequence(x) => match b {
            SpecNaturalKey::Atomic(_) => 1,
            SpecNaturalKey::Sequence(y) => key_list_compare(x, y),
        },
    }
}

/// Lexicographic comparison of lists of natural keys.
pub open spec fn key_list_compare(x: Seq<SpecNaturalKey>, y: Seq<SpecNaturalKey>) -> int
    decreases x,
{
    if x.len() == 0 {
        if y.len() == 0 {
            0
        } else {
            -1
        }
    } else if y.len() == 0 {
        1
    } else if natural_key_compare(x[0], y[0]) != 0 {
        natural_key_compare(x[0], y[0])
    } else {
        key_list_compare(x.subrange(1, x.len() as int), y.subrange(1, y.len() as int))
    }
}

pub open spec fn natural_key_order() -> spec_fn(SpecNaturalKey, SpecNaturalKey) -> int {
    |a: SpecNaturalKey, b: SpecNaturalKey| natural_key_compare(a, b)
}

/// The order of numbers in keys is a total preorder.
pub proof fn lemma_numeric_key_order()
    ensures
        total_preorder(numeric_key_order()),
{
    let o = numeric_key_order();
    let n = number_order();
    lemma_number_order();
    assert forall|x: SpecNumericKey, y: SpecNumericKey| #[trigger] o(x, y) == -o(y, x) && -1 <= o(
        x,
        y,
    ) <= 1 by {
        if let (SpecNumericKey::Finite(a), SpecNumericKey::Finite(b)) = (x, y) {
            assert(n(parse_number(a, true), parse_number(b, true)) == -n(
                parse_number(b, true),
                parse_number(a, true),
            ));
        }
    }
    assert forall|x: SpecNumericKey, y: SpecNumericKey, z: SpecNumericKey| #[trigger]
        o(x, y) <= 0 && #[trigger] o(y, z) <= 0 implies o(x, z) <= 0 by {
        if let (SpecNumericKey::Finite(a), SpecNumericKey::Finite(b), SpecNumericKey::Finite(c)) = (
            x,
            y,
            z,
        ) {
            assert(n(parse_number(a, true), parse_number(b, true)) <= 0);
            assert(n(parse_number(b, true), parse_number(c, true)) <= 0);
        }
    }
}

/// The order of atoms is a total preorder.
pub proof fn lemma_atom_order()
    ensures
        total_preorder(atom_order()),
{
    let t = atom_order();
    let lc = lex_order(char_order());
    let lb = lex_order(byte_order());
    let n = numeric_key_order();
    lemma_char_order();
    lemma_byte_order();
    lemma_lex_order(char_order());
    lemma_lex_order(byte_order());
    lemma_numeric_key_order();
    assert forall|x: SpecKeyAtom, y: SpecKeyAtom| #[trigger] t(x, y) == -t(y, x) && -1 <= t(x, y)
        <= 1 by {
        match (x, y) {
            (SpecKeyAtom::Text(a), SpecKeyAtom::Text(b)) => {
                assert(lc(a, b) == -lc(b, a));
            },
            (SpecKeyAtom::LocaleText(a), SpecKeyAtom::LocaleText(b)) => {
                assert(lb(a, b) == -lb(b, a));
            },
            (SpecKeyAtom::Number(a), SpecKeyAtom::Number(b)) => {
                assert(n(a, b) == -n(b, a));
            },
            (SpecKeyAtom::Bytes(a), SpecKeyAtom::Bytes(b)) => {
                assert(lb(a, b) == -lb(b, a));
            },
            _ => {},
        }
    }
    assert forall|x: SpecKeyAtom, y: SpecKeyAtom, z: SpecKeyAtom| #[trigger]
        t(x, y) <= 0 && #[trigger] t(y, z) <= 0 implies t(x, z) <= 0 by {
        if atom_rank(x) == atom_rank(y) && atom_rank(y) == atom_rank(z) {
            match (x, y, z) {
                (SpecKeyAtom::Text(a), SpecKeyAtom::Text(b), SpecKeyAtom::Text(c)) => {
                    assert(lc(a, b) <= 0 && lc(b, c) <= 0);
                },
                (SpecKeyAtom::LocaleText(a), SpecKeyAtom::LocaleText(b), SpecKeyAtom::LocaleText(c)) => {
                    assert(lb(a, b) <= 0 && lb(b, c) <= 0);
                },
                (SpecKeyAtom::Number(a), SpecKeyAtom::Number(b), SpecKeyAtom::Number(c)) => {
                    assert(n(a, b) <= 0 && n(b, c) <= 0);
                },
                (SpecKeyAtom::Bytes(a), SpecKeyAtom::Bytes(b), SpecKeyAtom::Bytes(c)) => {
                    assert(lb(a, b) <= 0 && lb(b, c) <= 0);
                },
                _ => {},
            }
        }
    }
}

proof fn lemma_key_antisym(a: SpecNaturalKey, b: SpecNaturalKey)
    ensures
        natural_key_compare(a, b) == -natural_key_compare(b, a),
        -1 <= natural_key_compare(a, b) <= 1,
    decreases a,
{
    match (a, b) {
        (SpecNaturalKey::Atomic(x), SpecNaturalKey::Atomic(y)) => {
            lemma_atom_order();
            lemma_lex_order(atom_order());
            assert(lex_order(atom_order())(x, y) == -lex_order(atom_order())(y, x));
        },
        (SpecNaturalKey::Sequence(x), SpecNaturalKey::Sequence(y)) => {
            lemma_key_list_antisym(x, y);
        },
        _ => {},
    }
}

proof fn lemma_key_list_antisym(x: Seq<SpecNaturalKey>, y: Seq<SpecNaturalKey>)
    ensures
        key_list_compare(x, y) == -key_list_compare(y, x),
        -1 <= key_list_compare(x, y) <= 1,
    decreases x,
{
    if x.len() > 0 && y.len() > 0 {
        lemma_key_antisym(x[0], y[0]);
        lemma_key_list_antisym(x.subrange(1, x.len() as int), y.subrange(1, y.len() as int));
    }
}

/// `a`, `b`, `c` in that order, each "not greater" than the next, leaves
/// `a` "not greater" than `c`.
pub open spec fn chains(a: SpecNaturalKey, b: SpecNaturalKey, c: SpecNaturalKey) -> bool {
    natural_key_compare(a, b) <= 0 && natural_key_compare(b, c) <= 0 ==> natural_key_compare(a, c)
        <= 0
}

pub open spec fn chains_all(a: SpecNaturalKey, b: SpecNaturalKey, c: SpecNaturalKey) -> bool {
    &&& chains(a, b, c)
    &&& chains(a, c, b)
    &&& chains(b, a, c)
    &&& chains(b, c, a)
    &&& chains(c, a, b)
    &&& chains(c, b, a)
}

pub open spec fn list_chains(
    a: Seq<SpecNaturalKey>,
    b: Seq<SpecNaturalKey>,
    c: Seq<SpecNaturalKey>,
) -> bool {
    key_list_compare(a, b) <= 0 && key_list_compare(b, c) <= 0 ==> key_list_compare(a, c) <= 0
}

pub open spec fn list_chains_all(
    a: Seq<SpecNaturalKey>,
    b: Seq<SpecNaturalKey>,
    c: Seq<SpecNaturalKey>,
) -> bool {
    &&& list_chains(a, b, c)
    &&& list_chains(a, c, b)
    &&& list_chains(b, a, c)
    &&& list_chains(b, c, a)
    &&& list_chains(c, a, b)
    &&& list_chains(c, b, a)
}

proof fn lemma_key_trans(a: SpecNaturalKey, b: SpecNaturalKey, c: SpecNaturalKey)
    ensures
        chains_all(a, b, c),
    decreases a,
{
    lemma_key_antisym(a, b);
    lemma_key_antisym(b, c);
    lemma_key_antisym(a, c);
    match (a, b, c) {
        (SpecNaturalKey::Atomic(x), SpecNaturalKey::Atomic(y), SpecNaturalKey::Atomic(z)) => {
            lemma_atom_order();
            lemma_lex_order(atom_order());
            let l = lex_order(atom_order());
            assert(l(x, y) <= 0 && l(y, z) <= 0 ==> l(x, z) <= 0);
            assert(l(x, z) <= 0 && l(z, y) <= 0 ==> l(x, y) <= 0);
            assert(l(y, x) <= 0 && l(x, z) <= 0 ==> l(y, z) <= 0);
            assert(l(y, z) <= 0 && l(z, x) <= 0 ==> l(y, x) <= 0);
            assert(l(z, x) <= 0 && l(x, y) <= 0 ==> l(z, y) <= 0);
            assert(l(z, y) <= 0 && l(y, x) <= 0 ==> l(z, x) <= 0);
        },
        (SpecNaturalKey::Sequence(x), SpecNaturalKey::Sequence(y), SpecNaturalKey::Sequence(z)) => {
            lemma_key_list_trans(x, y, z);
        },
        _ => {},
    }
}

proof fn lemma_key_list_trans(x: Seq<SpecNaturalKey>, y: Seq<SpecNaturalKey>, z: Seq<SpecNaturalKey>)
    ensures
        list_chains_all(x, y, z),
    decreases x,
{
    lemma_key_list_antisym(x, y);
    lemma_key_list_antisym(y, z);
    lemma_key_list_antisym(x, z);
    if x.len() > 0 && y.len() > 0 && z.len() > 0 {
        lemma_key_trans(x[0], y[0], z[0]);
        lemma_key_antisym(x[0], y[0]);
        lemma_key_antisym(y[0], z[0]);
        lemma_key_antisym(x[0], z[0]);
        lemma_key_list_trans(
            x.subrange(1, x.len() as int),
            y.subrange(1, y.len() as int),
            z.subrange(1, z.len() as int),
        );
    }
}

/// Comparing natural keys is a total preorder: antisymmetric, with results
/// `-1`, `0` and `1`, and transitive.
pub proof fn law_natural_key_order()
    ensures
        total_preorder(natural_key_order()),
{
    let o = natural_key_order();
    assert forall|x: SpecNaturalKey, y: SpecNaturalKey| #[trigger] o(x, y) == -o(y, x) && -1 <= o(
        x,
        y,
    ) <= 1 by {
        lemma_key_antisym(x, y);
    }
    assert forall|x: SpecNaturalKey, y: SpecNaturalKey, z: SpecNaturalKey| #[trigger]
        o(x, y) <= 0 && #[trigger] o(y, z) <= 0 implies o(x, z) <= 0 by {
        lemma_key_trans(x, y, z);
    }
}

/// The view of a list of keys has the same length and views each key.
pub proof fn lemma_keys_view(s: Seq<NaturalKey>)
    ensures
        keys_view(s).len() == s.len(),
        forall|i: int| 0 <= i < s.len() ==> #[trigger] keys_view(s)[i] == key_view(s[i]),
    decreases s.len(),
{
    if s.len() > 0 {
        let t = s.subrange(1, s.len() as int);
        lemma_keys_view(t);
        assert forall|i: int| 0 <= i < s.len() implies #[trigger] keys_view(s)[i] == key_view(
            s[i],
        ) by {
            if i > 0 {
                assert(keys_view(s)[i] == keys_view(t)[i - 1]);
                assert(t[i - 1] == s[i]);
            }
        }
    }
}

fn numeric_rank_of(a: &NumericKey) -> (r: u8)
    ensures
        r as int == numeric_rank(a@),
{
    match a {
        NumericKey::NegativeInfinity => 0,
        NumericKey::Finite(_) => 1,
        NumericKey::PositiveInfinity => 2,
    }
}

/// Three-way comparison of numbers in keys (see [`numeric_key_compare`]).
pub fn compare_numeric_keys(a: &NumericKey, b: &NumericKey) -> (r: i8)
    ensures
        r as int == numeric_key_compare(a@, b@),
{
    match (a, b) {
        (NumericKey::Finite(x), NumericKey::Finite(y)) => compare_number_texts(
            x.as_str(),
            y.as_str(),
        ),
        _ => {
            let ra = numeric_rank_of(a);
            let rb = numeric_rank_of(b);
            if ra < rb {
                -1
            } else if ra > rb {
                1
            } else {
                0
            }
        },
    }
}

fn atom_rank_of(a: &KeyAtom) -> (r: u8)
    ensures
        r as int == atom_rank(a@),
{
    match a {
        KeyAtom::Text(_) => 0,
        KeyAtom::LocaleText(_) => 1,
        KeyAtom::Number(_) => 2,
        KeyAtom::Bytes(_) => 3,
    }
}

/// Three-way comparison of atoms (see [`atom_compare`]).
pub fn compare_key_atoms(a: &KeyAtom, b: &KeyAtom) -> (r: i8)
    ensures
        r as int == atom_compare(a@, b@),
{
    match (a, b) {
        (KeyAtom::Text(x), KeyAtom::Text(y)) => {
            let xc = chars_of(x.as_str());
            let yc = chars_of(y.as_str());
            compare_char_slices(xc.as_slice(), yc.as_slice())
        },
        (KeyAtom::LocaleText(x), KeyAtom::LocaleText(y)) => compare_byte_slices(
            x.as_slice(),
            y.as_slice(),
        ),
        (KeyAtom::Number(x), KeyAtom::Number(y)) => compare_numeric_keys(x, y),
        (KeyAtom::Bytes(x), KeyAtom::Bytes(y)) => compare_byte_slices(x.as_slice(), y.as_slice()),
        _ => {
            let ra = atom_rank_of(a);
            let rb = atom_rank_of(b);
            if ra < rb {
                -1
            } else {
                1
            }
        },
    }
}

fn compare_atom_lists(a: &Vec<KeyAtom>, b: &Vec<KeyAtom>) -> (r: i8)
    ensures
        r as int == lex_compare(atoms_view(a@), atoms_view(b@), atom_order()),
{
    let ghost av = atoms_view(a@);
    let ghost bv = atoms_view(b@);
    proof {
        lemma_suffix_zero(av);
        lemma_suffix_zero(bv);
    }
    let mut i: usize = 0;
    while i < a.len() && i < b.len()
        invariant
            i <= a.len(),
            i <= b.len(),
            av == atoms_view(a@),
            bv == atoms_view(b@),
            lex_compare(av, bv, atom_order()) == lex_compare(
                suffix_from(av, i as int),
                suffix_from(bv, i as int),
                atom_order(),
            ),
        decreases a.len() - i,
    {
        let c = compare_key_atoms(&a[i], &b[i]);
        proof {
            lemma_lex_step(av, bv, i as int, atom_order());
        }
        if c != 0 {
            return c;
        }
        i += 1;
    }
    proof {
        lemma_lex_step(av, bv, i as int, atom_order());
    }
    if i == a.len() && i == b.len() {
        0
    } else if i == a.len() {
        -1
    } else {
        1
    }
}

/// Three-way comparison of natural keys (see [`natural_key_compare`]).
pub fn compare_natural_keys(a: &NaturalKey, b: &NaturalKey) -> (r: i8)
    ensures
        r as int == natural_key_compare(key_view(*a), key_view(*b)),
    decreases a,
{
    match (a, b) {
        (NaturalKey::Atomic(x), NaturalKey::Atomic(y)) => compare_atom_lists(x, y),
        (NaturalKey::Atomic(_), NaturalKey::Sequence(_)) => -1,
        (NaturalKey::Sequence(_), NaturalKey::Atomic(_)) => 1,
        (NaturalKey::Sequence(x), NaturalKey::Sequence(y)) => {
            let ghost xv = keys_view(x@);
            let ghost yv = keys_view(y@);
            proof {
                lemma_keys_view(x@);
                lemma_keys_view(y@);
                assert(xv.subrange(0, xv.len() as int) =~= xv);
                assert(yv.subrange(0, yv.len() as int) =~= yv);
                assert(natural_key_compare(key_view(*a), key_view(*b)) == key_list_compare(xv, yv));
            }
            let mut i: usize = 0;
            while i < x.len() && i < y.len()
                invariant
                    i <= x.len(),
                    i <= y.len(),
                    *a == NaturalKey::Sequence(*x),
                    xv == keys_view(x@),
                    yv == keys_view(y@),
                    natural_key_compare(key_view(*a), key_view(*b)) == key_list_compare(xv, yv),
                    xv.len() == x.len(),
                    yv.len() == y.len(),
                    forall|k: int| 0 <= k < x.len() ==> #[trigger] xv[k] == key_view(x@[k]),
                    forall|k: int| 0 <= k < y.len() ==> #[trigger] yv[k] == key_view(y@[k]),
                    key_list_compare(xv, yv) == key_list_compare(
                        xv.subrange(i as int, xv.len() as int),
                        yv.subrange(i as int, yv.len() as int),
                    ),
                decreases x.len() - i,
            {
                proof {
                    assert(decreases_to!(*a => *x));
                    assert(decreases_to!(*x => x@));
                    assert(decreases_to!(x@ => x@[i as int]));
                }
                let c = compare_natural_keys(&x[i], &y[i]);
                let ghost xs = xv.subrange(i as int, xv.len() as int);
                let ghost ys = yv.subrange(i as int, yv.len() as int);
                proof {
                    assert(xs[0] == xv[i as int]);
                    assert(ys[0] == yv[i as int]);
                    assert(xs.subrange(1, xs.len() as int) =~= xv.subrange(
                        i + 1,
                        xv.len() as int,
                    ));
                    assert(ys.subrange(1, ys.len() as int) =~= yv.subrange(
                        i + 1,
                        yv.len() as int,
                    ));
                }
                if c != 0 {
                    return c;
                }
                i += 1;
            }
            if i == x.len() && i == y.len() {
                0
            } else if i == x.len() {
                -1
            } else {
                1
            }
        },
    }
}

/// A text as an atom: its collation key under locale collation, the text
/// itself otherwise.
pub open spec fn text_atom(x: Seq<char>, o: SortOptions, identifier: Seq<char>) -> SpecKeyAtom {
    if o.locale_alpha {
        SpecKeyAtom::LocaleText(locale_key_for(x, identifier))
    } else {
        SpecKeyAtom::Text(x)
    }
}

/// A token of a prepared text as an atom: text with its letters grouped
/// when asked for (or under code point collation), numbers by their text.
pub open spec fn token_atom(t: SpecToken, o: SortOptions, identifier: Seq<char>) -> SpecKeyAtom {
    match t {
        SpecToken::Text(x) => text_atom(
            if o.group_letters || dumb_collation(o, identifier) {
                spec_group_letters(x)
            } else {
                x
            },
            o,
            identifier,
        ),
        SpecToken::Number(n) => SpecKeyAtom::Number(SpecNumericKey::Finite(n)),
    }
}

/// The atoms of a string: those of its tokens, after the number separator
/// where it starts with a number; one empty text for a string without
/// tokens.
pub open spec fn text_atoms(s: Seq<char>, o: SortOptions, identifier: Seq<char>) -> Seq<
    SpecKeyAtom,
> {
    let toks = text_tokens(s, o, identifier);
    let mapped = toks.map_values(|t: SpecToken| token_atom(t, o, identifier));
    if toks.len() == 0 {
        seq![text_atom(Seq::empty(), o, identifier)]
    } else if toks[0] is Number {
        seq![text_atom(number_separator(o), o, identifier)] + mapped
    } else {
        mapped
    }
}

/// The key of a string: atomic, or in path mode a sequence with one atomic
/// key per path component.
pub open spec fn text_value_key(s: Seq<char>, o: SortOptions, identifier: Seq<char>) -> SpecNaturalKey {
    if o.path {
        SpecNaturalKey::Sequence(
            path_components_of(s).map_values(
                |c: Seq<char>| SpecNaturalKey::Atomic(text_atoms(c, o, identifier)),
            ),
        )
    } else {
        SpecNaturalKey::Atomic(text_atoms(s, o, identifier))
    }
}

/// In path mode a key that stands for a whole value is wrapped in a
/// sequence of one, as a path's key is.
pub open spec fn wrapped_for_path(k: SpecNaturalKey, o: SortOptions) -> SpecNaturalKey {
    if o.path {
        SpecNaturalKey::Sequence(seq![k])
    } else {
        k
    }
}

/// The ASCII lowercase of a byte.
pub open spec fn byte_lower(b: u8) -> u8 {
    if 65 <= b <= 90 {
        (b + 32) as u8
    } else {
        b
    }
}

/// The key of a byte string: the bytes, lowercased when case is ignored.
pub open spec fn bytes_value_key(b: Seq<u8>, o: SortOptions) -> SpecNaturalKey {
    wrapped_for_path(
        SpecNaturalKey::Atomic(
            seq![
                SpecKeyAtom::Bytes(
                    if o.ignore_case {
                        b.map_values(|x: u8| byte_lower(x))
                    } else {
                        b
                    },
                ),
            ],
        ),
        o,
    )
}

/// The atomic key of a number: the number separator, the number and, for
/// the values that sort among the infinities, a marker text.
pub open spec fn number_key(
    n: SpecNumericKey,
    marker: Option<Seq<char>>,
    o: SortOptions,
    identifier: Seq<char>,
) -> SpecNaturalKey {
    let base = seq![text_atom(number_separator(o), o, identifier), SpecKeyAtom::Number(n)];
    SpecNaturalKey::Atomic(
        match marker {
            Some(m) => base.push(text_atom(m, o, identifier)),
            None => base,
        },
    )
}

/// An atomic key whose first atom is a text that is not empty and starts
/// below `U+10FFFF` (the character that numbers after text sort under).
pub open spec fn starts_with_text(k: SpecNaturalKey) -> bool {
    match k {
        SpecNaturalKey::Atomic(b) => b.len() > 0 && match b[0] {
            SpecKeyAtom::Text(x) => x.len() > 0 && x[0] < '\u{10FFFF}',
            _ => false,
        },
        SpecNaturalKey::Sequence(_) => false,
    }
}

/// A number key, compared with a key whose first atom is a text `x` that
/// starts below `U+10FFFF`: after it with numbers after text,
/// before it otherwise.
proof fn lemma_number_key_around_text(
    n: SpecNumericKey,
    marker: Option<Seq<char>>,
    b: Seq<SpecKeyAtom>,
    o: SortOptions,
    identifier: Seq<char>,
)
    requires
        !o.locale_alpha,
        starts_with_text(SpecNaturalKey::Atomic(b)),
    ensures
        o.num_after ==> natural_key_compare(number_key(n, marker, o, identifier), SpecNaturalKey::Atomic(b)) == 1,
        !o.num_after ==> natural_key_compare(number_key(n, marker, o, identifier), SpecNaturalKey::Atomic(b)) == -1,
{
    let a = match number_key(n, marker, o, identifier) {
        SpecNaturalKey::Atomic(a) => a,
        SpecNaturalKey::Sequence(_) => Seq::empty(),
    };
    let x = match b[0] {
        SpecKeyAtom::Text(x) => x,
        _ => Seq::empty(),
    };
    let sep = number_separator(o);
    assert(a[0] == SpecKeyAtom::Text(sep));
    assert(a.len() > 0);
    if o.num_after {
        assert(sep[0] == '\u{10FFFF}');
        assert(char_order()(sep[0], x[0]) == 1);
        assert(lex_compare(sep, x, char_order()) == 1);
    } else {
        assert(sep.len() == 0);
        assert(lex_compare(sep, x, char_order()) == -1);
    }
    assert(atom_order()(a[0], b[0]) == atom_compare(a[0], b[0]));
}

/// Numbers go after text with `num_after` and before it otherwise: the key
/// of every number value (an integer, a float of any class, a missing value)
/// compares after the key of every string whose key starts with a text
/// (one that starts below `U+10FFFF`) when numbers go after text,
/// and before it when they do not, whatever the numbers and texts are.
pub proof fn law_numbers_sort_around_text(
    t: Seq<char>,
    f: SpecFloatClass,
    s: Seq<char>,
    o: SortOptions,
    identifier: Seq<char>,
)
    requires
        !o.locale_alpha,
        !o.path,
        starts_with_text(text_value_key(s, o, identifier)),
    ensures
        o.num_after ==> natural_key_compare(integer_value_key(t, o, identifier), text_value_key(s, o, identifier)) == 1,
        o.num_after ==> natural_key_compare(float_value_key(f, o, identifier), text_value_key(s, o, identifier)) == 1,
        o.num_after ==> natural_key_compare(none_value_key(o, identifier), text_value_key(s, o, identifier)) == 1,
        !o.num_after ==> natural_key_compare(integer_value_key(t, o, identifier), text_value_key(s, o, identifier)) == -1,
        !o.num_after ==> natural_key_compare(float_value_key(f, o, identifier), text_value_key(s, o, identifier)) == -1,
        !o.num_after ==> natural_key_compare(none_value_key(o, identifier), text_value_key(s, o, identifier)) == -1,
{
    let b = match text_value_key(s, o, identifier) {
        SpecNaturalKey::Atomic(b) => b,
        SpecNaturalKey::Sequence(_) => Seq::empty(),
    };
    assert(text_value_key(s, o, identifier) == SpecNaturalKey::Atomic(b));
    lemma_number_key_around_text(SpecNumericKey::Finite(t), None, b, o, identifier);
    lemma_number_key_around_text(SpecNumericKey::PositiveInfinity, None, b, o, identifier);
    lemma_number_key_around_text(SpecNumericKey::PositiveInfinity, Some(seq!['1']), b, o, identifier);
    lemma_number_key_around_text(SpecNumericKey::PositiveInfinity, Some(seq!['2']), b, o, identifier);
    lemma_number_key_around_text(SpecNumericKey::PositiveInfinity, Some(seq!['3']), b, o, identifier);
    lemma_number_key_around_text(SpecNumericKey::NegativeInfinity, None, b, o, identifier);
    lemma_number_key_around_text(SpecNumericKey::NegativeInfinity, Some(seq!['1']), b, o, identifier);
    lemma_number_key_around_text(SpecNumericKey::NegativeInfinity, Some(seq!['2']), b, o, identifier);
    lemma_number_key_around_text(SpecNumericKey::NegativeInfinity, Some(seq!['3']), b, o, identifier);
    match f {
        SpecFloatClass::Finite(ft) => {
            lemma_number_key_around_text(SpecNumericKey::Finite(ft), None, b, o, identifier);
        },
        _ => {},
    }
}

/// A number value and the string of that number sort as one: the key of
/// an integer equals the key of any string whose tokens are that number
/// alone (so with numbers after text both sort after text, and without it
/// both before).
pub proof fn law_integer_key_is_its_string_key(t: Seq<char>, s: Seq<char>, o: SortOptions, identifier: Seq<char>)
    requires
        !o.path,
        text_tokens(s, o, identifier) == seq![SpecToken::Number(t)],
    ensures
        integer_value_key(t, o, identifier) == text_value_key(s, o, identifier),
{
    let toks = text_tokens(s, o, identifier);
    let mapped = toks.map_values(|tk: SpecToken| token_atom(tk, o, identifier));
    assert(mapped =~= seq![SpecKeyAtom::Number(SpecNumericKey::Finite(t))]);
    assert(text_atoms(s, o, identifier) =~= seq![
        text_atom(number_separator(o), o, identifier),
        SpecKeyAtom::Number(SpecNumericKey::Finite(t)),
    ]);
}

/// The key of an integer, given by its decimal text.
pub open spec fn integer_value_key(t: Seq<char>, o: SortOptions, identifier: Seq<char>) -> SpecNaturalKey {
    wrapped_for_path(number_key(SpecNumericKey::Finite(t), None, o, identifier), o)
}

/// What a floating-point value is, as far as keys go.
#[derive(Debug, Clone, PartialEq, Eq)]
pub enum FloatClass {
    NotANumber,
    PositiveInfinity,
    NegativeInfinity,
    /// A finite value, by its text.
    Finite(String),
}

/// What a [`FloatClass`] holds.
pub enum SpecFloatClass {
    NotANumber,
    PositiveInfinity,
    NegativeInfinity,
    Finite(Seq<char>),
}

impl View for FloatClass {
    type V = SpecFloatClass;

    open spec fn view(&self) -> SpecFloatClass {
        match self {
            FloatClass::NotANumber => SpecFloatClass::NotANumber,
            FloatClass::PositiveInfinity => SpecFloatClass::PositiveInfinity,
            FloatClass::NegativeInfinity => SpecFloatClass::NegativeInfinity,
            FloatClass::Finite(t) => SpecFloatClass::Finite(t@),
        }
    }
}

/// The key of a floating-point value. NaN sorts first, before negative
/// infinity (or, with NaN last, after positive infinity); the infinities
/// take the place of the values they stand for.
pub open spec fn float_value_key(f: SpecFloatClass, o: SortOptions, identifier: Seq<char>) -> SpecNaturalKey {
    let k = if o.nan_last {
        match f {
            SpecFloatClass::NotANumber => number_key(
                SpecNumericKey::PositiveInfinity,
                Some(seq!['3']),
                o,
                identifier,
            ),
            SpecFloatClass::PositiveInfinity => number_key(
                SpecNumericKey::PositiveInfinity,
                Some(seq!['1']),
                o,
                identifier,
            ),
            SpecFloatClass::NegativeInfinity => number_key(
                SpecNumericKey::NegativeInfinity,
                None,
                o,
                identifier,
            ),
            SpecFloatClass::Finite(t) => number_key(SpecNumericKey::Finite(t), None, o, identifier),
        }
    } else {
        match f {
            SpecFloatClass::NotANumber => number_key(
                SpecNumericKey::NegativeInfinity,
                Some(seq!['1']),
                o,
                identifier,
            ),
            SpecFloatClass::NegativeInfinity => number_key(
                SpecNumericKey::NegativeInfinity,
                Some(seq!['3']),
                o,
                identifier,
            ),
            SpecFloatClass::PositiveInfinity => number_key(
                SpecNumericKey::PositiveInfinity,
                None,
                o,
                identifier,
            ),
            SpecFloatClass::Finite(t) => number_key(SpecNumericKey::Finite(t), None, o, identifier),
        }
    };
    wrapped_for_path(k, o)
}

/// The key of a missing value: between NaN and negative infinity (or, with
/// NaN last, between positive infinity and NaN).
pub open spec fn none_value_key(o: SortOptions, identifier: Seq<char>) -> SpecNaturalKey {
    wrapped_for_path(
        number_key(
            if o.nan_last {
                SpecNumericKey::PositiveInfinity
            } else {
                SpecNumericKey::NegativeInfinity
            },
            Some(seq!['2']),
            o,
            identifier,
        ),
        o,
    )
}

fn text_atom_of(x: &str, options: SortOptions, identifier: &str) -> (r: KeyAtom)
    ensures
        r@ == text_atom(x@, options, identifier@),
{
    if options.locale_alpha {
        KeyAtom::LocaleText(locale_sort_key_for(x, identifier))
    } else {
        KeyAtom::Text(x.to_owned())
    }
}

fn token_atom_of(t: &Token, options: SortOptions, identifier: &str, dumb: bool) -> (r: KeyAtom)
    requires
        dumb == dumb_collation(options, identifier@),
    ensures
        r@ == token_atom(t@, options, identifier@),
{
    match t {
        Token::Text(x) => {
            if options.group_letters || dumb {
                let chars = chars_of(x.as_str());
                let grouped = group_letters_chars(&chars);
                let text = string_from_chars(grouped.as_slice());
                text_atom_of(text.as_str(), options, identifier)
            } else {
                text_atom_of(x.as_str(), options, identifier)
            }
        },
        Token::Number(n) => KeyAtom::Number(NumericKey::Finite(n.clone())),
    }
}

fn text_atoms_of(s: &str, options: SortOptions, identifier: &str) -> (r: Vec<KeyAtom>)
    ensures
        atoms_view(r@) == text_atoms(s@, options, identifier@),
{
    let dumb = dumb_collation_for(options, identifier);
    let text = prepare_input_in(s, options, identifier);
    let toks = tokenize(text.as_str(), options.signed, options.float, options.no_exp);
    let ghost spec_toks = text_tokens(s@, options, identifier@);
    assert(tokens_view(toks@) == spec_toks);
    let mut atoms: Vec<KeyAtom> = Vec::new();
    if toks.len() == 0 {
        let empty = "";
        proof {
            reveal_strlit("");
        }
        assert(empty@ =~= Seq::<char>::empty());
        atoms.push(text_atom_of(empty, options, identifier));
        assert(atoms_view(atoms@) =~= text_atoms(s@, options, identifier@));
        return atoms;
    }
    let leading_number = match &toks[0] {
        Token::Number(_) => true,
        Token::Text(_) => false,
    };
    assert(leading_number == (spec_toks[0] is Number));
    if leading_number {
        atoms.push(text_atom_of(numeric_prefix(options), options, identifier));
    }
    let ghost lead = atoms_view(atoms@);
    let mut i: usize = 0;
    while i < toks.len()
        invariant
            i <= toks.len(),
            dumb == dumb_collation(options, identifier@),
            spec_toks == tokens_view(toks@),
            atoms_view(atoms@) =~= lead + spec_toks.subrange(0, i as int).map_values(
                |t: SpecToken| token_atom(t, options, identifier@),
            ),
        decreases toks.len() - i,
    {
        let a = token_atom_of(&toks[i], options, identifier, dumb);
        let ghost before = atoms_view(atoms@);
        atoms.push(a);
        proof {
            assert(spec_toks.subrange(0, i + 1) =~= spec_toks.subrange(0, i as int).push(
                spec_toks[i as int],
            ));
            assert(atoms_view(atoms@) =~= before.push(a@));
        }
        i += 1;
    }
    assert(spec_toks.subrange(0, i as int) =~= spec_toks);
    assert(atoms_view(atoms@) =~= text_atoms(s@, options, identifier@));
    atoms
}

/// The natural key of a string (see [`text_value_key`]).
pub fn text_key_in(s: &str, options: SortOptions, identifier: &str) -> (r: NaturalKey)
    ensures
        key_view(r) == text_value_key(s@, options, identifier@),
{
    if options.path {
        let parts = path_components(s);
        let ghost pv = parts@.map_values(|v: String| v@);
        let mut keys: Vec<NaturalKey> = Vec::new();
        let mut i: usize = 0;
        while i < parts.len()
            invariant
                i <= parts.len(),
                pv == parts@.map_values(|v: String| v@),
                pv == path_components_of(s@),
                keys.len() == i,
                forall|k: int| 0 <= k < i ==> #[trigger] key_view(keys@[k]) == SpecNaturalKey::Atomic(
                    text_atoms(pv[k], options, identifier@),
                ),
            decreases parts.len() - i,
        {
            let atoms = text_atoms_of(parts[i].as_str(), options, identifier);
            keys.push(NaturalKey::Atomic(atoms));
            i += 1;
        }
        proof {
            lemma_keys_view(keys@);
            assert(keys_view(keys@) =~= pv.map_values(
                |c: Seq<char>| SpecNaturalKey::Atomic(text_atoms(c, options, identifier@)),
            ));
        }
        NaturalKey::Sequence(keys)
    } else {
        NaturalKey::Atomic(text_atoms_of(s, options, identifier))
    }
}

fn wrap_for_path(k: NaturalKey, options: SortOptions) -> (r: NaturalKey)
    ensures
        key_view(r) == wrapped_for_path(key_view(k), options),
{
    if options.path {
        let ghost kv = key_view(k);
        let keys = vec![k];
        proof {
            lemma_keys_view(keys@);
            assert(keys_view(keys@) =~= seq![kv]);
        }
        NaturalKey::Sequence(keys)
    } else {
        k
    }
}

/// The natural key of a byte string (see [`bytes_value_key`]).
pub fn bytes_key(b: &[u8], options: SortOptions) -> (r: NaturalKey)
    ensures
        key_view(r) == bytes_value_key(b@, options),
{
    let mut out: Vec<u8> = Vec::new();
    let mut i: usize = 0;
    while i < b.len()
        invariant
            i <= b.len(),
            out@ =~= (if options.ignore_case {
                b@.subrange(0, i as int).map_values(|x: u8| byte_lower(x))
            } else {
                b@.subrange(0, i as int)
            }),
        decreases b.len() - i,
    {
        let x = b[i];
        let y = if options.ignore_case && 65 <= x && x <= 90 {
            x + 32
        } else {
            x
        };
        out.push(y);
        proof {
            assert(b@.subrange(0, i + 1) =~= b@.subrange(0, i as int).push(x));
        }
        i += 1;
    }
    assert(b@.subrange(0, i as int) =~= b@);
    let atoms = vec![KeyAtom::Bytes(out)];
    assert(atoms_view(atoms@) =~= seq![SpecKeyAtom::Bytes(out@)]);
    wrap_for_path(NaturalKey::Atomic(atoms), options)
}

fn number_key_of(n: NumericKey, marker: Option<&str>, options: SortOptions, identifier: &str) -> (r:
    NaturalKey)
    ensures
        key_view(r) == number_key(
            n@,
            match marker {
                Some(m) => Some(m@),
                None => None,
            },
            options,
            identifier@,
        ),
{
    let ghost nv = n@;
    let first = text_atom_of(numeric_prefix(options), options, identifier);
    let mut atoms = vec![first, KeyAtom::Number(n)];
    let ghost base = atoms_view(atoms@);
    assert(base =~= seq![text_atom(number_separator(options), options, identifier@), SpecKeyAtom::Number(nv)]);
    if let Some(m) = marker {
        let a = text_atom_of(m, options, identifier);
        atoms.push(a);
        assert(atoms_view(atoms@) =~= base.push(a@));
    }
    NaturalKey::Atomic(atoms)
}

/// The natural key of an integer given by its decimal text (see
/// [`integer_value_key`]).
pub fn integer_key(t: &str, options: SortOptions, identifier: &str) -> (r: NaturalKey)
    ensures
        key_view(r) == integer_value_key(t@, options, identifier@),
{
    let k = number_key_of(NumericKey::Finite(t.to_owned()), None, options, identifier);
    wrap_for_path(k, options)
}

/// The natural key of a floating-point value (see [`float_value_key`]).
pub fn float_key(f: &FloatClass, options: SortOptions, identifier: &str) -> (r: NaturalKey)
    ensures
        key_view(r) == float_value_key(f@, options, identifier@),
{
    let marker_one = "1";
    let marker_three = "3";
    proof {
        reveal_strlit("1");
        reveal_strlit("3");
    }
    assert(marker_one@ =~= seq!['1']);
    assert(marker_three@ =~= seq!['3']);
    let k = if options.nan_last {
        match f {
            FloatClass::NotANumber => number_key_of(
                NumericKey::PositiveInfinity,
                Some(marker_three),
                options,
                identifier,
            ),
            FloatClass::PositiveInfinity => number_key_of(
                NumericKey::PositiveInfinity,
                Some(marker_one),
                options,
                identifier,
            ),
            FloatClass::NegativeInfinity => number_key_of(
                NumericKey::NegativeInfinity,
                None,
                options,
                identifier,
            ),
            FloatClass::Finite(t) => number_key_of(
                NumericKey::Finite(t.clone()),
                None,
                options,
                identifier,
            ),
        }
    } else {
        match f {
            FloatClass::NotANumber => number_key_of(
                NumericKey::NegativeInfinity,
                Some(marker_one),
                options,
                identifier,
            ),
            FloatClass::NegativeInfinity => number_key_of(
                NumericKey::NegativeInfinity,
                Some(marker_three),
                options,
                identifier,
            ),
            FloatClass::PositiveInfinity => number_key_of(
                NumericKey::PositiveInfinity,
                None,
                options,
                identifier,
            ),
            FloatClass::Finite(t) => number_key_of(
                NumericKey::Finite(t.clone()),
                None,
                options,
                identifier,
            ),
        }
    };
    wrap_for_path(k, options)
}

/// The natural key of a missing value (see [`none_value_key`]).
pub fn none_key(options: SortOptions, identifier: &str) -> (r: NaturalKey)
    ensures
        key_view(r) == none_value_key(options, identifier@),
{
    let marker = "2";
    proof {
        reveal_strlit("2");
    }
    assert(marker@ =~= seq!['2']);
    let n = if options.nan_last {
        NumericKey::PositiveInfinity
    } else {
        NumericKey::NegativeInfinity
    };
    let k = number_key_of(n, Some(marker), options, identifier);
    wrap_for_path(k, options)
}

/// A key for a sequence of values, from their keys.
pub fn sequence_key(keys: Vec<NaturalKey>) -> (r: NaturalKey)
    ensures
        key_view(r) == SpecNaturalKey::Sequence(keys_view(keys@)),
{
    NaturalKey::Sequence(keys)
}

/// The order in which values with these keys and presort texts are sorted:
/// by key (reversed when asked), with presorting then by text (reversed
/// when asked), then by original position.
pub open spec fn value_order(keys: Seq<SpecNaturalKey>, texts: Seq<Seq<char>>, o: SortOptions) -> spec_fn(
    int,
    int,
) -> int {
    stable_order(keys, natural_key_order(), texts, o.reverse, o.presort)
}

/// Sorting values is stable: values whose keys are equal keep their order
/// (without presorting, which orders them by text first).
pub proof fn law_value_sorting_is_stable(
    keys: Seq<SpecNaturalKey>,
    texts: Seq<Seq<char>>,
    o: SortOptions,
    p: Seq<int>,
)
    requires
        !o.presort,
        is_sorted_permutation(p, keys.len() as int, value_order(keys, texts, o)),
    ensures
        forall|k: int, l: int|
            0 <= k < l < p.len() && natural_key_compare(keys[p[k]], keys[p[l]]) == 0
                ==> #[trigger] p[k] < #[trigger] p[l],
{
    let ord = value_order(keys, texts, o);
    law_natural_key_order();
    assert forall|k: int, l: int|
        0 <= k < l < p.len() && natural_key_compare(keys[p[k]], keys[p[l]]) == 0 implies #[trigger] p[k]
        < #[trigger] p[l] by {
        assert(ord(p[k], p[l]) < 0);
        assert(natural_key_order()(keys[p[l]], keys[p[k]]) == -natural_key_order()(
            keys[p[k]],
            keys[p[l]],
        ));
    }
}

/// Values by their natural keys and presort texts.
pub struct ValueItems {
    pub keys: Vec<NaturalKey>,
    pub texts: Vec<Vec<char>>,
    pub options: SortOptions,
}

impl PositionOrder for ValueItems {
    open spec fn order(&self) -> spec_fn(int, int) -> int {
        value_order(
            keys_view(self.keys@),
            self.texts@.map_values(|v: Vec<char>| v@),
            self.options,
        )
    }

    open spec fn size(&self) -> int {
        if self.keys.len() == self.texts.len() {
            self.keys.len() as int
        } else {
            0
        }
    }

    fn compare_positions(&self, i: usize, j: usize) -> (r: i8) {
        let keys = &self.keys;
        let texts = &self.texts;
        let options = self.options;
        proof {
            lemma_keys_view(keys@);
        }
        let c = compare_natural_keys(&keys[i], &keys[j]);
        proof {
            law_natural_key_order();
            assert(natural_key_order()(key_view(keys@[j as int]), key_view(keys@[i as int]))
                == -natural_key_order()(key_view(keys@[i as int]), key_view(keys@[j as int])));
        }
        let c = if options.reverse {
            -c
        } else {
            c
        };
        if c != 0 {
            return c;
        }
        if options.presort {
            let t = compare_char_slices(texts[i].as_slice(), texts[j].as_slice());
            proof {
                lemma_char_order();
                lemma_lex_order(char_order());
                assert(lex_order(char_order())(texts@[j as int]@, texts@[i as int]@)
                    == -lex_order(char_order())(texts@[i as int]@, texts@[j as int]@));
            }
            let t = if options.reverse {
                -t
            } else {
                t
            };
            if t != 0 {
                return t;
            }
        }
        if i < j {
            -1
        } else if i > j {
            1
        } else {
            0
        }
    }
}

/// The positions of values in the order that sorting places them, given
/// their natural keys and presort texts (see [`value_order`]).
pub fn sorted_value_positions(keys: Vec<NaturalKey>, texts: &[String], options: SortOptions) -> (r:
    Vec<usize>)
    requires
        keys.len() == texts.len(),
    ensures
        is_sorted_permutation(
            indices_view(r@),
            keys.len() as int,
            value_order(keys_view(keys@), texts@.map_values(|t: String| t@), options),
        ),
{
    let mut chars: Vec<Vec<char>> = Vec::new();
    let mut i: usize = 0;
    while i < texts.len()
        invariant
            i <= texts.len(),
            chars@.map_values(|v: Vec<char>| v@) =~= texts@.subrange(0, i as int).map_values(
                |t: String| t@,
            ),
        decreases texts.len() - i,
    {
        let c = chars_of(texts[i].as_str());
        let ghost before = chars@.map_values(|v: Vec<char>| v@);
        chars.push(c);
        proof {
            assert(texts@.subrange(0, i + 1) =~= texts@.subrange(0, i as int).push(texts@[i as int]));
            assert(chars@.map_values(|v: Vec<char>| v@) =~= before.push(c@));
        }
        i += 1;
    }
    assert(texts@.subrange(0, i as int) =~= texts@);
    let n = keys.len();
    let ghost kv = keys_view(keys@);
    let items = ValueItems { keys, texts: chars, options };
    proof {
        law_natural_key_order();
        lemma_stable_order(
            kv,
            natural_key_order(),
            items.texts@.map_values(|v: Vec<char>| v@),
            options.reverse,
            options.presort,
        );
    }
    sorted_positions(&items, n)
}

} // verus!
verus! {

/// Makes natural keys of values with fixed options.
#[derive(Debug, Clone, Copy, PartialEq, Eq, Structural)]
pub struct NaturalKeyGenerator {
    options: SortOptions,
}

impl Default for NaturalKeyGenerator {
    fn default() -> (r: Self)
        ensures
            r.spec_options() == default_options(),
    {
        NaturalKeyGenerator { options: SortOptions::new() }
    }
}

impl NaturalKeyGenerator {
    pub closed spec fn spec_options(self) -> SortOptions {
        self.options
    }

    /// A generator with the given options.
    pub fn new(options: SortOptions) -> (r: Self)
        ensures
            r.spec_options() == options,
    {
        NaturalKeyGenerator { options }
    }

    /// The generator's options.
    pub fn options(&self) -> (r: SortOptions)
        ensures
            r == self.spec_options(),
    {
        self.options
    }
}

/// A key generator with default options.
pub fn natsort_keygen() -> (r: NaturalKeyGenerator)
    ensures
        r.spec_options() == default_options(),
{
    NaturalKeyGenerator::default()
}

/// A key generator with the given options.
pub fn natsort_keygen_with_options(options: SortOptions) -> (r: NaturalKeyGenerator)
    ensures
        r.spec_options() == options,
{
    NaturalKeyGenerator::new(options)
}

} // verus!
