//! The sorting functions: natural, real-number and locale-aware ("human")
//! sorting of texts, of values by a key, of paths, sorted indexes, and
//! reordering by indexes.
use vstd::prelude::*;

use crate::chars::{push_str_chars, string_from_chars};
use vstd::std_specs::iter::IteratorSpec;
use crate::locale::{LocaleProfile, fixed_identifier};
use crate::number::{nat_digits, push_nat_digits};
use crate::options::{SortOptions, default_options};
use crate::sort::{
    NaturalText, index_sorted_in, indices_view, is_permutation, is_sorted_permutation,
    natural_item_order, texts_of,
};
use crate::text::locale_identifier;

verus! {

/// The options of real-number sorting: signed floats.
pub open spec fn real_options_of(o: SortOptions) -> SortOptions {
    SortOptions { float: true, signed: true, ..o }
}

/// The options of locale-aware sorting: locale letters and numbers.
pub open spec fn human_options_of(o: SortOptions) -> SortOptions {
    SortOptions { locale_alpha: true, locale_numeric: true, ..o }
}

/// The options of path sorting.
pub open spec fn path_options_of(o: SortOptions) -> SortOptions {
    SortOptions { path: true, ..o }
}

/// The options turned to real-number sorting.
pub fn real_options(options: SortOptions) -> (r: SortOptions)
    ensures
        r == real_options_of(options),
{
    SortOptions { float: true, signed: true, ..options }
}

/// The options turned to locale-aware sorting.
pub fn human_options(options: SortOptions) -> (r: SortOptions)
    ensures
        r == human_options_of(options),
{
    SortOptions { locale_alpha: true, locale_numeric: true, ..options }
}

/// The options turned to path sorting.
pub fn path_options(options: SortOptions) -> (r: SortOptions)
    ensures
        r == path_options_of(options),
{
    SortOptions { path: true, ..options }
}

/// The locale identifier is the profile's own, or one that nothing reads.
pub open spec fn identifier_fits(o: SortOptions, identifier: Seq<char>) -> bool {
    o.locale_profile != LocaleProfile::System || !(o.locale_alpha || o.locale_numeric) ==> identifier
        == fixed_identifier(o.locale_profile)
}

/// `r` is `items` arranged as the texts of `keys` sort: the sorted
/// permutation of their positions, each item cloned.
pub open spec fn arranged_by<T: Clone, K: NaturalText>(
    items: Seq<T>,
    keys: Seq<K>,
    r: Seq<T>,
    o: SortOptions,
    identifier: Seq<char>,
) -> bool {
    exists|p: Seq<int>|
        #![trigger is_sorted_permutation(p, items.len() as int, natural_item_order(texts_of(keys), o, identifier))]
        is_sorted_permutation(p, items.len() as int, natural_item_order(texts_of(keys), o, identifier))
            && r.len() == p.len() && forall|k: int|
            0 <= k < r.len() ==> cloned::<T>(items[p[k]], #[trigger] r[k])
}

/// `r` lists the positions of `items` in the order that natural sorting with
/// `o` places them, for some locale identifier that fits the options.
pub open spec fn sorted_indexes<T: NaturalText>(items: Seq<T>, r: Seq<usize>, o: SortOptions) -> bool {
    exists|identifier: Seq<char>|
        #![trigger identifier_fits(o, identifier)]
        identifier_fits(o, identifier) && is_sorted_permutation(
            indices_view(r),
            items.len() as int,
            natural_item_order(texts_of(items), o, identifier),
        )
}

/// `r` is `items` in the order that natural sorting of the texts of `keys`
/// with `o` places them, for some locale identifier that fits the options.
pub open spec fn sorted_by<T: Clone, K: NaturalText>(items: Seq<T>, keys: Seq<K>, r: Seq<T>, o: SortOptions) -> bool {
    exists|identifier: Seq<char>|
        #![trigger identifier_fits(o, identifier)]
        identifier_fits(o, identifier) && arranged_by(items, keys, r, o, identifier)
}

/// The error of reordering by an index that is not a position of the input.
#[derive(Debug, Clone, PartialEq, Eq, Structural)]
pub struct OrderByIndexError {
    pub position: usize,
    pub index: usize,
    pub input_length: usize,
}

/// The message of an index that is out of bounds.
pub open spec fn out_of_bounds_message(e: OrderByIndexError) -> Seq<char> {
    "index "@ + nat_digits(e.index as nat) + " at position "@ + nat_digits(e.position as nat)
        + " is out of bounds for input length "@ + nat_digits(e.input_length as nat)
}

impl OrderByIndexError {
    /// What went wrong, in words: the index, its position and the length
    /// of the input.
    pub fn message(&self) -> (r: String)
        ensures
            r@ == out_of_bounds_message(*self),
    {
        let mut out: Vec<char> = Vec::new();
        push_str_chars(&mut out, "index ");
        push_nat_digits(self.index as u64, &mut out);
        push_str_chars(&mut out, " at position ");
        push_nat_digits(self.position as u64, &mut out);
        push_str_chars(&mut out, " is out of bounds for input length ");
        push_nat_digits(self.input_length as u64, &mut out);
        assert(out@ =~= out_of_bounds_message(*self));
        string_from_chars(out.as_slice())
    }
}

/// The items at the given indexes, cloned; an index may repeat.
pub fn order_by_index<T: Clone>(items: &[T], indexes: &[usize]) -> (r: Vec<T>)
    requires
        forall|k: int| 0 <= k < indexes@.len() ==> #[trigger] indexes@[k] < items@.len(),
    ensures
        r@.len() == indexes@.len(),
        forall|k: int| 0 <= k < r@.len() ==> cloned::<T>(items@[indexes@[k] as int], #[trigger] r@[k]),
{
    let mut out: Vec<T> = Vec::new();
    let mut k: usize = 0;
    while k < indexes.len()
        invariant
            k <= indexes@.len(),
            out@.len() == k,
            forall|j: int| 0 <= j < indexes@.len() ==> #[trigger] indexes@[j] < items@.len(),
            forall|j: int| 0 <= j < k ==> cloned::<T>(items@[indexes@[j] as int], #[trigger] out@[j]),
        decreases indexes@.len() - k,
    {
        let v = items[indexes[k]].clone();
        out.push(v);
        k += 1;
    }
    out
}

/// The items at the given indexes, cloned, or the first index that is not a
/// position of the input.
pub fn try_order_by_index<T: Clone>(items: &[T], indexes: &[usize]) -> (r: Result<
    Vec<T>,
    OrderByIndexError,
>)
    ensures
        match r {
            Ok(v) => (forall|k: int| 0 <= k < indexes@.len() ==> #[trigger] indexes@[k] < items@.len())
                && v@.len() == indexes@.len() && forall|k: int|
                0 <= k < v@.len() ==> cloned::<T>(items@[indexes@[k] as int], #[trigger] v@[k]),
            Err(e) => e.position < indexes@.len() && e.index == indexes@[e.position as int]
                && e.index >= items@.len() && e.input_length == items@.len() && forall|k: int|
                0 <= k < e.position ==> #[trigger] indexes@[k] < items@.len(),
        },
{
    let mut k: usize = 0;
    while k < indexes.len()
        invariant
            k <= indexes@.len(),
            forall|j: int| 0 <= j < k ==> #[trigger] indexes@[j] < items@.len(),
        decreases indexes@.len() - k,
    {
        if indexes[k] >= items.len() {
            return Err(
                OrderByIndexError { position: k, index: indexes[k], input_length: items.len() },
            );
        }
        k += 1;
    }
    Ok(order_by_index(items, indexes))
}

/// The items at the given indexes, cloned, one by one, up to the first
/// index that is not a position of the input: the iterator ends there, as
/// it has no item to give (`try_order_by_index_iter` reports that index).
pub fn order_by_index_iter<T: Clone>(items: &[T], indexes: &[usize]) -> (r: std::vec::IntoIter<T>)
    ensures
        IteratorSpec::remaining(&r).len() <= indexes@.len(),
        forall|k: int| 0 <= k < IteratorSpec::remaining(&r).len() ==> #[trigger] indexes@[k] < items@.len(),
        forall|k: int|
            0 <= k < IteratorSpec::remaining(&r).len() ==> cloned::<T>(
                items@[indexes@[k] as int],
                #[trigger] IteratorSpec::remaining(&r)[k],
            ),
        IteratorSpec::remaining(&r).len() < indexes@.len() ==> indexes@[IteratorSpec::remaining(
            &r,
        ).len() as int] >= items@.len(),
{
    let mut out: Vec<T> = Vec::new();
    let mut k: usize = 0;
    while k < indexes.len() && indexes[k] < items.len()
        invariant
            k <= indexes@.len(),
            out@.len() == k,
            forall|j: int| 0 <= j < k ==> #[trigger] indexes@[j] < items@.len(),
            forall|j: int| 0 <= j < k ==> cloned::<T>(items@[indexes@[j] as int], #[trigger] out@[j]),
        decreases indexes@.len() - k,
    {
        let v = items[indexes[k]].clone();
        out.push(v);
        k += 1;
    }
    proof {
        broadcast use vstd::std_specs::vec::axiom_spec_into_iter;
    }
    let r = out.into_iter();
    assert(IteratorSpec::remaining(&r) == out@);
    r
}

/// For each index, in order, the item there, cloned, or the error of an
/// index that is not a position of the input.
pub fn try_order_by_index_results<T: Clone>(items: &[T], indexes: &[usize]) -> (r: Vec<
    Result<T, OrderByIndexError>,
>)
    ensures
        r@.len() == indexes@.len(),
        forall|k: int|
            0 <= k < r@.len() ==> match #[trigger] r@[k] {
                Ok(v) => indexes@[k] < items@.len() && cloned::<T>(items@[indexes@[k] as int], v),
                Err(e) => indexes@[k] >= items@.len() && e == OrderByIndexError {
                    position: k as usize,
                    index: indexes@[k],
                    input_length: items@.len() as usize,
                },
            },
{
    let mut out: Vec<Result<T, OrderByIndexError>> = Vec::new();
    let mut k: usize = 0;
    while k < indexes.len()
        invariant
            k <= indexes@.len(),
            out@.len() == k,
            forall|j: int|
                0 <= j < k ==> match #[trigger] out@[j] {
                    Ok(v) => indexes@[j] < items@.len() && cloned::<T>(
                        items@[indexes@[j] as int],
                        v,
                    ),
                    Err(e) => indexes@[j] >= items@.len() && e == OrderByIndexError {
                        position: j as usize,
                        index: indexes@[j],
                        input_length: items@.len() as usize,
                    },
                },
        decreases indexes@.len() - k,
    {
        let index = indexes[k];
        if index < items.len() {
            out.push(Ok(items[index].clone()));
        } else {
            out.push(Err(OrderByIndexError { position: k, index, input_length: items.len() }));
        }
        k += 1;
    }
    out
}

/// For each index, in order, the item there, cloned, or the error of an
/// index that is not a position of the input, one by one.
pub fn try_order_by_index_iter<T: Clone>(items: &[T], indexes: &[usize]) -> (r: std::vec::IntoIter<
    Result<T, OrderByIndexError>,
>)
    ensures
        IteratorSpec::remaining(&r).len() == indexes@.len(),
        forall|k: int|
            0 <= k < indexes@.len() ==> match #[trigger] IteratorSpec::remaining(&r)[k] {
                Ok(v) => indexes@[k] < items@.len() && cloned::<T>(items@[indexes@[k] as int], v),
                Err(e) => indexes@[k] >= items@.len() && e == OrderByIndexError {
                    position: k as usize,
                    index: indexes@[k],
                    input_length: items@.len() as usize,
                },
            },
{
    let v = try_order_by_index_results(items, indexes);
    proof {
        broadcast use vstd::std_specs::vec::axiom_spec_into_iter;
    }
    v.into_iter()
}

/// The positions of the items in natural sort order with the given options.
pub fn index_natsorted_with_options<T: NaturalText>(items: &[T], options: SortOptions) -> (r: Vec<
    usize,
>)
    ensures
        sorted_indexes(items@, r@, options),
{
    let identifier = locale_identifier(options);
    let r = index_sorted_in(items, options, identifier.as_str());
    assert(identifier_fits(options, identifier@));
    r
}

/// The positions of the items in natural sort order.
pub fn index_natsorted<T: NaturalText>(items: &[T]) -> (r: Vec<usize>)
    ensures
        sorted_indexes(items@, r@, default_options()),
{
    index_natsorted_with_options(items, SortOptions::new())
}

/// The positions of the items in real-number order (signed floats) with
/// the given options.
pub fn index_realsorted_with_options<T: NaturalText>(items: &[T], options: SortOptions) -> (r: Vec<
    usize,
>)
    ensures
        sorted_indexes(items@, r@, real_options_of(options)),
{
    index_natsorted_with_options(items, real_options(options))
}

/// The positions of the items in real-number order.
pub fn index_realsorted<T: NaturalText>(items: &[T]) -> (r: Vec<usize>)
    ensures
        sorted_indexes(items@, r@, real_options_of(default_options())),
{
    index_realsorted_with_options(items, SortOptions::new())
}

/// The positions of the items in locale-aware order with the given options.
pub fn index_humansorted_with_options<T: NaturalText>(items: &[T], options: SortOptions) -> (r:
    Vec<usize>)
    ensures
        sorted_indexes(items@, r@, human_options_of(options)),
{
    index_natsorted_with_options(items, human_options(options))
}

/// The positions of the items in locale-aware order.
pub fn index_humansorted<T: NaturalText>(items: &[T]) -> (r: Vec<usize>)
    ensures
        sorted_indexes(items@, r@, human_options_of(default_options())),
{
    index_humansorted_with_options(items, SortOptions::new())
}

/// Positions that are a sorted permutation are valid indexes.
proof fn lemma_permutation_indexes(p: Seq<usize>, n: int, ord: spec_fn(int, int) -> int)
    requires
        is_sorted_permutation(indices_view(p), n, ord),
    ensures
        forall|k: int| 0 <= k < p.len() ==> #[trigger] p[k] < n,
        p.len() == n,
{
    assert forall|k: int| 0 <= k < p.len() implies #[trigger] p[k] < n by {
        assert(indices_view(p)[k] == p[k] as int);
    }
}

/// The items in natural sort order with the given options, cloned.
pub fn natsorted_with_options<T: NaturalText + Clone>(items: &[T], options: SortOptions) -> (r: Vec<
    T,
>)
    ensures
        sorted_by(items@, items@, r@, options),
{
    let identifier = locale_identifier(options);
    let idx = index_sorted_in(items, options, identifier.as_str());
    proof {
        lemma_permutation_indexes(
            idx@,
            items@.len() as int,
            natural_item_order(texts_of(items@), options, identifier@),
        );
    }
    let r = order_by_index(items, idx.as_slice());
    proof {
        let p = indices_view(idx@);
        assert(forall|k: int| 0 <= k < r@.len() ==> p[k] == idx@[k] as int);
        assert(arranged_by(items@, items@, r@, options, identifier@));
        assert(identifier_fits(options, identifier@));
    }
    r
}

/// The items in natural sort order, cloned.
pub fn natsorted<T: NaturalText + Clone>(items: &[T]) -> (r: Vec<T>)
    ensures
        sorted_by(items@, items@, r@, default_options()),
{
    natsorted_with_options(items, SortOptions::new())
}

/// The items in real-number order (signed floats) with the given options.
pub fn realsorted_with_options<T: NaturalText + Clone>(items: &[T], options: SortOptions) -> (r:
    Vec<T>)
    ensures
        sorted_by(items@, items@, r@, real_options_of(options)),
{
    natsorted_with_options(items, real_options(options))
}

/// The items in real-number order.
pub fn realsorted<T: NaturalText + Clone>(items: &[T]) -> (r: Vec<T>)
    ensures
        sorted_by(items@, items@, r@, real_options_of(default_options())),
{
    realsorted_with_options(items, SortOptions::new())
}

/// The items in locale-aware order with the given options.
pub fn humansorted_with_options<T: NaturalText + Clone>(items: &[T], options: SortOptions) -> (r:
    Vec<T>)
    ensures
        sorted_by(items@, items@, r@, human_options_of(options)),
{
    natsorted_with_options(items, human_options(options))
}

/// The items in locale-aware order.
pub fn humansorted<T: NaturalText + Clone>(items: &[T]) -> (r: Vec<T>)
    ensures
        sorted_by(items@, items@, r@, human_options_of(default_options())),
{
    humansorted_with_options(items, SortOptions::new())
}

/// The keys of the items, one call of `key` each.
fn keys_of_items<'a, T, K, F: Fn(&'a T) -> K>(items: &'a [T], key: &F) -> (r: Vec<K>)
    requires
        forall|i: int| 0 <= i < items@.len() ==> key.requires((&items@[i],)),
    ensures
        r@.len() == items@.len(),
        forall|i: int| 0 <= i < items@.len() ==> key.ensures((&items@[i],), #[trigger] r@[i]),
{
    let mut out: Vec<K> = Vec::new();
    let mut i: usize = 0;
    while i < items.len()
        invariant
            i <= items@.len(),
            out@.len() == i,
            forall|j: int| 0 <= j < items@.len() ==> key.requires((&items@[j],)),
            forall|j: int| 0 <= j < i ==> key.ensures((&items@[j],), #[trigger] out@[j]),
        decreases items@.len() - i,
    {
        let k = key(&items[i]);
        out.push(k);
        i += 1;
    }
    out
}

/// The values in natural sort order of the texts that `key` gives them,
/// with the given options.
pub fn natsorted_by_key_with_options<'a, T: Clone, K: NaturalText, F: Fn(&'a T) -> K>(
    items: &'a [T],
    key: F,
    options: SortOptions,
) -> (r: Vec<T>)
    requires
        forall|i: int| 0 <= i < items@.len() ==> key.requires((&items@[i],)),
    ensures
        exists|keys: Seq<K>|
            #![trigger sorted_by(items@, keys, r@, options)]
            keys.len() == items@.len() && (forall|i: int|
                0 <= i < items@.len() ==> key.ensures((&items@[i],), #[trigger] keys[i]))
                && sorted_by(items@, keys, r@, options),
{
    let keys = keys_of_items(items, &key);
    let identifier = locale_identifier(options);
    let idx = index_sorted_in(keys.as_slice(), options, identifier.as_str());
    proof {
        lemma_permutation_indexes(
            idx@,
            items@.len() as int,
            natural_item_order(texts_of(keys@), options, identifier@),
        );
    }
    let r = order_by_index(items, idx.as_slice());
    proof {
        let p = indices_view(idx@);
        assert(forall|k: int| 0 <= k < r@.len() ==> p[k] == idx@[k] as int);
        assert(arranged_by(items@, keys@, r@, options, identifier@));
        assert(identifier_fits(options, identifier@));
        assert(sorted_by(items@, keys@, r@, options));
    }
    r
}

/// The values in natural sort order of the texts that `key` gives them.
pub fn natsorted_by_key<'a, T: Clone, K: NaturalText, F: Fn(&'a T) -> K>(items: &'a [T], key: F) -> (r:
    Vec<T>)
    requires
        forall|i: int| 0 <= i < items@.len() ==> key.requires((&items@[i],)),
    ensures
        exists|keys: Seq<K>|
            #![trigger sorted_by(items@, keys, r@, default_options())]
            keys.len() == items@.len() && (forall|i: int|
                0 <= i < items@.len() ==> key.ensures((&items@[i],), #[trigger] keys[i]))
                && sorted_by(items@, keys, r@, default_options()),
{
    natsorted_by_key_with_options(items, key, SortOptions::new())
}

/// The values in real-number order of the texts that `key` gives them,
/// with the given options.
pub fn realsorted_by_key_with_options<'a, T: Clone, K: NaturalText, F: Fn(&'a T) -> K>(
    items: &'a [T],
    key: F,
    options: SortOptions,
) -> (r: Vec<T>)
    requires
        forall|i: int| 0 <= i < items@.len() ==> key.requires((&items@[i],)),
    ensures
        exists|keys: Seq<K>|
            #![trigger sorted_by(items@, keys, r@, real_options_of(options))]
            keys.len() == items@.len() && (forall|i: int|
                0 <= i < items@.len() ==> key.ensures((&items@[i],), #[trigger] keys[i]))
                && sorted_by(items@, keys, r@, real_options_of(options)),
{
    natsorted_by_key_with_options(items, key, real_options(options))
}

/// The values in real-number order of the texts that `key` gives them.
pub fn realsorted_by_key<'a, T: Clone, K: NaturalText, F: Fn(&'a T) -> K>(items: &'a [T], key: F) -> (r:
    Vec<T>)
    requires
        forall|i: int| 0 <= i < items@.len() ==> key.requires((&items@[i],)),
    ensures
        exists|keys: Seq<K>|
            #![trigger sorted_by(items@, keys, r@, real_options_of(default_options()))]
            keys.len() == items@.len() && (forall|i: int|
                0 <= i < items@.len() ==> key.ensures((&items@[i],), #[trigger] keys[i]))
                && sorted_by(items@, keys, r@, real_options_of(default_options())),
{
    realsorted_by_key_with_options(items, key, SortOptions::new())
}

/// The values in locale-aware order of the texts that `key` gives them,
/// with the given options.
pub fn humansorted_by_key_with_options<'a, T: Clone, K: NaturalText, F: Fn(&'a T) -> K>(
    items: &'a [T],
    key: F,
    options: SortOptions,
) -> (r: Vec<T>)
    requires
        forall|i: int| 0 <= i < items@.len() ==> key.requires((&items@[i],)),
    ensures
        exists|keys: Seq<K>|
            #![trigger sorted_by(items@, keys, r@, human_options_of(options))]
            keys.len() == items@.len() && (forall|i: int|
                0 <= i < items@.len() ==> key.ensures((&items@[i],), #[trigger] keys[i]))
                && sorted_by(items@, keys, r@, human_options_of(options)),
{
    natsorted_by_key_with_options(items, key, human_options(options))
}

/// The values in locale-aware order of the texts that `key` gives them.
pub fn humansorted_by_key<'a, T: Clone, K: NaturalText, F: Fn(&'a T) -> K>(items: &'a [T], key: F) -> (r:
    Vec<T>)
    requires
        forall|i: int| 0 <= i < items@.len() ==> key.requires((&items@[i],)),
    ensures
        exists|keys: Seq<K>|
            #![trigger sorted_by(items@, keys, r@, human_options_of(default_options()))]
            keys.len() == items@.len() && (forall|i: int|
                0 <= i < items@.len() ==> key.ensures((&items@[i],), #[trigger] keys[i]))
                && sorted_by(items@, keys, r@, human_options_of(default_options())),
{
    humansorted_by_key_with_options(items, key, SortOptions::new())
}


/// The options fix the locale identifier: a profile other than the
/// system's, or no locale option.
pub open spec fn locale_fixed(o: SortOptions) -> bool {
    o.locale_profile != LocaleProfile::System || !(o.locale_alpha || o.locale_numeric)
}

/// Sorting is index sorting then reordering: the indexes that index sorting
/// of the keys gives, applied with `order_by_index`, put at each position a
/// clone of the item that sorting the items by those keys puts there (the
/// items are their own keys in plain sorting). (For a system locale that the
/// options consult, the two calls may read different locales.)
pub proof fn law_index_then_order_is_sorting<T: Clone, K: NaturalText>(
    items: Seq<T>,
    keys: Seq<K>,
    o: SortOptions,
    sorted: Seq<T>,
    idx: Seq<usize>,
)
    requires
        locale_fixed(o),
        keys.len() == items.len(),
        sorted_by(items, keys, sorted, o),
        sorted_indexes(keys, idx, o),
    ensures
        sorted.len() == idx.len(),
        forall|k: int| 0 <= k < idx.len() ==> #[trigger] idx[k] < items.len(),
        forall|k: int| 0 <= k < idx.len() ==> cloned::<T>(items[idx[k] as int], #[trigger] sorted[k]),
{
    let id1 = choose|identifier: Seq<char>|
        #![trigger identifier_fits(o, identifier)]
        identifier_fits(o, identifier) && arranged_by(items, keys, sorted, o, identifier);
    let id2 = choose|identifier: Seq<char>|
        #![trigger identifier_fits(o, identifier)]
        identifier_fits(o, identifier) && is_sorted_permutation(
            indices_view(idx),
            keys.len() as int,
            natural_item_order(texts_of(keys), o, identifier),
        );
    assert(id1 == id2);
    let ord = natural_item_order(texts_of(keys), o, id1);
    let p = choose|p: Seq<int>|
        #![trigger is_sorted_permutation(p, items.len() as int, ord)]
        is_sorted_permutation(p, items.len() as int, ord) && sorted.len() == p.len() && forall|k: int|
            0 <= k < sorted.len() ==> cloned::<T>(items[p[k]], #[trigger] sorted[k]);
    crate::sort::lemma_item_order(
        crate::sort::keys_of(texts_of(keys), o, id1),
        texts_of(keys),
        o,
    );
    crate::sort::lemma_sorted_permutation_unique(p, indices_view(idx), items.len() as int, ord);
    assert forall|k: int| 0 <= k < idx.len() implies #[trigger] idx[k] < items.len() by {
        assert(indices_view(idx)[k] == idx[k] as int);
    }
    assert forall|k: int| 0 <= k < idx.len() implies cloned::<T>(
        items[idx[k] as int],
        #[trigger] sorted[k],
    ) by {
        assert(indices_view(idx)[k] == idx[k] as int);
        assert(p[k] == idx[k] as int);
        assert(cloned::<T>(items[p[k]], sorted[k]));
    }
    assert(sorted.len() == idx.len());
}

/// Sorting is determined by the items, their keys and the options: two
/// results that both meet the sorting contract put at each position a clone
/// of the same item (for a locale that the options fix). So real-number
/// sorting arranges the items as natural sorting with signed floats turned
/// on does, and locale-aware sorting as natural sorting with the locale
/// options turned on.
pub proof fn law_sorting_is_determined<T: Clone, K: NaturalText>(
    items: Seq<T>,
    keys: Seq<K>,
    o: SortOptions,
    r1: Seq<T>,
    r2: Seq<T>,
)
    requires
        locale_fixed(o),
        sorted_by(items, keys, r1, o),
        sorted_by(items, keys, r2, o),
    ensures
        r1.len() == items.len(),
        r2.len() == items.len(),
        exists|p: Seq<int>|
            #![trigger is_permutation(p, items.len() as int)]
            is_permutation(p, items.len() as int) && forall|k: int|
                0 <= k < items.len() ==> cloned::<T>(items[p[k]], #[trigger] r1[k]) && cloned::<T>(
                    items[p[k]],
                    r2[k],
                ),
{
    let id1 = choose|identifier: Seq<char>|
        #![trigger identifier_fits(o, identifier)]
        identifier_fits(o, identifier) && arranged_by(items, keys, r1, o, identifier);
    let id2 = choose|identifier: Seq<char>|
        #![trigger identifier_fits(o, identifier)]
        identifier_fits(o, identifier) && arranged_by(items, keys, r2, o, identifier);
    assert(id1 == id2);
    let ord = natural_item_order(texts_of(keys), o, id1);
    let n = items.len() as int;
    let p1 = choose|p: Seq<int>|
        #![trigger is_sorted_permutation(p, n, ord)]
        is_sorted_permutation(p, n, ord) && r1.len() == p.len() && forall|k: int|
            0 <= k < r1.len() ==> cloned::<T>(items[p[k]], #[trigger] r1[k]);
    let p2 = choose|p: Seq<int>|
        #![trigger is_sorted_permutation(p, n, ord)]
        is_sorted_permutation(p, n, ord) && r2.len() == p.len() && forall|k: int|
            0 <= k < r2.len() ==> cloned::<T>(items[p[k]], #[trigger] r2[k]);
    crate::sort::lemma_item_order(crate::sort::keys_of(texts_of(keys), o, id1), texts_of(keys), o);
    crate::sort::lemma_sorted_permutation_unique(p1, p2, n, ord);
    assert(is_permutation(p1, n));
    assert forall|k: int| 0 <= k < items.len() implies cloned::<T>(items[p1[k]], #[trigger] r1[k])
        && cloned::<T>(items[p1[k]], r2[k]) by {
        assert(cloned::<T>(items[p2[k]], r2[k]));
    }
}

#[verifier::external_type_specification]
#[verifier::external_body]
pub struct ExPathBuf(std::path::PathBuf);

#[verifier::external_type_specification]
#[verifier::external_body]
pub struct ExPath(std::path::Path);

/// The text that `Path::to_string_lossy` gives of a path.
pub uninterp spec fn spec_path_text(path: &std::path::Path) -> Seq<char>;

/// The text that `Path::to_string_lossy` gives of the path a buffer holds.
pub uninterp spec fn spec_path_buf_text(path: std::path::PathBuf) -> Seq<char>;

/// `Path::to_string_lossy` of std, owned: the path as text, with what is not
/// valid Unicode replaced by `U+FFFD`. The text is named, not described.
#[verifier::external_body]
fn path_to_text(path: &std::path::Path) -> (r: String)
    ensures
        r@ == spec_path_text(path),
{
    path.to_string_lossy().into_owned()
}

/// `Path::to_string_lossy` of std on the path that a buffer holds, owned.
/// The text is named, not described.
#[verifier::external_body]
fn path_buf_to_text(path: &std::path::PathBuf) -> (r: String)
    ensures
        r@ == spec_path_buf_text(*path),
{
    path.to_string_lossy().into_owned()
}

/// A filesystem path that can be sorted by its text.
pub trait NaturalPath {
    /// The text that the path is sorted by.
    spec fn path_view(&self) -> Seq<char>;

    /// The path as text.
    fn path_text(&self) -> (r: String)
        ensures
            r@ == self.path_view(),
    ;
}

impl NaturalPath for std::path::PathBuf {
    open spec fn path_view(&self) -> Seq<char> {
        spec_path_buf_text(*self)
    }

    fn path_text(&self) -> (r: String) {
        path_buf_to_text(self)
    }
}

impl<'a> NaturalPath for &'a std::path::Path {
    open spec fn path_view(&self) -> Seq<char> {
        spec_path_text(*self)
    }

    fn path_text(&self) -> (r: String) {
        path_to_text(*self)
    }
}

/// The texts of the paths.
pub open spec fn path_texts_of<T: NaturalPath>(items: Seq<T>) -> Seq<Seq<char>> {
    items.map_values(|p: T| p.path_view())
}

fn path_texts<T: NaturalPath>(items: &[T]) -> (r: Vec<String>)
    ensures
        texts_of(r@) == path_texts_of(items@),
{
    let mut out: Vec<String> = Vec::new();
    let mut i: usize = 0;
    while i < items.len()
        invariant
            i <= items@.len(),
            texts_of(out@) =~= path_texts_of(items@.subrange(0, i as int)),
        decreases items@.len() - i,
    {
        let t = items[i].path_text();
        let ghost before = texts_of(out@);
        out.push(t);
        proof {
            assert(items@.subrange(0, i + 1) =~= items@.subrange(0, i as int).push(items@[i as int]));
            assert(texts_of(out@) =~= before.push(t@));
        }
        i += 1;
    }
    assert(items@.subrange(0, i as int) =~= items@);
    out
}

/// `r` lists the positions of the paths in the order that natural sorting
/// with `o`, in path mode, places their texts, for a locale identifier that
/// fits the options.
pub open spec fn sorted_path_indexes<T: NaturalPath>(items: Seq<T>, r: Seq<usize>, o: SortOptions) -> bool {
    exists|identifier: Seq<char>|
        #![trigger identifier_fits(path_options_of(o), identifier)]
        identifier_fits(path_options_of(o), identifier) && is_sorted_permutation(
            indices_view(r),
            items.len() as int,
            natural_item_order(path_texts_of(items), path_options_of(o), identifier),
        )
}

/// `r` holds clones of the paths in natural path order: the positions that
/// `sorted_path_indexes` allows, each path cloned.
pub open spec fn sorted_paths<T: NaturalPath + Clone>(items: Seq<T>, r: Seq<T>, o: SortOptions) -> bool {
    exists|idx: Seq<usize>|
        #![trigger sorted_path_indexes(items, idx, o)]
        sorted_path_indexes(items, idx, o) && r.len() == idx.len() && forall|k: int|
            0 <= k < r.len() ==> cloned::<T>(items[idx[k] as int], #[trigger] r[k])
}

proof fn lemma_same_indexes(r1: Seq<usize>, r2: Seq<usize>)
    requires
        indices_view(r1) == indices_view(r2),
    ensures
        r1 == r2,
{
    assert(r1.len() == indices_view(r1).len());
    assert forall|k: int| 0 <= k < r1.len() implies r1[k] == r2[k] by {
        assert(indices_view(r1)[k] == r1[k] as int);
        assert(indices_view(r2)[k] == r2[k] as int);
    }
    assert(r1 =~= r2);
}

/// Index sorting is determined by the texts and the options: two results
/// that both meet its contract are equal (for a locale that the options
/// fix). So real-number sorting equals natural sorting with signed floats
/// turned on, and locale-aware sorting natural sorting with the locale
/// turned on.
pub proof fn law_index_sorting_is_determined(
    texts: Seq<Seq<char>>,
    o: SortOptions,
    r1: Seq<usize>,
    r2: Seq<usize>,
    id1: Seq<char>,
    id2: Seq<char>,
)
    requires
        locale_fixed(o),
        identifier_fits(o, id1),
        identifier_fits(o, id2),
        is_sorted_permutation(indices_view(r1), texts.len() as int, natural_item_order(texts, o, id1)),
        is_sorted_permutation(indices_view(r2), texts.len() as int, natural_item_order(texts, o, id2)),
    ensures
        r1 == r2,
{
    let ord = natural_item_order(texts, o, id1);
    crate::sort::lemma_item_order(crate::sort::keys_of(texts, o, id1), texts, o);
    crate::sort::lemma_sorted_permutation_unique(
        indices_view(r1),
        indices_view(r2),
        texts.len() as int,
        ord,
    );
    lemma_same_indexes(r1, r2);
}

/// Sorting paths sorts their texts: the positions that path index sorting
/// gives are those that index sorting of the paths' texts, in path mode,
/// gives (for a locale that the options fix).
pub proof fn law_path_sorting_sorts_texts<T: NaturalPath, S: NaturalText>(
    items: Seq<T>,
    texts: Seq<S>,
    o: SortOptions,
    r1: Seq<usize>,
    r2: Seq<usize>,
)
    requires
        locale_fixed(path_options_of(o)),
        texts_of(texts) == path_texts_of(items),
        sorted_path_indexes(items, r1, o),
        sorted_indexes(texts, r2, path_options_of(o)),
    ensures
        r1 == r2,
{
    let po = path_options_of(o);
    let id1 = choose|identifier: Seq<char>|
        #![trigger identifier_fits(po, identifier)]
        identifier_fits(po, identifier) && is_sorted_permutation(
            indices_view(r1),
            items.len() as int,
            natural_item_order(path_texts_of(items), po, identifier),
        );
    let id2 = choose|identifier: Seq<char>|
        #![trigger identifier_fits(po, identifier)]
        identifier_fits(po, identifier) && is_sorted_permutation(
            indices_view(r2),
            texts.len() as int,
            natural_item_order(texts_of(texts), po, identifier),
        );
    assert(texts_of(texts).len() == texts.len());
    law_index_sorting_is_determined(path_texts_of(items), po, r1, r2, id1, id2);
}

/// Path sorting forces path mode, and sorting paths is path index sorting
/// then reordering: the same contracts hold with path mode turned on or not,
/// and the indexes that path index sorting gives put at each position a
/// clone of the path that path sorting puts there (for a locale that the
/// options fix).
#[verifier::spinoff_prover]
#[verifier::rlimit(40)]
pub proof fn law_path_sorting_is_index_path_sorting<T: NaturalPath + Clone>(
    items: Seq<T>,
    o: SortOptions,
    sorted: Seq<T>,
    idx: Seq<usize>,
)
    requires
        locale_fixed(path_options_of(o)),
        sorted_paths(items, sorted, o),
        sorted_path_indexes(items, idx, o),
    ensures
        sorted_paths(items, sorted, path_options_of(o)),
        sorted_path_indexes(items, idx, path_options_of(o)),
        sorted.len() == idx.len(),
        forall|k: int| 0 <= k < idx.len() ==> #[trigger] idx[k] < items.len(),
        forall|k: int| 0 <= k < idx.len() ==> cloned::<T>(items[idx[k] as int], #[trigger] sorted[k]),
{
    let po = path_options_of(o);
    assert(path_options_of(po) == po);
    let idx0 = choose|idx0: Seq<usize>|
        #![trigger sorted_path_indexes(items, idx0, o)]
        sorted_path_indexes(items, idx0, o) && sorted.len() == idx0.len() && forall|k: int|
            0 <= k < sorted.len() ==> cloned::<T>(items[idx0[k] as int], #[trigger] sorted[k]);
    let id1 = choose|identifier: Seq<char>|
        #![trigger identifier_fits(po, identifier)]
        identifier_fits(po, identifier) && is_sorted_permutation(
            indices_view(idx0),
            items.len() as int,
            natural_item_order(path_texts_of(items), po, identifier),
        );
    let id2 = choose|identifier: Seq<char>|
        #![trigger identifier_fits(po, identifier)]
        identifier_fits(po, identifier) && is_sorted_permutation(
            indices_view(idx),
            items.len() as int,
            natural_item_order(path_texts_of(items), po, identifier),
        );
    assert(path_texts_of(items).len() == items.len());
    law_index_sorting_is_determined(path_texts_of(items), po, idx0, idx, id1, id2);
    assert(idx0 == idx);
    assert forall|k: int| 0 <= k < idx.len() implies #[trigger] idx[k] < items.len() by {
        assert(indices_view(idx)[k] == idx[k] as int);
    }
    assert forall|k: int| 0 <= k < idx.len() implies cloned::<T>(
        items[idx[k] as int],
        #[trigger] sorted[k],
    ) by {
        assert(cloned::<T>(items[idx0[k] as int], sorted[k]));
    }
    assert(sorted_path_indexes(items, idx0, po) == sorted_path_indexes(items, idx0, o));
    assert(sorted_path_indexes(items, idx, po) == sorted_path_indexes(items, idx, o));
}

/// The positions of the paths in natural path order (path mode is always
/// on), by their text.
pub fn index_natsorted_paths_with_options<T: NaturalPath>(items: &[T], options: SortOptions) -> (r:
    Vec<usize>)
    ensures
        sorted_path_indexes(items@, r@, options),
{
    let texts = path_texts(items);
    let opts = path_options(options);
    let identifier = locale_identifier(opts);
    let r = index_sorted_in(texts.as_slice(), opts, identifier.as_str());
    assert(identifier_fits(opts, identifier@));
    r
}

/// The positions of the paths in natural path order.
pub fn index_natsorted_paths<T: NaturalPath>(items: &[T]) -> (r: Vec<usize>)
    ensures
        sorted_path_indexes(items@, r@, default_options()),
{
    index_natsorted_paths_with_options(items, SortOptions::new())
}

/// The paths in natural path order (path mode is always on), cloned.
pub fn natsorted_paths_with_options<T: NaturalPath + Clone>(items: &[T], options: SortOptions) -> (r:
    Vec<T>)
    ensures
        sorted_paths(items@, r@, options),
{
    let idx = index_natsorted_paths_with_options(items, options);
    proof {
        let identifier = choose|identifier: Seq<char>|
            identifier_fits(path_options_of(options), identifier) && is_sorted_permutation(
                indices_view(idx@),
                items@.len() as int,
                natural_item_order(path_texts_of(items@), path_options_of(options), identifier),
            );
        lemma_permutation_indexes(
            idx@,
            items@.len() as int,
            natural_item_order(path_texts_of(items@), path_options_of(options), identifier),
        );
    }
    let r = order_by_index(items, idx.as_slice());
    r
}

/// The paths in natural path order, cloned.
pub fn natsorted_paths<T: NaturalPath + Clone>(items: &[T]) -> (r: Vec<T>)
    ensures
        sorted_paths(items@, r@, default_options()),
{
    natsorted_paths_with_options(items, SortOptions::new())
}

} // verus!
