//! Natural sorting: the order of items and a stable sort by it.
use vstd::prelude::*;

use crate::chars::chars_of;
use crate::key::{SortKey, compare_sort_keys, key_order, lemma_key_order, natural_key, sort_key};
use crate::number::compare_char_slices;
use crate::options::SortOptions;
use crate::order::{
    by_order, char_order, int_order, lemma_by_order, lemma_char_order, lemma_int_order,
    lemma_lex_order, lemma_reversed, lemma_then_order, lex_order, reversed, then_order,
    total_preorder,
};
use crate::text::locale_identifier;

verus! {

/// Something that can be sorted as text.
pub trait NaturalText {
    /// The text that is sorted.
    spec fn text_view(&self) -> Seq<char>;

    /// The text that is sorted.
    fn natural_text(&self) -> (r: &str)
        ensures
            r@ == self.text_view(),
    ;
}

impl<'a> NaturalText for &'a str {
    open spec fn text_view(&self) -> Seq<char> {
        (**self)@
    }

    fn natural_text(&self) -> (r: &str) {
        *self
    }
}

impl NaturalText for String {
    open spec fn text_view(&self) -> Seq<char> {
        self@
    }

    fn natural_text(&self) -> (r: &str) {
        self.as_str()
    }
}

impl<'a> NaturalText for &'a String {
    open spec fn text_view(&self) -> Seq<char> {
        (**self)@
    }

    fn natural_text(&self) -> (r: &str) {
        self.as_str()
    }
}

/// The texts of a sequence of items.
pub open spec fn texts_of<T: NaturalText>(items: Seq<T>) -> Seq<Seq<char>> {
    items.map_values(|t: T| t.text_view())
}

/// The options that keys depend on: all but the order of the sort itself.
pub open spec fn key_options(o: SortOptions) -> SortOptions {
    SortOptions { reverse: false, presort: false, ..o }
}

/// The natural sort keys of a sequence of texts.
pub open spec fn keys_of(texts: Seq<Seq<char>>, o: SortOptions, identifier: Seq<char>) -> Seq<
    Seq<crate::key::SpecComponent>,
> {
    texts.map_values(|t: Seq<char>| natural_key(t, key_options(o), identifier))
}

/// The order in which a stable sort by keys places items: by key (reversed
/// when asked), then with presorting by text (reversed when asked), then by
/// original position, so that equal items keep their order.
pub open spec fn stable_order<K>(
    keys: Seq<K>,
    key_ord: spec_fn(K, K) -> int,
    texts: Seq<Seq<char>>,
    reverse: bool,
    presort: bool,
) -> spec_fn(int, int) -> int {
    let by_key = by_order(|i: int| keys[i], key_ord);
    let by_text = by_order(|i: int| texts[i], lex_order(char_order()));
    let k = if reverse {
        reversed(by_key)
    } else {
        by_key
    };
    let t = if reverse {
        reversed(by_text)
    } else {
        by_text
    };
    then_order(
        k,
        if presort {
            then_order(t, int_order())
        } else {
            int_order()
        },
    )
}

/// The order in which sorting places the items with the given natural keys
/// and texts.
pub open spec fn item_order(
    keys: Seq<Seq<crate::key::SpecComponent>>,
    texts: Seq<Seq<char>>,
    o: SortOptions,
) -> spec_fn(int, int) -> int {
    stable_order(keys, key_order(), texts, o.reverse, o.presort)
}

/// The order in which sorting places items.
pub open spec fn natural_item_order(texts: Seq<Seq<char>>, o: SortOptions, identifier: Seq<char>) -> spec_fn(
    int,
    int,
) -> int {
    item_order(keys_of(texts, o, identifier), texts, o)
}

/// `v` occurs in `p`.
pub open spec fn occurs(p: Seq<int>, v: int) -> bool {
    exists|k: int| 0 <= k < p.len() && #[trigger] p[k] == v
}

/// `p` holds each of `0..n` exactly once.
pub open spec fn is_permutation(p: Seq<int>, n: int) -> bool {
    &&& p.len() == n
    &&& forall|k: int| 0 <= k < p.len() ==> 0 <= #[trigger] p[k] < n
    &&& forall|k: int, l: int| 0 <= k < l < p.len() ==> p[k] != p[l]
    &&& forall|v: int| 0 <= v < n ==> #[trigger] occurs(p, v)
}

/// Every earlier element of `p` comes strictly before every later one.
pub open spec fn is_sorted_by(p: Seq<int>, ord: spec_fn(int, int) -> int) -> bool {
    forall|k: int, l: int| 0 <= k < l < p.len() ==> #[trigger] ord(p[k], p[l]) < 0
}

/// `p` lists `0..n` in the order `ord`.
pub open spec fn is_sorted_permutation(p: Seq<int>, n: int, ord: spec_fn(int, int) -> int) -> bool {
    is_permutation(p, n) && is_sorted_by(p, ord)
}

/// Indexes as integers.
pub open spec fn indices_view(v: Seq<usize>) -> Seq<int> {
    v.map_values(|i: usize| i as int)
}

/// A stable sort's order is a total preorder on positions, and places any
/// two different positions apart.
pub proof fn lemma_stable_order<K>(
    keys: Seq<K>,
    key_ord: spec_fn(K, K) -> int,
    texts: Seq<Seq<char>>,
    reverse: bool,
    presort: bool,
)
    requires
        total_preorder(key_ord),
    ensures
        total_preorder(stable_order(keys, key_ord, texts, reverse, presort)),
        forall|i: int, j: int|
            i != j ==> #[trigger] stable_order(keys, key_ord, texts, reverse, presort)(i, j) != 0,
{
    let by_key = by_order(|i: int| keys[i], key_ord);
    let by_text = by_order(|i: int| texts[i], lex_order(char_order()));
    lemma_by_order(|i: int| keys[i], key_ord);
    lemma_char_order();
    lemma_lex_order(char_order());
    lemma_by_order(|i: int| texts[i], lex_order(char_order()));
    lemma_reversed(by_key);
    lemma_reversed(by_text);
    lemma_int_order();
    let k = if reverse {
        reversed(by_key)
    } else {
        by_key
    };
    let t = if reverse {
        reversed(by_text)
    } else {
        by_text
    };
    lemma_then_order(t, int_order());
    let tie = if presort {
        then_order(t, int_order())
    } else {
        int_order()
    };
    lemma_then_order(k, tie);
    assert forall|i: int, j: int| i != j implies #[trigger] stable_order(
        keys,
        key_ord,
        texts,
        reverse,
        presort,
    )(i, j) != 0 by {
        assert(int_order()(i, j) != 0);
    }
}

/// The order in which sorting places items is a total preorder on
/// positions, and places any two different positions apart.
pub proof fn lemma_item_order(
    keys: Seq<Seq<crate::key::SpecComponent>>,
    texts: Seq<Seq<char>>,
    o: SortOptions,
)
    ensures
        total_preorder(item_order(keys, texts, o)),
        forall|i: int, j: int| i != j ==> #[trigger] item_order(keys, texts, o)(i, j) != 0,
{
    lemma_key_order();
    lemma_stable_order(keys, key_order(), texts, o.reverse, o.presort);
}

proof fn lemma_sorted_prefix_equal(
    p: Seq<int>,
    q: Seq<int>,
    n: int,
    ord: spec_fn(int, int) -> int,
    k: int,
)
    requires
        is_sorted_permutation(p, n, ord),
        is_sorted_permutation(q, n, ord),
        forall|x: int, y: int| #[trigger] ord(x, y) == -ord(y, x),
        0 <= k < n,
    ensures
        forall|g: int| 0 <= g <= k ==> p[g] == q[g],
    decreases k,
{
    if k > 0 {
        lemma_sorted_prefix_equal(p, q, n, ord, k - 1);
    }
    if p[k] != q[k] {
        let a = p[k];
        let b = q[k];
        assert(occurs(q, a));
        assert(occurs(p, b));
        let m = choose|m: int| 0 <= m < q.len() && #[trigger] q[m] == a;
        let m2 = choose|m: int| 0 <= m < p.len() && #[trigger] p[m] == b;
        if m < k {
            assert(p[m] == q[m]);
        }
        if m2 < k {
            assert(p[m2] == q[m2]);
        }
        assert(ord(q[k], q[m]) < 0);
        assert(ord(p[k], p[m2]) < 0);
        assert(ord(a, b) == -ord(b, a));
    }
}

/// There is only one way to list `0..n` in a strict order: two sorted
/// permutations are equal.
pub proof fn lemma_sorted_permutation_unique(p: Seq<int>, q: Seq<int>, n: int, ord: spec_fn(int, int) -> int)
    requires
        is_sorted_permutation(p, n, ord),
        is_sorted_permutation(q, n, ord),
        forall|x: int, y: int| #[trigger] ord(x, y) == -ord(y, x),
    ensures
        p == q,
{
    if n > 0 {
        lemma_sorted_prefix_equal(p, q, n, ord, n - 1);
    }
    assert(p =~= q);
}


/// Inserting an element where it belongs keeps a sequence sorted.
proof fn lemma_insert_sorted(r: Seq<int>, pos: int, x: int, ord: spec_fn(int, int) -> int)
    requires
        total_preorder(ord),
        is_sorted_by(r, ord),
        0 <= pos <= r.len(),
        pos > 0 ==> ord(r[pos - 1], x) < 0,
        forall|q: int| pos <= q < r.len() ==> ord(x, #[trigger] r[q]) < 0,
    ensures
        is_sorted_by(r.insert(pos, x), ord),
{
    let s = r.insert(pos, x);
    assert forall|k: int, l: int| 0 <= k < l < s.len() implies #[trigger] ord(s[k], s[l]) < 0 by {
        if l < pos {
            assert(s[k] == r[k] && s[l] == r[l]);
        } else if l == pos {
            assert(s[l] == x);
            assert(s[k] == r[k]);
            if k < pos - 1 {
                assert(ord(r[k], r[pos - 1]) < 0);
                crate::order::lemma_strict_trans(ord, r[k], r[pos - 1], x);
            }
        } else if k == pos {
            assert(s[k] == x && s[l] == r[l - 1]);
        } else if k < pos {
            assert(s[k] == r[k] && s[l] == r[l - 1]);
        } else {
            assert(s[k] == r[k - 1] && s[l] == r[l - 1]);
        }
    }
}

/// The texts of the items, as characters.
fn item_texts<T: NaturalText>(items: &[T]) -> (r: Vec<Vec<char>>)
    ensures
        r@.map_values(|v: Vec<char>| v@) == texts_of(items@),
{
    let mut out: Vec<Vec<char>> = Vec::new();
    let mut i: usize = 0;
    while i < items.len()
        invariant
            i <= items.len(),
            out@.map_values(|v: Vec<char>| v@) =~= texts_of(items@).subrange(0, i as int),
        decreases items.len() - i,
    {
        let text = chars_of(items[i].natural_text());
        let ghost before = out@.map_values(|v: Vec<char>| v@);
        out.push(text);
        proof {
            assert(texts_of(items@).subrange(0, i + 1) =~= texts_of(items@).subrange(
                0,
                i as int,
            ).push(items@[i as int].text_view()));
            assert(out@.map_values(|v: Vec<char>| v@) =~= before.push(text@));
        }
        i += 1;
    }
    assert(texts_of(items@).subrange(0, i as int) =~= texts_of(items@));
    out
}

/// The natural sort keys of texts.
fn text_keys(texts: &Vec<Vec<char>>, options: SortOptions, identifier: &str) -> (r: Vec<SortKey>)
    ensures
        r@.map_values(|k: SortKey| k@) == keys_of(
            texts@.map_values(|v: Vec<char>| v@),
            options,
            identifier@,
        ),
{
    let ghost tv = texts@.map_values(|v: Vec<char>| v@);
    let mut out: Vec<SortKey> = Vec::new();
    let mut i: usize = 0;
    while i < texts.len()
        invariant
            i <= texts.len(),
            tv == texts@.map_values(|v: Vec<char>| v@),
            out@.map_values(|k: SortKey| k@) =~= keys_of(tv, options, identifier@).subrange(
                0,
                i as int,
            ),
        decreases texts.len() - i,
    {
        let text = crate::chars::string_from_chars(texts[i].as_slice());
        let key = sort_key(text.as_str(), SortOptions { reverse: false, presort: false, ..options }, identifier);
        let ghost before = out@.map_values(|k: SortKey| k@);
        out.push(key);
        proof {
            assert(keys_of(tv, options, identifier@).subrange(0, i + 1) =~= keys_of(
                tv,
                options,
                identifier@,
            ).subrange(0, i as int).push(natural_key(tv[i as int], key_options(options), identifier@)));
            assert(out@.map_values(|k: SortKey| k@) =~= before.push(key@));
        }
        i += 1;
    }
    assert(keys_of(tv, options, identifier@).subrange(0, i as int) =~= keys_of(
        tv,
        options,
        identifier@,
    ));
    out
}

/// A strict order on the positions `0..size` of some items, with a way to
/// compare two positions.
pub trait PositionOrder {
    /// The order.
    spec fn order(&self) -> spec_fn(int, int) -> int;

    /// The number of positions.
    spec fn size(&self) -> int;

    /// Three-way comparison of positions `i` and `j`.
    fn compare_positions(&self, i: usize, j: usize) -> (r: i8)
        requires
            i < self.size(),
            j < self.size(),
        ensures
            r as int == self.order()(i as int, j as int),
    ;
}

/// Items with their natural sort keys and texts.
pub struct NaturalItems {
    pub keys: Vec<SortKey>,
    pub texts: Vec<Vec<char>>,
    pub options: SortOptions,
}

impl PositionOrder for NaturalItems {
    open spec fn order(&self) -> spec_fn(int, int) -> int {
        item_order(
            self.keys@.map_values(|k: SortKey| k@),
            self.texts@.map_values(|v: Vec<char>| v@),
            self.options,
        )
    }

    open spec fn size(&self) -> int {
        if self.keys.len() == self.texts.len() {
            self.keys.len() as int
        } else {
            0
        }
    }

    fn compare_positions(&self, i: usize, j: usize) -> (r: i8) {
        let keys = &self.keys;
        let texts = &self.texts;
        let options = self.options;
        let c = compare_sort_keys(&keys[i], &keys[j]);
        proof {
            lemma_key_order();
            assert(key_order()(keys@[j as int]@, keys@[i as int]@) == -key_order()(
                keys@[i as int]@,
                keys@[j as int]@,
            ));
        }
        let c = if options.reverse {
            -c
        } else {
            c
        };
        if c != 0 {
            return c;
        }
        if options.presort {
            let t = compare_char_slices(texts[i].as_slice(), texts[j].as_slice());
            proof {
                lemma_char_order();
                lemma_lex_order(char_order());
                assert(lex_order(char_order())(texts@[j as int]@, texts@[i as int]@)
                    == -lex_order(char_order())(texts@[i as int]@, texts@[j as int]@));
            }
            let t = if options.reverse {
                -t
            } else {
                t
            };
            if t != 0 {
                return t;
            }
        }
        if i < j {
            -1
        } else if i > j {
            1
        } else {
            0
        }
    }
}

/// The positions `lo..hi`, in increasing order.
pub open spec fn position_range(lo: int, hi: int) -> Seq<usize> {
    Seq::new((hi - lo) as nat, |k: int| (lo + k) as usize)
}

/// Merges two runs of positions, each in the order of `items`, that share
/// no position: the result holds both runs' positions, in the order.
fn merge_positions<O: PositionOrder>(items: &O, a: &Vec<usize>, b: &Vec<usize>) -> (r: Vec<usize>)
    requires
        total_preorder(items.order()),
        forall|x: int, y: int| x != y ==> #[trigger] items.order()(x, y) != 0,
        forall|k: int| 0 <= k < a@.len() ==> (#[trigger] a@[k]) < items.size(),
        forall|k: int| 0 <= k < b@.len() ==> (#[trigger] b@[k]) < items.size(),
        is_sorted_by(indices_view(a@), items.order()),
        is_sorted_by(indices_view(b@), items.order()),
        forall|k: int, l: int| 0 <= k < a@.len() && 0 <= l < b@.len() ==> a@[k] != b@[l],
    ensures
        r@.len() == a@.len() + b@.len(),
        r@.to_multiset() == a@.to_multiset().add(b@.to_multiset()),
        is_sorted_by(indices_view(r@), items.order()),
{
    broadcast use vstd::seq_lib::to_multiset_build, vstd::seq_lib::to_multiset_len, vstd::multiset::group_multiset_axioms, vstd::multiset::lemma_multiset_empty_len;

    let ghost ord = items.order();
    let mut r: Vec<usize> = Vec::new();
    let mut i: usize = 0;
    let mut j: usize = 0;
    assert(a@.take(0) =~= Seq::<usize>::empty());
    assert(b@.take(0) =~= Seq::<usize>::empty());
    assert(r@ =~= Seq::<usize>::empty());
    proof {
        vstd::seq_lib::to_multiset_len(r@);
        vstd::multiset::lemma_multiset_empty_len(r@.to_multiset());
    }
    assert(r@.to_multiset() =~= vstd::multiset::Multiset::empty());
    assert(a@.take(0).to_multiset() =~= vstd::multiset::Multiset::empty());
    assert(b@.take(0).to_multiset() =~= vstd::multiset::Multiset::empty());
    assert(r@.to_multiset() =~= a@.take(0).to_multiset().add(b@.take(0).to_multiset()));
    assert(indices_view(r@) =~= Seq::<int>::empty());
    while i < a.len() || j < b.len()
        invariant
            ord == items.order(),
            total_preorder(ord),
            forall|x: int, y: int| x != y ==> #[trigger] ord(x, y) != 0,
            forall|k: int| 0 <= k < a@.len() ==> (#[trigger] a@[k]) < items.size(),
            forall|k: int| 0 <= k < b@.len() ==> (#[trigger] b@[k]) < items.size(),
            is_sorted_by(indices_view(a@), ord),
            is_sorted_by(indices_view(b@), ord),
            forall|k: int, l: int| 0 <= k < a@.len() && 0 <= l < b@.len() ==> a@[k] != b@[l],
            i <= a@.len(),
            j <= b@.len(),
            r@.len() == i + j,
            r@.to_multiset() == a@.take(i as int).to_multiset().add(b@.take(j as int).to_multiset()),
            is_sorted_by(indices_view(r@), ord),
            r@.len() > 0 && i < a@.len() ==> ord(r@.last() as int, a@[i as int] as int) < 0,
            r@.len() > 0 && j < b@.len() ==> ord(r@.last() as int, b@[j as int] as int) < 0,
        decreases a@.len() + b@.len() - i - j,
    {
        let take_a = if i == a.len() {
            false
        } else if j == b.len() {
            true
        } else {
            items.compare_positions(a[i], b[j]) <= 0
        };
        let x = if take_a {
            a[i]
        } else {
            b[j]
        };
        let ghost rv = indices_view(r@);
        proof {
            if take_a {
                if j < b@.len() {
                    assert(a@[i as int] != b@[j as int]);
                    assert(ord(a@[i as int] as int, b@[j as int] as int) < 0);
                }
                if i + 1 < a@.len() {
                    assert(indices_view(a@)[i as int] == a@[i as int] as int);
                    assert(indices_view(a@)[i + 1] == a@[i + 1] as int);
                }
                assert(a@.take(i + 1) =~= a@.take(i as int).push(a@[i as int]));
                vstd::seq_lib::to_multiset_build(a@.take(i as int), a@[i as int]);
            } else {
                if i < a@.len() {
                    assert(a@[i as int] != b@[j as int]);
                    assert(ord(a@[i as int] as int, b@[j as int] as int) > 0);
                    assert(ord(b@[j as int] as int, a@[i as int] as int) == -ord(
                        a@[i as int] as int,
                        b@[j as int] as int,
                    ));
                }
                if j + 1 < b@.len() {
                    assert(indices_view(b@)[j as int] == b@[j as int] as int);
                    assert(indices_view(b@)[j + 1] == b@[j + 1] as int);
                }
                assert(b@.take(j + 1) =~= b@.take(j as int).push(b@[j as int]));
                vstd::seq_lib::to_multiset_build(b@.take(j as int), b@[j as int]);
            }
            if r@.len() > 0 {
                assert(rv[rv.len() - 1] == r@.last() as int);
            }
            lemma_insert_sorted(rv, rv.len() as int, x as int, ord);
            assert(rv.insert(rv.len() as int, x as int) =~= rv.push(x as int));
        }
        let ghost before = r@;
        r.push(x);
        assert(indices_view(r@) =~= rv.push(x as int));
        assert(r@ =~= before.push(x));
        proof {
            vstd::seq_lib::to_multiset_build(before, x);
        }
        assert(r@.to_multiset() =~= before.to_multiset().insert(x));
        if take_a {
            i += 1;
        } else {
            j += 1;
        }
        proof {
            assert(r@.last() == x);
            assert(r@.to_multiset() =~= a@.take(i as int).to_multiset().add(b@.take(j as int).to_multiset()));
        }
    }
    assert(a@.take(i as int) =~= a@);
    assert(b@.take(j as int) =~= b@);
    r
}

/// The positions `lo..hi` in the order of `items`: a merge sort.
fn merge_sort_positions<O: PositionOrder>(items: &O, lo: usize, hi: usize) -> (r: Vec<usize>)
    requires
        lo <= hi <= items.size(),
        total_preorder(items.order()),
        forall|x: int, y: int| x != y ==> #[trigger] items.order()(x, y) != 0,
    ensures
        r@.len() == hi - lo,
        r@.to_multiset() == position_range(lo as int, hi as int).to_multiset(),
        forall|k: int| 0 <= k < r@.len() ==> lo <= #[trigger] r@[k] < hi,
        is_sorted_by(indices_view(r@), items.order()),
    decreases hi - lo,
{
    broadcast use vstd::seq_lib::to_multiset_build, vstd::seq_lib::to_multiset_contains;

    if hi - lo == 0 {
        let r: Vec<usize> = Vec::new();
        assert(position_range(lo as int, hi as int) =~= r@);
        assert(indices_view(r@) =~= Seq::<int>::empty());
        r
    } else if hi - lo == 1 {
        let mut r: Vec<usize> = Vec::new();
        r.push(lo);
        assert(position_range(lo as int, hi as int) =~= r@);
        assert(indices_view(r@) =~= seq![lo as int]);
        r
    } else {
        let mid = lo + (hi - lo) / 2;
        let a = merge_sort_positions(items, lo, mid);
        let b = merge_sort_positions(items, mid, hi);
        let r = merge_positions(items, &a, &b);
        proof {
            assert(position_range(lo as int, mid as int) + position_range(mid as int, hi as int)
                =~= position_range(lo as int, hi as int));
            vstd::seq_lib::lemma_multiset_commutative(
                position_range(lo as int, mid as int),
                position_range(mid as int, hi as int),
            );
            assert forall|k: int| 0 <= k < r@.len() implies lo <= #[trigger] r@[k] < hi by {
                let x = r@[k];
                assert(r@.contains(x));
                assert(r@.to_multiset().count(x) > 0);
                if a@.to_multiset().count(x) > 0 {
                    assert(a@.contains(x));
                } else {
                    assert(b@.to_multiset().count(x) > 0);
                    assert(b@.contains(x));
                }
            }
        }
        r
    }
}

/// The positions `0..n` in the order of `items`.
pub fn sorted_positions<O: PositionOrder>(items: &O, n: usize) -> (r: Vec<usize>)
    requires
        n == items.size(),
        total_preorder(items.order()),
        forall|x: int, y: int| x != y ==> #[trigger] items.order()(x, y) != 0,
    ensures
        is_sorted_permutation(indices_view(r@), n as int, items.order()),
{
    broadcast use vstd::seq_lib::to_multiset_contains;

    let ghost ord = items.order();
    let r = merge_sort_positions(items, 0, n);
    proof {
        let p = indices_view(r@);
        let range = position_range(0, n as int);
        assert forall|k: int| 0 <= k < p.len() implies 0 <= #[trigger] p[k] < n by {
            assert(p[k] == r@[k] as int);
        }
        assert forall|k: int, l: int| 0 <= k < l < p.len() implies p[k] != p[l] by {
            assert(ord(p[k], p[l]) < 0);
            assert(ord(p[k], p[k]) == -ord(p[k], p[k]));
        }
        assert forall|v: int| 0 <= v < n implies #[trigger] occurs(p, v) by {
            assert(range[v] == v as usize);
            assert(range.contains(v as usize));
            assert(range.to_multiset().count(v as usize) > 0);
            assert(r@.to_multiset().count(v as usize) > 0);
            assert(r@.contains(v as usize));
            let k = choose|k: int| 0 <= k < r@.len() && r@[k] == v as usize;
            assert(p[k] == v);
        }
    }
    r
}

/// The positions of the items in the order that natural sorting places them,
/// for a locale identifier.
pub fn index_sorted_in<T: NaturalText>(items: &[T], options: SortOptions, identifier: &str) -> (r:
    Vec<usize>)
    ensures
        is_sorted_permutation(
            indices_view(r@),
            items@.len() as int,
            natural_item_order(texts_of(items@), options, identifier@),
        ),
{
    let texts = item_texts(items);
    let keys = text_keys(&texts, options, identifier);
    assert(texts@.map_values(|v: Vec<char>| v@).len() == texts@.len());
    assert(keys@.map_values(|k: SortKey| k@).len() == keys@.len());
    let n = keys.len();
    let sorted = NaturalItems { keys, texts, options };
    proof {
        lemma_item_order(
            sorted.keys@.map_values(|k: SortKey| k@),
            sorted.texts@.map_values(|v: Vec<char>| v@),
            options,
        );
    }
    sorted_positions(&sorted, n)
}


/// The sequence `0..n`.
pub open spec fn identity_positions(n: int) -> Seq<int> {
    Seq::new(n as nat, |k: int| k)
}

/// The texts in the order that `p` lists them.
pub open spec fn permuted(texts: Seq<Seq<char>>, p: Seq<int>) -> Seq<Seq<char>> {
    Seq::new(p.len(), |k: int| texts[p[k]])
}

/// Sorting what is already sorted changes nothing: once texts are in the
/// order that natural sorting gives, the only sorted order of them is
/// `0..n`.
pub proof fn law_sorting_is_idempotent(
    texts: Seq<Seq<char>>,
    o: SortOptions,
    identifier: Seq<char>,
    p: Seq<int>,
    q: Seq<int>,
)
    requires
        is_sorted_permutation(p, texts.len() as int, natural_item_order(texts, o, identifier)),
        is_sorted_permutation(
            q,
            texts.len() as int,
            natural_item_order(permuted(texts, p), o, identifier),
        ),
    ensures
        q == identity_positions(texts.len() as int),
{
    let n = texts.len() as int;
    let st = permuted(texts, p);
    let ord = natural_item_order(texts, o, identifier);
    let ord2 = natural_item_order(st, o, identifier);
    let keys = keys_of(texts, o, identifier);
    let keys2 = keys_of(st, o, identifier);
    lemma_item_order(keys2, st, o);
    let id = identity_positions(n);
    assert forall|k: int, l: int| 0 <= k < l < id.len() implies #[trigger] ord2(id[k], id[l]) < 0 by {
        assert(ord(p[k], p[l]) < 0);
        assert(keys2[k] == keys[p[k]]);
        assert(keys2[l] == keys[p[l]]);
        assert(st[k] == texts[p[k]]);
        assert(st[l] == texts[p[l]]);
    }
    assert forall|v: int| 0 <= v < n implies #[trigger] occurs(id, v) by {
        assert(id[v] == v);
    }
    lemma_sorted_permutation_unique(q, id, n, ord2);
}

/// With keys that all differ and no presorting, sorting in reverse gives the
/// reverse of sorting forward.
#[verifier::spinoff_prover]
#[verifier::rlimit(40)]
pub proof fn law_reverse_reverses(
    texts: Seq<Seq<char>>,
    o: SortOptions,
    identifier: Seq<char>,
    forward: Seq<int>,
    backward: Seq<int>,
)
    requires
        !o.reverse,
        forall|i: int, j: int|
            0 <= i < texts.len() && 0 <= j < texts.len() && i != j ==> key_order()(
                #[trigger] keys_of(texts, o, identifier)[i],
                #[trigger] keys_of(texts, o, identifier)[j],
            ) != 0,
        is_sorted_permutation(forward, texts.len() as int, natural_item_order(texts, o, identifier)),
        is_sorted_permutation(
            backward,
            texts.len() as int,
            natural_item_order(texts, SortOptions { reverse: true, ..o }, identifier),
        ),
    ensures
        backward == forward.reverse(),
{
    let n = texts.len() as int;
    let ro = SortOptions { reverse: true, ..o };
    let keys = keys_of(texts, o, identifier);
    let ord = natural_item_order(texts, o, identifier);
    let rord = natural_item_order(texts, ro, identifier);
    assert(keys_of(texts, ro, identifier) == keys);
    lemma_key_order();
    lemma_item_order(keys, texts, ro);
    let r = forward.reverse();
    assert forall|k: int, l: int| 0 <= k < l < r.len() implies #[trigger] rord(r[k], r[l]) < 0 by {
        let a = n - 1 - l;
        let b = n - 1 - k;
        assert(r[k] == forward[b] && r[l] == forward[a]);
        assert(ord(forward[a], forward[b]) < 0);
        assert(forward[a] != forward[b]);
        assert(key_order()(keys[forward[a]], keys[forward[b]]) != 0);
    }
    assert forall|k: int| 0 <= k < r.len() implies 0 <= #[trigger] r[k] < n by {
        assert(r[k] == forward[n - 1 - k]);
    }
    assert forall|k: int, l: int| 0 <= k < l < r.len() implies r[k] != r[l] by {
        assert(r[k] == forward[n - 1 - k] && r[l] == forward[n - 1 - l]);
    }
    assert forall|v: int| 0 <= v < n implies #[trigger] occurs(r, v) by {
        assert(occurs(forward, v));
        let k = choose|k: int| 0 <= k < forward.len() && #[trigger] forward[k] == v;
        assert(r[n - 1 - k] == v);
    }
    lemma_sorted_permutation_unique(backward, r, n, rord);
}

/// Sorting is stable: items whose keys are equal keep their order (without
/// presorting, which orders them by text first).
pub proof fn law_sorting_is_stable(
    texts: Seq<Seq<char>>,
    o: SortOptions,
    identifier: Seq<char>,
    p: Seq<int>,
)
    requires
        !o.presort,
        is_sorted_permutation(p, texts.len() as int, natural_item_order(texts, o, identifier)),
    ensures
        forall|k: int, l: int|
            0 <= k < l < p.len() && key_order()(
                keys_of(texts, o, identifier)[p[k]],
                keys_of(texts, o, identifier)[p[l]],
            ) == 0 ==> #[trigger] p[k] < #[trigger] p[l],
{
    let keys = keys_of(texts, o, identifier);
    let ord = natural_item_order(texts, o, identifier);
    lemma_key_order();
    assert forall|k: int, l: int|
        0 <= k < l < p.len() && key_order()(keys[p[k]], keys[p[l]]) == 0 implies #[trigger] p[k]
        < #[trigger] p[l] by {
        assert(ord(p[k], p[l]) < 0);
        assert(key_order()(keys[p[l]], keys[p[k]]) == -key_order()(keys[p[k]], keys[p[l]]));
    }
}

} // verus!
