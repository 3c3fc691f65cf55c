//! Three-way comparisons as spec functions, and the laws that make them
//! total preorders: lexicographic extension, refinement by a second order,
//! projection and reversal.
use vstd::prelude::*;

verus! {

/// The sign of an integer: `-1`, `0` or `1`.
pub open spec fn sign(x: int) -> int {
    if x < 0 {
        -1
    } else if x > 0 {
        1
    } else {
        0
    }
}

/// A three-way comparison whose results are `-1`, `0` or `1`, that is
/// antisymmetric and whose "not greater" relation is transitive.
pub open spec fn total_preorder<T>(ord: spec_fn(T, T) -> int) -> bool {
    &&& forall|x: T, y: T| #[trigger] ord(x, y) == -ord(y, x)
    &&& forall|x: T, y: T| -1 <= #[trigger] ord(x, y) <= 1
    &&& forall|x: T, y: T, z: T|
        #[trigger] ord(x, y) <= 0 && #[trigger] ord(y, z) <= 0 ==> ord(x, z) <= 0
}

/// In a total preorder, "less" followed by "not greater" is "less".
pub proof fn lemma_strict_trans<T>(ord: spec_fn(T, T) -> int, x: T, y: T, z: T)
    requires
        total_preorder(ord),
    ensures
        ord(x, y) < 0 && ord(y, z) <= 0 ==> ord(x, z) < 0,
        ord(x, y) <= 0 && ord(y, z) < 0 ==> ord(x, z) < 0,
        ord(x, y) == 0 && ord(y, z) == 0 ==> ord(x, z) == 0,
{
    assert(ord(z, x) == -ord(x, z));
    assert(ord(y, x) == -ord(x, y));
    assert(ord(z, y) == -ord(y, z));
    if ord(x, y) <= 0 && ord(y, z) <= 0 {
        assert(ord(x, z) <= 0);
        if ord(x, z) == 0 {
            // z <= x <= y and y <= z <= x
            assert(ord(z, x) <= 0 && ord(x, y) <= 0 ==> ord(z, y) <= 0);
            assert(ord(y, z) <= 0 && ord(z, x) <= 0 ==> ord(y, x) <= 0);
        }
    }
    if ord(x, y) == 0 && ord(y, z) == 0 {
        assert(ord(z, y) <= 0 && ord(y, x) <= 0 ==> ord(z, x) <= 0);
    }
}

/// Integers in their usual order.
pub open spec fn int_order() -> spec_fn(int, int) -> int {
    |x: int, y: int| sign(x - y)
}

/// Characters by code point.
pub open spec fn char_order() -> spec_fn(char, char) -> int {
    |x: char, y: char| sign(x as int - y as int)
}

/// Bytes by value.
pub open spec fn byte_order() -> spec_fn(u8, u8) -> int {
    |x: u8, y: u8| sign(x as int - y as int)
}

/// Integers, characters and bytes in their order are total preorders.
pub proof fn lemma_int_order()
    ensures
        total_preorder(int_order()),
{
}

pub proof fn lemma_char_order()
    ensures
        total_preorder(char_order()),
{
}

pub proof fn lemma_byte_order()
    ensures
        total_preorder(byte_order()),
{
}

/// Lexicographic comparison of sequences: the first difference decides, and a
/// proper prefix comes first.
pub open spec fn lex_compare<T>(a: Seq<T>, b: Seq<T>, ord: spec_fn(T, T) -> int) -> int
    decreases a.len(),
{
    if a.len() == 0 {
        if b.len() == 0 {
            0
        } else {
            -1
        }
    } else if b.len() == 0 {
        1
    } else if ord(a[0], b[0]) != 0 {
        ord(a[0], b[0])
    } else {
        lex_compare(a.drop_first(), b.drop_first(), ord)
    }
}

/// The lexicographic extension of an order to sequences.
pub open spec fn lex_order<T>(ord: spec_fn(T, T) -> int) -> spec_fn(Seq<T>, Seq<T>) -> int {
    |a: Seq<T>, b: Seq<T>| lex_compare(a, b, ord)
}

proof fn lemma_lex_antisym<T>(a: Seq<T>, b: Seq<T>, ord: spec_fn(T, T) -> int)
    requires
        total_preorder(ord),
    ensures
        lex_compare(a, b, ord) == -lex_compare(b, a, ord),
        -1 <= lex_compare(a, b, ord) <= 1,
    decreases a.len(),
{
    if a.len() > 0 && b.len() > 0 {
        assert(ord(a[0], b[0]) == -ord(b[0], a[0]));
        lemma_lex_antisym(a.drop_first(), b.drop_first(), ord);
    }
}

proof fn lemma_lex_trans<T>(a: Seq<T>, b: Seq<T>, c: Seq<T>, ord: spec_fn(T, T) -> int)
    requires
        total_preorder(ord),
        lex_compare(a, b, ord) <= 0,
        lex_compare(b, c, ord) <= 0,
    ensures
        lex_compare(a, c, ord) <= 0,
    decreases a.len(),
{
    if a.len() > 0 && b.len() > 0 && c.len() > 0 {
        lemma_strict_trans(ord, a[0], b[0], c[0]);
        if ord(a[0], b[0]) == 0 && ord(b[0], c[0]) == 0 {
            lemma_lex_trans(a.drop_first(), b.drop_first(), c.drop_first(), ord);
        }
    }
}

/// The lexicographic extension of a total preorder is a total preorder.
pub proof fn lemma_lex_order<T>(ord: spec_fn(T, T) -> int)
    requires
        total_preorder(ord),
    ensures
        total_preorder(lex_order(ord)),
{
    let l = lex_order(ord);
    assert forall|x: Seq<T>, y: Seq<T>| #[trigger] l(x, y) == -l(y, x) && -1 <= l(x, y) <= 1 by {
        lemma_lex_antisym(x, y, ord);
    }
    assert forall|x: Seq<T>, y: Seq<T>, z: Seq<T>| #[trigger]
        l(x, y) <= 0 && #[trigger] l(y, z) <= 0 implies l(x, z) <= 0 by {
        lemma_lex_trans(x, y, z, ord);
    }
}

/// Compare by `first`; where it finds no difference, by `second`.
pub open spec fn then_order<T>(first: spec_fn(T, T) -> int, second: spec_fn(T, T) -> int) -> spec_fn(
    T,
    T,
) -> int {
    |x: T, y: T|
        if first(x, y) != 0 {
            first(x, y)
        } else {
            second(x, y)
        }
}

/// Refining a total preorder by another gives a total preorder.
pub proof fn lemma_then_order<T>(first: spec_fn(T, T) -> int, second: spec_fn(T, T) -> int)
    requires
        total_preorder(first),
        total_preorder(second),
    ensures
        total_preorder(then_order(first, second)),
{
    let t = then_order(first, second);
    assert forall|x: T, y: T| #[trigger] t(x, y) == -t(y, x) && -1 <= t(x, y) <= 1 by {
        assert(first(x, y) == -first(y, x));
        assert(second(x, y) == -second(y, x));
    }
    assert forall|x: T, y: T, z: T| #[trigger] t(x, y) <= 0 && #[trigger] t(y, z) <= 0 implies t(
        x,
        z,
    ) <= 0 by {
        lemma_strict_trans(first, x, y, z);
        lemma_strict_trans(second, x, y, z);
        assert(first(x, y) == -first(y, x));
        assert(first(y, z) == -first(z, y));
    }
}

/// Compare values by an order on what `proj` gives of them.
pub open spec fn by_order<T, U>(proj: spec_fn(T) -> U, ord: spec_fn(U, U) -> int) -> spec_fn(
    T,
    T,
) -> int {
    |x: T, y: T| ord(proj(x), proj(y))
}

/// An order pulled back through a projection is a total preorder.
pub proof fn lemma_by_order<T, U>(proj: spec_fn(T) -> U, ord: spec_fn(U, U) -> int)
    requires
        total_preorder(ord),
    ensures
        total_preorder(by_order(proj, ord)),
{
    let b = by_order(proj, ord);
    assert forall|x: T, y: T| #[trigger] b(x, y) == -b(y, x) && -1 <= b(x, y) <= 1 by {
        assert(ord(proj(x), proj(y)) == -ord(proj(y), proj(x)));
    }
    assert forall|x: T, y: T, z: T| #[trigger] b(x, y) <= 0 && #[trigger] b(y, z) <= 0 implies b(
        x,
        z,
    ) <= 0 by {
        assert(ord(proj(x), proj(y)) <= 0 && ord(proj(y), proj(z)) <= 0);
    }
}

/// The reverse of an order.
pub open spec fn reversed<T>(ord: spec_fn(T, T) -> int) -> spec_fn(T, T) -> int {
    |x: T, y: T| ord(y, x)
}

/// The reverse of a total preorder is a total preorder.
pub proof fn lemma_reversed<T>(ord: spec_fn(T, T) -> int)
    requires
        total_preorder(ord),
    ensures
        total_preorder(reversed(ord)),
{
    let r = reversed(ord);
    assert forall|x: T, y: T| #[trigger] r(x, y) == -r(y, x) && -1 <= r(x, y) <= 1 by {
        assert(ord(y, x) == -ord(x, y));
    }
    assert forall|x: T, y: T, z: T| #[trigger] r(x, y) <= 0 && #[trigger] r(y, z) <= 0 implies r(
        x,
        z,
    ) <= 0 by {
        assert(ord(z, y) <= 0 && ord(y, x) <= 0);
    }
}

/// `None` first, then the values in the given order.
pub open spec fn option_order<T>(ord: spec_fn(T, T) -> int) -> spec_fn(Option<T>, Option<T>) -> int {
    |x: Option<T>, y: Option<T>|
        match (x, y) {
            (None, None) => 0,
            (None, Some(_)) => -1,
            (Some(_), None) => 1,
            (Some(a), Some(b)) => ord(a, b),
        }
}

pub proof fn lemma_option_order<T>(ord: spec_fn(T, T) -> int)
    requires
        total_preorder(ord),
    ensures
        total_preorder(option_order(ord)),
{
    let o = option_order(ord);
    assert forall|x: Option<T>, y: Option<T>| #[trigger] o(x, y) == -o(y, x) && -1 <= o(x, y) <= 1 by {
        if x is Some && y is Some {
            assert(ord(x->0, y->0) == -ord(y->0, x->0));
        }
    }
    assert forall|x: Option<T>, y: Option<T>, z: Option<T>| #[trigger]
        o(x, y) <= 0 && #[trigger] o(y, z) <= 0 implies o(x, z) <= 0 by {
        if x is Some && y is Some && z is Some {
            assert(ord(x->0, y->0) <= 0 && ord(y->0, z->0) <= 0);
        }
    }
}


/// The suffix of a sequence from position `i` on.
pub open spec fn suffix_from<T>(a: Seq<T>, i: int) -> Seq<T> {
    a.subrange(i, a.len() as int)
}

/// One step of a lexicographic comparison: where the elements at `i` differ
/// they decide, where they tie the rest decides, and an exhausted side comes
/// first.
pub proof fn lemma_lex_step<T>(a: Seq<T>, b: Seq<T>, i: int, ord: spec_fn(T, T) -> int)
    requires
        0 <= i <= a.len(),
        i <= b.len(),
    ensures
        i == a.len() && i == b.len() ==> lex_compare(suffix_from(a, i), suffix_from(b, i), ord)
            == 0,
        i == a.len() && i < b.len() ==> lex_compare(suffix_from(a, i), suffix_from(b, i), ord)
            == -1,
        i < a.len() && i == b.len() ==> lex_compare(suffix_from(a, i), suffix_from(b, i), ord)
            == 1,
        i < a.len() && i < b.len() && ord(a[i], b[i]) != 0 ==> lex_compare(
            suffix_from(a, i),
            suffix_from(b, i),
            ord,
        ) == ord(a[i], b[i]),
        i < a.len() && i < b.len() && ord(a[i], b[i]) == 0 ==> lex_compare(
            suffix_from(a, i),
            suffix_from(b, i),
            ord,
        ) == lex_compare(suffix_from(a, i + 1), suffix_from(b, i + 1), ord),
{
    if i < a.len() && i < b.len() {
        assert(suffix_from(a, i).drop_first() =~= suffix_from(a, i + 1));
        assert(suffix_from(b, i).drop_first() =~= suffix_from(b, i + 1));
    }
}

/// A sequence is its own suffix from the start.
pub proof fn lemma_suffix_zero<T>(a: Seq<T>)
    ensures
        suffix_from(a, 0) == a,
{
    assert(suffix_from(a, 0) =~= a);
}

/// Integers in descending order.
pub open spec fn int_desc_order() -> spec_fn(int, int) -> int {
    |x: int, y: int| sign(y - x)
}

pub proof fn lemma_int_desc_order()
    ensures
        total_preorder(int_desc_order()),
{
}

/// An order that agrees with a total preorder everywhere is one.
pub proof fn lemma_same_order<T>(f: spec_fn(T, T) -> int, g: spec_fn(T, T) -> int)
    requires
        forall|x: T, y: T| #[trigger] f(x, y) == g(x, y),
        total_preorder(g),
    ensures
        total_preorder(f),
{
    assert forall|x: T, y: T| #[trigger] f(x, y) == -f(y, x) && -1 <= f(x, y) <= 1 by {
        assert(g(x, y) == -g(y, x));
    }
    assert forall|x: T, y: T, z: T| #[trigger] f(x, y) <= 0 && #[trigger] f(y, z) <= 0 implies f(
        x,
        z,
    ) <= 0 by {
        assert(g(x, y) <= 0 && g(y, z) <= 0);
    }
}

} // verus!
