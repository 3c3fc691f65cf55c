//! Splitting a path into the components that path sorting compares.
use vstd::prelude::*;

use crate::chars::{chars_of, string_from_chars};
use crate::token::{is_decimal, is_decimal_digit};

verus! {

/// `/` and `\` both separate path components.
pub open spec fn is_path_separator(c: char) -> bool {
    c == '/' || c == '\\'
}

/// The first separator at or after `i`, or the length.
pub open spec fn separator_from(s: Seq<char>, i: int) -> int
    decreases s.len() - i,
{
    if i < 0 || i >= s.len() {
        s.len() as int
    } else if is_path_separator(s[i]) {
        i
    } else {
        separator_from(s, i + 1)
    }
}

/// The non-empty runs between separators in `s[i..]`.
pub open spec fn segments_from(s: Seq<char>, i: int) -> Seq<Seq<char>>
    decreases s.len() - i,
{
    if i < 0 || i > s.len() {
        Seq::empty()
    } else {
        let j = separator_from(s, i);
        let head: Seq<Seq<char>> = if j > i {
            seq![s.subrange(i, j)]
        } else {
            Seq::empty()
        };
        if i <= j < s.len() {
            head + segments_from(s, j + 1)
        } else {
            head
        }
    }
}

/// The non-empty components of a path.
pub open spec fn segments(s: Seq<char>) -> Seq<Seq<char>> {
    segments_from(s, 0)
}

/// An empty path, or one whose components are all `.`.
pub open spec fn is_dot_only(s: Seq<char>) -> bool {
    s.len() == 0 || (segments(s).len() > 0 && forall|k: int|
        0 <= k < segments(s).len() ==> #[trigger] segments(s)[k] == seq!['.'])
}

/// The positions of the dots in `b[i..]` that can start a suffix: not the
/// first and not the last character.
pub open spec fn dots_from(b: Seq<char>, i: int) -> Seq<int>
    decreases b.len() - i,
{
    if i < 0 || i >= b.len() {
        Seq::empty()
    } else if b[i] == '.' && i != 0 && i + 1 < b.len() {
        seq![i] + dots_from(b, i + 1)
    } else {
        dots_from(b, i + 1)
    }
}

/// The suffix that starts at the `k`-th dot and runs to the next dot or the
/// end.
pub open spec fn suffix_at(b: Seq<char>, dots: Seq<int>, k: int) -> Seq<char> {
    b.subrange(
        dots[k],
        if k + 1 < dots.len() {
            dots[k + 1]
        } else {
            b.len() as int
        },
    )
}

/// A suffix that counts as an extension: at most five characters, and not
/// a dot followed by a decimal digit.
pub open spec fn is_extension(suffix: Seq<char>) -> bool {
    suffix.len() <= 5 && !(suffix.len() > 1 && is_decimal(suffix[1]))
}

/// How many suffixes at the end of a base name are extensions: the last and
/// the one before it, each only while the later ones are.
pub open spec fn extension_count(b: Seq<char>) -> int {
    let dots = dots_from(b, 0);
    let m = dots.len() as int;
    if m >= 1 && is_extension(suffix_at(b, dots, m - 1)) {
        if m >= 2 && is_extension(suffix_at(b, dots, m - 2)) {
            2
        } else {
            1
        }
    } else {
        0
    }
}

/// The base name without its extensions.
pub open spec fn stem_of(b: Seq<char>) -> Seq<char> {
    let dots = dots_from(b, 0);
    let t = extension_count(b);
    if t == 0 {
        b
    } else {
        b.subrange(0, dots[dots.len() - t])
    }
}

/// The extensions of a base name, in order.
pub open spec fn extensions_of(b: Seq<char>) -> Seq<Seq<char>> {
    let dots = dots_from(b, 0);
    let m = dots.len() as int;
    let t = extension_count(b);
    Seq::new(t as nat, |k: int| suffix_at(b, dots, m - t + k))
}

/// The components that path sorting compares: `.` for an empty or
/// dot-only path; otherwise a leading separator as its own component, the
/// directory names, the base name's stem (when not empty) and up to two
/// extensions.
pub open spec fn path_components_of(s: Seq<char>) -> Seq<Seq<char>> {
    if is_dot_only(s) {
        seq![seq!['.']]
    } else {
        let root: Seq<Seq<char>> = if s.len() > 0 && is_path_separator(s[0]) {
            seq![seq![s[0]]]
        } else {
            Seq::empty()
        };
        let segs = segments(s);
        if segs.len() == 0 {
            root
        } else {
            let base = segs.last();
            let stem: Seq<Seq<char>> = if stem_of(base).len() > 0 {
                seq![stem_of(base)]
            } else {
                Seq::empty()
            };
            root + segs.drop_last() + stem + extensions_of(base)
        }
    }
}

proof fn lemma_separator_from(s: Seq<char>, i: int)
    requires
        0 <= i <= s.len(),
    ensures
        i <= separator_from(s, i) <= s.len(),
        separator_from(s, i) < s.len() ==> is_path_separator(s[separator_from(s, i)]),
    decreases s.len() - i,
{
    if i < s.len() && !is_path_separator(s[i]) {
        lemma_separator_from(s, i + 1);
    }
}

/// No run between separators is empty.
pub(crate) proof fn lemma_segments_nonempty(s: Seq<char>, i: int)
    requires
        0 <= i <= s.len(),
    ensures
        forall|k: int|
            0 <= k < segments_from(s, i).len() ==> #[trigger] segments_from(s, i)[k].len() > 0,
    decreases s.len() - i,
{
    lemma_separator_from(s, i);
    let j = separator_from(s, i);
    let head: Seq<Seq<char>> = if j > i {
        seq![s.subrange(i, j)]
    } else {
        Seq::empty()
    };
    if i <= j < s.len() {
        lemma_segments_nonempty(s, j + 1);
        let rest = segments_from(s, j + 1);
        assert(segments_from(s, i) == head + rest);
        assert forall|k: int| 0 <= k < segments_from(s, i).len() implies #[trigger] segments_from(
            s,
            i,
        )[k].len() > 0 by {
            if k >= head.len() {
                assert(segments_from(s, i)[k] == rest[k - head.len()]);
            }
        }
    }
}

/// A path with characters but no runs between separators starts with a
/// separator.
proof fn lemma_no_segments(s: Seq<char>)
    requires
        s.len() > 0,
        segments(s).len() == 0,
    ensures
        is_path_separator(s[0]),
{
    lemma_separator_from(s, 0);
    let j = separator_from(s, 0);
    if j > 0 {
        if j < s.len() {
            assert(segments(s) == seq![s.subrange(0, j)] + segments_from(s, j + 1));
        }
        assert(segments(s).len() > 0);
    }
}

/// The dots that can start a suffix lie inside the base name and come in
/// increasing order.
proof fn lemma_dots_from(b: Seq<char>, i: int)
    requires
        0 <= i,
    ensures
        forall|k: int|
            0 <= k < dots_from(b, i).len() ==> i <= #[trigger] dots_from(b, i)[k] && dots_from(
                b,
                i,
            )[k] + 1 < b.len(),
        forall|k: int, l: int|
            0 <= k < l < dots_from(b, i).len() ==> #[trigger] dots_from(b, i)[k] < #[trigger] dots_from(
                b,
                i,
            )[l],
    decreases b.len() - i,
{
    if i < b.len() {
        lemma_dots_from(b, i + 1);
        let rest = dots_from(b, i + 1);
        if b[i] == '.' && i != 0 && i + 1 < b.len() {
            let d = dots_from(b, i);
            assert(d == seq![i] + rest);
            assert forall|k: int| 0 <= k < d.len() implies i <= #[trigger] d[k] && d[k] + 1 < b.len() by {
                if k > 0 {
                    assert(d[k] == rest[k - 1]);
                }
            }
            assert forall|k: int, l: int| 0 <= k < l < d.len() implies #[trigger] d[k] < #[trigger] d[l] by {
                assert(d[l] == rest[l - 1]);
                if k > 0 {
                    assert(d[k] == rest[k - 1]);
                }
            }
        }
    }
}

/// No extension of a base name is empty.
proof fn lemma_extensions_nonempty(b: Seq<char>)
    ensures
        extension_count(b) <= dots_from(b, 0).len(),
        forall|k: int| 0 <= k < extensions_of(b).len() ==> #[trigger] extensions_of(b)[k].len() > 0,
{
    lemma_dots_from(b, 0);
    let dots = dots_from(b, 0);
    let m = dots.len() as int;
    let t = extension_count(b);
    assert forall|k: int| 0 <= k < extensions_of(b).len() implies #[trigger] extensions_of(
        b,
    )[k].len() > 0 by {
        let q = m - t + k;
        assert(extensions_of(b)[k] == suffix_at(b, dots, q));
        assert(0 <= dots[q] && dots[q] + 1 < b.len());
        if q + 1 < m {
            assert(dots[q] < dots[q + 1]);
        }
    }
}

/// Path sorting always compares at least one component, and none of them
/// is empty.
pub proof fn law_path_components_are_nonempty(s: Seq<char>)
    ensures
        path_components_of(s).len() > 0,
        forall|k: int|
            0 <= k < path_components_of(s).len() ==> #[trigger] path_components_of(s)[k].len() > 0,
{
    if !is_dot_only(s) {
        let root: Seq<Seq<char>> = if s.len() > 0 && is_path_separator(s[0]) {
            seq![seq![s[0]]]
        } else {
            Seq::empty()
        };
        let segs = segments(s);
        lemma_segments_nonempty(s, 0);
        if segs.len() == 0 {
            lemma_no_segments(s);
            assert(path_components_of(s) == root);
        } else {
            let base = segs.last();
            let stem: Seq<Seq<char>> = if stem_of(base).len() > 0 {
                seq![stem_of(base)]
            } else {
                Seq::empty()
            };
            let exts = extensions_of(base);
            let front = segs.drop_last();
            lemma_extensions_nonempty(base);
            assert(base.len() > 0);
            let all = root + front + stem + exts;
            assert(path_components_of(s) == all);
            assert(stem.len() + exts.len() > 0) by {
                if extension_count(base) == 0 {
                    assert(stem_of(base) == base);
                }
            }
            assert forall|k: int| 0 <= k < all.len() implies #[trigger] all[k].len() > 0 by {
                if k < root.len() {
                } else if k < root.len() + front.len() {
                    assert(all[k] == front[k - root.len()]);
                    assert(front[k - root.len()] == segs[k - root.len()]);
                } else if k < root.len() + front.len() + stem.len() {
                    assert(all[k] == stem[k - root.len() - front.len()]);
                } else {
                    assert(all[k] == exts[k - root.len() - front.len() - stem.len()]);
                }
            }
        }
    }
}

fn is_separator_char(c: char) -> (r: bool)
    ensures
        r == is_path_separator(c),
{
    c == '/' || c == '\\'
}

fn copy_range(s: &Vec<char>, lo: usize, hi: usize) -> (r: Vec<char>)
    requires
        lo <= hi <= s.len(),
    ensures
        r@ == s@.subrange(lo as int, hi as int),
{
    let mut out: Vec<char> = Vec::new();
    let mut k = lo;
    while k < hi
        invariant
            lo <= k <= hi <= s.len(),
            out@ == s@.subrange(lo as int, k as int),
        decreases hi - k,
    {
        out.push(s[k]);
        proof {
            assert(s@.subrange(lo as int, k + 1) =~= s@.subrange(lo as int, k as int).push(
                s@[k as int],
            ));
        }
        k += 1;
    }
    out
}

/// The non-empty runs between separators.
fn split_segments(s: &Vec<char>) -> (r: Vec<Vec<char>>)
    ensures
        r@.map_values(|v: Vec<char>| v@) == segments(s@),
{
    let mut out: Vec<Vec<char>> = Vec::new();
    let mut i: usize = 0;
    let ghost whole = segments(s@);
    assert(out@.map_values(|v: Vec<char>| v@) + segments_from(s@, 0) =~= whole);
    loop
        invariant
            i <= s.len(),
            whole == segments(s@),
            out@.map_values(|v: Vec<char>| v@) + segments_from(s@, i as int) == whole,
        decreases s.len() - i,
    {
        let ghost before = out@.map_values(|v: Vec<char>| v@);
        let mut j = i;
        while j < s.len() && !is_separator_char(s[j])
            invariant
                i <= j <= s.len(),
                separator_from(s@, i as int) == separator_from(s@, j as int),
            decreases s.len() - j,
        {
            j += 1;
        }
        if j > i {
            let seg = copy_range(s, i, j);
            out.push(seg);
            proof {
                assert(out@.map_values(|v: Vec<char>| v@) =~= before.push(
                    s@.subrange(i as int, j as int),
                ));
            }
        }
        if j >= s.len() {
            proof {
                let head: Seq<Seq<char>> = if j > i {
                    seq![s@.subrange(i as int, j as int)]
                } else {
                    Seq::empty()
                };
                assert(segments_from(s@, i as int) == head);
                assert(out@.map_values(|v: Vec<char>| v@) =~= before + head);
            }
            return out;
        }
        proof {
            let head: Seq<Seq<char>> = if j > i {
                seq![s@.subrange(i as int, j as int)]
            } else {
                Seq::empty()
            };
            assert(segments_from(s@, i as int) == head + segments_from(s@, j + 1));
            assert(out@.map_values(|v: Vec<char>| v@) =~= before + head);
            assert(before + (head + segments_from(s@, j + 1)) =~= (before + head) + segments_from(
                s@,
                j + 1,
            ));
        }
        i = j + 1;
    }
}

/// The positions of the dots that can start a suffix.
fn dot_positions(b: &Vec<char>) -> (r: Vec<usize>)
    ensures
        r@.map_values(|p: usize| p as int) == dots_from(b@, 0),
        forall|k: int| 0 <= k < r@.len() ==> 0 < #[trigger] r@[k] < b@.len(),
        forall|k: int, l: int| 0 <= k < l < r@.len() ==> r@[k] < r@[l],
{
    let mut out: Vec<usize> = Vec::new();
    let mut i: usize = 0;
    assert(out@.map_values(|p: usize| p as int) + dots_from(b@, 0) =~= dots_from(b@, 0));
    while i < b.len()
        invariant
            i <= b.len(),
            out@.map_values(|p: usize| p as int) + dots_from(b@, i as int) == dots_from(b@, 0),
            forall|k: int| 0 <= k < out@.len() ==> 0 < #[trigger] out@[k] < i,
            forall|k: int, l: int| 0 <= k < l < out@.len() ==> out@[k] < out@[l],
        decreases b.len() - i,
    {
        let ghost before = out@.map_values(|p: usize| p as int);
        if b[i] == '.' && i != 0 && i + 1 < b.len() {
            out.push(i);
            proof {
                assert(out@.map_values(|p: usize| p as int) =~= before.push(i as int));
                assert(before + (seq![i as int] + dots_from(b@, i + 1)) =~= before.push(i as int)
                    + dots_from(b@, i + 1));
            }
        }
        i += 1;
    }
    assert(out@.map_values(|p: usize| p as int) =~= out@.map_values(|p: usize| p as int)
        + dots_from(b@, i as int));
    out
}

fn extension_like(suffix: &Vec<char>) -> (r: bool)
    ensures
        r == is_extension(suffix@),
{
    suffix.len() <= 5 && !(suffix.len() > 1 && is_decimal_digit(suffix[1]))
}

/// The stem and the extensions of a base name.
pub fn split_base_extensions(base: &Vec<char>) -> (r: (Vec<char>, Vec<Vec<char>>))
    ensures
        r.0@ == stem_of(base@),
        r.1@.map_values(|v: Vec<char>| v@) == extensions_of(base@),
{
    let dots = dot_positions(base);
    let ghost ds = dots_from(base@, 0);
    assert(forall|k: int| 0 <= k < dots@.len() ==> ds[k] == dots@[k] as int);
    let m = dots.len();
    let mut count: usize = 0;
    if m >= 1 {
        let last = copy_range(base, dots[m - 1], base.len());
        if extension_like(&last) {
            count = 1;
            if m >= 2 {
                let before = copy_range(base, dots[m - 2], dots[m - 1]);
                if extension_like(&before) {
                    count = 2;
                }
            }
        }
    }
    assert(count as int == extension_count(base@));
    let stem_end = if count == 0 {
        base.len()
    } else {
        dots[m - count]
    };
    let stem = copy_range(base, 0, stem_end);
    assert(stem@ =~= stem_of(base@));
    let mut extensions: Vec<Vec<char>> = Vec::new();
    let mut k: usize = 0;
    while k < count
        invariant
            count as int == extension_count(base@),
            0 <= count <= 2,
            count <= m,
            m == dots@.len(),
            ds == dots_from(base@, 0),
            ds.len() == m,
            forall|q: int| 0 <= q < m ==> ds[q] == dots@[q] as int,
            forall|q: int| 0 <= q < m ==> 0 < #[trigger] dots@[q] < base@.len(),
            forall|q: int, l: int| 0 <= q < l < m ==> dots@[q] < dots@[l],
            k <= count,
            extensions@.map_values(|v: Vec<char>| v@) =~= Seq::new(
                k as nat,
                |q: int| suffix_at(base@, ds, m - count + q),
            ),
        decreases count - k,
    {
        let idx = m - count + k;
        let end = if idx + 1 < m {
            dots[idx + 1]
        } else {
            base.len()
        };
        let suffix = copy_range(base, dots[idx], end);
        let ghost before = extensions@.map_values(|v: Vec<char>| v@);
        extensions.push(suffix);
        proof {
            assert(extensions@.map_values(|v: Vec<char>| v@) =~= before.push(suffix@));
        }
        k += 1;
    }
    (stem, extensions)
}

/// The components that path sorting compares (see [`path_components_of`]).
pub fn path_component_chars(input: &str) -> (r: Vec<Vec<char>>)
    ensures
        r@.map_values(|v: Vec<char>| v@) == path_components_of(input@),
{
    let s = chars_of(input);
    let segs = split_segments(&s);
    let ghost sv = segs@.map_values(|v: Vec<char>| v@);
    let mut dot_only = s.len() == 0 || segs.len() > 0;
    let mut k: usize = 0;
    while k < segs.len()
        invariant
            k <= segs.len(),
            sv == segs@.map_values(|v: Vec<char>| v@),
            sv == segments(s@),
            dot_only == (s@.len() == 0 || (segs@.len() > 0 && forall|q: int|
                0 <= q < k ==> #[trigger] sv[q] == seq!['.'])),
        decreases segs.len() - k,
    {
        let is_dot = segs[k].len() == 1 && segs[k][0] == '.';
        assert(is_dot == (sv[k as int] == seq!['.'])) by {
            if sv[k as int] == seq!['.'] {
                assert(segs@[k as int]@[0] == '.');
            }
            if is_dot {
                assert(segs@[k as int]@ =~= seq!['.']);
            }
        }
        if !is_dot {
            dot_only = s.len() == 0;
        }
        k += 1;
    }
    if dot_only {
        let dot = vec!['.'];
        assert(dot@ =~= seq!['.']);
        let r = vec![dot];
        assert(r@.map_values(|v: Vec<char>| v@) =~= seq![seq!['.']]);
        return r;
    }
    let mut out: Vec<Vec<char>> = Vec::new();
    if s.len() > 0 && is_separator_char(s[0]) {
        let first = vec![s[0]];
        assert(first@ =~= seq![s@[0]]);
        out.push(first);
    }
    let ghost root = out@.map_values(|v: Vec<char>| v@);
    assert(root =~= if s@.len() > 0 && is_path_separator(s@[0]) {
        seq![seq![s@[0]]]
    } else {
        Seq::<Seq<char>>::empty()
    });
    if segs.len() == 0 {
        return out;
    }
    let n = segs.len();
    let mut i: usize = 0;
    while i + 1 < n
        invariant
            n == segs.len(),
            n > 0,
            i + 1 <= n,
            sv == segs@.map_values(|v: Vec<char>| v@),
            out@.map_values(|v: Vec<char>| v@) =~= root + sv.subrange(0, i as int),
        decreases n - i,
    {
        let copy = copy_range(&segs[i], 0, segs[i].len());
        assert(copy@ =~= sv[i as int]);
        let ghost before = out@.map_values(|v: Vec<char>| v@);
        out.push(copy);
        proof {
            assert(sv.subrange(0, i + 1) =~= sv.subrange(0, i as int).push(sv[i as int]));
            assert(out@.map_values(|v: Vec<char>| v@) =~= before.push(sv[i as int]));
        }
        i += 1;
    }
    assert(sv.subrange(0, i as int) =~= sv.drop_last());
    let (stem, extensions) = split_base_extensions(&segs[n - 1]);
    let ghost mid = out@.map_values(|v: Vec<char>| v@);
    if stem.len() > 0 {
        out.push(stem);
    }
    let ghost with_stem = out@.map_values(|v: Vec<char>| v@);
    let ghost stem_part: Seq<Seq<char>> = if stem_of(sv.last()).len() > 0 {
        seq![stem_of(sv.last())]
    } else {
        Seq::empty()
    };
    assert(with_stem =~= mid + stem_part);
    let mut e: usize = 0;
    while e < extensions.len()
        invariant
            e <= extensions.len(),
            out@.map_values(|v: Vec<char>| v@) =~= with_stem + extensions@.map_values(
                |v: Vec<char>| v@,
            ).subrange(0, e as int),
        decreases extensions.len() - e,
    {
        let copy = copy_range(&extensions[e], 0, extensions[e].len());
        assert(copy@ =~= extensions@.map_values(|v: Vec<char>| v@)[e as int]);
        let ghost before = out@.map_values(|v: Vec<char>| v@);
        out.push(copy);
        proof {
            let ev = extensions@.map_values(|v: Vec<char>| v@);
            assert(ev.subrange(0, e + 1) =~= ev.subrange(0, e as int).push(ev[e as int]));
            assert(out@.map_values(|v: Vec<char>| v@) =~= before.push(ev[e as int]));
        }
        e += 1;
    }
    assert(extensions@.map_values(|v: Vec<char>| v@).subrange(0, e as int) =~= extensions@.map_values(
        |v: Vec<char>| v@,
    ));
    out
}

/// The components that path sorting compares, as strings: `.` for an empty
/// or dot-only path; otherwise a leading separator, the directory names, the
/// base name's stem and up to two extensions of at most five characters
/// that do not start with a digit.
pub fn path_components(input: &str) -> (r: Vec<String>)
    ensures
        r@.map_values(|v: String| v@) == path_components_of(input@),
{
    let parts = path_component_chars(input);
    let mut out: Vec<String> = Vec::new();
    let mut i: usize = 0;
    while i < parts.len()
        invariant
            i <= parts.len(),
            out@.map_values(|v: String| v@) =~= parts@.map_values(|v: Vec<char>| v@).subrange(
                0,
                i as int,
            ),
        decreases parts.len() - i,
    {
        let text = string_from_chars(parts[i].as_slice());
        let ghost before = out@.map_values(|v: String| v@);
        out.push(text);
        proof {
            let pv = parts@.map_values(|v: Vec<char>| v@);
            assert(pv.subrange(0, i + 1) =~= pv.subrange(0, i as int).push(pv[i as int]));
            assert(out@.map_values(|v: String| v@) =~= before.push(pv[i as int]));
        }
        i += 1;
    }
    assert(parts@.map_values(|v: Vec<char>| v@).subrange(0, i as int) =~= parts@.map_values(
        |v: Vec<char>| v@,
    ));
    out
}

} // verus!
