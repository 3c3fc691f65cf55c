use vstd::prelude::*;

verus! {

broadcast use vstd::string::group_string_axioms;

/// The characters of a string slice.
pub fn chars_of(s: &str) -> (r: Vec<char>)
    ensures
        r@ == s@,
{
    let mut out: Vec<char> = Vec::new();
    for c in it: s.chars()
        invariant
            out@ == it.seq().take(it.index() as int),
    {
        out.push(c);
    }
    out
}

} // verus!

verus! {

/// The characters of `s` with `f` applied to each and the results joined.
pub open spec fn flat_map_chars(s: Seq<char>, f: spec_fn(char) -> Seq<char>) -> Seq<char>
    decreases s.len(),
{
    if s.len() == 0 {
        Seq::empty()
    } else {
        flat_map_chars(s.drop_last(), f) + f(s.last())
    }
}

/// One more character extends the joined result by that character's image.
pub proof fn lemma_flat_map_step(s: Seq<char>, i: int, f: spec_fn(char) -> Seq<char>)
    requires
        0 <= i < s.len(),
    ensures
        flat_map_chars(s.take(i + 1), f) == flat_map_chars(s.take(i), f) + f(s[i]),
{
    assert(s.take(i + 1).drop_last() =~= s.take(i));
}

/// A string holding exactly the given characters.
#[verifier::external_body]
pub fn string_from_chars(chars: &[char]) -> (r: String)
    ensures
        r@ == chars@,
{
    chars.iter().collect()
}

/// The character with a code point, if the code point is a Unicode scalar
/// value.
pub open spec fn scalar_of(cp: int) -> Option<char> {
    if (0 <= cp < 0xD800) || (0xE000 <= cp <= 0x10FFFF) {
        Some(cp as char)
    } else {
        None
    }
}

/// `char::from_u32`: documented to return the character with that code
/// point, or `None` for a surrogate or a value above `U+10FFFF`.
#[verifier::external_body]
pub fn char_from_u32(cp: u32) -> (r: Option<char>)
    ensures
        r == scalar_of(cp as int),
{
    char::from_u32(cp)
}

/// Appends the characters of a text.
pub fn push_str_chars(out: &mut Vec<char>, s: &str)
    ensures
        final(out)@ == old(out)@ + s@,
{
    let ghost start = out@;
    let cs = chars_of(s);
    let mut i: usize = 0;
    while i < cs.len()
        invariant
            i <= cs.len(),
            cs@ == s@,
            out@ =~= start + cs@.subrange(0, i as int),
        decreases cs.len() - i,
    {
        out.push(cs[i]);
        i += 1;
    }
    assert(cs@.subrange(0, i as int) =~= cs@);
}

/// ASCII lowercase of one character.
pub open spec fn ascii_lower(c: char) -> char {
    if 'A' <= c && c <= 'Z' {
        ((c as u8) + 32) as char
    } else {
        c
    }
}

pub fn to_ascii_lower(c: char) -> (r: char)
    ensures
        r == ascii_lower(c),
{
    if 'A' <= c && c <= 'Z' {
        ((c as u8) + 32) as char
    } else {
        c
    }
}

} // verus!
