//! Decoding bytes to text: ASCII, Latin-1 and UTF-8, and choosing a decoder
//! by the name of its encoding.
use vstd::prelude::*;

use vstd::utf8::{decode_utf8, valid_utf8};

use crate::chars::{ascii_lower, chars_of, string_from_chars, to_ascii_lower};
use crate::locale::{is_white_space, space_skip, space_trim_end, trimmed};
use crate::number::{nat_digits, push_nat_digits};

verus! {

/// The encodings that a decoder can read.
#[derive(Debug, Clone, Copy, PartialEq, Eq, Structural)]
pub enum DecodeEncoding {
    Ascii,
    Latin1,
    Utf8,
}

/// A decoder of bytes in one encoding.
#[derive(Debug, Clone, Copy, PartialEq, Eq, Structural)]
pub struct Decoder {
    encoding: DecodeEncoding,
}

/// An encoding name that no decoder reads.
#[derive(Debug, Clone, PartialEq, Eq)]
pub struct UnsupportedEncodingError {
    pub encoding: String,
}

/// Bytes that are not valid in the decoder's encoding.
#[derive(Debug, Clone, PartialEq, Eq, Structural)]
pub enum DecodeError {
    /// The first byte above `0x7F`, and where it stands.
    InvalidAscii { position: usize, byte: u8 },
    /// How far the bytes are valid UTF-8, and the length of the invalid
    /// sequence there (`None` where the input ends inside a sequence).
    InvalidUtf8 { valid_up_to: usize, error_length: Option<usize> },
}

impl Decoder {
    pub closed spec fn spec_encoding(self) -> DecodeEncoding {
        self.encoding
    }

    /// A decoder for the encoding.
    pub fn new(encoding: DecodeEncoding) -> (r: Self)
        ensures
            r.spec_encoding() == encoding,
    {
        Decoder { encoding }
    }

    /// A decoder for ASCII.
    pub fn ascii() -> (r: Self)
        ensures
            r.spec_encoding() == DecodeEncoding::Ascii,
    {
        Self::new(DecodeEncoding::Ascii)
    }

    /// A decoder for Latin-1 (ISO 8859-1).
    pub fn latin1() -> (r: Self)
        ensures
            r.spec_encoding() == DecodeEncoding::Latin1,
    {
        Self::new(DecodeEncoding::Latin1)
    }

    /// A decoder for UTF-8.
    pub fn utf8() -> (r: Self)
        ensures
            r.spec_encoding() == DecodeEncoding::Utf8,
    {
        Self::new(DecodeEncoding::Utf8)
    }

    /// The decoder's encoding.
    pub fn encoding(self) -> (r: DecodeEncoding)
        ensures
            r == self.spec_encoding(),
    {
        self.encoding
    }

    /// Decode bytes in the decoder's encoding.
    pub fn decode_bytes(self, bytes: &[u8]) -> (r: Result<String, DecodeError>)
        ensures
            self.spec_encoding() == DecodeEncoding::Ascii ==> ascii_result(bytes@, r),
            self.spec_encoding() == DecodeEncoding::Latin1 ==> (r matches Ok(s) && s@
                == latin1_text(bytes@)),
            self.spec_encoding() == DecodeEncoding::Utf8 ==> utf8_result(bytes@, r),
    {
        match self.encoding {
            DecodeEncoding::Ascii => decode_ascii_bytes(bytes),
            DecodeEncoding::Latin1 => Ok(decode_latin1_bytes(bytes)),
            DecodeEncoding::Utf8 => decode_utf8_bytes(bytes),
        }
    }
}

/// An encoding name as it is matched: trimmed, ASCII letters lowercased,
/// `-` and `_` dropped.
pub open spec fn normalized_encoding(s: Seq<char>) -> Seq<char> {
    trimmed(s).map_values(|c: char| ascii_lower(c)).filter(|c: char| c != '-' && c != '_')
}

/// The encoding that a normalized name names: `ascii`; `latin1`,
/// `iso88591` or `l1`; `utf8`.
pub open spec fn encoding_named(n: Seq<char>) -> Option<DecodeEncoding> {
    if n == seq!['a', 's', 'c', 'i', 'i'] {
        Some(DecodeEncoding::Ascii)
    } else if n == seq!['l', 'a', 't', 'i', 'n', '1'] || n == seq![
        'i',
        's',
        'o',
        '8',
        '8',
        '5',
        '9',
        '1',
    ] || n == seq!['l', '1'] {
        Some(DecodeEncoding::Latin1)
    } else if n == seq!['u', 't', 'f', '8'] {
        Some(DecodeEncoding::Utf8)
    } else {
        None
    }
}

fn equals(s: &Vec<char>, p: &[char]) -> (r: bool)
    ensures
        r == (s@ == p@),
{
    if s.len() != p.len() {
        return false;
    }
    let mut k: usize = 0;
    while k < s.len()
        invariant
            s@.len() == p@.len(),
            k <= s.len(),
            forall|j: int| 0 <= j < k ==> s@[j] == p@[j],
        decreases s.len() - k,
    {
        if s[k] != p[k] {
            return false;
        }
        k += 1;
    }
    assert(s@ =~= p@);
    true
}

/// The decoder for an encoding name (see [`encoding_named`]); names are
/// matched ignoring surrounding white space, ASCII case, `-` and `_`.
pub fn decoder(encoding: &str) -> (r: Result<Decoder, UnsupportedEncodingError>)
    ensures
        match encoding_named(normalized_encoding(encoding@)) {
            Some(e) => r matches Ok(d) && d.spec_encoding() == e,
            None => r matches Err(err) && err.encoding@ == encoding@,
        },
{
    let s = chars_of(encoding);
    let mut a: usize = 0;
    while a < s.len() && is_white_space_char(s[a])
        invariant
            a <= s.len(),
            space_skip(s@, 0) == space_skip(s@, a as int),
        decreases s.len() - a,
    {
        a += 1;
    }
    let mut b: usize = s.len();
    while b > a && is_white_space_char(s[b - 1])
        invariant
            a <= b <= s.len(),
            space_trim_end(s@, a as int, s@.len() as int) == space_trim_end(s@, a as int, b as int),
        decreases b,
    {
        b -= 1;
    }
    let ghost t = s@.subrange(a as int, b as int);
    let ghost lowered = t.map_values(|c: char| ascii_lower(c));
    let mut n: Vec<char> = Vec::new();
    let mut k = a;
    while k < b
        invariant
            a <= k <= b <= s.len(),
            t == s@.subrange(a as int, b as int),
            lowered == t.map_values(|c: char| ascii_lower(c)),
            n@ == lowered.subrange(0, k - a).filter(|c: char| c != '-' && c != '_'),
        decreases b - k,
    {
        let c = to_ascii_lower(s[k]);
        proof {
            assert(lowered.subrange(0, k + 1 - a) =~= lowered.subrange(0, k - a).push(c));
            reveal(Seq::filter);
            assert(lowered.subrange(0, k + 1 - a).drop_last() =~= lowered.subrange(0, k - a));
        }
        if c != '-' && c != '_' {
            n.push(c);
        }
        k += 1;
    }
    assert(lowered.subrange(0, b - a) =~= lowered);
    if equals(&n, &['a', 's', 'c', 'i', 'i']) {
        assert(['a', 's', 'c', 'i', 'i']@ =~= seq!['a', 's', 'c', 'i', 'i']);
        return Ok(Decoder::ascii());
    }
    assert(['a', 's', 'c', 'i', 'i']@ =~= seq!['a', 's', 'c', 'i', 'i']);
    let l1 = equals(&n, &['l', 'a', 't', 'i', 'n', '1']);
    let l2 = equals(&n, &['i', 's', 'o', '8', '8', '5', '9', '1']);
    let l3 = equals(&n, &['l', '1']);
    assert(['l', 'a', 't', 'i', 'n', '1']@ =~= seq!['l', 'a', 't', 'i', 'n', '1']);
    assert(['i', 's', 'o', '8', '8', '5', '9', '1']@ =~= seq![
        'i',
        's',
        'o',
        '8',
        '8',
        '5',
        '9',
        '1',
    ]);
    assert(['l', '1']@ =~= seq!['l', '1']);
    if l1 || l2 || l3 {
        return Ok(Decoder::latin1());
    }
    assert(['u', 't', 'f', '8']@ =~= seq!['u', 't', 'f', '8']);
    if equals(&n, &['u', 't', 'f', '8']) {
        return Ok(Decoder::utf8());
    }
    Err(UnsupportedEncodingError { encoding: string_from_chars(s.as_slice()) })
}

fn is_white_space_char(c: char) -> (r: bool)
    ensures
        r == is_white_space(c),
{
    ('\u{9}' <= c && c <= '\u{d}') || c == ' ' || c == '\u{85}' || c == '\u{a0}' || c
        == '\u{1680}' || ('\u{2000}' <= c && c <= '\u{200a}') || c == '\u{2028}' || c
        == '\u{2029}' || c == '\u{202f}' || c == '\u{205f}' || c == '\u{3000}'
}

/// The characters with the code points of the bytes.
pub open spec fn latin1_text(b: Seq<u8>) -> Seq<char> {
    b.map_values(|x: u8| x as char)
}

/// No byte before `k` is above `0x7F`.
pub open spec fn ascii_upto(b: Seq<u8>, k: int) -> bool {
    forall|j: int| 0 <= j < k ==> #[trigger] b[j] < 128
}

/// What decoding as ASCII gives: the text when every byte is ASCII, else the
/// first byte that is not and its position.
pub open spec fn ascii_result(b: Seq<u8>, r: Result<String, DecodeError>) -> bool {
    match r {
        Ok(s) => ascii_upto(b, b.len() as int) && s@ == latin1_text(b),
        Err(DecodeError::InvalidAscii { position, byte }) => position < b.len() && byte
            == b[position as int] && byte >= 128 && ascii_upto(b, position as int),
        Err(_) => false,
    }
}

/// Bytes that more bytes can turn into valid UTF-8: they end inside a
/// sequence, or are valid already.
pub open spec fn completable(b: Seq<u8>) -> bool {
    exists|e: Seq<u8>| #[trigger] valid_utf8(b + e)
}

/// What decoding as UTF-8 gives: the text when the bytes are valid, else how
/// far they are (the longest valid prefix) and the length of the invalid
/// sequence there, one to three bytes; no length exactly where the input
/// ends inside a sequence that more bytes could complete, one to three
/// bytes before the end.
pub open spec fn utf8_result(b: Seq<u8>, r: Result<String, DecodeError>) -> bool {
    match r {
        Ok(s) => valid_utf8(b) && s@ == decode_utf8(b),
        Err(DecodeError::InvalidUtf8 { valid_up_to, error_length }) => !valid_utf8(b) && valid_up_to
            <= b.len() && valid_utf8(b.subrange(0, valid_up_to as int)) && (forall|w: int|
            valid_up_to < w <= b.len() ==> !valid_utf8(#[trigger] b.subrange(0, w))) && match error_length {
            Some(n) => 1 <= n <= 3,
            None => b.len() - 3 <= valid_up_to,
        } && (error_length is None <==> completable(b.subrange(valid_up_to as int, b.len() as int))),
        Err(_) => false,
    }
}

/// The characters with the code points of the bytes (Latin-1); never fails.
pub fn decode_latin1_bytes(bytes: &[u8]) -> (r: String)
    ensures
        r@ == latin1_text(bytes@),
{
    let mut out: Vec<char> = Vec::new();
    let mut i: usize = 0;
    while i < bytes.len()
        invariant
            i <= bytes@.len(),
            out@ =~= latin1_text(bytes@).subrange(0, i as int),
        decreases bytes@.len() - i,
    {
        out.push(bytes[i] as char);
        i += 1;
    }
    string_from_chars(out.as_slice())
}

/// The text of ASCII bytes, or the first byte above `0x7F` and its position.
pub fn decode_ascii_bytes(bytes: &[u8]) -> (r: Result<String, DecodeError>)
    ensures
        ascii_result(bytes@, r),
{
    let mut i: usize = 0;
    while i < bytes.len()
        invariant
            i <= bytes@.len(),
            ascii_upto(bytes@, i as int),
        decreases bytes@.len() - i,
    {
        if bytes[i] >= 128 {
            return Err(DecodeError::InvalidAscii { position: i, byte: bytes[i] });
        }
        i += 1;
    }
    Ok(decode_latin1_bytes(bytes))
}

/// `std::str::from_utf8`. As its documentation states: the text of valid
/// UTF-8; otherwise the length of the longest valid prefix, and the length
/// of the invalid sequence there, which is one to three bytes, or `None`
/// exactly where the end of the input was reached inside a sequence (then
/// one to three bytes from the end), which more bytes could complete.
#[verifier::external_body]
fn str_from_utf8(bytes: &[u8]) -> (r: Result<String, (usize, Option<usize>)>)
    ensures
        match r {
            Ok(s) => valid_utf8(bytes@) && s@ == decode_utf8(bytes@),
            Err((valid_up_to, error_length)) => !valid_utf8(bytes@) && valid_up_to <= bytes@.len()
                && valid_utf8(bytes@.subrange(0, valid_up_to as int)) && (forall|w: int|
                valid_up_to < w <= bytes@.len() ==> !valid_utf8(#[trigger] bytes@.subrange(0, w)))
                && match error_length {
                Some(n) => 1 <= n <= 3,
                None => bytes@.len() - 3 <= valid_up_to,
            } && (error_length is None <==> completable(
                bytes@.subrange(valid_up_to as int, bytes@.len() as int),
            )),
        },
{
    match std::str::from_utf8(bytes) {
        Ok(s) => Ok(s.to_string()),
        Err(e) => Err((e.valid_up_to(), e.error_len())),
    }
}

/// The text of UTF-8 bytes, or where they stop being valid.
pub fn decode_utf8_bytes(bytes: &[u8]) -> (r: Result<String, DecodeError>)
    ensures
        utf8_result(bytes@, r),
{
    match str_from_utf8(bytes) {
        Ok(s) => Ok(s),
        Err((valid_up_to, error_length)) => Err(DecodeError::InvalidUtf8 { valid_up_to, error_length }),
    }
}

/// Decoding the UTF-8 encoding of a text gives the text back.
pub proof fn law_utf8_round_trip(s: Seq<char>, r: Result<String, DecodeError>)
    requires
        utf8_result(vstd::utf8::encode_utf8(s), r),
    ensures
        r matches Ok(t) && t@ == s,
{
    vstd::utf8::encode_utf8_valid_utf8(s);
    vstd::utf8::encode_utf8_decode_utf8(s);
}

/// Latin-1 decoding loses nothing: one character per byte, with the byte's
/// value as its code point.
pub proof fn law_latin1_is_lossless(b: Seq<u8>)
    ensures
        latin1_text(b).len() == b.len(),
        forall|i: int| 0 <= i < b.len() ==> #[trigger] latin1_text(b)[i] as int == b[i] as int,
{
}

/// An uppercase hexadecimal digit.
pub open spec fn hex_digit(d: int) -> char {
    if d < 10 {
        (48 + d) as char
    } else {
        (55 + d) as char
    }
}

/// The characters of a literal text.
fn push_str(out: &mut Vec<char>, text: &str)
    ensures
        final(out)@ == old(out)@ + text@,
{
    let chars = chars_of(text);
    let mut i: usize = 0;
    while i < chars.len()
        invariant
            i <= chars.len(),
            chars@ == text@,
            out@ == old(out)@ + chars@.subrange(0, i as int),
        decreases chars.len() - i,
    {
        out.push(chars[i]);
        proof {
            assert(chars@.subrange(0, i + 1) =~= chars@.subrange(0, i as int).push(chars@[i as int]));
        }
        i += 1;
    }
    assert(chars@.subrange(0, i as int) =~= chars@);
}

/// The message of a decoding error.
pub open spec fn decode_error_message(e: DecodeError) -> Seq<char> {
    match e {
        DecodeError::InvalidAscii { position, byte } => "invalid ASCII byte 0x"@ + seq![
            hex_digit(byte as int / 16),
            hex_digit(byte as int % 16),
        ] + " at position "@ + nat_digits(position as nat),
        DecodeError::InvalidUtf8 { valid_up_to, error_length } => "invalid UTF-8 sequence at byte "@
            + nat_digits(valid_up_to as nat) + match error_length {
            Some(n) => " with invalid length "@ + nat_digits(n as nat),
            None => Seq::empty(),
        },
    }
}

impl DecodeError {
    /// What went wrong, in words: the invalid byte (in hexadecimal) and its
    /// position, or how far the bytes are valid UTF-8 and the length of the
    /// invalid sequence.
    pub fn message(&self) -> (r: String)
        ensures
            r@ == decode_error_message(*self),
    {
        let mut out: Vec<char> = Vec::new();
        match self {
            DecodeError::InvalidAscii { position, byte } => {
                push_str(&mut out, "invalid ASCII byte 0x");
                let hi = *byte / 16;
                let lo = *byte % 16;
                out.push(if hi < 10 { (48 + hi) as char } else { (55 + hi) as char });
                out.push(if lo < 10 { (48 + lo) as char } else { (55 + lo) as char });
                push_str(&mut out, " at position ");
                push_nat_digits(*position as u64, &mut out);
            },
            DecodeError::InvalidUtf8 { valid_up_to, error_length } => {
                push_str(&mut out, "invalid UTF-8 sequence at byte ");
                push_nat_digits(*valid_up_to as u64, &mut out);
                if let Some(n) = error_length {
                    push_str(&mut out, " with invalid length ");
                    push_nat_digits(*n as u64, &mut out);
                }
            },
        }
        assert(out@ =~= decode_error_message(*self));
        string_from_chars(out.as_slice())
    }
}

impl UnsupportedEncodingError {
    /// What went wrong, in words.
    pub fn message(&self) -> (r: String)
        ensures
            r@ == "unsupported decoder encoding: "@ + self.encoding@,
    {
        let mut out: Vec<char> = Vec::new();
        push_str(&mut out, "unsupported decoder encoding: ");
        push_str(&mut out, self.encoding.as_str());
        string_from_chars(out.as_slice())
    }
}

} // verus!
