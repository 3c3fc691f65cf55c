use vstd::prelude::*;

use crate::chars::{char_from_u32, push_str_chars, scalar_of, string_from_chars};
use crate::unicode_numeric::{
    spec_unicode_digit, spec_unicode_numeric, unicode_digit_value, unicode_numeric_value,
};

verus! {

/// Mask of every flag bit that has a meaning.
pub const KNOWN_MASK: i64 = 16383;

/// Python-compatible `natsort.ns` algorithm flags.
///
/// Each named variant stands for the flag value of the same name in Python;
/// `Bits` holds any other combination. The low three bits select the numeric
/// parser; all other bits map directly onto the sort options. Two values are
/// equal when their bits are equal.
#[derive(Debug, Clone, Copy)]
#[allow(non_camel_case_types)]
pub enum AlgorithmFlags {
    /// The default: unsigned integers.
    DEFAULT,
    /// Alias of `DEFAULT`.
    INT,
    /// Alias of `DEFAULT`.
    UNSIGNED,
    /// Parse floating-point numbers.
    FLOAT,
    /// Parse a leading sign as part of a number.
    SIGNED,
    /// Do not parse exponents in float mode.
    NOEXP,
    /// Split strings into path components.
    PATH,
    /// Locale-aware alphabetic collation.
    LOCALEALPHA,
    /// Locale-aware number formats.
    LOCALENUM,
    /// Both locale flags.
    LOCALE,
    /// Case-insensitive comparison.
    IGNORECASE,
    /// Lowercase letters before uppercase ones.
    LOWERCASEFIRST,
    /// Group upper and lower case of a letter.
    GROUPLETTERS,
    /// Capitals first under locale collation.
    UNGROUPLETTERS,
    /// Alias of `UNGROUPLETTERS`.
    CAPITALFIRST,
    /// Place NaN values last.
    NANLAST,
    /// NFKD instead of NFD normalization.
    COMPATIBILITYNORMALIZE,
    /// Place purely numeric strings after text.
    NUMAFTER,
    /// Sort lexically before sorting naturally.
    PRESORT,
    /// Signed floats.
    REAL,
    /// Alias of `LOCALEALPHA`.
    LOCALE_ALPHA,
    /// Alias of `LOCALENUM`.
    LOCALE_NUMERIC,
    /// Alias of `IGNORECASE`.
    IGNORE_CASE,
    /// Alias of `LOWERCASEFIRST`.
    LOWERCASE_FIRST,
    /// Alias of `GROUPLETTERS`.
    GROUP_LETTERS,
    /// Alias of `UNGROUPLETTERS`.
    UNGROUP_LETTERS,
    /// Alias of `CAPITALFIRST`.
    CAPITAL_FIRST,
    /// Alias of `NANLAST`.
    NAN_LAST,
    /// Alias of `COMPATIBILITYNORMALIZE`.
    COMPATIBILITY_NORMALIZE,
    /// Alias of `NUMAFTER`.
    NUM_AFTER,
    /// Short alias of `FLOAT`.
    F,
    /// Short alias of `SIGNED`.
    S,
    /// Short alias of `NOEXP`.
    N,
    /// Short alias of `PATH`.
    P,
    /// Short alias of `LOCALEALPHA`.
    LA,
    /// Short alias of `LOCALENUM`.
    LN,
    /// Short alias of `LOCALE`.
    L,
    /// Short alias of `IGNORECASE`.
    IC,
    /// Short alias of `LOWERCASEFIRST`.
    LF,
    /// Short alias of `GROUPLETTERS`.
    G,
    /// Short alias of `UNGROUPLETTERS`.
    UG,
    /// Short alias of `NANLAST`.
    NL,
    /// Short alias of `COMPATIBILITYNORMALIZE`.
    CN,
    /// Short alias of `NUMAFTER`.
    NA,
    /// Short alias of `PRESORT`.
    PS,
    /// Short alias of `REAL`.
    R,
    /// An arbitrary set of flag bits.
    Bits(i64),
}

impl AlgorithmFlags {
    /// The flag bits that a value stands for.
    pub open spec fn value(self) -> i64 {
        match self {
            AlgorithmFlags::DEFAULT => 0,
            AlgorithmFlags::INT => 0,
            AlgorithmFlags::UNSIGNED => 0,
            AlgorithmFlags::FLOAT => 1,
            AlgorithmFlags::SIGNED => 2,
            AlgorithmFlags::NOEXP => 4,
            AlgorithmFlags::PATH => 8,
            AlgorithmFlags::LOCALEALPHA => 16,
            AlgorithmFlags::LOCALENUM => 32,
            AlgorithmFlags::LOCALE => 48,
            AlgorithmFlags::IGNORECASE => 64,
            AlgorithmFlags::LOWERCASEFIRST => 128,
            AlgorithmFlags::GROUPLETTERS => 256,
            AlgorithmFlags::UNGROUPLETTERS => 512,
            AlgorithmFlags::CAPITALFIRST => 512,
            AlgorithmFlags::NANLAST => 1024,
            AlgorithmFlags::COMPATIBILITYNORMALIZE => 2048,
            AlgorithmFlags::NUMAFTER => 4096,
            AlgorithmFlags::PRESORT => 8192,
            AlgorithmFlags::REAL => 3,
            AlgorithmFlags::LOCALE_ALPHA => 16,
            AlgorithmFlags::LOCALE_NUMERIC => 32,
            AlgorithmFlags::IGNORE_CASE => 64,
            AlgorithmFlags::LOWERCASE_FIRST => 128,
            AlgorithmFlags::GROUP_LETTERS => 256,
            AlgorithmFlags::UNGROUP_LETTERS => 512,
            AlgorithmFlags::CAPITAL_FIRST => 512,
            AlgorithmFlags::NAN_LAST => 1024,
            AlgorithmFlags::COMPATIBILITY_NORMALIZE => 2048,
            AlgorithmFlags::NUM_AFTER => 4096,
            AlgorithmFlags::F => 1,
            AlgorithmFlags::S => 2,
            AlgorithmFlags::N => 4,
            AlgorithmFlags::P => 8,
            AlgorithmFlags::LA => 16,
            AlgorithmFlags::LN => 32,
            AlgorithmFlags::L => 48,
            AlgorithmFlags::IC => 64,
            AlgorithmFlags::LF => 128,
            AlgorithmFlags::G => 256,
            AlgorithmFlags::UG => 512,
            AlgorithmFlags::NL => 1024,
            AlgorithmFlags::CN => 2048,
            AlgorithmFlags::NA => 4096,
            AlgorithmFlags::PS => 8192,
            AlgorithmFlags::R => 3,
            AlgorithmFlags::Bits(bits) => bits,
        }
    }

    /// Every bit that names a flag.
    pub const KNOWN_MASK: i64 = 16383;

    pub fn from_bits(bits: i64) -> (r: Self)
        ensures
            r == AlgorithmFlags::Bits(bits),
            r.value() == bits,
    {
        AlgorithmFlags::Bits(bits)
    }

    pub fn bits(self) -> (r: i64)
        ensures
            r == self.value(),
    {
        match self {
            AlgorithmFlags::DEFAULT => 0,
            AlgorithmFlags::INT => 0,
            AlgorithmFlags::UNSIGNED => 0,
            AlgorithmFlags::FLOAT => 1,
            AlgorithmFlags::SIGNED => 2,
            AlgorithmFlags::NOEXP => 4,
            AlgorithmFlags::PATH => 8,
            AlgorithmFlags::LOCALEALPHA => 16,
            AlgorithmFlags::LOCALENUM => 32,
            AlgorithmFlags::LOCALE => 48,
            AlgorithmFlags::IGNORECASE => 64,
            AlgorithmFlags::LOWERCASEFIRST => 128,
            AlgorithmFlags::GROUPLETTERS => 256,
            AlgorithmFlags::UNGROUPLETTERS => 512,
            AlgorithmFlags::CAPITALFIRST => 512,
            AlgorithmFlags::NANLAST => 1024,
            AlgorithmFlags::COMPATIBILITYNORMALIZE => 2048,
            AlgorithmFlags::NUMAFTER => 4096,
            AlgorithmFlags::PRESORT => 8192,
            AlgorithmFlags::REAL => 3,
            AlgorithmFlags::LOCALE_ALPHA => 16,
            AlgorithmFlags::LOCALE_NUMERIC => 32,
            AlgorithmFlags::IGNORE_CASE => 64,
            AlgorithmFlags::LOWERCASE_FIRST => 128,
            AlgorithmFlags::GROUP_LETTERS => 256,
            AlgorithmFlags::UNGROUP_LETTERS => 512,
            AlgorithmFlags::CAPITAL_FIRST => 512,
            AlgorithmFlags::NAN_LAST => 1024,
            AlgorithmFlags::COMPATIBILITY_NORMALIZE => 2048,
            AlgorithmFlags::NUM_AFTER => 4096,
            AlgorithmFlags::F => 1,
            AlgorithmFlags::S => 2,
            AlgorithmFlags::N => 4,
            AlgorithmFlags::P => 8,
            AlgorithmFlags::LA => 16,
            AlgorithmFlags::LN => 32,
            AlgorithmFlags::L => 48,
            AlgorithmFlags::IC => 64,
            AlgorithmFlags::LF => 128,
            AlgorithmFlags::G => 256,
            AlgorithmFlags::UG => 512,
            AlgorithmFlags::NL => 1024,
            AlgorithmFlags::CN => 2048,
            AlgorithmFlags::NA => 4096,
            AlgorithmFlags::PS => 8192,
            AlgorithmFlags::R => 3,
            AlgorithmFlags::Bits(bits) => bits,
        }
    }

    pub fn known_bits(self) -> (r: i64)
        ensures
            r == self.value() & KNOWN_MASK,
    {
        self.bits() & KNOWN_MASK
    }

    pub fn contains(self, other: Self) -> (r: bool)
        ensures
            r == (self.value() & other.value() == other.value()),
    {
        (self.bits() & other.bits()) == other.bits()
    }

    pub fn intersects(self, other: Self) -> (r: bool)
        ensures
            r == (self.value() & other.value() != 0),
    {
        (self.bits() & other.bits()) != 0
    }

    pub fn is_default(self) -> (r: bool)
        ensures
            r == (self.value() == 0),
    {
        self.bits() == 0
    }
}

impl PartialEq for AlgorithmFlags {
    fn eq(&self, other: &Self) -> (r: bool) {
        self.bits() == other.bits()
    }
}

impl vstd::std_specs::cmp::PartialEqSpecImpl for AlgorithmFlags {
    open spec fn obeys_eq_spec() -> bool {
        true
    }

    open spec fn eq_spec(&self, other: &Self) -> bool {
        self.value() == other.value()
    }
}

impl Eq for AlgorithmFlags {
}

/// Flags order by their bits.
impl PartialOrd for AlgorithmFlags {
    fn partial_cmp(&self, other: &Self) -> (r: Option<core::cmp::Ordering>) {
        let a = self.bits();
        let b = other.bits();
        if a < b {
            Some(core::cmp::Ordering::Less)
        } else if a == b {
            Some(core::cmp::Ordering::Equal)
        } else {
            Some(core::cmp::Ordering::Greater)
        }
    }
}

impl vstd::std_specs::cmp::PartialOrdSpecImpl for AlgorithmFlags {
    open spec fn obeys_partial_cmp_spec() -> bool {
        true
    }

    open spec fn partial_cmp_spec(&self, other: &Self) -> Option<core::cmp::Ordering> {
        if self.value() < other.value() {
            Some(core::cmp::Ordering::Less)
        } else if self.value() == other.value() {
            Some(core::cmp::Ordering::Equal)
        } else {
            Some(core::cmp::Ordering::Greater)
        }
    }
}

impl Default for AlgorithmFlags {
    fn default() -> (r: Self)
        ensures
            r.value() == 0,
    {
        AlgorithmFlags::DEFAULT
    }
}

impl From<i64> for AlgorithmFlags {
    fn from(value: i64) -> (r: Self) {
        AlgorithmFlags::from_bits(value)
    }
}

impl vstd::std_specs::convert::FromSpecImpl<i64> for AlgorithmFlags {
    open spec fn obeys_from_spec() -> bool {
        true
    }

    open spec fn from_spec(value: i64) -> Self {
        AlgorithmFlags::Bits(value)
    }
}

impl From<AlgorithmFlags> for i64 {
    fn from(value: AlgorithmFlags) -> (r: i64) {
        value.bits()
    }
}

impl vstd::std_specs::convert::FromSpecImpl<AlgorithmFlags> for i64 {
    open spec fn obeys_from_spec() -> bool {
        true
    }

    open spec fn from_spec(value: AlgorithmFlags) -> i64 {
        value.value()
    }
}

impl core::ops::BitOr for AlgorithmFlags {
    type Output = Self;

    fn bitor(self, rhs: Self) -> (r: Self)
        ensures
            r.value() == self.value() | rhs.value(),
    {
        AlgorithmFlags::Bits(self.bits() | rhs.bits())
    }
}

impl vstd::std_specs::ops::BitOrSpecImpl for AlgorithmFlags {
    open spec fn obeys_bitor_spec() -> bool {
        true
    }

    open spec fn bitor_req(self, rhs: Self) -> bool {
        true
    }

    open spec fn bitor_spec(self, rhs: Self) -> Self {
        AlgorithmFlags::Bits(self.value() | rhs.value())
    }
}

impl core::ops::BitOrAssign for AlgorithmFlags {
    fn bitor_assign(&mut self, rhs: Self)
        ensures
            final(self).value() == old(self).value() | rhs.value(),
    {
        *self = AlgorithmFlags::Bits(self.bits() | rhs.bits());
    }
}

impl core::ops::BitAnd for AlgorithmFlags {
    type Output = Self;

    fn bitand(self, rhs: Self) -> (r: Self)
        ensures
            r.value() == self.value() & rhs.value(),
    {
        AlgorithmFlags::Bits(self.bits() & rhs.bits())
    }
}

impl vstd::std_specs::ops::BitAndSpecImpl for AlgorithmFlags {
    open spec fn obeys_bitand_spec() -> bool {
        true
    }

    open spec fn bitand_req(self, rhs: Self) -> bool {
        true
    }

    open spec fn bitand_spec(self, rhs: Self) -> Self {
        AlgorithmFlags::Bits(self.value() & rhs.value())
    }
}

impl core::ops::BitAndAssign for AlgorithmFlags {
    fn bitand_assign(&mut self, rhs: Self)
        ensures
            final(self).value() == old(self).value() & rhs.value(),
    {
        *self = AlgorithmFlags::Bits(self.bits() & rhs.bits());
    }
}

/// The six numeric regular-expression families used by Python `natsort`.
#[derive(Debug, Clone, Copy, PartialEq, Eq, Structural)]
pub enum NumericRegexKind {
    UnsignedInteger,
    SignedInteger,
    UnsignedFloat,
    SignedFloat,
    UnsignedFloatNoExponent,
    SignedFloatNoExponent,
}

/// The numeric family that the three low flag bits select.
pub open spec fn kind_of_bits(bits: i64) -> NumericRegexKind {
    let float = bits & 1 != 0;
    let signed = bits & 2 != 0;
    let no_exp = bits & 4 != 0;
    if !float {
        if signed {
            NumericRegexKind::SignedInteger
        } else {
            NumericRegexKind::UnsignedInteger
        }
    } else if no_exp {
        if signed {
            NumericRegexKind::SignedFloatNoExponent
        } else {
            NumericRegexKind::UnsignedFloatNoExponent
        }
    } else if signed {
        NumericRegexKind::SignedFloat
    } else {
        NumericRegexKind::UnsignedFloat
    }
}

impl NumericRegexKind {
    pub fn from_algorithm(algorithm: AlgorithmFlags) -> (r: Self)
        ensures
            r == kind_of_bits(algorithm.value()),
    {
        let bits = algorithm.bits();
        let float = bits & 1 != 0;
        let signed = bits & 2 != 0;
        let no_exp = bits & 4 != 0;
        if !float {
            if signed {
                NumericRegexKind::SignedInteger
            } else {
                NumericRegexKind::UnsignedInteger
            }
        } else if no_exp {
            if signed {
                NumericRegexKind::SignedFloatNoExponent
            } else {
                NumericRegexKind::UnsignedFloatNoExponent
            }
        } else if signed {
            NumericRegexKind::SignedFloat
        } else {
            NumericRegexKind::UnsignedFloat
        }
    }

    /// True for the four float families.
    pub open spec fn is_float(self) -> bool {
        !(self is UnsignedInteger || self is SignedInteger)
    }
}

/// The characters below code point `n`, in code point order, that the
/// character class of a family lists: non-decimal Unicode numeric
/// characters for the float families, non-decimal Unicode digits for the
/// integer families.
pub open spec fn class_chars(n: nat, float: bool) -> Seq<char>
    decreases n,
{
    if n == 0 {
        Seq::empty()
    } else {
        let prev = class_chars((n - 1) as nat, float);
        match scalar_of(n - 1) {
            Some(c) => if (if float {
                spec_unicode_numeric(c) is Some
            } else {
                spec_unicode_digit(c) is Some
            }) {
                prev.push(c)
            } else {
                prev
            },
            None => prev,
        }
    }
}

fn class_into(out: &mut Vec<char>, float: bool)
    ensures
        final(out)@ == old(out)@ + class_chars(0x110000, float),
{
    let ghost start = out@;
    let mut cp: u32 = 0;
    while cp <= 0x10FFFF
        invariant
            cp <= 0x110000,
            out@ == start + class_chars(cp as nat, float),
        decreases 0x110000 - cp,
    {
        if let Some(c) = char_from_u32(cp) {
            let listed = if float {
                unicode_numeric_value(c).is_some()
            } else {
                unicode_digit_value(c).is_some()
            };
            if listed {
                out.push(c);
                assert(out@ =~= start + class_chars((cp + 1) as nat, float));
            }
        }
        cp += 1;
    }
}

/// The decimal part of each numeric regular expression.
pub open spec fn regex_prefix(kind: NumericRegexKind) -> Seq<char> {
    match kind {
        NumericRegexKind::UnsignedInteger => r"\d+"@,
        NumericRegexKind::SignedInteger => r"[-+]?\d+"@,
        NumericRegexKind::UnsignedFloat => r"(?:\d+\.?\d*|\.\d+)(?:[eE][-+]?\d+)?"@,
        NumericRegexKind::SignedFloat => r"[-+]?(?:\d+\.?\d*|\.\d+)(?:[eE][-+]?\d+)?"@,
        NumericRegexKind::UnsignedFloatNoExponent => r"(?:\d+\.?\d*|\.\d+)"@,
        NumericRegexKind::SignedFloatNoExponent => r"[-+]?(?:\d+\.?\d*|\.\d+)"@,
    }
}

/// The whole numeric regular expression of a family: the decimal part, then
/// an alternative that matches one non-decimal Unicode digit (integer
/// families) or one non-decimal Unicode numeric character (float families).
pub open spec fn regex_pattern(kind: NumericRegexKind) -> Seq<char> {
    regex_prefix(kind) + "|["@ + class_chars(0x110000, kind.is_float()) + "]"@
}

fn pattern_prefix(kind: NumericRegexKind) -> (r: &'static str)
    ensures
        r@ == regex_prefix(kind),
{
    match kind {
        NumericRegexKind::UnsignedInteger => r"\d+",
        NumericRegexKind::SignedInteger => r"[-+]?\d+",
        NumericRegexKind::UnsignedFloat => r"(?:\d+\.?\d*|\.\d+)(?:[eE][-+]?\d+)?",
        NumericRegexKind::SignedFloat => r"[-+]?(?:\d+\.?\d*|\.\d+)(?:[eE][-+]?\d+)?",
        NumericRegexKind::UnsignedFloatNoExponent => r"(?:\d+\.?\d*|\.\d+)",
        NumericRegexKind::SignedFloatNoExponent => r"[-+]?(?:\d+\.?\d*|\.\d+)",
    }
}

fn pattern_for_kind(kind: NumericRegexKind) -> (r: String)
    ensures
        r@ == regex_pattern(kind),
{
    let mut chars: Vec<char> = Vec::new();
    push_str_chars(&mut chars, pattern_prefix(kind));
    push_str_chars(&mut chars, "|[");
    class_into(&mut chars, kind.is_float_kind());
    push_str_chars(&mut chars, "]");
    string_from_chars(chars.as_slice())
}

impl NumericRegexKind {
    fn is_float_kind(self) -> (r: bool)
        ensures
            r == self.is_float(),
    {
        match self {
            NumericRegexKind::UnsignedInteger | NumericRegexKind::SignedInteger => false,
            _ => true,
        }
    }
}

/// Return the Python-compatible numeric regex string for an algorithm.
pub fn numeric_regex_chooser(algorithm: AlgorithmFlags) -> (r: String)
    ensures
        r@ == regex_pattern(kind_of_bits(algorithm.value())),
{
    pattern_for_kind(NumericRegexKind::from_algorithm(algorithm))
}

/// Compatibility entry point for raw Python-style integer flags.
///
/// Unknown bits are ignored, matching Python's bit-mask behaviour; negative
/// integers are therefore accepted as well.
pub fn numeric_regex_chooser_from_bits(bits: i64) -> (r: String)
    ensures
        r@ == regex_pattern(kind_of_bits(bits)),
{
    numeric_regex_chooser(AlgorithmFlags::from_bits(bits))
}

} // verus!
