use vstd::prelude::*;

use crate::algorithm::{AlgorithmFlags, KNOWN_MASK};
use crate::locale::LocaleProfile;

verus! {

/// Builder-style configuration of natural sorting.
#[derive(Debug, Clone, Copy, PartialEq, Eq, Structural)]
pub struct SortOptions {
    pub ignore_case: bool,
    pub lowercase_first: bool,
    pub group_letters: bool,
    pub capital_first: bool,
    pub compatibility_normalize: bool,
    pub reverse: bool,
    pub signed: bool,
    pub float: bool,
    pub no_exp: bool,
    pub path: bool,
    pub presort: bool,
    pub nan_last: bool,
    pub num_after: bool,
    pub locale_alpha: bool,
    pub locale_numeric: bool,
    pub locale_profile: LocaleProfile,
}

/// True when `flag` shares a bit with `bits`.
pub open spec fn has_flag(bits: i64, flag: i64) -> bool {
    bits & flag != 0
}

/// The options that a set of Python `ns` flag bits stands for.
pub open spec fn options_of_bits(bits: i64) -> SortOptions {
    SortOptions {
        ignore_case: has_flag(bits, 64),
        lowercase_first: has_flag(bits, 128),
        group_letters: has_flag(bits, 256),
        capital_first: has_flag(bits, 512) && has_flag(bits, 16),
        compatibility_normalize: has_flag(bits, 2048),
        reverse: false,
        signed: has_flag(bits, 2),
        float: has_flag(bits, 1),
        no_exp: has_flag(bits, 4),
        path: has_flag(bits, 8),
        presort: has_flag(bits, 8192),
        nan_last: has_flag(bits, 1024),
        num_after: has_flag(bits, 4096),
        locale_alpha: has_flag(bits, 16),
        locale_numeric: has_flag(bits, 32),
        locale_profile: LocaleProfile::System,
    }
}

/// `value` when `enabled`, else no bit.
pub open spec fn bit_if(enabled: bool, value: i64) -> i64 {
    if enabled {
        value
    } else {
        0
    }
}

/// The Python `ns` flag bits that a set of options stands for.
pub open spec fn bits_of_options(o: SortOptions) -> i64 {
    bit_if(o.float, 1) | bit_if(o.signed, 2) | bit_if(o.no_exp, 4) | bit_if(o.path, 8)
        | bit_if(o.locale_alpha, 16) | bit_if(o.locale_numeric, 32) | bit_if(o.ignore_case, 64)
        | bit_if(o.lowercase_first, 128) | bit_if(o.group_letters, 256) | bit_if(
        o.capital_first,
        512,
    ) | bit_if(o.nan_last, 1024) | bit_if(o.compatibility_normalize, 2048) | bit_if(
        o.num_after,
        4096,
    ) | bit_if(o.presort, 8192)
}

/// The options that every sort starts from: everything off, system locale.
pub open spec fn default_options() -> SortOptions {
    SortOptions {
        ignore_case: false,
        lowercase_first: false,
        group_letters: false,
        capital_first: false,
        compatibility_normalize: false,
        reverse: false,
        signed: false,
        float: false,
        no_exp: false,
        path: false,
        presort: false,
        nan_last: false,
        num_after: false,
        locale_alpha: false,
        locale_numeric: false,
        locale_profile: LocaleProfile::System,
    }
}

impl SortOptions {
    pub fn new() -> (r: Self)
        ensures
            r == default_options(),
    {
        SortOptions {
            ignore_case: false,
            lowercase_first: false,
            group_letters: false,
            capital_first: false,
            compatibility_normalize: false,
            reverse: false,
            signed: false,
            float: false,
            no_exp: false,
            path: false,
            presort: false,
            nan_last: false,
            num_after: false,
            locale_alpha: false,
            locale_numeric: false,
            locale_profile: LocaleProfile::System,
        }
    }

    /// Build sorting options from Python-compatible `natsort.ns` flags.
    pub fn from_algorithm(algorithm: AlgorithmFlags) -> (r: Self)
        ensures
            r == options_of_bits(algorithm.value()),
    {
        let bits = algorithm.bits();
        SortOptions {
            ignore_case: bits & 64 != 0,
            lowercase_first: bits & 128 != 0,
            group_letters: bits & 256 != 0,
            capital_first: bits & 512 != 0 && bits & 16 != 0,
            compatibility_normalize: bits & 2048 != 0,
            reverse: false,
            signed: bits & 2 != 0,
            float: bits & 1 != 0,
            no_exp: bits & 4 != 0,
            path: bits & 8 != 0,
            presort: bits & 8192 != 0,
            nan_last: bits & 1024 != 0,
            num_after: bits & 4096 != 0,
            locale_alpha: bits & 16 != 0,
            locale_numeric: bits & 32 != 0,
            locale_profile: LocaleProfile::System,
        }
    }

    /// Build sorting options from arbitrary Python-style integer flag bits.
    pub fn from_algorithm_bits(bits: i64) -> (r: Self)
        ensures
            r == options_of_bits(bits),
    {
        Self::from_algorithm(AlgorithmFlags::from_bits(bits))
    }

    /// Convert these options back into Python-compatible algorithm flags.
    ///
    /// `reverse` and `locale_profile` are not represented by Python's `ns`
    /// bit mask and are left out.
    pub fn algorithm(self) -> (r: AlgorithmFlags)
        ensures
            r.value() == bits_of_options(self),
    {
        let bits: i64 = (if self.float { 1i64 } else { 0i64 }) | (if self.signed { 2i64 } else { 0i64 })
            | (if self.no_exp { 4i64 } else { 0i64 }) | (if self.path { 8i64 } else { 0i64 }) | (
        if self.locale_alpha {
            16i64
        } else {
            0i64
        }) | (if self.locale_numeric { 32i64 } else { 0i64 }) | (if self.ignore_case {
            64i64
        } else {
            0i64
        }) | (if self.lowercase_first { 128i64 } else { 0i64 }) | (if self.group_letters {
            256i64
        } else {
            0i64
        }) | (if self.capital_first { 512i64 } else { 0i64 }) | (if self.nan_last {
            1024i64
        } else {
            0i64
        }) | (if self.compatibility_normalize { 2048i64 } else { 0i64 }) | (if self.num_after {
            4096i64
        } else {
            0i64
        }) | (if self.presort { 8192i64 } else { 0i64 });
        AlgorithmFlags::from_bits(bits)
    }

    pub fn num_after(self, enabled: bool) -> (r: Self)
        ensures
            r == (SortOptions { num_after: enabled, ..self }),
    {
        SortOptions { num_after: enabled, ..self }
    }

    pub fn nan_last(self, enabled: bool) -> (r: Self)
        ensures
            r == (SortOptions { nan_last: enabled, ..self }),
    {
        SortOptions { nan_last: enabled, ..self }
    }

    pub fn ignore_case(self, enabled: bool) -> (r: Self)
        ensures
            r == (SortOptions { ignore_case: enabled, ..self }),
    {
        SortOptions { ignore_case: enabled, ..self }
    }

    pub fn lowercase_first(self, enabled: bool) -> (r: Self)
        ensures
            r == (SortOptions { lowercase_first: enabled, ..self }),
    {
        SortOptions { lowercase_first: enabled, ..self }
    }

    pub fn group_letters(self, enabled: bool) -> (r: Self)
        ensures
            r == (SortOptions { group_letters: enabled, ..self }),
    {
        SortOptions { group_letters: enabled, ..self }
    }

    pub fn capital_first(self, enabled: bool) -> (r: Self)
        ensures
            r == (SortOptions { capital_first: enabled, ..self }),
    {
        SortOptions { capital_first: enabled, ..self }
    }

    pub fn compatibility_normalize(self, enabled: bool) -> (r: Self)
        ensures
            r == (SortOptions { compatibility_normalize: enabled, ..self }),
    {
        SortOptions { compatibility_normalize: enabled, ..self }
    }

    pub fn reverse(self, enabled: bool) -> (r: Self)
        ensures
            r == (SortOptions { reverse: enabled, ..self }),
    {
        SortOptions { reverse: enabled, ..self }
    }

    pub fn signed(self, enabled: bool) -> (r: Self)
        ensures
            r == (SortOptions { signed: enabled, ..self }),
    {
        SortOptions { signed: enabled, ..self }
    }

    pub fn float(self, enabled: bool) -> (r: Self)
        ensures
            r == (SortOptions { float: enabled, ..self }),
    {
        SortOptions { float: enabled, ..self }
    }

    pub fn no_exp(self, enabled: bool) -> (r: Self)
        ensures
            r == (SortOptions { no_exp: enabled, ..self }),
    {
        SortOptions { no_exp: enabled, ..self }
    }

    pub fn path(self, enabled: bool) -> (r: Self)
        ensures
            r == (SortOptions { path: enabled, ..self }),
    {
        SortOptions { path: enabled, ..self }
    }

    pub fn presort(self, enabled: bool) -> (r: Self)
        ensures
            r == (SortOptions { presort: enabled, ..self }),
    {
        SortOptions { presort: enabled, ..self }
    }

    pub fn locale_alpha(self, enabled: bool) -> (r: Self)
        ensures
            r == (SortOptions { locale_alpha: enabled, ..self }),
    {
        SortOptions { locale_alpha: enabled, ..self }
    }

    pub fn locale_numeric(self, enabled: bool) -> (r: Self)
        ensures
            r == (SortOptions { locale_numeric: enabled, ..self }),
    {
        SortOptions { locale_numeric: enabled, ..self }
    }

    pub fn locale(self, enabled: bool) -> (r: Self)
        ensures
            r == (SortOptions { locale_alpha: enabled, locale_numeric: enabled, ..self }),
    {
        SortOptions { locale_alpha: enabled, locale_numeric: enabled, ..self }
    }

    pub fn locale_profile(self, profile: LocaleProfile) -> (r: Self)
        ensures
            r == (SortOptions { locale_profile: profile, ..self }),
    {
        SortOptions { locale_profile: profile, ..self }
    }
}

impl Default for SortOptions {
    fn default() -> (r: Self)
        ensures
            r == default_options(),
    {
        SortOptions::new()
    }
}

/// Flag bits survive a trip through the options: every known bit comes
/// back, unknown bits are dropped, and `UNGROUPLETTERS` comes back exactly
/// when `LOCALEALPHA` is also set (capital-first only exists under locale
/// collation).
pub proof fn lemma_algorithm_round_trip(bits: i64)
    ensures
        bits & 512 != 0 && bits & 16 == 0 ==> bits_of_options(options_of_bits(bits)) == (bits
            & KNOWN_MASK) - 512,
        !(bits & 512 != 0 && bits & 16 == 0) ==> bits_of_options(options_of_bits(bits)) == bits
            & KNOWN_MASK,
{
    assert(bits & 512 != 0 && bits & 16 == 0 ==> (bits_of_options(options_of_bits(bits)) == (bits
        & 16383) - 512)) by (bit_vector);
    assert(!(bits & 512 != 0 && bits & 16 == 0) ==> (bits_of_options(options_of_bits(bits))
        == bits & 16383)) by (bit_vector);
}

proof fn lemma_option_bits(
    f: bool,
    s: bool,
    ne: bool,
    p: bool,
    la: bool,
    ln: bool,
    ic: bool,
    lf: bool,
    g: bool,
    cf: bool,
    nl: bool,
    cn: bool,
    na: bool,
    ps: bool,
    b: i64,
)
    requires
        b == bit_if(f, 1) | bit_if(s, 2) | bit_if(ne, 4) | bit_if(p, 8) | bit_if(la, 16) | bit_if(
            ln,
            32,
        ) | bit_if(ic, 64) | bit_if(lf, 128) | bit_if(g, 256) | bit_if(cf, 512) | bit_if(nl, 1024)
            | bit_if(cn, 2048) | bit_if(na, 4096) | bit_if(ps, 8192),
    ensures
        (b & 1 != 0) == f,
        (b & 2 != 0) == s,
        (b & 4 != 0) == ne,
        (b & 8 != 0) == p,
        (b & 16 != 0) == la,
        (b & 32 != 0) == ln,
        (b & 64 != 0) == ic,
        (b & 128 != 0) == lf,
        (b & 256 != 0) == g,
        (b & 512 != 0) == cf,
        (b & 1024 != 0) == nl,
        (b & 2048 != 0) == cn,
        (b & 4096 != 0) == na,
        (b & 8192 != 0) == ps,
        b & !16383i64 == 0,
        0 <= b <= 16383,
{
    assert((b & 1 != 0) == f && (b & 2 != 0) == s && (b & 4 != 0) == ne && (b & 8 != 0) == p && (b
        & 16 != 0) == la && (b & 32 != 0) == ln && (b & 64 != 0) == ic && (b & 128 != 0) == lf && (b
        & 256 != 0) == g && (b & 512 != 0) == cf && (b & 1024 != 0) == nl && (b & 2048 != 0) == cn
        && (b & 4096 != 0) == na && (b & 8192 != 0) == ps && b & !16383i64 == 0 && 0 <= b <= 16383)
        by (bit_vector)
        requires
            b == (if f {
                1i64
            } else {
                0i64
            }) | (if s {
                2i64
            } else {
                0i64
            }) | (if ne {
                4i64
            } else {
                0i64
            }) | (if p {
                8i64
            } else {
                0i64
            }) | (if la {
                16i64
            } else {
                0i64
            }) | (if ln {
                32i64
            } else {
                0i64
            }) | (if ic {
                64i64
            } else {
                0i64
            }) | (if lf {
                128i64
            } else {
                0i64
            }) | (if g {
                256i64
            } else {
                0i64
            }) | (if cf {
                512i64
            } else {
                0i64
            }) | (if nl {
                1024i64
            } else {
                0i64
            }) | (if cn {
                2048i64
            } else {
                0i64
            }) | (if na {
                4096i64
            } else {
                0i64
            }) | (if ps {
                8192i64
            } else {
                0i64
            }),
    ;
}

/// Options survive a trip through the flag bits, except `reverse` and
/// `locale_profile` (which the bits do not hold) and capital-first, which
/// comes back only together with locale collation (the bits cannot express
/// it without). The bits of any options are known bits only.
#[verifier::rlimit(40)]
pub proof fn lemma_options_round_trip(o: SortOptions)
    ensures
        options_of_bits(bits_of_options(o)) == (SortOptions {
            reverse: false,
            locale_profile: LocaleProfile::System,
            capital_first: o.capital_first && o.locale_alpha,
            ..o
        }),
        bits_of_options(o) & !16383i64 == 0,
        0 <= bits_of_options(o) <= 16383,
{
    lemma_option_bits(
        o.float,
        o.signed,
        o.no_exp,
        o.path,
        o.locale_alpha,
        o.locale_numeric,
        o.ignore_case,
        o.lowercase_first,
        o.group_letters,
        o.capital_first,
        o.nan_last,
        o.compatibility_normalize,
        o.num_after,
        o.presort,
        bits_of_options(o),
    );
    let b = bits_of_options(o);
    let r = options_of_bits(b);
    assert(r.capital_first == (o.capital_first && o.locale_alpha));
    assert(r == (SortOptions {
        reverse: false,
        locale_profile: LocaleProfile::System,
        capital_first: o.capital_first && o.locale_alpha,
        ..o
    }));
}

} // verus!
