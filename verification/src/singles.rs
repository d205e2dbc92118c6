//! The single-precision strategy.
//!
//! Single-precision values are carried as their IEEE 754 bit patterns. The
//! wire format has no single-precision numbers: serialization widens the
//! value to double precision, which is exact, and extraction narrows the
//! decoded double to the nearest single, ties to even. Both conversions are
//! verified bit manipulation, and narrowing is proved to invert widening.

use vstd::prelude::*;
use vstd::arithmetic::power2::{
    lemma2_to64, lemma_pow2_adds, lemma_pow2_strictly_increases, lemma_pow2_unfold, pow2,
};
use crate::doubles::{double_scaled_mag, number_double_bits, number_double_bits_spec};
use crate::error::ExtractError;
use crate::resolver::{StrategyKind, TypeCapabilities};
use crate::strategy::AutocompletableHack;
use crate::value::{double_bits_finite, JsonNumber, StructuredValue};

verus! {

/// Bit pattern of an IEEE 754 single-precision number: sign bit 31,
/// exponent bits 30..=23, fraction bits 22..=0.
pub type SingleBits = u32;

/// A single-precision bit pattern is finite when its exponent field is not
/// all ones (all ones encodes an infinity or a NaN).
pub open spec fn single_bits_finite(bits: SingleBits) -> bool {
    (bits >> 23) & 0xff != 0xff
}

/// A single-precision value, held as its IEEE 754 bit pattern.
#[derive(Clone, Copy, PartialEq, Eq, Debug, Structural)]
pub struct Single {
    /// The IEEE 754 single-precision bit pattern.
    pub bits: SingleBits,
}

impl Single {
    /// Whether the value is finite (neither an infinity nor a NaN).
    pub open spec fn is_finite(self) -> bool {
        single_bits_finite(self.bits)
    }
}

/// Doubles `f` until its leading bit reaches position 23, counting the
/// doublings on top of `e`: the normalization step for a subnormal fraction.
pub open spec fn normalized(f: u32, e: nat) -> (u32, nat)
    decreases (if f == 0 || f >= 0x80_0000 {
        0int
    } else {
        0x80_0000 - f
    }),
{
    if f == 0 || f >= 0x80_0000 {
        (f, e)
    } else {
        normalized((f * 2) as u32, e + 1)
    }
}

/// The double-precision bit pattern with the same value as a finite
/// single-precision bit pattern: the sign is kept, a normal exponent is
/// re-biased from 127 to 1023, the fraction gains 29 low zero bits, and a
/// subnormal fraction is first normalized.
pub open spec fn widen_single_bits_spec(s: SingleBits) -> u64 {
    let sign = ((s >> 31) as u64) << 63;
    let exp = (s >> 23) & 0xff;
    let frac = s & 0x7f_ffff;
    if exp == 0 {
        if frac == 0 {
            sign
        } else {
            let (nf, ne) = normalized(frac, 0);
            sign | (((897 - ne as int) as u64) << 52) | (((nf & 0x7f_ffff) as u64) << 29)
        }
    } else {
        sign | (((exp + 896) as u64) << 52) | ((frac as u64) << 29)
    }
}

/// Widens a finite single-precision bit pattern to the double-precision bit
/// pattern of the same value.
pub fn widen_single_bits(s: SingleBits) -> (r: u64)
    requires
        single_bits_finite(s),
    ensures
        r == widen_single_bits_spec(s),
        double_bits_finite(r),
{
    proof {
        lemma_widen_single_bits_exact(s);
        assert(s & 0x7f_ffff < 0x80_0000) by (bit_vector);
        assert((s >> 23) & 0xff < 0x100) by (bit_vector);
    }
    let sign: u64 = ((s >> 31) as u64) << 63;
    let exp: u32 = (s >> 23) & 0xff;
    let frac: u32 = s & 0x7f_ffff;
    if exp == 0 {
        if frac == 0 {
            sign
        } else {
            let ghost orig: u32 = frac;
            let mut f: u32 = frac;
            let mut e: u32 = 0;
            proof {
                lemma2_to64();
            }
            while f < 0x80_0000
                invariant
                    1 <= f < 0x100_0000,
                    e <= 23,
                    pow2(e as nat) <= f,
                    normalized(orig, 0) == normalized(f, e as nat),
                decreases 0x100_0000 - f,
            {
                proof {
                    lemma_pow2_unfold((e + 1) as nat);
                    if e + 1 > 23 {
                        lemma2_to64();
                        lemma_pow2_strictly_increases(23, (e + 1) as nat);
                        assert(false);
                    }
                }
                f = f * 2;
                e = e + 1;
            }
            sign | (((897 - e) as u64) << 52) | (((f & 0x7f_ffff) as u64) << 29)
        }
    } else {
        sign | (((exp + 896) as u64) << 52) | ((frac as u64) << 29)
    }
}

/// A quotient rounded to nearest, ties to even: `q` divided by 2 to the
/// `k`th power, with the truncated quotient bumped when the remainder is
/// above half, or equal to half and the quotient odd.
pub open spec fn round_shift_spec(q: u64, k: u32) -> u64 {
    let tr = q >> k;
    let rem = q & (((1u64 << k) - 1) as u64);
    let half = 1u64 << ((k - 1) as u32);
    if rem > half || (rem == half && tr & 1 == 1) {
        (tr + 1) as u64
    } else {
        tr
    }
}

/// Divides by 2 to the `k`th power, rounding to nearest with ties to even.
fn round_shift(q: u64, k: u32) -> (r: u64)
    requires
        1 <= k < 64,
        q < 0x20_0000_0000_0000,
    ensures
        r == round_shift_spec(q, k),
        q >> k <= r <= (q >> k) + 1,
{
    proof {
        assert(q >> k < 0x20_0000_0000_0000) by (bit_vector)
            requires
                k < 64 && q < 0x20_0000_0000_0000,
        ;
        assert(1u64 << k >= 1) by (bit_vector)
            requires
                k < 64,
        ;
    }
    let tr: u64 = q >> k;
    let rem: u64 = q & ((1u64 << k) - 1);
    let half: u64 = 1u64 << (k - 1);
    if rem > half || (rem == half && (tr & 1) == 1) {
        tr + 1
    } else {
        tr
    }
}

/// The single-precision bit pattern nearest to a double-precision bit
/// pattern, ties to even: the narrowing counterpart of widening. An infinity
/// stays an infinity, a NaN becomes the canonical quiet NaN, a finite value
/// too large for single precision overflows to an infinity, and a tiny one
/// underflows through the subnormals to zero.
pub open spec fn narrow_double_bits_spec(b: u64) -> SingleBits {
    let sign = ((b >> 63) as u32) << 31;
    let exp = ((b >> 52) & 0x7ff) as u32;
    let frac = b & 0xf_ffff_ffff_ffff;
    if exp == 0x7ff {
        if frac == 0 {
            sign | 0x7f80_0000
        } else {
            sign | 0x7fc0_0000
        }
    } else if exp == 0 {
        // a subnormal double lies far below half the smallest subnormal
        // single and rounds to zero
        sign
    } else if exp >= 1151 {
        // unbiased exponent 128 or more: above the largest finite single
        sign | 0x7f80_0000
    } else if exp >= 897 {
        // unbiased exponent -126 ..= 127: a normal single, unless rounding
        // carries the mantissa over and pushes the exponent past the top
        let q = 0x10_0000_0000_0000u64 | frac;
        let q2 = round_shift_spec(q, 29);
        if q2 == 0x100_0000 {
            if exp == 1150 {
                sign | 0x7f80_0000
            } else {
                sign | (((exp - 896 + 1) as u32) << 23)
            }
        } else {
            sign | (((exp - 896) as u32) << 23) | ((q2 - 0x80_0000) as u32)
        }
    } else {
        // unbiased exponent below -126: a subnormal single, possibly rounding
        // up to the smallest normal one
        let sh = (926 - exp) as u32;
        if sh >= 54 {
            sign
        } else {
            let q = 0x10_0000_0000_0000u64 | frac;
            let q2 = round_shift_spec(q, sh);
            if q2 == 0x80_0000 {
                sign | 0x80_0000
            } else {
                sign | (q2 as u32)
            }
        }
    }
}

/// Narrows a double-precision bit pattern to the nearest single-precision
/// one, ties to even.
pub fn narrow_double_bits(b: u64) -> (r: SingleBits)
    ensures
        r == narrow_double_bits_spec(b),
{
    let sign: u32 = ((b >> 63) as u32) << 31;
    let exp: u32 = ((b >> 52) & 0x7ff) as u32;
    let frac: u64 = b & 0xf_ffff_ffff_ffff;
    proof {
        assert((b >> 63) <= 1 && (b >> 52) & 0x7ff < 0x800 && b & 0xf_ffff_ffff_ffff
            < 0x10_0000_0000_0000) by (bit_vector);
    }
    if exp == 0x7ff {
        if frac == 0 {
            sign | 0x7f80_0000
        } else {
            sign | 0x7fc0_0000
        }
    } else if exp == 0 {
        sign
    } else if exp >= 1151 {
        sign | 0x7f80_0000
    } else if exp >= 897 {
        let q: u64 = 0x10_0000_0000_0000u64 | frac;
        proof {
            assert(0x10_0000_0000_0000 <= (0x10_0000_0000_0000u64 | frac) < 0x20_0000_0000_0000
                && (0x10_0000_0000_0000u64 | frac) >> 29 >= 0x80_0000 && (0x10_0000_0000_0000u64
                | frac) >> 29 < 0x100_0000) by (bit_vector)
                requires
                    frac < 0x10_0000_0000_0000,
            ;
        }
        let q2: u64 = round_shift(q, 29);
        if q2 == 0x100_0000 {
            if exp == 1150 {
                sign | 0x7f80_0000
            } else {
                sign | ((exp - 896 + 1) << 23)
            }
        } else {
            sign | ((exp - 896) << 23) | ((q2 - 0x80_0000) as u32)
        }
    } else {
        let sh: u32 = 926 - exp;
        if sh >= 54 {
            sign
        } else {
            let q: u64 = 0x10_0000_0000_0000u64 | frac;
            proof {
                assert((0x10_0000_0000_0000u64 | frac) < 0x20_0000_0000_0000 && (
                0x10_0000_0000_0000u64 | frac) >> sh <= 0x80_0000) by (bit_vector)
                    requires
                        frac < 0x10_0000_0000_0000 && 30 <= sh < 54,
                ;
            }
            let q2: u64 = round_shift(q, sh);
            if q2 == 0x80_0000 {
                sign | 0x80_0000
            } else {
                sign | (q2 as u32)
            }
        }
    }
}

/// The magnitude a single-precision bit pattern represents, scaled by
/// 2 to the 149th power so that every finite magnitude is an integer: the
/// bare fraction when the exponent field is zero (a subnormal), otherwise the
/// implied-one mantissa weighted by the exponent.
pub open spec fn single_scaled_mag(s: SingleBits) -> nat {
    let exp = (s >> 23) & 0xff;
    let frac = (s & 0x7f_ffff) as nat;
    if exp == 0 {
        frac
    } else {
        (0x80_0000 + frac) * pow2((exp - 1) as nat)
    }
}

proof fn lemma_normalized_props(f: u32, e: nat)
    requires
        1 <= f < 0x100_0000,
    ensures
        ({
            let (nf, ne) = normalized(f, e);
            &&& 0x80_0000 <= nf < 0x100_0000
            &&& e <= ne
            &&& ne - e <= 23
            &&& f < 0x80_0000 ==> e + 1 <= ne
            &&& nf as nat == f as nat * pow2((ne - e) as nat)
        }),
    decreases (if f == 0 || f >= 0x80_0000 {
        0int
    } else {
        0x80_0000 - f
    }),
{
    lemma2_to64();
    let (nf, ne) = normalized(f, e);
    if f >= 0x80_0000 {
        assert(f as nat * 1 == f as nat);
    } else {
        lemma_normalized_props((f * 2) as u32, e + 1);
        let k = (ne - (e + 1)) as nat;
        lemma_pow2_unfold(k + 1);
        assert(nf as nat == (2 * f as nat) * pow2(k));
        assert((2 * f as nat) * pow2(k) == f as nat * (2 * pow2(k))) by (nonlinear_arith);
        assert(nf as nat == f as nat * pow2((ne - e) as nat));
        if ne - e > 23 {
            if ne - e > 24 {
                lemma_pow2_strictly_increases(24, (ne - e) as nat);
            }
            assert(pow2(24) <= pow2((ne - e) as nat));
            assert(pow2((ne - e) as nat) <= f as nat * pow2((ne - e) as nat))
                by (nonlinear_arith)
                requires
                    f as nat >= 1,
            ;
            assert(false);
        }
    }
}

/// Law: widening is exact — the widened double-precision pattern is finite,
/// keeps the sign bit, and represents the very magnitude the single-precision
/// pattern does (both magnitudes scaled to integers, the double's scale being
/// 2 to the 925th power finer).
pub proof fn lemma_widen_single_bits_exact(s: SingleBits)
    requires
        single_bits_finite(s),
    ensures
        double_bits_finite(widen_single_bits_spec(s)),
        widen_single_bits_spec(s) >> 63 == (s >> 31) as u64,
        double_scaled_mag(widen_single_bits_spec(s)) == single_scaled_mag(s) * pow2(925),
{
    lemma2_to64();
    let sb: u64 = ((s >> 31) as u64) << 63;
    let exp: u32 = (s >> 23) & 0xff;
    let frac: u32 = s & 0x7f_ffff;
    assert((s >> 31) as u64 <= 1) by (bit_vector);
    assert(exp < 0x100 && frac < 0x80_0000) by (bit_vector)
        requires
            exp == (s >> 23) & 0xff && frac == s & 0x7f_ffff,
    ;
    if exp == 0 {
        if frac == 0 {
            assert((sb >> 52) & 0x7ff == 0 && sb & 0xf_ffff_ffff_ffff == 0 && sb >> 63 == (s >> 31)
                as u64) by (bit_vector)
                requires
                    sb == ((s >> 31) as u64) << 63,
            ;
        } else {
            let (nf, ne) = normalized(frac, 0);
            lemma_normalized_props(frac, 0);
            let ed: u64 = (897 - ne) as u64;
            let m: u64 = (nf & 0x7f_ffff) as u64;
            let r: u64 = sb | (ed << 52) | (m << 29);
            assert(m as nat == nf as nat - 0x80_0000) by (bit_vector)
                requires
                    m == (nf & 0x7f_ffff) as u64 && 0x80_0000 <= nf < 0x100_0000,
            ;
            assert((r >> 52) & 0x7ff == ed && r & 0xf_ffff_ffff_ffff == m * 0x2000_0000 && r >> 63
                == (s >> 31) as u64) by (bit_vector)
                requires
                    r == sb | (ed << 52) | (m << 29) && sb == ((s >> 31) as u64) << 63 && 874 <= ed
                        <= 896 && m < 0x80_0000,
            ;
            // the double's scaled magnitude collapses to the normalized
            // fraction weighted back down by the doublings
            let fd = (r & 0xf_ffff_ffff_ffff) as nat;
            assert(0x10_0000_0000_0000 + fd == nf as nat * 0x2000_0000);
            lemma_pow2_adds(29, (896 - ne) as nat);
            assert((nf as nat * pow2(29)) * pow2((896 - ne) as nat) == nf as nat * pow2(
                (925 - ne) as nat,
            )) by (nonlinear_arith)
                requires
                    pow2(29) * pow2((896 - ne) as nat) == pow2((925 - ne) as nat),
            ;
            lemma_pow2_adds(ne, (925 - ne) as nat);
            assert((frac as nat * pow2(ne)) * pow2((925 - ne) as nat) == frac as nat * pow2(925))
                by (nonlinear_arith)
                requires
                    pow2(ne) * pow2((925 - ne) as nat) == pow2(925),
            ;
        }
    } else {
        let ed: u64 = (exp + 896) as u64;
        let m: u64 = frac as u64;
        let r: u64 = sb | (ed << 52) | (m << 29);
        assert((r >> 52) & 0x7ff == ed && r & 0xf_ffff_ffff_ffff == m * 0x2000_0000 && r >> 63 == (
        s >> 31) as u64) by (bit_vector)
            requires
                r == sb | (ed << 52) | (m << 29) && sb == ((s >> 31) as u64) << 63 && 897 <= ed
                    <= 1150 && m < 0x80_0000,
        ;
        let fd = (r & 0xf_ffff_ffff_ffff) as nat;
        assert(0x10_0000_0000_0000 + fd == (0x80_0000 + frac as nat) * 0x2000_0000);
        lemma_pow2_adds(29, (exp + 895) as nat);
        assert(((0x80_0000 + frac as nat) * pow2(29)) * pow2((exp + 895) as nat) == (0x80_0000
            + frac as nat) * pow2((exp + 924) as nat)) by (nonlinear_arith)
            requires
                pow2(29) * pow2((exp + 895) as nat) == pow2((exp + 924) as nat),
        ;
        lemma_pow2_adds((exp - 1) as nat, 925);
        assert(((0x80_0000 + frac as nat) * pow2((exp - 1) as nat)) * pow2(925) == (0x80_0000
            + frac as nat) * pow2((exp + 924) as nat)) by (nonlinear_arith)
            requires
                pow2((exp - 1) as nat) * pow2(925) == pow2((exp + 924) as nat),
        ;
    }
}

/// Law: narrowing inverts widening — a finite single-precision value,
/// widened to double precision and narrowed back, is recovered bit for bit
/// (widening is exact, so narrowing it back never rounds).
pub proof fn lemma_narrow_widen_identity(s: SingleBits)
    requires
        single_bits_finite(s),
    ensures
        narrow_double_bits_spec(widen_single_bits_spec(s)) == s,
{
    lemma2_to64();
    let sb: u64 = ((s >> 31) as u64) << 63;
    let exp: u32 = (s >> 23) & 0xff;
    let frac: u32 = s & 0x7f_ffff;
    assert(exp < 0x100 && frac < 0x80_0000) by (bit_vector)
        requires
            exp == (s >> 23) & 0xff && frac == s & 0x7f_ffff,
    ;
    if exp == 0 && frac == 0 {
        assert(((sb >> 52) & 0x7ff) == 0 && ((sb >> 63) as u32) << 31 == s) by (bit_vector)
            requires
                sb == ((s >> 31) as u64) << 63 && (s >> 23) & 0xff == 0 && s & 0x7f_ffff == 0,
        ;
    } else if exp == 0 {
        let (nf, ne) = normalized(frac, 0);
        lemma_normalized_props(frac, 0);
        let ne32: u32 = ne as u32;
        let nfu: u64 = nf as u64;
        let fracu: u64 = frac as u64;
        vstd::bits::lemma_u64_shl_is_mul(fracu, ne32 as u64);
        assert(fracu << (ne32 as u64) == nfu);
        assert(fracu << ne32 == fracu << (ne32 as u64)) by (bit_vector)
            requires
                ne32 <= 23,
        ;
        let ed: u64 = (897 - ne) as u64;
        let m: u64 = (nf & 0x7f_ffff) as u64;
        assert(m == nfu - 0x80_0000 && m < 0x80_0000) by (bit_vector)
            requires
                m == (nf & 0x7f_ffff) as u64 && nfu == nf as u64 && 0x80_0000 <= nf < 0x100_0000,
        ;
        let w: u64 = sb | (ed << 52) | (m << 29);
        assert((w >> 52) & 0x7ff == ed && w & 0xf_ffff_ffff_ffff == m << 29 && ((w >> 63) as u32)
            << 31 == (s >> 31) << 31) by (bit_vector)
            requires
                w == sb | (ed << 52) | (m << 29) && sb == ((s >> 31) as u64) << 63 && 874 <= ed
                    <= 896 && m < 0x80_0000,
        ;
        let sh: u32 = (926 - ed) as u32;
        assert(0x10_0000_0000_0000u64 | (m << 29) == nfu << 29) by (bit_vector)
            requires
                m == nfu - 0x80_0000 && 0x80_0000 <= nfu < 0x100_0000,
        ;
        assert((nfu << 29) >> sh == fracu && (nfu << 29) & (((1u64 << sh) - 1) as u64) == 0 && 1u64
            << ((sh - 1) as u32) >= 1) by (bit_vector)
            requires
                fracu << ne32 == nfu && fracu < 0x80_0000 && ne32 <= 23 && sh == 29 + ne32 && nfu
                    < 0x100_0000,
        ;
        assert(((s >> 31) << 31) | frac == s) by (bit_vector)
            requires
                (s >> 23) & 0xff == 0 && frac == s & 0x7f_ffff,
        ;
    } else {
        let ed: u64 = (exp + 896) as u64;
        let m: u64 = frac as u64;
        let w: u64 = sb | (ed << 52) | (m << 29);
        assert((w >> 52) & 0x7ff == ed && w & 0xf_ffff_ffff_ffff == m << 29 && ((w >> 63) as u32)
            << 31 == (s >> 31) << 31) by (bit_vector)
            requires
                w == sb | (ed << 52) | (m << 29) && sb == ((s >> 31) as u64) << 63 && 897 <= ed
                    <= 1150 && m < 0x80_0000,
        ;
        assert((0x10_0000_0000_0000u64 | (m << 29)) >> 29 == 0x80_0000 + m && (
        0x10_0000_0000_0000u64 | (m << 29)) & (((1u64 << 29u32) - 1) as u64) == 0 && 1u64 << 28u32
            >= 1) by (bit_vector)
            requires
                m < 0x80_0000,
        ;
        assert(((s >> 31) << 31) | (((s >> 23) & 0xff) << 23) | frac == s) by (bit_vector)
            requires
                frac == s & 0x7f_ffff,
        ;
    }
}

/// The strategy for single-precision targets: extraction accepts any number,
/// decodes it as a double and narrows it to the nearest single;
/// serialization widens the value exactly, except that a non-finite value
/// falls back to the number zero (an infinity or a NaN is not a JSON
/// number).
pub struct SingleStrategy;

impl AutocompletableHack<Single> for SingleStrategy {
    type Partial = Single;

    open spec fn kind(&self) -> StrategyKind {
        StrategyKind::SinglePrecision
    }

    open spec fn applicable_to(&self, caps: TypeCapabilities) -> bool {
        caps.single_precision && !caps.composite && !caps.double_precision
    }

    open spec fn extract_partial_spec(&self, value: StructuredValue) -> Result<Single, ExtractError> {
        match value {
            StructuredValue::Number(n) => Ok(
                Single { bits: narrow_double_bits_spec(number_double_bits_spec(n)) },
            ),
            _ => Err(ExtractError::CommandStructureMismatch("expected float")),
        }
    }

    open spec fn into_json_spec(&self, value: Single) -> StructuredValue {
        if value.is_finite() {
            StructuredValue::Number(JsonNumber::Float(widen_single_bits_spec(value.bits)))
        } else {
            StructuredValue::Number(JsonNumber::PosInt(0))
        }
    }

    proof fn lemma_resolves_here(&self, caps: TypeCapabilities) {
    }

    fn extract_partial(&self, value: &StructuredValue) -> (r: Result<Single, ExtractError>) {
        match value {
            StructuredValue::Number(n) => Ok(
                Single { bits: narrow_double_bits(number_double_bits(n)) },
            ),
            _ => Err(ExtractError::CommandStructureMismatch("expected float")),
        }
    }

    fn into_json(&self, value: Single) -> (r: StructuredValue) {
        if (value.bits >> 23) & 0xff != 0xff {
            StructuredValue::Number(JsonNumber::Float(widen_single_bits(value.bits)))
        } else {
            StructuredValue::Number(JsonNumber::PosInt(0))
        }
    }
}

/// Law: a single-precision target extracts the nearest single to the very
/// double that a double-precision target extracts, and fails exactly where
/// that one fails.
pub proof fn lemma_single_extracts_the_narrowed_double(
    single: SingleStrategy,
    double: crate::doubles::DoubleStrategy,
    value: StructuredValue,
)
    ensures
        single.extract_partial_spec(value) == match double.extract_partial_spec(value) {
            Ok(d) => Ok(Single { bits: narrow_double_bits_spec(d.bits) }),
            Err(e) => Err(e),
        },
{
}

/// Law: a finite single candidate, serialized and fed back through
/// extraction, extracts to exactly itself, bit for bit — serialization
/// widens exactly, and narrowing inverts the widening.
pub proof fn lemma_single_round_trip(strategy: SingleStrategy, v: Single)
    requires
        v.is_finite(),
    ensures
        strategy.extract_partial_spec(strategy.into_json_spec(v)) == Ok::<Single, ExtractError>(v),
{
    lemma_widen_single_bits_exact(v.bits);
    lemma_narrow_widen_identity(v.bits);
}

/// Law: serializing a non-finite single yields the number zero — the
/// documented lossy fallback.
pub proof fn lemma_single_non_finite_serializes_to_zero(strategy: SingleStrategy, v: Single)
    requires
        !v.is_finite(),
    ensures
        strategy.into_json_spec(v) == StructuredValue::Number(JsonNumber::PosInt(0)),
{
}

/// Law: serialization always yields a well-formed number — in particular,
/// a stored float is always finite.
pub proof fn lemma_single_serializes_number(strategy: SingleStrategy, v: Single)
    ensures
        strategy.into_json_spec(v) matches StructuredValue::Number(n) && n.wf(),
{
    if v.is_finite() {
        lemma_widen_single_bits_exact(v.bits);
    }
}

/// Law: serializing a single candidate always yields a number, so feeding
/// the result back through extraction never fails with a kind mismatch.
pub proof fn lemma_single_weak_round_trip(strategy: SingleStrategy, v: Single)
    ensures
        strategy.extract_partial_spec(strategy.into_json_spec(v)) is Ok,
{
}

/// Law: for a single-precision target, extraction of any string value fails
/// with a structure mismatch naming the expected kind.
pub proof fn lemma_single_rejects_strings(strategy: SingleStrategy, s: String)
    ensures
        strategy.extract_partial_spec(StructuredValue::String(s)) == Err::<Single, ExtractError>(
            ExtractError::CommandStructureMismatch("expected float"),
        ),
{
}

} // verus!
