//! The double-precision strategy.
//!
//! Floating-point values are carried as their IEEE 754 bit patterns, so that
//! the logic around them — kind validation, the finite/non-finite split on
//! serialization — is stated and checked exactly. Decoding an integer number
//! as a double is the numeric library's own conversion, relied upon behind
//! named results.

use vstd::prelude::*;
use vstd::arithmetic::power2::pow2;
use crate::error::ExtractError;
use crate::resolver::{StrategyKind, TypeCapabilities};
use crate::strategy::AutocompletableHack;
use crate::value::{double_bits_finite, DoubleBits, JsonNumber, StructuredValue};

verus! {

/// A double-precision value, held as its IEEE 754 bit pattern.
#[derive(Clone, Copy, PartialEq, Eq, Debug, Structural)]
pub struct Double {
    /// The IEEE 754 double-precision bit pattern.
    pub bits: DoubleBits,
}

impl Double {
    /// Whether the value is finite (neither an infinity nor a NaN).
    pub open spec fn is_finite(self) -> bool {
        double_bits_finite(self.bits)
    }
}

/// The magnitude a double-precision bit pattern represents, scaled by
/// 2 to the 1074th power so that every finite magnitude is an integer: the
/// bare fraction when the exponent field is zero (a subnormal), otherwise the
/// implied-one mantissa weighted by the exponent.
pub open spec fn double_scaled_mag(b: DoubleBits) -> nat {
    let exp = (b >> 52) & 0x7ff;
    let frac = (b & 0xf_ffff_ffff_ffff) as nat;
    if exp == 0 {
        frac
    } else {
        (0x10_0000_0000_0000 + frac) * pow2((exp - 1) as nat)
    }
}

/// The double the wire format decodes a non-negative integer number to.
pub uninterp spec fn double_bits_of_u64(u: u64) -> DoubleBits;

/// The double the wire format decodes a negative integer number to.
pub uninterp spec fn double_bits_of_i64(i: i64) -> DoubleBits;

/// Relies on `serde_json::Number::as_f64`: a number built from a `u64`
/// decodes to the nearest double, a pure function of the integer, and every
/// integer's magnitude lies far below the largest finite double.
#[verifier::external_body]
fn decode_u64_bits(u: u64) -> (r: DoubleBits)
    ensures
        r == double_bits_of_u64(u),
        double_bits_finite(r),
{
    match serde_json::Number::from(u).as_f64() {
        Some(x) => x.to_bits(),
        None => 0,
    }
}

/// Relies on `serde_json::Number::as_f64`: a number built from an `i64`
/// decodes to the nearest double, a pure function of the integer, and every
/// integer's magnitude lies far below the largest finite double.
#[verifier::external_body]
fn decode_i64_bits(i: i64) -> (r: DoubleBits)
    ensures
        r == double_bits_of_i64(i),
        double_bits_finite(r),
{
    match serde_json::Number::from(i).as_f64() {
        Some(x) => x.to_bits(),
        None => 0,
    }
}

/// The double a number decodes to: floats are taken as stored, integers go
/// through the numeric library's integer-to-double conversion.
pub open spec fn number_double_bits_spec(n: JsonNumber) -> DoubleBits {
    match n {
        JsonNumber::PosInt(u) => double_bits_of_u64(u),
        JsonNumber::NegInt(i) => double_bits_of_i64(i),
        JsonNumber::Float(bits) => bits,
    }
}

/// Decodes a number as a double.
pub fn number_double_bits(n: &JsonNumber) -> (r: DoubleBits)
    ensures
        r == number_double_bits_spec(*n),
        n.wf() ==> double_bits_finite(r),
{
    match n {
        JsonNumber::PosInt(u) => decode_u64_bits(*u),
        JsonNumber::NegInt(i) => decode_i64_bits(*i),
        JsonNumber::Float(bits) => *bits,
    }
}

/// The strategy for double-precision targets: extraction accepts any number
/// and decodes it as a double; serialization yields the number back, except
/// that a non-finite value falls back to the number zero (an infinity or a
/// NaN is not a JSON number).
pub struct DoubleStrategy;

impl AutocompletableHack<Double> for DoubleStrategy {
    type Partial = Double;

    open spec fn kind(&self) -> StrategyKind {
        StrategyKind::DoublePrecision
    }

    open spec fn applicable_to(&self, caps: TypeCapabilities) -> bool {
        caps.double_precision && !caps.composite
    }

    open spec fn extract_partial_spec(&self, value: StructuredValue) -> Result<Double, ExtractError> {
        match value {
            StructuredValue::Number(n) => Ok(Double { bits: number_double_bits_spec(n) }),
            _ => Err(ExtractError::CommandStructureMismatch("expected float")),
        }
    }

    open spec fn into_json_spec(&self, value: Double) -> StructuredValue {
        if value.is_finite() {
            StructuredValue::Number(JsonNumber::Float(value.bits))
        } else {
            StructuredValue::Number(JsonNumber::PosInt(0))
        }
    }

    proof fn lemma_resolves_here(&self, caps: TypeCapabilities) {
    }

    fn extract_partial(&self, value: &StructuredValue) -> (r: Result<Double, ExtractError>) {
        match value {
            StructuredValue::Number(n) => Ok(Double { bits: number_double_bits(n) }),
            _ => Err(ExtractError::CommandStructureMismatch("expected float")),
        }
    }

    fn into_json(&self, value: Double) -> (r: StructuredValue) {
        if (value.bits >> 52) & 0x7ff != 0x7ff {
            StructuredValue::Number(JsonNumber::Float(value.bits))
        } else {
            StructuredValue::Number(JsonNumber::PosInt(0))
        }
    }
}

/// Law: a finite double candidate, serialized and fed back through
/// extraction, extracts to exactly itself, bit for bit.
pub proof fn lemma_double_round_trip(strategy: DoubleStrategy, v: Double)
    requires
        v.is_finite(),
    ensures
        strategy.extract_partial_spec(strategy.into_json_spec(v)) == Ok::<Double, ExtractError>(v),
{
}

/// Law: serializing a non-finite double yields the number zero — the
/// documented lossy fallback.
pub proof fn lemma_double_non_finite_serializes_to_zero(strategy: DoubleStrategy, v: Double)
    requires
        !v.is_finite(),
    ensures
        strategy.into_json_spec(v) == StructuredValue::Number(JsonNumber::PosInt(0)),
{
}

/// Law: serialization always yields a well-formed number — in particular,
/// a stored float is always finite.
pub proof fn lemma_double_serializes_number(strategy: DoubleStrategy, v: Double)
    ensures
        strategy.into_json_spec(v) matches StructuredValue::Number(n) && n.wf(),
{
}

/// Law: for a double-precision target, extraction of any string value fails
/// with a structure mismatch naming the expected kind.
pub proof fn lemma_double_rejects_strings(strategy: DoubleStrategy, s: String)
    ensures
        strategy.extract_partial_spec(StructuredValue::String(s)) == Err::<Double, ExtractError>(
            ExtractError::CommandStructureMismatch("expected float"),
        ),
{
}

} // verus!
