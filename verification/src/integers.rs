//! The integer strategy: all fixed-width integers, signed and unsigned.

use vstd::prelude::*;
use crate::error::ExtractError;
use crate::resolver::{StrategyKind, TypeCapabilities};
use crate::strategy::AutocompletableHack;
use crate::value::{JsonNumber, StructuredValue};

verus! {

/// Types convertible to and from a 64-bit signed integer within their own
/// bounds.
pub trait IntegerConvertible: Sized {
    /// The mathematical value.
    spec fn as_int(self) -> int;

    /// The smallest value of the type.
    spec fn min_spec() -> int;

    /// The largest value of the type.
    spec fn max_spec() -> int;

    /// The value of the type standing for a mathematical integer in range.
    spec fn from_int_spec(n: int) -> Self;

    /// The number a value of the type serializes to.
    spec fn number_spec(self) -> JsonNumber;

    /// Proof obligation: every value lies within the type's bounds, and the
    /// bounds themselves start no lower than the 64-bit signed minimum.
    proof fn lemma_in_range(self)
        ensures
            Self::min_spec() <= self.as_int() <= Self::max_spec(),
            Self::min_spec() >= i64::MIN as int,
    ;

    /// Proof obligation: the mathematical value determines the typed value.
    proof fn lemma_as_int_injective(a: Self, b: Self)
        requires
            a.as_int() == b.as_int(),
        ensures
            a == b,
    ;

    /// Proof obligation: converting an in-range integer yields a value
    /// standing for exactly that integer.
    proof fn lemma_from_int_spec(n: int)
        requires
            Self::min_spec() <= n <= Self::max_spec(),
        ensures
            Self::from_int_spec(n).as_int() == n,
    ;

    /// Proof obligation: serialization is exact — the serialized number is
    /// well formed and reads back as the same integer whenever it fits a
    /// 64-bit signed integer.
    proof fn lemma_number_spec(self)
        ensures
            self.number_spec().wf(),
            self.as_int() <= i64::MAX as int ==> self.number_spec().as_i64_spec()
                == Some((self.as_int()) as i64),
    ;

    /// Converts a 64-bit signed integer into the type when it is in range.
    fn try_from_i64(n: i64) -> (r: Option<Self>)
        ensures
            r == (if Self::min_spec() <= n as int <= Self::max_spec() {
                Some(Self::from_int_spec(n as int))
            } else {
                None::<Self>
            }),
    ;

    /// The exact, non-failing conversion to a number.
    fn to_number(self) -> (r: JsonNumber)
        ensures
            r == self.number_spec(),
    ;
}

impl IntegerConvertible for u8 {
    open spec fn as_int(self) -> int {
        self as int
    }

    open spec fn min_spec() -> int {
        0
    }

    open spec fn max_spec() -> int {
        u8::MAX as int
    }

    open spec fn from_int_spec(n: int) -> u8 {
        n as u8
    }

    open spec fn number_spec(self) -> JsonNumber {
        JsonNumber::PosInt(self as u64)
    }

    proof fn lemma_in_range(self) {
    }

    proof fn lemma_as_int_injective(a: u8, b: u8) {
    }

    proof fn lemma_from_int_spec(n: int) {
    }

    proof fn lemma_number_spec(self) {
    }

    fn try_from_i64(n: i64) -> Option<u8> {
        if 0 <= n && n <= u8::MAX as i64 {
            Some(n as u8)
        } else {
            None
        }
    }

    fn to_number(self) -> JsonNumber {
        JsonNumber::PosInt(self as u64)
    }
}

impl IntegerConvertible for u16 {
    open spec fn as_int(self) -> int {
        self as int
    }

    open spec fn min_spec() -> int {
        0
    }

    open spec fn max_spec() -> int {
        u16::MAX as int
    }

    open spec fn from_int_spec(n: int) -> u16 {
        n as u16
    }

    open spec fn number_spec(self) -> JsonNumber {
        JsonNumber::PosInt(self as u64)
    }

    proof fn lemma_in_range(self) {
    }

    proof fn lemma_as_int_injective(a: u16, b: u16) {
    }

    proof fn lemma_from_int_spec(n: int) {
    }

    proof fn lemma_number_spec(self) {
    }

    fn try_from_i64(n: i64) -> Option<u16> {
        if 0 <= n && n <= u16::MAX as i64 {
            Some(n as u16)
        } else {
            None
        }
    }

    fn to_number(self) -> JsonNumber {
        JsonNumber::PosInt(self as u64)
    }
}

impl IntegerConvertible for u32 {
    open spec fn as_int(self) -> int {
        self as int
    }

    open spec fn min_spec() -> int {
        0
    }

    open spec fn max_spec() -> int {
        u32::MAX as int
    }

    open spec fn from_int_spec(n: int) -> u32 {
        n as u32
    }

    open spec fn number_spec(self) -> JsonNumber {
        JsonNumber::PosInt(self as u64)
    }

    proof fn lemma_in_range(self) {
    }

    proof fn lemma_as_int_injective(a: u32, b: u32) {
    }

    proof fn lemma_from_int_spec(n: int) {
    }

    proof fn lemma_number_spec(self) {
    }

    fn try_from_i64(n: i64) -> Option<u32> {
        if 0 <= n && n <= u32::MAX as i64 {
            Some(n as u32)
        } else {
            None
        }
    }

    fn to_number(self) -> JsonNumber {
        JsonNumber::PosInt(self as u64)
    }
}

impl IntegerConvertible for u64 {
    open spec fn as_int(self) -> int {
        self as int
    }

    open spec fn min_spec() -> int {
        0
    }

    open spec fn max_spec() -> int {
        u64::MAX as int
    }

    open spec fn from_int_spec(n: int) -> u64 {
        n as u64
    }

    open spec fn number_spec(self) -> JsonNumber {
        JsonNumber::PosInt(self)
    }

    proof fn lemma_in_range(self) {
    }

    proof fn lemma_as_int_injective(a: u64, b: u64) {
    }

    proof fn lemma_from_int_spec(n: int) {
    }

    proof fn lemma_number_spec(self) {
    }

    fn try_from_i64(n: i64) -> Option<u64> {
        if n >= 0 {
            Some(n as u64)
        } else {
            None
        }
    }

    fn to_number(self) -> JsonNumber {
        JsonNumber::PosInt(self)
    }
}

impl IntegerConvertible for i8 {
    open spec fn as_int(self) -> int {
        self as int
    }

    open spec fn min_spec() -> int {
        i8::MIN as int
    }

    open spec fn max_spec() -> int {
        i8::MAX as int
    }

    open spec fn from_int_spec(n: int) -> i8 {
        n as i8
    }

    open spec fn number_spec(self) -> JsonNumber {
        JsonNumber::from_i64_spec(self as i64)
    }

    proof fn lemma_in_range(self) {
    }

    proof fn lemma_as_int_injective(a: i8, b: i8) {
    }

    proof fn lemma_from_int_spec(n: int) {
    }

    proof fn lemma_number_spec(self) {
    }

    fn try_from_i64(n: i64) -> Option<i8> {
        if i8::MIN as i64 <= n && n <= i8::MAX as i64 {
            Some(n as i8)
        } else {
            None
        }
    }

    fn to_number(self) -> JsonNumber {
        JsonNumber::from_i64(self as i64)
    }
}

impl IntegerConvertible for i16 {
    open spec fn as_int(self) -> int {
        self as int
    }

    open spec fn min_spec() -> int {
        i16::MIN as int
    }

    open spec fn max_spec() -> int {
        i16::MAX as int
    }

    open spec fn from_int_spec(n: int) -> i16 {
        n as i16
    }

    open spec fn number_spec(self) -> JsonNumber {
        JsonNumber::from_i64_spec(self as i64)
    }

    proof fn lemma_in_range(self) {
    }

    proof fn lemma_as_int_injective(a: i16, b: i16) {
    }

    proof fn lemma_from_int_spec(n: int) {
    }

    proof fn lemma_number_spec(self) {
    }

    fn try_from_i64(n: i64) -> Option<i16> {
        if i16::MIN as i64 <= n && n <= i16::MAX as i64 {
            Some(n as i16)
        } else {
            None
        }
    }

    fn to_number(self) -> JsonNumber {
        JsonNumber::from_i64(self as i64)
    }
}

impl IntegerConvertible for i32 {
    open spec fn as_int(self) -> int {
        self as int
    }

    open spec fn min_spec() -> int {
        i32::MIN as int
    }

    open spec fn max_spec() -> int {
        i32::MAX as int
    }

    open spec fn from_int_spec(n: int) -> i32 {
        n as i32
    }

    open spec fn number_spec(self) -> JsonNumber {
        JsonNumber::from_i64_spec(self as i64)
    }

    proof fn lemma_in_range(self) {
    }

    proof fn lemma_as_int_injective(a: i32, b: i32) {
    }

    proof fn lemma_from_int_spec(n: int) {
    }

    proof fn lemma_number_spec(self) {
    }

    fn try_from_i64(n: i64) -> Option<i32> {
        if i32::MIN as i64 <= n && n <= i32::MAX as i64 {
            Some(n as i32)
        } else {
            None
        }
    }

    fn to_number(self) -> JsonNumber {
        JsonNumber::from_i64(self as i64)
    }
}

impl IntegerConvertible for i64 {
    open spec fn as_int(self) -> int {
        self as int
    }

    open spec fn min_spec() -> int {
        i64::MIN as int
    }

    open spec fn max_spec() -> int {
        i64::MAX as int
    }

    open spec fn from_int_spec(n: int) -> i64 {
        n as i64
    }

    open spec fn number_spec(self) -> JsonNumber {
        JsonNumber::from_i64_spec(self)
    }

    proof fn lemma_in_range(self) {
    }

    proof fn lemma_as_int_injective(a: i64, b: i64) {
    }

    proof fn lemma_from_int_spec(n: int) {
    }

    proof fn lemma_number_spec(self) {
    }

    fn try_from_i64(n: i64) -> Option<i64> {
        Some(n)
    }

    fn to_number(self) -> JsonNumber {
        JsonNumber::from_i64(self)
    }
}

/// The strategy for integer-convertible targets: extraction requires a number
/// that reads as a 64-bit signed integer and lies within the target's own
/// bounds; serialization is exact.
pub struct IntegerStrategy;

impl<T: IntegerConvertible> AutocompletableHack<T> for IntegerStrategy {
    type Partial = T;

    open spec fn kind(&self) -> StrategyKind {
        StrategyKind::Integer
    }

    open spec fn applicable_to(&self, caps: TypeCapabilities) -> bool {
        caps.integer_convertible && !caps.composite && !caps.double_precision
            && !caps.single_precision
    }

    open spec fn extract_partial_spec(&self, value: StructuredValue) -> Result<T, ExtractError> {
        match value.as_i64_spec() {
            Some(n) => if T::min_spec() <= n as int <= T::max_spec() {
                Ok(T::from_int_spec(n as int))
            } else {
                Err(ExtractError::IntegerOutOfBounds)
            },
            None => Err(ExtractError::CommandStructureMismatch("expected integer")),
        }
    }

    open spec fn into_json_spec(&self, value: T) -> StructuredValue {
        StructuredValue::Number(value.number_spec())
    }

    proof fn lemma_resolves_here(&self, caps: TypeCapabilities) {
    }

    fn extract_partial(&self, value: &StructuredValue) -> (r: Result<T, ExtractError>) {
        match value {
            StructuredValue::Number(n) => match n.as_i64() {
                Some(i) => match T::try_from_i64(i) {
                    Some(v) => Ok(v),
                    None => Err(ExtractError::IntegerOutOfBounds),
                },
                None => Err(ExtractError::CommandStructureMismatch("expected integer")),
            },
            _ => Err(ExtractError::CommandStructureMismatch("expected integer")),
        }
    }

    fn into_json(&self, value: T) -> (r: StructuredValue) {
        StructuredValue::Number(value.to_number())
    }
}

/// Law: an integer candidate no larger than the 64-bit signed maximum,
/// serialized and fed back through extraction, extracts to exactly itself.
/// (An unsigned 64-bit candidate above that maximum serializes exactly but
/// does not read back as a 64-bit signed integer.)
pub proof fn lemma_integer_round_trip<T: IntegerConvertible>(strategy: IntegerStrategy, v: T)
    requires
        v.as_int() <= i64::MAX as int,
    ensures
        <IntegerStrategy as AutocompletableHack<T>>::extract_partial_spec(
            &strategy,
            <IntegerStrategy as AutocompletableHack<T>>::into_json_spec(&strategy, v),
        ) == Ok::<T, ExtractError>(v),
{
    v.lemma_in_range();
    v.lemma_number_spec();
    T::lemma_from_int_spec(v.as_int());
    T::lemma_as_int_injective(T::from_int_spec(v.as_int()), v);
}

/// Law: for an integer-convertible target, extraction of any string value
/// fails with a structure mismatch naming the expected kind; the raw text is
/// never inspected.
pub proof fn lemma_integer_rejects_strings<T: IntegerConvertible>(strategy: IntegerStrategy, s: String)
    ensures
        <IntegerStrategy as AutocompletableHack<T>>::extract_partial_spec(
            &strategy,
            StructuredValue::String(s),
        ) == Err::<T, ExtractError>(ExtractError::CommandStructureMismatch("expected integer")),
{
}

} // verus!
