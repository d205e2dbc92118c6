//! The structured (JSON-like) value model exchanged at the boundary.

use vstd::prelude::*;

verus! {

/// Bit pattern of an IEEE 754 double-precision number: sign bit 63,
/// exponent bits 62..=52, fraction bits 51..=0.
pub type DoubleBits = u64;

/// A double-precision bit pattern is finite when its exponent field is not
/// all ones (all ones encodes an infinity or a NaN).
pub open spec fn double_bits_finite(bits: DoubleBits) -> bool {
    (bits >> 52) & 0x7ff != 0x7ff
}

/// A JSON number, mirroring how the wire representation stores it: a
/// non-negative integer, a negative integer, or a finite double.
#[derive(Clone, Copy, PartialEq, Eq, Debug)]
pub enum JsonNumber {
    /// An integer in `0 ..= u64::MAX`.
    PosInt(u64),
    /// An integer in `i64::MIN ..= -1`.
    NegInt(i64),
    /// A finite double-precision number, stored as its bit pattern.
    Float(DoubleBits),
}

impl JsonNumber {
    /// The representation invariant: negative integers are negative and
    /// stored floats are finite.
    pub open spec fn wf(self) -> bool {
        match self {
            JsonNumber::PosInt(_) => true,
            JsonNumber::NegInt(i) => i < 0,
            JsonNumber::Float(bits) => double_bits_finite(bits),
        }
    }

    /// The number as a 64-bit signed integer, if it is an integer in range.
    pub open spec fn as_i64_spec(self) -> Option<i64> {
        match self {
            JsonNumber::PosInt(u) => if u <= i64::MAX as u64 {
                Some(u as i64)
            } else {
                None
            },
            JsonNumber::NegInt(i) => Some(i),
            JsonNumber::Float(_) => None,
        }
    }

    /// Returns the number as a 64-bit signed integer when it is one.
    pub fn as_i64(&self) -> (r: Option<i64>)
        ensures
            r == self.as_i64_spec(),
    {
        match self {
            JsonNumber::PosInt(u) => if *u <= i64::MAX as u64 {
                Some(*u as i64)
            } else {
                None
            },
            JsonNumber::NegInt(i) => Some(*i),
            JsonNumber::Float(_) => None,
        }
    }

    /// The canonical number for a 64-bit signed integer.
    pub open spec fn from_i64_spec(i: i64) -> JsonNumber {
        if i >= 0 {
            JsonNumber::PosInt(i as u64)
        } else {
            JsonNumber::NegInt(i)
        }
    }

    /// Builds the canonical number for a 64-bit signed integer.
    pub fn from_i64(i: i64) -> (r: JsonNumber)
        ensures
            r == JsonNumber::from_i64_spec(i),
            r.wf(),
            r.as_i64_spec() == Some(i),
    {
        if i >= 0 {
            JsonNumber::PosInt(i as u64)
        } else {
            JsonNumber::NegInt(i)
        }
    }
}

/// The tagged-union wire value: the JSON data model.
#[derive(PartialEq, Eq, Debug)]
pub enum StructuredValue {
    Null,
    Bool(bool),
    Number(JsonNumber),
    String(String),
    Array(Vec<StructuredValue>),
    Object(Vec<(String, StructuredValue)>),
}

impl StructuredValue {
    /// The number as a 64-bit signed integer, if the value is such a number.
    pub open spec fn as_i64_spec(self) -> Option<i64> {
        match self {
            StructuredValue::Number(n) => n.as_i64_spec(),
            _ => None,
        }
    }

    /// The text content, if the value is a string.
    pub open spec fn as_str_spec(self) -> Option<Seq<char>> {
        match self {
            StructuredValue::String(s) => Some(s@),
            _ => None,
        }
    }
}

} // verus!
