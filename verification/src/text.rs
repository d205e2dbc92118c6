//! The generic string-convertible fallback strategy.

use vstd::prelude::*;
use crate::error::ExtractError;
use crate::resolver::{StrategyKind, TypeCapabilities};
use crate::strategy::{Autocompletable, AutocompletableHack};
use crate::value::StructuredValue;

verus! {

/// Types that format themselves as text (and that the caller can parse back
/// from text — the fallible final parse is the caller's own step, outside
/// this library).
pub trait StringConvertible: Sized {
    /// The text this value formats to.
    spec fn format_spec(&self) -> String;

    /// Format the value as text.
    fn format(&self) -> (r: String)
        ensures
            r == self.format_spec(),
    ;
}

impl StringConvertible for String {
    open spec fn format_spec(&self) -> String {
        *self
    }

    fn format(&self) -> String {
        self.clone()
    }
}

/// Text itself declares its own extraction/serialization pair, so it offers
/// the composite capability on top of the string-convertible one — and the
/// resolver binds it to the composite strategy, never to the fallback.
impl Autocompletable for String {
    type Partial = String;

    open spec fn extract_partial_spec(value: StructuredValue) -> Result<String, ExtractError> {
        match value {
            StructuredValue::String(s) => Ok(s),
            _ => Err(ExtractError::CommandStructureMismatch("expected string")),
        }
    }

    open spec fn into_json_spec(self) -> StructuredValue {
        StructuredValue::String(self)
    }

    fn extract_partial(value: &StructuredValue) -> (r: Result<String, ExtractError>) {
        match value {
            StructuredValue::String(s) => Ok(s.clone()),
            _ => Err(ExtractError::CommandStructureMismatch("expected string")),
        }
    }

    fn into_json(self) -> (r: StructuredValue) {
        StructuredValue::String(self)
    }
}

/// The least specific strategy: serves any type that can be parsed from and
/// formatted to text. The partial input is the raw text itself, handed back
/// unparsed; extraction only validates that the input is a string.
pub struct StringStrategy;

impl<T: StringConvertible> AutocompletableHack<T> for StringStrategy {
    type Partial = String;

    open spec fn kind(&self) -> StrategyKind {
        StrategyKind::StringConvertible
    }

    open spec fn applicable_to(&self, caps: TypeCapabilities) -> bool {
        caps.string_convertible && !caps.composite && !caps.double_precision
            && !caps.single_precision && !caps.integer_convertible
    }

    open spec fn extract_partial_spec(&self, value: StructuredValue) -> Result<String, ExtractError> {
        match value {
            StructuredValue::String(s) => Ok(s),
            _ => Err(ExtractError::CommandStructureMismatch("expected string")),
        }
    }

    open spec fn into_json_spec(&self, value: T) -> StructuredValue {
        StructuredValue::String(value.format_spec())
    }

    proof fn lemma_resolves_here(&self, caps: TypeCapabilities) {
    }

    fn extract_partial(&self, value: &StructuredValue) -> (r: Result<String, ExtractError>) {
        match value {
            StructuredValue::String(s) => Ok(s.clone()),
            _ => Err(ExtractError::CommandStructureMismatch("expected string")),
        }
    }

    fn into_json(&self, value: T) -> (r: StructuredValue) {
        StructuredValue::String(value.format())
    }
}

/// Law: for a string-convertible target, extraction of a string value yields
/// its text unchanged — no parse is attempted by this library.
pub proof fn lemma_string_extracts_unchanged<T: StringConvertible>(strategy: StringStrategy, s: String)
    ensures
        <StringStrategy as AutocompletableHack<T>>::extract_partial_spec(
            &strategy,
            StructuredValue::String(s),
        ) == Ok::<String, ExtractError>(s),
{
}

/// Law: a string-convertible candidate, serialized and fed back through
/// extraction, extracts to exactly its formatted text.
pub proof fn lemma_string_round_trip<T: StringConvertible>(strategy: StringStrategy, v: T)
    ensures
        <StringStrategy as AutocompletableHack<T>>::extract_partial_spec(
            &strategy,
            <StringStrategy as AutocompletableHack<T>>::into_json_spec(&strategy, v),
        ) == Ok::<String, ExtractError>(v.format_spec()),
{
}

/// Law: for a string-convertible target, extraction of any number fails with
/// a structure mismatch naming the expected kind.
pub proof fn lemma_string_rejects_numbers<T: StringConvertible>(
    strategy: StringStrategy,
    n: crate::value::JsonNumber,
)
    ensures
        <StringStrategy as AutocompletableHack<T>>::extract_partial_spec(
            &strategy,
            StructuredValue::Number(n),
        ) == Err::<String, ExtractError>(ExtractError::CommandStructureMismatch("expected string")),
{
}

/// Law: a text candidate, serialized through its own declared pair and fed
/// back through extraction, extracts to exactly itself.
pub proof fn lemma_text_composite_round_trip(s: String)
    ensures
        <String as Autocompletable>::extract_partial_spec(s.into_json_spec())
            == Ok::<String, ExtractError>(s),
{
}

} // verus!
