//! The strategy interface and the composite (user-defined) strategy.

use vstd::prelude::*;
use crate::error::ExtractError;
use crate::resolver::{resolve_spec, StrategyKind, TypeCapabilities};
use crate::value::StructuredValue;

verus! {

/// Types that can be marked autocompletable in a command parameter, by
/// declaring their own extraction/serialization pair (the composite
/// capability).
///
/// `Partial` should be `Self` except where a partial input cannot be parsed
/// into `Self` (e.g. a half-typed network address), in which case a looser
/// representation is extracted instead.
pub trait Autocompletable: Sized {
    /// Type of the partial input.
    type Partial;

    /// What extraction returns for each structured value.
    spec fn extract_partial_spec(value: StructuredValue) -> Result<Self::Partial, ExtractError>;

    /// The structured value a candidate serializes to.
    spec fn into_json_spec(self) -> StructuredValue;

    /// Try extracting the partial input from the structured value.
    fn extract_partial(value: &StructuredValue) -> (r: Result<Self::Partial, ExtractError>)
        ensures
            r == Self::extract_partial_spec(*value),
    ;

    /// Serialize an autocompletion choice as a structured value.
    fn into_json(self) -> (r: StructuredValue)
        ensures
            r == self.into_json_spec(),
    ;
}

/// One extraction/serialization strategy for parameter type `T`, implemented
/// by a zero-sized marker per strategy.
///
/// Exactly one strategy is bound to each parameter type. Each implementation
/// declares the capability profiles it is applicable to and proves, against
/// the resolver, that those profiles resolve to precisely this strategy — so
/// a lower-priority strategy can never be bound to a type that a
/// higher-priority one claims.
pub trait AutocompletableHack<T>: Sized {
    /// Type of the partial input this strategy extracts.
    type Partial;

    /// Which strategy this is, in the resolver's terms.
    spec fn kind(&self) -> StrategyKind;

    /// The capability profiles of the types this strategy serves.
    spec fn applicable_to(&self, caps: TypeCapabilities) -> bool;

    /// What extraction returns for each structured value.
    spec fn extract_partial_spec(&self, value: StructuredValue) -> Result<Self::Partial, ExtractError>;

    /// The structured value a candidate serializes to.
    spec fn into_json_spec(&self, value: T) -> StructuredValue;

    /// Proof obligation: the resolver selects exactly this strategy for every
    /// capability profile this strategy serves.
    proof fn lemma_resolves_here(&self, caps: TypeCapabilities)
        requires
            self.applicable_to(caps),
        ensures
            resolve_spec(caps) == Some(self.kind()),
    ;

    /// Try extracting the partial input from the structured value.
    fn extract_partial(&self, value: &StructuredValue) -> (r: Result<Self::Partial, ExtractError>)
        ensures
            r == self.extract_partial_spec(*value),
    ;

    /// Serialize an autocompletion choice as a structured value.
    fn into_json(&self, value: T) -> (r: StructuredValue)
        ensures
            r == self.into_json_spec(value),
    ;
}

/// The most specific strategy: delegates both operations verbatim to the
/// type's own [`Autocompletable`] implementation, adding no validation.
pub struct CompositeStrategy;

impl<T: Autocompletable> AutocompletableHack<T> for CompositeStrategy {
    type Partial = T::Partial;

    open spec fn kind(&self) -> StrategyKind {
        StrategyKind::Composite
    }

    open spec fn applicable_to(&self, caps: TypeCapabilities) -> bool {
        caps.composite
    }

    open spec fn extract_partial_spec(&self, value: StructuredValue) -> Result<T::Partial, ExtractError> {
        T::extract_partial_spec(value)
    }

    open spec fn into_json_spec(&self, value: T) -> StructuredValue {
        value.into_json_spec()
    }

    proof fn lemma_resolves_here(&self, caps: TypeCapabilities) {
    }

    fn extract_partial(&self, value: &StructuredValue) -> (r: Result<T::Partial, ExtractError>) {
        T::extract_partial(value)
    }

    fn into_json(&self, value: T) -> (r: StructuredValue) {
        value.into_json()
    }
}

} // verus!
