//! Build-time strategy resolution, made explicit.
//!
//! The set of parameter types is open-ended, yet exactly one strategy must
//! handle any given type. Resolution is a pure function of the capabilities a
//! type offers, in a fixed specificity order; it never depends on the value
//! being processed. Each strategy implementation proves, against this
//! resolver, that it is the one selected for the capability profiles it
//! declares itself applicable to.

use vstd::prelude::*;

verus! {

/// The extraction/serialization strategies, one of which is bound to each
/// parameter type.
#[derive(Clone, Copy, PartialEq, Eq, Debug, Structural)]
pub enum StrategyKind {
    /// The type declares its own extraction/serialization pair.
    Composite,
    /// Double-precision floating-point target.
    DoublePrecision,
    /// Single-precision floating-point target.
    SinglePrecision,
    /// Target convertible to and from a 64-bit signed integer.
    Integer,
    /// Generic fallback for targets that parse from and format to text.
    StringConvertible,
}

/// The capabilities a parameter type offers, as seen by the resolver. A type
/// may offer several; the resolver picks the most specific strategy.
#[derive(Clone, Copy, PartialEq, Eq, Debug, Structural)]
pub struct TypeCapabilities {
    /// The type declares its own extraction/serialization pair.
    pub composite: bool,
    /// The type is the double-precision floating-point type.
    pub double_precision: bool,
    /// The type is the single-precision floating-point type.
    pub single_precision: bool,
    /// The type converts to and from a 64-bit signed integer.
    pub integer_convertible: bool,
    /// The type parses from and formats to text.
    pub string_convertible: bool,
}

/// The strategy resolved for a capability profile: the most specific
/// applicable strategy, in the fixed specificity order
/// Composite > DoublePrecision > SinglePrecision > Integer >
/// StringConvertible, or `None` when no strategy applies (which stands for a
/// build failure, never a silent fallback).
pub open spec fn resolve_spec(caps: TypeCapabilities) -> Option<StrategyKind> {
    if caps.composite {
        Some(StrategyKind::Composite)
    } else if caps.double_precision {
        Some(StrategyKind::DoublePrecision)
    } else if caps.single_precision {
        Some(StrategyKind::SinglePrecision)
    } else if caps.integer_convertible {
        Some(StrategyKind::Integer)
    } else if caps.string_convertible {
        Some(StrategyKind::StringConvertible)
    } else {
        None
    }
}

/// Resolves the strategy for a capability profile.
pub fn resolve(caps: &TypeCapabilities) -> (r: Option<StrategyKind>)
    ensures
        r == resolve_spec(*caps),
{
    if caps.composite {
        Some(StrategyKind::Composite)
    } else if caps.double_precision {
        Some(StrategyKind::DoublePrecision)
    } else if caps.single_precision {
        Some(StrategyKind::SinglePrecision)
    } else if caps.integer_convertible {
        Some(StrategyKind::Integer)
    } else if caps.string_convertible {
        Some(StrategyKind::StringConvertible)
    } else {
        None
    }
}

/// Law: resolution selects a strategy exactly when the type offers at least
/// one capability; a type offering none is rejected outright.
pub proof fn lemma_resolution_total_over_capabilities(caps: TypeCapabilities)
    ensures
        resolve_spec(caps) is Some <==> (caps.composite || caps.double_precision
            || caps.single_precision || caps.integer_convertible || caps.string_convertible),
{
}

/// Law: a type that declares the composite capability resolves to the
/// composite strategy, whatever else it offers. In particular a type that is
/// both composite and string-convertible is handled by the composite strategy
/// exclusively; the fallback strategy is never selected for it.
pub proof fn lemma_composite_shadows_fallback(caps: TypeCapabilities)
    requires
        caps.composite,
    ensures
        resolve_spec(caps) == Some(StrategyKind::Composite),
        resolve_spec(caps) != Some(StrategyKind::StringConvertible),
{
}

/// Law: the fallback strategy is selected only when no more specific strategy
/// applies.
pub proof fn lemma_fallback_is_last_resort(caps: TypeCapabilities)
    requires
        resolve_spec(caps) == Some(StrategyKind::StringConvertible),
    ensures
        !caps.composite,
        !caps.double_precision,
        !caps.single_precision,
        !caps.integer_convertible,
{
}

} // verus!
