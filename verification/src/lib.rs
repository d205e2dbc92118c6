//! Type-directed extraction and serialization of autocomplete values.
//!
//! A command framework hands this library a JSON-like structured value that a
//! user typed as a partial argument. Depending on the declared type of the
//! target parameter, one of several strategies extracts a partial
//! representation of that type from the structured value, and later
//! serializes a chosen candidate of the type back into a structured value.
//!
//! Exactly one strategy is bound to each parameter type, in a fixed
//! specificity order; the [`resolver`] module states that order, and each
//! strategy proves against it that it is the one selected for the types it
//! serves.

pub mod doubles;
pub mod error;
pub mod integers;
pub mod resolver;
pub mod singles;
pub mod strategy;
pub mod text;
pub mod value;
