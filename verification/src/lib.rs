//! Small, self-contained building blocks, each with a machine-checked contract.
//!
//! The centre piece is [`cacher::Cacher`], a cache that runs a computation on the first
//! argument it sees and answers every later call with that first result. Around it stand short
//! examples of records, enumerations, traits, operators and collections, each stated over a
//! mathematical model and proved against it.

pub mod cacher;
pub mod closure;
pub mod complex_types;
pub mod deep_lifecycle;
pub mod deep_trait;
pub mod eq_partialeq;
pub mod generics;
pub mod hash_map;
pub mod iterator;
pub mod learn_deref;
pub mod learn_trait;
pub mod lifecycle;
pub mod method;
pub mod newtype_and_type_aliases;
pub mod pattern_matching;
pub mod tuple;
pub mod type_conversion;
