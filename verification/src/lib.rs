//! Derivation of the two indirection capabilities (read-only and mutable
//! dereference) for a structure, projected onto one target field.
//!
//! The crate works on a plain description of a structure: its identifier,
//! its generic parameters and where-bounds carried as source text, and its
//! shape (named fields, positional fields, or none). Resolution picks
//! exactly one target field — the single field of a one-field structure,
//! or the unique marker-carrying field of a multi-field structure — and
//! emission produces an abstract description of the impl to splice in.
//! Resolution failures are reported as values, never as panics.

pub mod model;
pub mod resolve;
pub mod emit;
