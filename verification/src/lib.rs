//! Canonical JSON description of a Candid interface.
//!
//! A checked interface is a set of named type definitions plus an optional
//! actor. This crate holds the type model, the rule that settles what the
//! actor is, and the renderer that writes definitions and actor as one JSON
//! document. References between definitions stay references by name, so a
//! self-referential interface renders in finite text.

pub mod actor;
pub mod env;
pub mod json;
pub mod laws;
pub mod ledger;
pub mod render;
pub mod structure;
pub mod target_json;
pub mod types;
