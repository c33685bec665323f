//! A validated, normalized object model for a hardware register-description
//! document, mapped two ways: every entity is parsed from a generic
//! attributed tree and re-emitted to one with round-trip fidelity.
//!
//! The engine is the uniform entity contract (`parse`, `parse_unstrict`,
//! `encode`), the builder-based validation discipline that turns a missing
//! required field into a structured error, and the strict/lenient parsing
//! protocol that either fails fast or collects non-fatal schema deviations
//! as warnings beside a best-effort object.

pub mod cpu;
pub mod device;
pub mod error;
pub mod laws;
pub mod name;
pub mod peripheral;
pub mod registerproperties;
pub mod scalar;
pub mod tree;
