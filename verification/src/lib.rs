//! Verified core of a client for the Cargo tabular-data extension of a wiki's
//! query API.
//!
//! A caller describes a relational-style query (tables, projected fields, an
//! optional filter, an optional join condition); the library assembles the
//! wire-level parameter list for it and normalizes the JSON answer into a
//! plain list of result rows, distinguishing "no rows found" from a malformed
//! response.  The HTTP transport itself is an external collaborator and stays
//! outside this crate.

pub mod catalog;
pub mod json;
pub mod query;
pub mod response;
