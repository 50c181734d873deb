//! An access-control decision engine for mounting a filesystem.
//!
//! Two policy tables, an allow table and a deny table, hold subject
//! identifiers. A wildcard entry in one of them sets the baseline and makes
//! the other table the list of exceptions to it; every denial carries one
//! alert record.

pub mod decision;
pub mod evaluation;
pub mod laws;
pub mod policy;
