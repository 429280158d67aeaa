//! Verified core of a product-catalog service.
//!
//! The heart of the crate is the bulk CSV import pipeline: tolerant row
//! reading, field sanitization, per-record validation with error
//! accumulation, and partial-success outcome aggregation.  Every function
//! carries a contract that pins its result down; the only unverified code
//! is a handful of small trusted wrappers around outside calls.
#![verifier::loop_isolation(false)]

pub mod auth;
pub mod category;
pub mod chars;
pub mod decimal;
pub mod listing;
pub mod models;
pub mod outcome;
pub mod rows;
pub mod sanitize;
pub mod text;
pub mod validate;
