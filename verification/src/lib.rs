//! A verified engine for copying keyed objects between two storage
//! containers: paged discovery of the source objects under a prefix,
//! derivation of each object's destination key, bounded-concurrency
//! dispatch of per-object transfers, and aggregation of per-object
//! outcomes into a run summary.
//!
//! The engine itself performs no network calls. A thin driver owns the
//! storage clients and runs the loop: it asks the engine what to do next
//! (list a page, start a transfer, wait, stop), performs that step, and
//! hands the engine the result as a plain value.

pub mod engine;
pub mod keymap;
pub mod outcome;
pub mod path;
pub mod transfer;
