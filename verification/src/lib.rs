//! Detection of deprecated and removed API versions among the resources of a
//! cluster.
//!
//! The library holds the rules of a scan: which resources a deprecation table
//! names, what an instance declares about itself, when an instance is reported,
//! and how the outcomes of the independent scan units become one report. The
//! network calls themselves are made by the caller, who hands their results
//! to the functions here as plain values.
//!
//! - `table` reads the entries of the deprecation table.
//! - `unit` is the work done for one entry: resolve its kind, list the
//!   instances, inspect each.
//! - `extract` reads the API version that an instance was declared under,
//!   and `evaluate` decides whether the instance is reported.
//! - `scan` takes the outcomes of the units and ends in a report or in the
//!   first fatal error.
//! - `model`, `instance` and `error` hold the records these work on.
//! - `cli` holds what the command line selects.
//!
//! Everything is verified but the two calls into `serde_json` in `json`,
//! whose contracts are taken on trust.

pub mod cli;
pub mod error;
pub mod evaluate;
pub mod extract;
pub mod instance;
pub mod json;
pub mod model;
pub mod scan;
pub mod table;
pub mod unit;
