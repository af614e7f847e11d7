//! A caching toolkit whose core decisions are verified with Verus.
//!
//! The crate covers cache keys and their textual form, cached values with
//! freshness windows, cache policies and their builders, request/response
//! predicates and their combinators, tags for group invalidation, the
//! evaluation context shared by predicates, the function-caching helpers, and
//! a disk backend built on FeOxDB.

pub mod status;
pub mod time;
pub mod policy;
pub mod decimal;
pub mod key;
pub mod tag;
pub mod raw;
pub mod value;
pub mod predicate;
pub mod extractor;
pub mod eval_context;
pub mod offload;
pub mod fn_args;
pub mod request;
pub mod response;
pub mod cache;
pub mod macro_plan;
pub mod feoxdb;
pub mod fields;
pub mod config;
