//! Batch conversion of search results into saved documents.
//!
//! The library covers the decision logic of the pipeline: recovering
//! structured records from the search provider's rendered text, picking the
//! main content and title out of arbitrary HTML, naming output files, and
//! driving a batch of per-record conversions that tolerates individual
//! failures. Network and disk work stays with the caller.

pub mod chars;
pub mod errors;
pub mod records;
pub mod urls;
pub mod naming;
pub mod html;
pub mod markdown;
pub mod search;
pub mod batch;
