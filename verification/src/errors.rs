//! The error kinds the pipeline distinguishes.

use vstd::prelude::*;

verus! {

/// Why a batch, or one record of it, failed.
///
/// `Provider` and `Validation` errors raised before per-record work are fatal
/// for a whole batch; a `Conversion` error is scoped to one record; and
/// `EmptyBatch` is the aggregate failure of a batch in which no record at all
/// was converted.
#[derive(Debug, Clone)]
pub enum PipelineError {
    /// The search call itself failed.
    Provider(String),
    /// A malformed URL or an unsupported scheme.
    Validation(String),
    /// A fetch, render or write failure for one record.
    Conversion(String),
    /// Every per-record attempt failed, so the batch produced nothing.
    EmptyBatch,
}

} // verus!
