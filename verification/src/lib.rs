//! Bridge from a raw JSON metrics snapshot to the Prometheus text
//! exposition format.
//!
//! The crate holds the translation core: the raw metrics model, the
//! translator that derives histogram bucket bounds and folds labels,
//! the text encoder, and the scrape orchestrator's decision logic.

pub mod encode;
pub mod laws;
pub mod model;
pub mod render;
pub mod scrape;
pub mod translate;

use vstd::prelude::*;

verus! {

/// Greeting served on the root path.
pub fn hello() -> (r: &'static str)
    ensures
        r@ == "The Prometheus metrics exposer for Nebula Graph! Get the metrics from /metrics.\n"@,
{
    "The Prometheus metrics exposer for Nebula Graph! Get the metrics from /metrics.\n"
}

} // verus!
