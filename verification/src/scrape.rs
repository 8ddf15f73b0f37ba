//! Scrape orchestrator: the decision core of one scrape request.
//!
//! Each request walks `Idle -> Fetching -> {Succeeded, Failed}`.  The
//! fetch and the JSON decode are outside work; the host hands their
//! outcome in as an event, and the step function decides the next
//! state: fetch failure becomes `UpstreamUnreachable`, a body that does
//! not decode becomes `MalformedPayload`, and a decoded body is
//! translated and encoded, succeeding with the document or failing
//! with `EncodingError`.  Failures surface to the client as an opaque
//! internal-error response; upstream detail is never echoed.

use vstd::prelude::*;
use vstd::string::*;

use crate::encode::{encode, spec_encode, spec_metric_ok, EncodeError};
use crate::model::{Metrics, MetricsV};
use crate::translate::{buckets_fit, spec_translate, translate};

verus! {

/// Why one scrape request failed.
#[derive(Clone, Copy, Debug, PartialEq, Eq, Structural)]
pub enum ScrapeError {
    /// The upstream fetch failed: connection refused, timeout, or a
    /// non-success status.
    UpstreamUnreachable,
    /// The fetched body does not decode into the raw metrics model.
    MalformedPayload,
    /// The translated records cannot be serialized to the wire format.
    EncodingError,
}

/// State of one scrape request.
pub enum ScrapeState {
    Idle,
    Fetching,
    Succeeded(String),
    Failed(ScrapeError),
}

/// Outcome of the outside work, handed back by the host.
pub enum ScrapeEvent {
    /// A scrape request arrived.
    Request,
    /// The upstream fetch failed.
    FetchFailed,
    /// The body came back but does not decode.
    BodyMalformed,
    /// The body decoded into a raw snapshot.
    BodyDecoded(Metrics),
}

/// The document of one raw snapshot: translated, then encoded.
pub open spec fn spec_document(m: MetricsV) -> Seq<char> {
    spec_encode(spec_translate(m))
}

/// Every metric and label name of the snapshot's records is legal in
/// the wire format.
pub open spec fn spec_names_ok(m: MetricsV) -> bool {
    forall|i: int|
        0 <= i < spec_translate(m).len() ==> spec_metric_ok(#[trigger] spec_translate(m)[i])
}

/// Translates and encodes one decoded snapshot.
///
/// Returns the exposition document when every name is legal, and
/// `EncodingError` exactly otherwise — never a partial document.
pub fn render_metrics(m: &Metrics) -> (r: Result<String, ScrapeError>)
    requires
        buckets_fit(*m),
    ensures
        match r {
            Result::Ok(s) => spec_names_ok(m@) && s@ == spec_document(m@),
            Result::Err(e) => e == ScrapeError::EncodingError && !spec_names_ok(m@),
        },
{
    let expo = translate(m);
    match encode(&expo) {
        Result::Ok(s) => Result::Ok(s),
        Result::Err(EncodeError::InvalidName) => Result::Err(ScrapeError::EncodingError),
    }
}

/// One transition of the scrape state machine.
///
/// In `Idle` a request starts the fetch; in `Fetching` the fetch
/// outcome decides: failure maps to `UpstreamUnreachable`, an
/// undecodable body to `MalformedPayload`, and a decoded body is
/// rendered, reaching `Succeeded` with the document or `Failed` with
/// `EncodingError`.  Any other pairing leaves the state unchanged.
pub fn scrape_step(s: ScrapeState, e: ScrapeEvent) -> (next: ScrapeState)
    requires
        (e matches ScrapeEvent::BodyDecoded(m) ==> buckets_fit(m)),
    ensures
        match (s, e) {
            (ScrapeState::Idle, ScrapeEvent::Request) => next is Fetching,
            (ScrapeState::Fetching, ScrapeEvent::FetchFailed) => next == ScrapeState::Failed(
                ScrapeError::UpstreamUnreachable,
            ),
            (ScrapeState::Fetching, ScrapeEvent::BodyMalformed) => next == ScrapeState::Failed(
                ScrapeError::MalformedPayload,
            ),
            (ScrapeState::Fetching, ScrapeEvent::BodyDecoded(m)) => {
                if spec_names_ok(m@) {
                    next matches ScrapeState::Succeeded(t) && t@ == spec_document(m@)
                } else {
                    next == ScrapeState::Failed(ScrapeError::EncodingError)
                }
            },
            _ => next == s,
        },
{
    match (s, e) {
        (ScrapeState::Idle, ScrapeEvent::Request) => ScrapeState::Fetching,
        (ScrapeState::Fetching, ScrapeEvent::FetchFailed) => ScrapeState::Failed(
            ScrapeError::UpstreamUnreachable,
        ),
        (ScrapeState::Fetching, ScrapeEvent::BodyMalformed) => ScrapeState::Failed(
            ScrapeError::MalformedPayload,
        ),
        (ScrapeState::Fetching, ScrapeEvent::BodyDecoded(m)) => {
            match render_metrics(&m) {
                Result::Ok(text) => ScrapeState::Succeeded(text),
                Result::Err(err) => ScrapeState::Failed(err),
            }
        },
        (other, _) => other,
    }
}

/// The HTTP answer for a finished scrape: the document with status 200
/// on success; on any failure, status 500 with a fixed generic body
/// that carries no upstream detail.
pub fn http_response(s: &ScrapeState) -> (r: (u16, String))
    requires
        s is Succeeded || s is Failed,
    ensures
        (s matches ScrapeState::Succeeded(t) ==> r.0 == 200 && r.1@ == t@),
        (s is Failed ==> r.0 == 500 && r.1@ == "Internal Error"@),
{
    match s {
        ScrapeState::Succeeded(t) => (200, t.clone()),
        _ => (500, String::from_str("Internal Error")),
    }
}

} // verus!
