//! The decision core of the fetch operation. The network round trip itself
//! is I/O and stays outside the library; what the transport hands back — a
//! status line with body bytes, or a failure — is turned here into the
//! fetch's one outcome: a response, or a classified error.

use vstd::prelude::*;

use crate::error::FetchError;
use crate::error::FetchErrorKind;
use crate::error::TransportError;
use crate::response::HttpResponse;
use crate::response::HttpResponseBody;

verus! {

/// The outcome of one GET round trip, as the transport reported it.
pub enum TransportOutcome {
    /// A status line was received. `body` holds the bytes read for a
    /// success status (none are read for an error status), and `detail` the
    /// transport's textual description of an error status.
    Response { status: u16, body: Vec<u8>, detail: String },
    /// The round trip failed before a status line was received.
    Failed(TransportError),
}

/// A status outside the success range is treated as a failed fetch.
pub open spec fn spec_is_error_status(status: u16) -> bool {
    status >= 300
}

/// Whether a received status makes the fetch fail: everything from 300 up.
pub fn is_error_status(status: u16) -> (r: bool)
    ensures
        r == spec_is_error_status(status),
{
    status >= 300
}

/// The outcome of a fetch: a response, or a classified error. Exactly one of
/// the two exists per fetch invocation.
pub struct FetchResult(pub Result<HttpResponse, FetchError>);

/// Turns the transport's report of one GET round trip into the fetch result.
/// A received success status yields a response with exactly that status and
/// exactly the bytes the transport read; a received error status yields an
/// error classified as `Status` of that code; a failure before a status line
/// yields the classified transport error. The URL is kept as given on every
/// error path.
pub fn fetch_result_of(url: &str, outcome: TransportOutcome) -> (r: FetchResult)
    ensures
        match outcome {
            TransportOutcome::Response { status, body, detail } => {
                &&& !spec_is_error_status(status) ==> {
                    &&& r.0 is Ok
                    &&& r.0->Ok_0.status == status
                    &&& r.0->Ok_0.body@ == body@
                }
                &&& spec_is_error_status(status) ==> {
                    &&& r.0 is Err
                    &&& r.0->Err_0.url@ == url@
                    &&& r.0->Err_0.kind == FetchErrorKind::Status(status)
                    &&& r.0->Err_0.detail@ == detail@
                }
            },
            TransportOutcome::Failed(error) => {
                &&& r.0 is Err
                &&& r.0->Err_0.url@ == url@
                &&& r.0->Err_0.kind == crate::error::classified_kind(
                    error.connect,
                    error.timeout,
                    error.status,
                )
                &&& r.0->Err_0.detail@ == error.detail@
            },
        },
{
    match outcome {
        TransportOutcome::Response { status, body, detail } => {
            if is_error_status(status) {
                FetchResult(
                    Err(FetchError { url: url.to_owned(), kind: FetchErrorKind::Status(status), detail }),
                )
            } else {
                FetchResult(Ok(HttpResponse { status, body: HttpResponseBody(body) }))
            }
        },
        TransportOutcome::Failed(error) => {
            FetchResult(Err(FetchError::from_transport_error(&error, url)))
        },
    }
}

} // verus!
