//! The closed taxonomy of fetch failures and the classification of a
//! transport-level failure into it.

use vstd::prelude::*;

verus! {

/// Why a fetch failed.
#[derive(Clone, Copy, Debug, PartialEq, Eq, Structural)]
pub enum FetchErrorKind {
    /// The failure occurred before any connection was established.
    Connect,
    /// The failure was a timeout.
    Timeout,
    /// The server answered with this error HTTP status.
    Status(u16),
    /// Anything else.
    Other,
}

/// What the transport reported about a failed round trip, as plain values:
/// whether the failure came before any connection was established, whether it
/// was a timeout, an HTTP status carried by the error if any, and the
/// transport's own textual description.
#[derive(Debug)]
pub struct TransportError {
    pub connect: bool,
    pub timeout: bool,
    pub status: Option<u16>,
    pub detail: String,
}

/// The classification priority: a pre-connection failure first, then a
/// timeout, then a carried HTTP status, and anything else last.
pub open spec fn classified_kind(connect: bool, timeout: bool, status: Option<u16>) -> FetchErrorKind {
    if connect {
        FetchErrorKind::Connect
    } else if timeout {
        FetchErrorKind::Timeout
    } else if status is Some {
        FetchErrorKind::Status(status->0)
    } else {
        FetchErrorKind::Other
    }
}

/// The record of one failed fetch attempt: the request URL, the classified
/// kind, and the transport's own textual description.
#[derive(Debug)]
pub struct FetchError {
    pub url: String,
    pub kind: FetchErrorKind,
    pub detail: String,
}

impl FetchError {
    /// Classifies a transport failure. A pre-connection failure is always
    /// `Connect`, a timeout that reached a connection is always `Timeout`, a
    /// carried status is `Status` of exactly that code, and only a failure
    /// with none of those marks is `Other`. The URL and the transport's
    /// description are kept as given.
    pub fn from_transport_error(error: &TransportError, url: &str) -> (r: FetchError)
        ensures
            r.url@ == url@,
            r.detail@ == error.detail@,
            r.kind == classified_kind(error.connect, error.timeout, error.status),
            error.connect ==> r.kind == FetchErrorKind::Connect,
            !error.connect && error.timeout ==> r.kind == FetchErrorKind::Timeout,
            !error.connect && !error.timeout && error.status is Some
                ==> r.kind == FetchErrorKind::Status(error.status->0),
            !error.connect && !error.timeout && error.status is None
                ==> r.kind == FetchErrorKind::Other,
    {
        let kind = if error.connect {
            FetchErrorKind::Connect
        } else if error.timeout {
            FetchErrorKind::Timeout
        } else if let Some(status) = error.status {
            FetchErrorKind::Status(status)
        } else {
            FetchErrorKind::Other
        };

        FetchError { url: url.to_owned(), kind, detail: error.detail.clone() }
    }
}

} // verus!
