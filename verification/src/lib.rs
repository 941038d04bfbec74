//! A cached HTTP resource-fetch primitive for an incremental build pipeline:
//! the response and error model of a single GET round trip, the
//! classification of transport failures into a small closed taxonomy, and the
//! adapter that turns a classified failure into a reportable diagnostic.
//!
//! The network round trip itself is I/O and lives outside this library; the
//! library states and proves everything that can be decided from the plain
//! values the transport hands back.

pub mod error;
pub mod fetch;
pub mod issue;
pub mod request;
pub mod response;

pub use error::FetchError;
pub use error::FetchErrorKind;
pub use error::TransportError;
pub use fetch::FetchResult;
pub use fetch::TransportOutcome;
pub use issue::FetchIssue;
pub use issue::IssueSeverity;
pub use request::FetchRequest;
pub use response::HttpResponse;
pub use response::HttpResponseBody;
