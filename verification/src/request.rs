//! What one GET round trip sends: the URL and the headers. The fetch sends
//! no custom header besides `User-Agent`, and that one only when a user
//! agent was supplied.

use vstd::prelude::*;

verus! {

/// The request of one GET round trip, ready for a transport to send: the
/// URL, and every header to attach.
#[derive(Debug)]
pub struct FetchRequest {
    pub url: String,
    pub headers: Vec<(String, String)>,
}

/// Builds the request for a fetch. With a user agent the headers hold
/// exactly one entry, `User-Agent` with the supplied value; without one the
/// headers are empty, so no `User-Agent` header is sent at all.
pub fn prepare_request(url: String, user_agent: Option<String>) -> (r: FetchRequest)
    ensures
        r.url@ == url@,
        user_agent is None ==> r.headers@.len() == 0,
        user_agent matches Some(ua) ==> {
            &&& r.headers@.len() == 1
            &&& r.headers@[0].0@ == "User-Agent"@
            &&& r.headers@[0].1 == ua
        },
{
    let mut headers: Vec<(String, String)> = Vec::new();
    match user_agent {
        Some(ua) => {
            headers.push(("User-Agent".to_owned(), ua));
        },
        None => {},
    }
    FetchRequest { url, headers }
}

} // verus!
