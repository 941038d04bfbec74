//! The payload of a successful round trip: a status code and an owned byte
//! buffer, with a lossy decode-to-text accessor that never fails.

use vstd::prelude::*;
use vstd::utf8::decode_utf8;
use vstd::utf8::valid_utf8;

verus! {

/// What `String::from_utf8_lossy` decodes a given byte sequence to. The
/// result depends on the bytes alone.
pub uninterp spec fn lossy_decode(bytes: Seq<u8>) -> Seq<char>;

/// An owned byte buffer holding a fetched payload.
#[derive(Debug)]
pub struct HttpResponseBody(pub Vec<u8>);

impl View for HttpResponseBody {
    type V = Seq<u8>;

    open spec fn view(&self) -> Seq<u8> {
        self.0@
    }
}

/// Relies on `String::from_utf8_lossy`: a total decode that keeps valid
/// UTF-8 unchanged and substitutes a replacement character for invalid
/// sequences.
#[verifier::external_body]
fn from_utf8_lossy_owned(bytes: &Vec<u8>) -> (r: String)
    ensures
        r@ == lossy_decode(bytes@),
        bytes@.len() == 0 ==> r@.len() == 0,
        valid_utf8(bytes@) ==> r@ == decode_utf8(bytes@),
{
    String::from_utf8_lossy(bytes).into_owned()
}

impl HttpResponseBody {
    /// Decodes the buffer as text. Never fails: a valid UTF-8 buffer decodes
    /// to exactly its characters, and invalid sequences are replaced rather
    /// than rejected.
    pub fn to_string(&self) -> (r: String)
        ensures
            r@ == lossy_decode(self@),
            self@.len() == 0 ==> r@.len() == 0,
            valid_utf8(self@) ==> r@ == decode_utf8(self@),
    {
        from_utf8_lossy_owned(&self.0)
    }
}

/// A status code and the payload of one successful round trip.
#[derive(Debug)]
pub struct HttpResponse {
    pub status: u16,
    pub body: HttpResponseBody,
}

} // verus!
