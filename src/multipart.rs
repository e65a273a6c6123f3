//! Encoding of a user utterance as the service's multipart form request.
use vstd::prelude::*;
use vstd::string::StringSliceAdditionalSpecFns;

verus! {

/// The address every query is posted to.
pub const ENDPOINT: &'static str = "https://www.askthecaterpillar.com/query";

/// The content type header, declaring the fixed boundary token.
pub const CONTENT_TYPE: &'static str = "multipart/form-data; boundary=atc";

/// The accept header sent with every query.
pub const ACCEPT: &'static str = "*/*";

/// Everything of the body that precedes the user's text.
pub const BODY_HEAD: &'static str = "--atc\r\nContent-Disposition: form-data; name=\"query\"\r\n\r\n";

/// Everything of the body that follows the user's text.
pub const BODY_TAIL: &'static str = "\r\n--atc--\r\n\r\n";

/// The form body that carries `text` as its single field `query`.
pub open spec fn body_of(text: Seq<char>) -> Seq<char> {
    BODY_HEAD@ + text + BODY_TAIL@
}

/// Builds the request body for one user utterance.
pub fn query_body(text: &str) -> (r: String)
    ensures
        r@ == body_of(text@),
{
    let mut body = String::from_str(BODY_HEAD);
    body.append(text);
    body.append(BODY_TAIL);
    body
}

/// The value of the content length header: the body's size in bytes.
pub fn content_length(body: &str) -> (r: u64)
    ensures
        r == body.spec_bytes().len(),
{
    let n: usize = body.as_bytes().len();
    n as u64
}

} // verus!
