use vstd::prelude::*;
use vstd::string::*;
use crate::payload::{object_fields, JsonView};
use crate::text::{slice_equals, to_chars};

verus! {

/// The HTTP methods that the service is called with.
#[derive(Clone, Copy, Debug, PartialEq, Eq, Structural)]
pub enum Method {
    Get,
    Post,
    Put,
    Delete,
}

/// One call, ready to be sent: where to, with which headers, carrying what.
pub struct Request {
    pub method: Method,
    /// The absolute URL, query string included.
    pub url: String,
    /// The value of the `Authorization` header.
    pub authorization: String,
    /// The value of the `Content-Type` header.
    pub content_type: String,
    /// The JSON object to send as the body; empty where the call carries nothing.
    pub payload: serde_json::Map<String, serde_json::Value>,
}

/// A request as contracts see it.
pub struct RequestView {
    pub method: Method,
    pub url: Seq<char>,
    pub authorization: Seq<char>,
    pub content_type: Seq<char>,
    pub payload: Map<Seq<char>, JsonView>,
}

impl View for Request {
    type V = RequestView;

    open spec fn view(&self) -> RequestView {
        RequestView {
            method: self.method,
            url: self.url@,
            authorization: self.authorization@,
            content_type: self.content_type@,
            payload: object_fields(self.payload),
        }
    }
}

/// Why a call gave no body.
#[derive(Debug)]
pub enum DispatchError {
    /// The request never got an answer: the connection failed, timed out, or
    /// the body could not be read. Made by whoever sends the request.
    Transport { detail: String },
    /// The service answered with a status outside 200..=299.
    Rejected { status: u16, body: String },
}

/// Whether `status` is in the range that counts as success.
pub open spec fn is_success(status: u16) -> bool {
    200 <= status <= 299
}

/// Classifies an answer: a status in 200..=299 yields the body as it came,
/// any other status yields a rejection that carries that status and body.
pub fn call_outcome(status: u16, body: String) -> (outcome: Result<String, DispatchError>)
    ensures
        is_success(status) ==> outcome == Ok::<String, DispatchError>(body),
        !is_success(status) ==> outcome == Err::<String, DispatchError>(
            (DispatchError::Rejected { status, body }),
        ),
{
    if 200 <= status && status <= 299 {
        Ok(body)
    } else {
        Err(DispatchError::Rejected { status, body })
    }
}

/// The text that a read operation decodes: the body of a call that
/// succeeded, the empty text after one that failed.
pub fn text_to_decode(outcome: Result<String, DispatchError>) -> (text: String)
    ensures
        match outcome {
            Ok(body) => text == body,
            Err(_) => text@ == Seq::<char>::empty(),
        },
{
    match outcome {
        Ok(body) => body,
        Err(_) => String::new(),
    }
}

/// Whether `url` names its own scheme, and so is taken as it stands.
pub open spec fn is_absolute(url: Seq<char>) -> bool {
    url.len() >= 4 && url.take(4) == seq!['h', 't', 't', 'p']
}

/// `url` as an absolute URL: itself where it is one, else below `prefix`.
pub open spec fn absolute_url(prefix: Seq<char>, url: Seq<char>) -> Seq<char> {
    if is_absolute(url) {
        url
    } else {
        prefix + url
    }
}

/// Makes `url` absolute: a relative one is put below `prefix`.
pub fn resolve_url(prefix: &str, url: &str) -> (full: String)
    ensures
        full@ == absolute_url(prefix@, url@),
{
    let chars = to_chars(url);
    let scheme = to_chars("http");
    proof {
        reveal_strlit("http");
        assert("http"@ =~= seq!['h', 't', 't', 'p']);
    }
    if chars.len() >= 4 && slice_equals(&chars, 0, 4, &scheme) {
        assert(chars@.subrange(0, 4) =~= chars@.take(4));
        String::from_str(url)
    } else {
        assert(chars.len() >= 4 ==> chars@.subrange(0, 4) =~= chars@.take(4));
        let mut full = String::from_str(prefix);
        full.append(url);
        full
    }
}

} // verus!
