//! The HTTP/2 server, which answers every request in the same words.

use vstd::prelude::*;
use vstd::string::*;
use vstd::utf8::*;
use bytes::Bytes;
use crate::buffer;
use crate::buffer::buffer_of_literal;
use crate::message;
use crate::message::{method_text, typed_response_head, uri_text};
use crate::text::join3;

verus! {

/// The answer to a request.
pub struct Answer {
    /// What the server logs.
    pub log: String,
    /// The head of the response.
    pub head: http::Response<()>,
    /// The body of the response.
    pub body: Bytes,
}

/// Answers a request: its method and target are logged, and a greeting is
/// sent as plain text with status 200, whatever was asked.
pub fn handle_request(request: &http::Request<()>) -> (answer: Answer)
    ensures
        answer.log@ == message::request_method(*request) + " "@ + message::request_uri(*request),
        message::response_status(answer.head) == 200,
        message::response_headers(answer.head) == message::one_header(
            "content-type"@,
            "text/plain"@,
        ),
        buffer::content(answer.body) == encode_utf8("Hello from HTTP/2!\n"@),
{
    let log = join3(method_text(request).as_str(), " ", uri_text(request).as_str());
    let head = greeting_head();
    let body = buffer_of_literal("Hello from HTTP/2!\n");
    Answer { log, head, body }
}

/// The head of the greeting.
fn greeting_head() -> (head: http::Response<()>)
    ensures
        message::response_status(head) == 200,
        message::response_headers(head) == message::one_header("content-type"@, "text/plain"@),
{
    proof {
        reveal_strlit("text/plain");
    }
    typed_response_head(200, "text/plain").unwrap()
}

} // verus!
