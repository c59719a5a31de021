//! The heads of HTTP messages: what a client asks for, and what a server answers with.

use vstd::prelude::*;
use crate::decimal;

verus! {

/// The head of a request, and its body.
#[verifier::external_type_specification]
#[verifier::external_body]
#[verifier::reject_recursive_types(T)]
pub struct ExRequest<T>(http::Request<T>);

/// The head of a response, and its body.
#[verifier::external_type_specification]
#[verifier::external_body]
#[verifier::reject_recursive_types(T)]
pub struct ExResponse<T>(http::Response<T>);

/// Why a message could not be built.
#[verifier::external_type_specification]
#[verifier::external_body]
pub struct ExHttpError(http::Error);

/// The request that `http::Request::post(uri).body(())` builds; `None` where it fails.
pub uninterp spec fn post_request(uri: Seq<char>) -> Option<http::Request<()>>;

/// The method of a request, as `http::Method` is written.
pub uninterp spec fn request_method(request: http::Request<()>) -> Seq<char>;

/// The target of a request, as `http::Uri` is written.
pub uninterp spec fn request_uri(request: http::Request<()>) -> Seq<char>;

/// The path of a request's target, as `http::Uri::path` gives it.
pub uninterp spec fn request_path(request: http::Request<()>) -> Seq<char>;

/// The status code of a response.
pub uninterp spec fn response_status(response: http::Response<()>) -> u16;

/// The header fields of a response: each name with its value.
pub uninterp spec fn response_headers(response: http::Response<()>) -> Map<Seq<char>, Seq<char>>;

/// A character of a host name or of an IPv4 address.
pub open spec fn is_host_char(c: char) -> bool {
    '0' <= c <= '9' || 'a' <= c <= 'z' || 'A' <= c <= 'Z' || c == '.' || c == '-'
}

/// A host name or an IPv4 address, as far as its characters tell.
pub open spec fn is_plain_host(host: Seq<char>) -> bool {
    &&& host.len() > 0
    &&& forall|i: int| 0 <= i < host.len() ==> is_host_char(#[trigger] host[i])
}

/// A path of lower-case letters, hyphens and slashes.
pub open spec fn is_plain_path(path: Seq<char>) -> bool {
    &&& path.len() > 0
    &&& path[0] == '/'
    &&& forall|i: int|
        0 <= i < path.len() ==> 'a' <= #[trigger] path[i] <= 'z' || path[i] == '-' || path[i] == '/'
}

/// The longest text that is taken for a URI.
pub open spec fn max_uri_len() -> nat {
    65534
}

/// The URI of a path on a host and port, over HTTPS.
pub open spec fn https_uri(host: Seq<char>, port: Seq<char>, path: Seq<char>) -> Seq<char> {
    "https://"@ + host + ":"@ + port + path
}

/// Whether a URI names a plain host, a decimal port and a plain path, and is not too long.
pub open spec fn is_plain_uri(host: Seq<char>, port: Seq<char>, path: Seq<char>) -> bool {
    &&& is_plain_host(host)
    &&& port.len() > 0 && decimal::all_digits(port)
    &&& is_plain_path(path)
    &&& https_uri(host, port, path).len() <= max_uri_len()
}

/// Whether a text is a plain URI.
pub open spec fn is_some_plain_uri(uri: Seq<char>) -> bool {
    exists|host: Seq<char>, port: Seq<char>, path: Seq<char>|
        #![trigger https_uri(host, port, path)]
        uri == https_uri(host, port, path) && is_plain_uri(host, port, path)
}

/// A request for a plain URI has that URI, and the path of that URI.
pub open spec fn keeps_plain_uri(uri: Seq<char>, request: http::Request<()>) -> bool {
    forall|host: Seq<char>, port: Seq<char>, path: Seq<char>|
        #![trigger https_uri(host, port, path)]
        uri == https_uri(host, port, path) && is_plain_uri(host, port, path) ==> {
            &&& request_uri(request) == uri
            &&& request_path(request) == path
        }
}

/// No header field.
pub open spec fn no_header() -> Map<Seq<char>, Seq<char>> {
    Map::empty()
}

/// A single header field.
pub open spec fn one_header(name: Seq<char>, value: Seq<char>) -> Map<Seq<char>, Seq<char>> {
    Map::empty().insert(name, value)
}

/// A request could not be built: its target is not a URI.
pub struct InvalidTarget {
    /// What the message library says about it.
    pub cause: http::Error,
}

/// `http::Request::post(uri).body(())`: a POST request without a body, or an
/// error, as [`post_request`] names them. The URI of a plain host, a decimal
/// port and a plain path is always taken, is written as it was given, and has
/// that path. Which other texts are URIs is left open here.
#[verifier::external_body]
fn build_post(uri: String) -> (built: Result<http::Request<()>, http::Error>)
    ensures
        match built {
            Ok(request) => post_request(uri@) == Some(request),
            Err(_) => post_request(uri@) is None,
        },
        built matches Ok(request) ==> request_method(request) == "POST"@,
        built is Err ==> !is_some_plain_uri(uri@),
        built matches Ok(request) ==> keeps_plain_uri(uri@, request),
{
    http::Request::post(uri).body(())
}

/// `Request::method`, written out.
#[verifier::external_body]
fn written_method(request: &http::Request<()>) -> (text: String)
    ensures
        text@ == request_method(*request),
{
    request.method().to_string()
}

/// `Request::uri`, written out.
#[verifier::external_body]
fn written_uri(request: &http::Request<()>) -> (text: String)
    ensures
        text@ == request_uri(*request),
{
    request.uri().to_string()
}

/// `Request::uri` and `Uri::path`.
#[verifier::external_body]
fn written_path(request: &http::Request<()>) -> (text: String)
    ensures
        text@ == request_path(*request),
{
    request.uri().path().to_string()
}

/// `http::Response::builder().status(status).body(())`: a response with that
/// status and no header field, or an error for a status that has not three digits.
#[verifier::external_body]
fn build_response(status: u16) -> (built: Result<http::Response<()>, http::Error>)
    ensures
        built is Ok <==> 100 <= status <= 999,
        built matches Ok(response) ==> response_status(response) == status,
        built matches Ok(response) ==> response_headers(response) == no_header(),
{
    http::Response::builder().status(status).body(())
}

/// `http::Response::builder().status(status).header(name, value).body(())`: a
/// response with that status and that one header field. A name of lower-case
/// letters and hyphens and a value of visible characters are always taken.
#[verifier::external_body]
fn build_response_with_header(status: u16, name: &str, value: &str) -> (built: Result<
    http::Response<()>,
    http::Error,
>)
    requires
        1 <= name@.len() <= 64,
        forall|i: int|
            0 <= i < name@.len() ==> 'a' <= #[trigger] name@[i] <= 'z' || name@[i] == '-',
        forall|i: int| 0 <= i < value@.len() ==> ' ' <= #[trigger] value@[i] <= '~',
    ensures
        built is Ok <==> 100 <= status <= 999,
        built matches Ok(response) ==> response_status(response) == status,
        built matches Ok(response) ==> response_headers(response) == one_header(name@, value@),
{
    http::Response::builder().status(status).header(name, value).body(())
}

/// A POST request for a URI.
pub fn post(uri: String) -> (built: Result<http::Request<()>, InvalidTarget>)
    ensures
        built is Ok <==> post_request(uri@) is Some,
        built matches Ok(request) ==> {
            &&& post_request(uri@) == Some(request)
            &&& request_method(request) == "POST"@
        },
        is_some_plain_uri(uri@) ==> built is Ok,
        built matches Ok(request) ==> keeps_plain_uri(uri@, request),
{
    match build_post(uri) {
        Ok(request) => Ok(request),
        Err(cause) => Err(InvalidTarget { cause }),
    }
}

/// The method of a request, for a log.
pub fn method_text(request: &http::Request<()>) -> (text: String)
    ensures
        text@ == request_method(*request),
{
    written_method(request)
}

/// The target of a request, for a log.
pub fn uri_text(request: &http::Request<()>) -> (text: String)
    ensures
        text@ == request_uri(*request),
{
    written_uri(request)
}

/// The path that a request asks for.
pub fn path_text(request: &http::Request<()>) -> (text: String)
    ensures
        text@ == request_path(*request),
{
    written_path(request)
}

/// A response head with a status and nothing else. `None` when the status has
/// not three digits.
pub fn response_head(status: u16) -> (head: Option<http::Response<()>>)
    ensures
        head is Some <==> 100 <= status <= 999,
        head matches Some(response) ==> {
            &&& response_status(response) == status
            &&& response_headers(response) == no_header()
        },
{
    match build_response(status) {
        Ok(response) => Some(response),
        Err(_) => None,
    }
}

/// A response head with a status and a `content-type`.
pub fn typed_response_head(status: u16, content_type: &str) -> (head: Option<http::Response<()>>)
    requires
        forall|i: int|
            0 <= i < content_type@.len() ==> ' ' <= #[trigger] content_type@[i] <= '~',
    ensures
        head is Some <==> 100 <= status <= 999,
        head matches Some(response) ==> {
            &&& response_status(response) == status
            &&& response_headers(response) == one_header("content-type"@, content_type@)
        },
{
    proof {
        reveal_strlit("content-type");
    }
    match build_response_with_header(status, "content-type", content_type) {
        Ok(response) => Some(response),
        Err(_) => None,
    }
}

/// A head without fields has none, and a head with one field has that one, with
/// its value, and no other.
pub proof fn law_heads_hold_their_fields(name: Seq<char>, value: Seq<char>, other: Seq<char>)
    ensures
        !no_header().contains_key(other),
        one_header(name, value).contains_key(other) <==> other == name,
        one_header(name, value)[name] == value,
{
}

} // verus!
