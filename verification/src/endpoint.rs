//! Where the programs listen and connect to, and how they name themselves.

use vstd::prelude::*;
use vstd::string::*;
use crate::decimal;
use crate::decimal::decimal;
use crate::message;
use crate::message::{post, InvalidTarget};
use crate::route;
use crate::route::{route_path, Route};
use crate::text::{join3, same_text};

verus! {

/// The transports that are compared.
#[derive(Clone, Copy, Debug, PartialEq, Eq, Structural)]
pub enum Protocol {
    Http3,
    Grpc,
    Http2,
}

/// The host to connect to: a wildcard address stands for this machine.
pub open spec fn reachable_host(host: Seq<char>) -> Seq<char> {
    if host == "0.0.0.0"@ {
        "127.0.0.1"@
    } else {
        host
    }
}

/// A host and a port, as a socket address is written.
pub open spec fn host_and_port(host: Seq<char>, port: u16) -> Seq<char> {
    host + ":"@ + decimal::digits(port as nat)
}

/// The URI that every request starts with.
pub open spec fn base_uri_of(host: Seq<char>, port: u16) -> Seq<char> {
    "https://"@ + host_and_port(host, port)
}

/// The URI of a handler.
pub open spec fn target_of(base_uri: Seq<char>, route: Route) -> Seq<char> {
    base_uri + route::path_of(route)
}

/// The name that the two sides of a handshake agree on.
pub open spec fn alpn_of(protocol: Protocol) -> Seq<u8> {
    match protocol {
        Protocol::Http3 => seq![0x68u8, 0x33u8],
        Protocol::Grpc => seq![0x68u8, 0x32u8],
        Protocol::Http2 => seq![0x68u8, 0x32u8],
    }
}

/// What a server says once it listens on a port.
pub open spec fn listening_text(protocol: Protocol, port: u16) -> Seq<char> {
    let address = host_and_port("0.0.0.0"@, port);
    match protocol {
        Protocol::Http3 => "HTTP/3 benchmark server listening on "@ + address,
        Protocol::Grpc => "gRPC benchmark server listening on "@ + address,
        Protocol::Http2 => "Listening on "@ + address,
    }
}

/// A request for a handler on a plain host is built, is a POST for that very
/// URI, and reaches that handler.
pub proof fn law_requests_reach_their_route(host: Seq<char>, port: u16, route: Route)
    requires
        message::is_plain_host(host),
        target_of(base_uri_of(reachable_host(host), port), route).len() <= message::max_uri_len(),
    ensures
        ({
            let uri = target_of(base_uri_of(reachable_host(host), port), route);
            &&& message::is_some_plain_uri(uri)
            &&& forall|request: http::Request<()>| #[trigger]
                message::keeps_plain_uri(uri, request) ==> {
                    &&& message::request_uri(request) == uri
                    &&& route::route_of(message::request_path(request)) == Some(route)
                }
        }),
{
    let to = reachable_host(host);
    let port_text = decimal::digits(port as nat);
    let path = route::path_of(route);
    let uri = target_of(base_uri_of(to, port), route);
    reveal_strlit("0.0.0.0");
    reveal_strlit("127.0.0.1");
    assert(message::is_plain_host(to));
    decimal::lemma_digits_are_digits(port as nat);
    lemma_paths_are_plain(route);
    assert(uri =~= message::https_uri(to, port_text, path));
    assert(message::is_plain_uri(to, port_text, path));
    route::law_each_route_has_one_path(path, route);
}

/// The paths of the handlers are plain.
pub proof fn lemma_paths_are_plain(route: Route)
    ensures
        message::is_plain_path(route::path_of(route)),
{
    reveal_strlit("/small");
    reveal_strlit("/large");
    reveal_strlit("/server-stream");
    reveal_strlit("/client-stream");
    reveal_strlit("/bidi");
}

/// The host to connect to when the user names `host`.
pub fn connect_host(host: String) -> (to: String)
    ensures
        to@ == reachable_host(host@),
{
    if same_text(host.as_str(), "0.0.0.0") {
        "127.0.0.1".to_owned()
    } else {
        host
    }
}

/// A host and a port, as a socket address is written.
pub fn socket_address(host: &str, port: u16) -> (address: String)
    ensures
        address@ == host_and_port(host@, port),
{
    join3(host, ":", decimal(port as u64).as_str())
}

/// The address that a server binds.
pub fn listen_address(port: u16) -> (address: String)
    ensures
        address@ == host_and_port("0.0.0.0"@, port),
{
    socket_address("0.0.0.0", port)
}

/// The URI that every request to a server starts with.
pub fn base_uri(host: &str, port: u16) -> (uri: String)
    ensures
        uri@ == base_uri_of(host@, port),
{
    let mut uri = "https://".to_owned();
    uri.append(socket_address(host, port).as_str());
    uri
}

/// The request for a handler, below the URI of a server.
pub fn request_for(base_uri: &str, route: Route) -> (built: Result<
    http::Request<()>,
    InvalidTarget,
>)
    ensures
        built is Ok <==> message::post_request(target_of(base_uri@, route)) is Some,
        built matches Ok(request) ==> {
            &&& message::post_request(target_of(base_uri@, route)) == Some(request)
            &&& message::request_method(request) == "POST"@
            &&& message::keeps_plain_uri(target_of(base_uri@, route), request)
        },
        message::is_some_plain_uri(target_of(base_uri@, route)) ==> built is Ok,
{
    let mut uri = base_uri.to_owned();
    uri.append(route_path(route));
    post(uri)
}

/// The name that the two sides of a handshake agree on.
pub fn alpn(protocol: Protocol) -> (name: Vec<u8>)
    ensures
        name@ == alpn_of(protocol),
{
    match protocol {
        Protocol::Http3 => vec![0x68u8, 0x33u8],
        Protocol::Grpc => vec![0x68u8, 0x32u8],
        Protocol::Http2 => vec![0x68u8, 0x32u8],
    }
}

/// What a server says once it listens on a port.
pub fn listening_line(protocol: Protocol, port: u16) -> (line: String)
    ensures
        line@ == listening_text(protocol, port),
{
    let mut line = match protocol {
        Protocol::Http3 => "HTTP/3 benchmark server listening on ".to_owned(),
        Protocol::Grpc => "gRPC benchmark server listening on ".to_owned(),
        Protocol::Http2 => "Listening on ".to_owned(),
    };
    line.append(listen_address(port).as_str());
    line
}

/// Every host but the wildcard is connected to as it was named, so that two
/// such hosts stay apart. The wildcard stands for this machine.
pub proof fn law_hosts_are_reached_as_named(host: Seq<char>, other: Seq<char>)
    ensures
        host != "0.0.0.0"@ ==> reachable_host(host) == host,
        host != "0.0.0.0"@ && other != "0.0.0.0"@ && reachable_host(host) == reachable_host(other)
            ==> host == other,
        reachable_host("0.0.0.0"@) == "127.0.0.1"@,
{
}

/// An address is the host, one colon, and the port in decimal. So the host is
/// read off it once the port is known, and the port once the host is known.
pub proof fn law_address_names_host_and_port(host: Seq<char>, port: u16, other: u16)
    ensures
        ({
            let address = host_and_port(host, port);
            let n = host.len() as int;
            &&& address.take(n) == host
            &&& address[n] == ':'
            &&& address.skip(n + 1) == decimal::digits(port as nat)
            &&& host_and_port(host, other) == address ==> other == port
        }),
{
    reveal_strlit(":");
    let address = host_and_port(host, port);
    let n = host.len() as int;
    assert(address.take(n) =~= host);
    assert(address.skip(n + 1) =~= decimal::digits(port as nat));
    let another = host_and_port(host, other);
    assert(another.skip(n + 1) =~= decimal::digits(other as nat));
    if another == address {
        decimal::law_numbers_are_written_apart(port as nat, other as nat);
    }
}

/// The target of a request names the host and the port that it is for: the
/// scheme, the host as the user named it, the port, and the path of the handler,
/// one behind the other.
pub proof fn law_target_names_host_port_and_path(host: Seq<char>, port: u16, route: Route)
    requires
        host != "0.0.0.0"@,
    ensures
        ({
            let uri = target_of(base_uri_of(reachable_host(host), port), route);
            let a = 8 + host.len() as int;
            let b = a + 1 + decimal::digits(port as nat).len();
            &&& uri.take(8) == "https://"@
            &&& uri.subrange(8, a) == host
            &&& uri[a] == ':'
            &&& uri.subrange(a + 1, b) == decimal::digits(port as nat)
            &&& uri.skip(b) == route::path_of(route)
        }),
{
    reveal_strlit("https://");
    reveal_strlit(":");
    let uri = target_of(base_uri_of(reachable_host(host), port), route);
    let a = 8 + host.len() as int;
    let b = a + 1 + decimal::digits(port as nat).len();
    assert(uri.take(8) =~= "https://"@);
    assert(uri.subrange(8, a) =~= host);
    assert(uri.subrange(a + 1, b) =~= decimal::digits(port as nat));
    assert(uri.skip(b) =~= route::path_of(route));
}

/// What a server says ends in the address that it listens on: every interface,
/// and the port that it was given.
pub proof fn law_listening_line_ends_in_the_address(protocol: Protocol, port: u16)
    ensures
        ({
            let line = listening_text(protocol, port);
            let said = match protocol {
                Protocol::Http3 => "HTTP/3 benchmark server listening on 0.0.0.0:"@,
                Protocol::Grpc => "gRPC benchmark server listening on 0.0.0.0:"@,
                Protocol::Http2 => "Listening on 0.0.0.0:"@,
            };
            &&& line.take(said.len() as int) == said
            &&& line.skip(said.len() as int) == decimal::digits(port as nat)
        }),
{
    reveal_strlit(":");
    reveal_strlit("0.0.0.0");
    reveal_strlit("HTTP/3 benchmark server listening on ");
    reveal_strlit("gRPC benchmark server listening on ");
    reveal_strlit("Listening on ");
    reveal_strlit("HTTP/3 benchmark server listening on 0.0.0.0:");
    reveal_strlit("gRPC benchmark server listening on 0.0.0.0:");
    reveal_strlit("Listening on 0.0.0.0:");
    let line = listening_text(protocol, port);
    let said = match protocol {
        Protocol::Http3 => "HTTP/3 benchmark server listening on 0.0.0.0:"@,
        Protocol::Grpc => "gRPC benchmark server listening on 0.0.0.0:"@,
        Protocol::Http2 => "Listening on 0.0.0.0:"@,
    };
    assert(line.take(said.len() as int) =~= said);
    assert(line.skip(said.len() as int) =~= decimal::digits(port as nat));
}

/// The URI of a handler is the URI of its server, with the path behind it.
pub proof fn law_target_extends_the_base(base_uri: Seq<char>, route: Route)
    ensures
        target_of(base_uri, route).take(base_uri.len() as int) == base_uri,
        target_of(base_uri, route).skip(base_uri.len() as int) == route::path_of(route),
{
    assert(target_of(base_uri, route).take(base_uri.len() as int) =~= base_uri);
    assert(target_of(base_uri, route).skip(base_uri.len() as int) =~= route::path_of(route));
}

} // verus!
