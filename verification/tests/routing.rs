use protobench::endpoint::{
    alpn, base_uri, connect_host, listen_address, listening_line, request_for, socket_address,
    Protocol,
};
use protobench::http2_server::handle_request;
use protobench::http3_server::{
    connection_error_line, handle_connection, request_error_line, ConnectionAction, ConnectionEvent,
    ServerAction,
};
use protobench::message::{
    method_text, path_text, post, response_head, typed_response_head, uri_text,
};
use protobench::route::{find_route, route_path, Route};
use protobench::tls::{SignatureScheme, SkipVerification};

const ROUTES: [Route; 5] = [
    Route::Small,
    Route::Large,
    Route::ServerStream,
    Route::ClientStream,
    Route::Bidi,
];

#[test]
fn each_route_is_found_by_its_path_only() {
    for route in ROUTES {
        assert_eq!(find_route(route_path(route)), Some(route));
    }
    for path in ["", "/", "/Small", "/small/", "small", "/bidi?x"] {
        assert_eq!(find_route(path), None);
    }
}

#[test]
fn wildcard_host_becomes_loopback() {
    assert_eq!(connect_host("0.0.0.0".to_string()), "127.0.0.1");
    assert_eq!(connect_host("localhost".to_string()), "localhost");
    assert_eq!(socket_address("127.0.0.1", 4433), "127.0.0.1:4433");
    assert_eq!(listen_address(8443), "0.0.0.0:8443");
    assert_eq!(base_uri("127.0.0.1", 4433), "https://127.0.0.1:4433");
}

#[test]
fn requests_reach_their_route() {
    for host in ["127.0.0.1", "localhost", "bench-1.example.ORG"] {
        for route in ROUTES {
            let base = base_uri(host, 4433);
            let request = request_for(&base, route).ok().unwrap();
            assert_eq!(request.method(), http::Method::POST);
            assert_eq!(uri_text(&request), format!("{}{}", base, route_path(route)));
            assert_eq!(method_text(&request), "POST");
            assert_eq!(path_text(&request), route_path(route));
            assert_eq!(find_route(&path_text(&request)), Some(route));
        }
    }
}

#[test]
fn target_that_is_no_uri_is_refused() {
    assert!(post("https://a b/small".to_string()).is_err());
    assert!(request_for("https://[:4433", Route::Small).is_err());
    assert!(post(String::new()).is_err());
}

#[test]
fn longest_plain_uri_is_taken_and_a_longer_one_refused() {
    let fixed = "https://:1/small".len();
    let host = "a".repeat(65534 - fixed);
    assert!(post(format!("https://{}:1/small", host)).is_ok());
    assert!(post(format!("https://{}a:1/small", host)).is_err());
}

#[test]
fn response_heads_have_three_digit_statuses() {
    for status in [0u16, 99, 1000, u16::MAX] {
        assert!(response_head(status).is_none());
        assert!(typed_response_head(status, "text/plain").is_none());
    }
    for status in [100u16, 200, 404, 999] {
        let head = response_head(status).unwrap();
        assert_eq!(head.status().as_u16(), status);
        assert!(head.headers().is_empty());
    }
    let head = typed_response_head(200, "text/plain").unwrap();
    assert_eq!(head.headers().len(), 1);
    assert_eq!(head.headers()["content-type"], "text/plain");
}

#[test]
fn connections_serve_requests_until_they_close() {
    let request = post("https://localhost:4433/large".to_string()).ok().unwrap();
    match handle_connection(ConnectionEvent::Accepted(request)) {
        ConnectionAction::Serve { path, responder } => {
            assert_eq!(path, "/large");
            assert!(matches!(responder.action(), ServerAction::Receive));
        }
        ConnectionAction::Stop => panic!("the request is not served"),
    }
    let request = post("https://localhost:4433/nowhere".to_string()).ok().unwrap();
    match handle_connection(ConnectionEvent::Accepted(request)) {
        ConnectionAction::Serve { path, responder } => {
            assert_eq!(path, "/nowhere");
            match responder.action() {
                ServerAction::Respond(head) => assert_eq!(head.status().as_u16(), 404),
                _ => panic!("no answer"),
            }
        }
        ConnectionAction::Stop => panic!("the request is not served"),
    }
    assert!(matches!(
        handle_connection(ConnectionEvent::Closed),
        ConnectionAction::Stop
    ));
}

#[test]
fn errors_are_worded() {
    assert_eq!(request_error_line("/small", "reset"), "Request error on /small: reset");
    assert_eq!(connection_error_line("reset"), "Connection error: reset");
}

#[test]
fn http2_server_greets_whatever_is_asked() {
    let get = http::Request::get("https://localhost:8443/a/b?c=d").body(()).unwrap();
    let answer = handle_request(&get);
    assert_eq!(answer.log, "GET https://localhost:8443/a/b?c=d");
    assert_eq!(answer.head.status().as_u16(), 200);
    assert_eq!(answer.head.headers()["content-type"], "text/plain");
    assert_eq!(&answer.body[..], b"Hello from HTTP/2!\n");
    let post = http::Request::post("/").body(()).unwrap();
    let answer = handle_request(&post);
    assert_eq!(answer.log, "POST /");
    assert_eq!(&answer.body[..], b"Hello from HTTP/2!\n");
}

#[test]
fn servers_say_where_they_listen() {
    assert_eq!(
        listening_line(Protocol::Http3, 4433),
        "HTTP/3 benchmark server listening on 0.0.0.0:4433"
    );
    assert_eq!(
        listening_line(Protocol::Grpc, 50051),
        "gRPC benchmark server listening on 0.0.0.0:50051"
    );
    assert_eq!(listening_line(Protocol::Http2, 8443), "Listening on 0.0.0.0:8443");
    assert_eq!(alpn(Protocol::Http3), b"h3".to_vec());
    assert_eq!(alpn(Protocol::Grpc), b"h2".to_vec());
    assert_eq!(alpn(Protocol::Http2), b"h2".to_vec());
}

#[test]
fn clients_offer_three_schemes() {
    assert_eq!(
        SkipVerification.supported_verify_schemes(),
        vec![
            SignatureScheme::RsaPkcs1Sha256,
            SignatureScheme::EcdsaNistp256Sha256,
            SignatureScheme::Ed25519,
        ]
    );
}
