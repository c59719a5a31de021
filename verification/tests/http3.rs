use bytes::Bytes;
use protobench::http3_client::{start_test, ClientAction, ClientEvent, Exchange};
use protobench::http3_server::{
    handle_bidi, handle_client_stream, handle_connection, handle_large, handle_server_stream, handle_small,
    route_request, ConnectionAction, ConnectionEvent, Responder, ServerAction, ServerEvent,
};
use protobench::report::{progress_len, suite, Outcome, TestKind};
use protobench::tally::Tally;

/// What a responder answers to a body that comes in some chunks: the status,
/// the chunks, and how many chunks of the body it had read when it sent each.
fn answer(mut responder: Responder, chunks: &[&[u8]]) -> (u16, Vec<(usize, Vec<u8>)>) {
    let mut status = 0;
    let mut sent = Vec::new();
    let mut read = 0;
    loop {
        let event = match responder.action() {
            ServerAction::Receive => {
                if read < chunks.len() {
                    read += 1;
                    ServerEvent::Received(Bytes::copy_from_slice(chunks[read - 1]))
                } else {
                    ServerEvent::BodyEnded
                }
            }
            ServerAction::Respond(head) => {
                assert_eq!(status, 0);
                assert!(head.headers().is_empty());
                status = head.status().as_u16();
                ServerEvent::Responded
            }
            ServerAction::Send(chunk) => {
                sent.push((read, chunk.to_vec()));
                ServerEvent::Sent
            }
            ServerAction::Finish => ServerEvent::Finished,
            ServerAction::Done => return (status, sent),
        };
        assert!(responder.accepts(&event));
        responder.step(event);
    }
}

#[test]
fn small_bodies_are_echoed() {
    assert_eq!(answer(handle_small(), &[b"ab", b"", b"cd"]), (200, vec![(3, b"abcd".to_vec())]));
    assert_eq!(answer(handle_small(), &[]), (200, vec![(0, Vec::new())]));
}

#[test]
fn large_bodies_are_answered_in_size() {
    assert_eq!(answer(handle_large(), &[b"ab", b"cde"]), (200, vec![(2, vec![0xAB; 5])]));
    assert_eq!(answer(handle_large(), &[]), (200, vec![(0, Vec::new())]));
}

#[test]
fn server_stream_sends_what_is_asked() {
    let (status, sent) = answer(handle_server_stream(), &[b"3", b":", b"2"]);
    assert_eq!(status, 200);
    assert_eq!(sent, vec![(3, vec![0xAB; 2]), (3, vec![0xAB; 2]), (3, vec![0xAB; 2])]);
    assert_eq!(answer(handle_server_stream(), &[b"0:5"]), (200, vec![]));
    let (_, sent) = answer(handle_server_stream(), &[]);
    assert_eq!(sent.len(), 100);
    assert!(sent.iter().all(|(_, chunk)| *chunk == vec![0xAB; 10_240]));
}

#[test]
fn stream_of_impossible_chunks_is_not_accepted() {
    let mut responder = handle_server_stream();
    let text = format!("1:{}", usize::MAX);
    responder.step(ServerEvent::Received(Bytes::from(text)));
    responder.step(ServerEvent::BodyEnded);
    assert!(!responder.accepts(&ServerEvent::Responded));
}

#[test]
fn client_stream_reports_what_came() {
    assert_eq!(
        answer(handle_client_stream(), &[b"ab", b"cde", b""]),
        (200, vec![(3, b"5:3".to_vec())])
    );
    assert_eq!(answer(handle_client_stream(), &[]), (200, vec![(0, b"0:0".to_vec())]));
}

#[test]
fn bidi_echoes_chunk_by_chunk() {
    assert_eq!(
        answer(handle_bidi(), &[b"ab", b"", b"cde"]),
        (200, vec![(1, b"ab".to_vec()), (3, b"cde".to_vec())])
    );
    assert!(matches!(handle_bidi().action(), ServerAction::Respond(_)));
}

#[test]
fn unknown_paths_are_not_found() {
    assert_eq!(
        answer(route_request("/nowhere"), &[b"never read"]),
        (404, vec![(0, b"Not Found\n".to_vec())])
    );
    assert_eq!(answer(route_request("/small"), &[b"x"]), (200, vec![(1, b"x".to_vec())]));
    assert_eq!(answer(route_request("/large"), &[b"x"]), (200, vec![(1, vec![0xAB])]));
    assert_eq!(answer(route_request("/bidi"), &[b"x"]), (200, vec![(1, b"x".to_vec())]));
    assert_eq!(
        answer(route_request("/client-stream"), &[b"x"]),
        (200, vec![(1, b"1:1".to_vec())])
    );
    assert_eq!(
        answer(route_request("/server-stream"), &[b"1:1"]),
        (200, vec![(1, vec![0xAB])])
    );
}

#[test]
fn responders_take_only_what_they_asked_for() {
    let responder = handle_small();
    assert!(responder.accepts(&ServerEvent::BodyEnded));
    assert!(!responder.accepts(&ServerEvent::Responded));
    assert!(!responder.accepts(&ServerEvent::Sent));
    assert!(!responder.accepts(&ServerEvent::Finished));
    assert!(!handle_bidi().accepts(&ServerEvent::Received(Bytes::new())));
}

/// Runs a test against the server, cutting what the server sends into chunks
/// of at most `cut` bytes. Gives the test when it is over, and the requests made.
fn run(kind: TestKind, cut: usize) -> (Exchange, usize) {
    let mut test = start_test(kind, "https://127.0.0.1:4433");
    let mut requests = 0;
    let mut path = String::new();
    let mut sent: Vec<Vec<u8>> = Vec::new();
    let mut back: Vec<Bytes> = Vec::new();
    loop {
        let event = match test.action().ok().unwrap() {
            ClientAction::Open(request) => {
                assert_eq!(request.method(), http::Method::POST);
                path = request.uri().path().to_string();
                sent.clear();
                requests += 1;
                ClientEvent::Opened
            }
            ClientAction::Send(chunk) => {
                sent.push(chunk.to_vec());
                ClientEvent::Sent
            }
            ClientAction::Finish => {
                let chunks: Vec<&[u8]> = sent.iter().map(|c| c.as_slice()).collect();
                let (status, chunks) = answer(route_request(&path), &chunks);
                assert_eq!(status, 200);
                back.clear();
                for (_, chunk) in chunks {
                    for piece in chunk.chunks(cut) {
                        back.push(Bytes::copy_from_slice(piece));
                    }
                }
                back.reverse();
                ClientEvent::Finished
            }
            ClientAction::AwaitHead => ClientEvent::HeadCame,
            ClientAction::Receive => match back.pop() {
                Some(chunk) => ClientEvent::Received(chunk),
                None => ClientEvent::BodyEnded,
            },
            ClientAction::Done => return (test, requests),
        };
        assert!(test.outcome().is_none());
        assert!(test.accepts(&event));
        test.step(event);
    }
}

#[test]
fn small_payload_comes_back() {
    for cut in [7, 1 << 20] {
        let (test, requests) = run(TestKind::SmallPayload, cut);
        assert_eq!(requests, 1);
        assert!(matches!(test.outcome(), Some(Outcome::SmallPayload { received: 20 })));
        assert_eq!(test.progress(), 0);
    }
}

#[test]
fn large_payload_is_matched() {
    let (test, _) = run(TestKind::LargePayload, 1000);
    assert!(matches!(test.outcome(), Some(Outcome::LargePayload { received: 1_048_576 })));
}

#[test]
fn server_stream_is_what_was_asked() {
    let (test, _) = run(TestKind::ServerStream, 1 << 20);
    match test.outcome() {
        Some(Outcome::ServerStream { counted }) => {
            assert_eq!(counted, Tally { chunks: 100, bytes: 1_024_000 })
        }
        _ => panic!("no outcome"),
    }
    assert_eq!(Some(test.progress()), progress_len(TestKind::ServerStream));
    let (test, _) = run(TestKind::ServerStream, 5120);
    match test.outcome() {
        Some(Outcome::ServerStream { counted }) => {
            assert_eq!(counted, Tally { chunks: 200, bytes: 1_024_000 })
        }
        _ => panic!("no outcome"),
    }
}

#[test]
fn client_stream_is_reported() {
    let (test, _) = run(TestKind::ClientStream, 2);
    match test.outcome() {
        Some(Outcome::ClientStream { reply }) => assert_eq!(reply, "1024000:100"),
        _ => panic!("no outcome"),
    }
    assert_eq!(Some(test.progress()), progress_len(TestKind::ClientStream));
}

#[test]
fn bidi_stream_comes_back() {
    let (test, _) = run(TestKind::BidiStream, 1 << 20);
    match test.outcome() {
        Some(Outcome::BidiStream { counted }) => {
            assert_eq!(counted, Tally { chunks: 50, bytes: 512_000 })
        }
        _ => panic!("no outcome"),
    }
    assert_eq!(Some(test.progress()), progress_len(TestKind::BidiStream));
}

#[test]
fn many_requests_are_made() {
    let (test, requests) = run(TestKind::ManyRequests, 1 << 20);
    assert_eq!(requests, 1000);
    assert!(matches!(test.outcome(), Some(Outcome::ManyRequests)));
    assert_eq!(Some(test.progress()), progress_len(TestKind::ManyRequests));
}

#[test]
fn exchanges_with_a_bad_host_cannot_open() {
    for kind in suite() {
        let test = start_test(kind, "https://no host:4433");
        assert!(test.action().is_err());
    }
}

#[test]
fn exchanges_take_only_what_they_asked_for() {
    let test = start_test(TestKind::SmallPayload, "https://localhost:4433");
    assert!(test.accepts(&ClientEvent::Opened));
    assert!(!test.accepts(&ClientEvent::Sent));
    assert!(!test.accepts(&ClientEvent::Finished));
    assert!(!test.accepts(&ClientEvent::HeadCame));
    assert!(!test.accepts(&ClientEvent::Received(Bytes::new())));
    assert!(!test.accepts(&ClientEvent::BodyEnded));
}

#[test]
fn failure_ends_the_request() {
    let mut receiving = handle_small();
    receiving.step(ServerEvent::Received(Bytes::from_static(b"ab")));
    let responding = handle_bidi();
    let mut sending = route_request("/nowhere");
    sending.step(ServerEvent::Responded);
    let mut finishing = route_request("/nowhere");
    finishing.step(ServerEvent::Responded);
    finishing.step(ServerEvent::Sent);
    for mut responder in [receiving, responding, sending, finishing] {
        assert!(responder.accepts(&ServerEvent::Failed));
        responder.step(ServerEvent::Failed);
        assert!(matches!(responder.action(), ServerAction::Done));
        assert!(!responder.accepts(&ServerEvent::Sent));
        assert!(!responder.accepts(&ServerEvent::BodyEnded));
        assert!(!responder.accepts(&ServerEvent::Failed));
    }
}

#[test]
fn failure_ends_the_exchange() {
    for kind in suite() {
        let mut opening = start_test(kind, "https://localhost:4433");
        let mut sending = start_test(kind, "https://localhost:4433");
        sending.step(ClientEvent::Opened);
        for test in [&mut opening, &mut sending] {
            assert!(test.accepts(&ClientEvent::Failed));
            test.step(ClientEvent::Failed);
            assert!(matches!(test.action(), Ok(ClientAction::Done)));
            assert!(test.outcome().is_none());
            assert!(!test.accepts(&ClientEvent::Sent));
            assert!(!test.accepts(&ClientEvent::Failed));
        }
    }
    let (over, _) = run(TestKind::SmallPayload, 20);
    assert!(!over.accepts(&ClientEvent::Failed));
}

#[test]
fn failure_ends_the_connection() {
    assert!(matches!(handle_connection(ConnectionEvent::Failed), ConnectionAction::Stop));
}
