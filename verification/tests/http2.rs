use bytes::Bytes;
use protobench::feed::FeedEvent;
use protobench::http2_client::{start_test, Call, CallAction, CallEvent, Outgoing};
use protobench::http2_server::handle_request;
use protobench::report::{suite, Outcome, TestKind};
use protobench::tally::Tally;

/// What a body sends when all of it is taken.
fn whole(body: Outgoing) -> Vec<Vec<u8>> {
    match body {
        Outgoing::Whole(bytes) => vec![bytes.to_vec()],
        Outgoing::Fed(mut feed) => {
            let mut sent = Vec::new();
            while let Some(chunk) = feed.offer() {
                sent.push(chunk.to_vec());
                feed.step(FeedEvent::Delivered);
            }
            sent
        }
    }
}

/// Runs a test whose every response comes in these frames (`None` is a frame
/// without data). Gives the test, the requests made, and whether the sender was joined.
fn run(kind: TestKind, frames: &[Option<&[u8]>]) -> (Call, Vec<(String, Vec<Vec<u8>>)>, bool) {
    let mut test = start_test(kind, "https://localhost:8443");
    let mut requests = Vec::new();
    let mut next = 0;
    let mut joined = false;
    loop {
        let event = match test.action().ok().unwrap() {
            CallAction::Post(request, body) => {
                assert_eq!(request.method(), http::Method::POST);
                requests.push((request.uri().path().to_string(), whole(body)));
                CallEvent::Answered
            }
            CallAction::Collect => {
                let all: Vec<u8> = frames.iter().flatten().flat_map(|f| f.to_vec()).collect();
                CallEvent::Collected(Bytes::from(all))
            }
            CallAction::NextFrame => {
                next += 1;
                if next > frames.len() {
                    CallEvent::BodyEnded
                } else {
                    match frames[next - 1] {
                        Some(data) => CallEvent::Data(Bytes::copy_from_slice(data)),
                        None => CallEvent::OtherFrame,
                    }
                }
            }
            CallAction::JoinSender => {
                joined = true;
                CallEvent::SenderDone
            }
            CallAction::Done => return (test, requests, joined),
        };
        assert!(test.outcome().is_none());
        assert!(test.accepts(&event));
        test.step(event);
    }
}

const FRAMES: [Option<&[u8]>; 4] = [Some(b"abc"), None, Some(b""), Some(b"de")];

#[test]
fn single_responses_are_measured_over_http2() {
    let (test, requests, joined) = run(TestKind::SmallPayload, &FRAMES);
    assert_eq!(requests, vec![("/small".to_string(), vec![vec![0x42; 20]])]);
    assert!(!joined);
    assert!(matches!(test.outcome(), Some(Outcome::SmallPayload { received: 5 })));
    let (test, requests, _) = run(TestKind::LargePayload, &FRAMES);
    assert_eq!(requests, vec![("/large".to_string(), vec![vec![0x42; 1_048_576]])]);
    assert!(matches!(test.outcome(), Some(Outcome::LargePayload { received: 5 })));
}

#[test]
fn frames_without_data_do_not_count() {
    let (test, requests, joined) = run(TestKind::ServerStream, &FRAMES);
    assert_eq!(requests, vec![("/server-stream".to_string(), vec![b"100:10240".to_vec()])]);
    assert!(!joined);
    match test.outcome() {
        Some(Outcome::ServerStream { counted }) => {
            assert_eq!(counted, Tally { chunks: 3, bytes: 5 })
        }
        _ => panic!("no outcome"),
    }
}

#[test]
fn streams_to_the_http2_server_are_joined() {
    let (test, requests, joined) = run(TestKind::ClientStream, &FRAMES);
    assert_eq!(requests, vec![("/client-stream".to_string(), vec![vec![0x42; 10_240]; 100])]);
    assert!(joined);
    match test.outcome() {
        Some(Outcome::ClientStream { reply }) => assert_eq!(reply, "abcde"),
        _ => panic!("no outcome"),
    }
    let (test, requests, joined) = run(TestKind::BidiStream, &FRAMES);
    assert_eq!(requests, vec![("/bidi".to_string(), vec![vec![0x42; 10_240]; 50])]);
    assert!(joined);
    match test.outcome() {
        Some(Outcome::BidiStream { counted }) => {
            assert_eq!(counted, Tally { chunks: 3, bytes: 5 })
        }
        _ => panic!("no outcome"),
    }
}

#[test]
fn many_requests_are_made_over_http2() {
    let (test, requests, _) = run(TestKind::ManyRequests, &FRAMES);
    assert_eq!(requests.len(), 1000);
    for request in requests {
        assert_eq!(request, ("/small".to_string(), vec![vec![0x42; 20]]));
    }
    assert!(matches!(test.outcome(), Some(Outcome::ManyRequests)));
}

#[test]
fn http2_client_hears_the_greeting() {
    let request = http::Request::post("https://localhost:8443/small").body(()).unwrap();
    let body = handle_request(&request).body;
    let frames = [Some(&body[..])];
    let (test, _, _) = run(TestKind::SmallPayload, &frames);
    assert!(matches!(test.outcome(), Some(Outcome::SmallPayload { received: 19 })));
    let (test, _, _) = run(TestKind::ClientStream, &frames);
    match test.outcome() {
        Some(Outcome::ClientStream { reply }) => assert_eq!(reply, "Hello from HTTP/2!\n"),
        _ => panic!("no outcome"),
    }
}

#[test]
fn calls_with_a_bad_host_cannot_be_made() {
    for kind in suite() {
        assert!(start_test(kind, "https://no host:8443").action().is_err());
    }
    let test = start_test(TestKind::SmallPayload, "https://localhost:8443");
    assert!(!test.accepts(&CallEvent::BodyEnded));
    assert!(!test.accepts(&CallEvent::Collected(Bytes::new())));
    assert!(!test.accepts(&CallEvent::SenderDone));
    assert!(!test.accepts(&CallEvent::OtherFrame));
    assert!(!test.accepts(&CallEvent::Data(Bytes::new())));
}

#[test]
fn failure_ends_the_call() {
    for kind in suite() {
        let mut posting = start_test(kind, "https://localhost:8443");
        let mut answered = start_test(kind, "https://localhost:8443");
        answered.step(CallEvent::Answered);
        for test in [&mut posting, &mut answered] {
            assert!(test.accepts(&CallEvent::Failed));
            test.step(CallEvent::Failed);
            assert!(matches!(test.action(), Ok(CallAction::Done)));
            assert!(test.outcome().is_none());
            assert!(!test.accepts(&CallEvent::SenderDone));
            assert!(!test.accepts(&CallEvent::Failed));
        }
    }
}
