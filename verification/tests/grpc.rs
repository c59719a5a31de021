use protobench::feed::{FeedEvent, PayloadFeed};
use protobench::grpc_client::{start_test, RpcAction, RpcEvent, RpcTest};
use protobench::grpc_server::{
    BenchService, CountAction, Echo, EchoAction, EchoEvent, EchoStage, StreamEvent,
};
use protobench::payload::{Payload, StreamRequest, StreamResponse};
use protobench::report::{progress_len, Outcome, TestKind};
use protobench::tally::Tally;

fn payload(data: &[u8]) -> Payload {
    Payload { data: data.to_vec() }
}

/// All messages of a feed whose messages are taken.
fn drain(mut feed: PayloadFeed) -> Vec<Payload> {
    let mut messages = Vec::new();
    while let Some(message) = feed.offer() {
        messages.push(message);
        feed.step(FeedEvent::Delivered);
    }
    messages
}

#[test]
fn payload_calls_are_answered() {
    let service = BenchService::default();
    assert_eq!(service.small_payload(payload(b"abc")).data, b"abc".to_vec());
    assert_eq!(service.large_payload(payload(b"abc")).data, vec![0xAB; 3]);
    assert_eq!(service.large_payload(payload(b"")).data, Vec::<u8>::new());
}

#[test]
fn rpc_server_stream_sends_what_is_asked() {
    let service = BenchService::default();
    let messages = drain(service.server_stream(StreamRequest { chunks: 3, chunk_size: 2 }));
    assert_eq!(messages.len(), 3);
    assert!(messages.iter().all(|m| m.data == vec![0xAB; 2]));
    assert!(drain(service.server_stream(StreamRequest { chunks: 0, chunk_size: 2 })).is_empty());
}

#[test]
fn negative_count_streams_until_refused() {
    let service = BenchService::default();
    let mut feed = service.server_stream(StreamRequest { chunks: -1, chunk_size: 0 });
    for _ in 0..1000 {
        assert_eq!(feed.offer().unwrap().data, Vec::<u8>::new());
        feed.step(FeedEvent::Delivered);
    }
    feed.step(FeedEvent::Refused);
    assert!(feed.offer().is_none());
    assert_eq!(feed.given(), 1000);
}

#[test]
fn negative_size_streams_nothing() {
    let service = BenchService::default();
    for chunks in [3, 0, -1, i32::MAX] {
        for chunk_size in [-1, i32::MIN] {
            let feed = service.server_stream(StreamRequest { chunks, chunk_size });
            assert!(feed.offer().is_none());
            assert_eq!(feed.given(), 0);
        }
    }
}

#[test]
fn rpc_client_stream_is_counted() {
    let mut count = BenchService::default().client_stream();
    for data in [&b"ab"[..], b"", b"cde"] {
        assert_eq!(count.action(), CountAction::Receive);
        let event = StreamEvent::Received(payload(data));
        assert!(count.accepts(&event));
        count.step(event);
    }
    count.step(StreamEvent::Ended);
    let totals = StreamResponse { total_bytes: 5, total_chunks: 3 };
    assert_eq!(count.action(), CountAction::Reply(totals));
    assert!(!count.accepts(&StreamEvent::Ended));
}

#[test]
fn broken_client_stream_fails() {
    let mut count = BenchService::default().client_stream();
    count.step(StreamEvent::Received(payload(b"ab")));
    count.step(StreamEvent::Failed);
    assert_eq!(count.action(), CountAction::Fail);
}

#[test]
fn counters_that_are_full_take_no_more() {
    let mut count = BenchService::default().client_stream();
    count.totals.total_chunks = i32::MAX;
    assert!(!count.accepts(&StreamEvent::Received(payload(b""))));
    assert!(count.accepts(&StreamEvent::Ended));
    count.totals = StreamResponse { total_bytes: i64::MAX - 1, total_chunks: 0 };
    assert!(count.accepts(&StreamEvent::Received(payload(b"a"))));
    assert!(!count.accepts(&StreamEvent::Received(payload(b"ab"))));
}

#[test]
fn echo_goes_on_until_it_is_stopped() {
    let mut echo = BenchService::default().bidi_stream();
    for data in [&b"ab"[..], b"", b"cde"] {
        let event = EchoEvent::Incoming(StreamEvent::Received(payload(data)));
        assert!(echo.accepts(&event));
        match echo.step(event) {
            EchoAction::Send(message) => assert_eq!(message.data, data.to_vec()),
            _ => panic!("the message is not sent back"),
        }
        assert!(echo.accepts(&EchoEvent::Delivered));
        assert!(matches!(echo.step(EchoEvent::Delivered), EchoAction::Receive));
    }
    let mut other = echo;
    assert!(matches!(
        echo.step(EchoEvent::Incoming(StreamEvent::Ended)),
        EchoAction::Stop
    ));
    assert!(!echo.accepts(&EchoEvent::Incoming(StreamEvent::Ended)));
    assert!(matches!(
        other.step(EchoEvent::Incoming(StreamEvent::Failed)),
        EchoAction::Stop
    ));
    let mut refused = Echo { stage: EchoStage::Sending };
    assert!(matches!(refused.step(EchoEvent::Refused), EchoAction::Stop));
    assert_eq!(refused.stage, EchoStage::Stopped);
}

/// Runs a test against the service. Gives the test when it is over, and the calls made.
fn run(kind: TestKind) -> (RpcTest, usize) {
    let service = BenchService::default();
    let mut test = start_test(kind);
    let mut calls = 0;
    let mut incoming: Vec<Payload> = Vec::new();
    loop {
        let event = match test.action() {
            RpcAction::CallSmallPayload(p) => {
                calls += 1;
                RpcEvent::Replied(service.small_payload(p))
            }
            RpcAction::CallLargePayload(p) => {
                calls += 1;
                RpcEvent::Replied(service.large_payload(p))
            }
            RpcAction::CallServerStream(request) => {
                calls += 1;
                incoming = drain(service.server_stream(request));
                RpcEvent::Opened
            }
            RpcAction::CallClientStream(feed) => {
                calls += 1;
                let mut count = service.client_stream();
                for message in drain(feed) {
                    count.step(StreamEvent::Received(message));
                }
                count.step(StreamEvent::Ended);
                match count.action() {
                    CountAction::Reply(totals) => RpcEvent::Counted(totals),
                    _ => panic!("no reply"),
                }
            }
            RpcAction::CallBidiStream(feed) => {
                calls += 1;
                let mut echo = service.bidi_stream();
                for message in drain(feed) {
                    match echo.step(EchoEvent::Incoming(StreamEvent::Received(message))) {
                        EchoAction::Send(back) => incoming.push(back),
                        _ => panic!("the message is not sent back"),
                    }
                    echo.step(EchoEvent::Delivered);
                }
                RpcEvent::Opened
            }
            RpcAction::Receive => match incoming.pop() {
                Some(message) => RpcEvent::Received(message),
                None => RpcEvent::Ended,
            },
            RpcAction::JoinSender => RpcEvent::SenderDone,
            RpcAction::Done => return (test, calls),
        };
        assert!(test.outcome().is_none());
        assert!(test.accepts(&event));
        test.step(event);
    }
}

#[test]
fn payload_tests_over_grpc() {
    let (test, calls) = run(TestKind::SmallPayload);
    assert_eq!(calls, 1);
    assert!(matches!(test.outcome(), Some(Outcome::SmallPayload { received: 20 })));
    let (test, _) = run(TestKind::LargePayload);
    assert!(matches!(test.outcome(), Some(Outcome::LargePayload { received: 1_048_576 })));
}

#[test]
fn stream_tests_over_grpc() {
    let (test, _) = run(TestKind::ServerStream);
    match test.outcome() {
        Some(Outcome::ServerStream { counted }) => {
            assert_eq!(counted, Tally { chunks: 100, bytes: 1_024_000 })
        }
        _ => panic!("no outcome"),
    }
    assert_eq!(Some(test.progress()), progress_len(TestKind::ServerStream));
    let (test, _) = run(TestKind::ClientStream);
    match test.outcome() {
        Some(Outcome::ClientStreamCounted { response }) => assert_eq!(
            response,
            StreamResponse { total_bytes: 1_024_000, total_chunks: 100 }
        ),
        _ => panic!("no outcome"),
    }
    let (test, _) = run(TestKind::BidiStream);
    match test.outcome() {
        Some(Outcome::BidiStream { counted }) => {
            assert_eq!(counted, Tally { chunks: 50, bytes: 512_000 })
        }
        _ => panic!("no outcome"),
    }
    assert_eq!(test.progress(), 50);
}

#[test]
fn many_calls_are_made() {
    let (test, calls) = run(TestKind::ManyRequests);
    assert_eq!(calls, 1000);
    assert!(matches!(test.outcome(), Some(Outcome::ManyRequests)));
    assert_eq!(test.progress(), 1000);
}

#[test]
fn rpc_tests_take_only_what_they_asked_for() {
    let small = start_test(TestKind::SmallPayload);
    assert!(small.accepts(&RpcEvent::Replied(payload(b""))));
    assert!(!small.accepts(&RpcEvent::Opened));
    assert!(!small.accepts(&RpcEvent::Ended));
    assert!(!small.accepts(&RpcEvent::SenderDone));
    let stream = start_test(TestKind::ServerStream);
    assert!(stream.accepts(&RpcEvent::Opened));
    assert!(!stream.accepts(&RpcEvent::Replied(payload(b""))));
    assert!(!stream.accepts(&RpcEvent::Received(payload(b""))));
}

#[test]
fn failure_ends_the_rpc_test() {
    let mut calling = start_test(TestKind::ManyRequests);
    calling.step(RpcEvent::Replied(payload(b"ab")));
    let mut receiving = start_test(TestKind::BidiStream);
    receiving.step(RpcEvent::Opened);
    receiving.step(RpcEvent::Received(payload(b"ab")));
    for mut test in [calling, receiving] {
        assert!(test.accepts(&RpcEvent::Failed));
        test.step(RpcEvent::Failed);
        assert!(matches!(test.action(), RpcAction::Done));
        assert!(test.outcome().is_none());
        assert!(!test.accepts(&RpcEvent::Ended));
        assert!(!test.accepts(&RpcEvent::Failed));
    }
}

#[test]
fn large_replies_go_by_length() {
    let service = BenchService::default();
    let a = service.large_payload(payload(b"abc"));
    let b = service.large_payload(payload(b"xyz"));
    assert_eq!(a.data, b.data);
    assert_eq!(a.data, vec![0xAB, 0xAB, 0xAB]);
}
