use bytes::Bytes;
use protobench::buffer::{collect_bytes, copy_pieces, count_bytes, fill, length, text_of};
use protobench::feed::{Feed, FeedEvent, PayloadFeed};
use protobench::params::{
    parse_params, read_params, stream_test_params, write_pair, StreamParams, DEFAULT_CHUNKS,
    DEFAULT_CHUNK_SIZE,
};
use protobench::payload::{
    client_buffer, client_payload, copy_payload, server_buffer, server_payload,
};
use protobench::tally::Tally;

fn params(chunks: usize, chunk_size: usize) -> StreamParams {
    StreamParams { chunks, chunk_size }
}

#[test]
fn payloads_are_filled() {
    assert_eq!(&client_buffer(3)[..], &[0x42, 0x42, 0x42]);
    assert_eq!(&server_buffer(2)[..], &[0xAB, 0xAB]);
    assert_eq!(client_payload(2).data, vec![0x42, 0x42]);
    assert_eq!(server_payload(1).data, vec![0xAB]);
    assert_eq!(copy_payload(&client_payload(2)).data, vec![0x42, 0x42]);
    assert_eq!(fill(7, 0), Vec::<u8>::new());
}

#[test]
fn buffers_are_counted_and_collected() {
    let mut view = Bytes::from_static(b"0123456789");
    let _ = view.split_to(4);
    assert_eq!(length(&view), 6);
    assert_eq!(count_bytes(10, view.clone()), 16);
    let mut data = b"ab".to_vec();
    collect_bytes(&mut data, view);
    assert_eq!(data, b"ab456789".to_vec());
    collect_bytes(&mut data, Bytes::new());
    assert_eq!(data, b"ab456789".to_vec());
}

#[test]
fn buffers_are_copied_in_one_piece() {
    let pieces = copy_pieces(Bytes::from_static(b"abc"));
    assert_eq!(pieces, vec![Bytes::from_static(b"abc")]);
    assert!(copy_pieces(Bytes::new()).is_empty());
}

#[test]
fn bodies_are_taken_for_text() {
    assert_eq!(text_of(&b"1024000:100".to_vec()), "1024000:100");
    assert_eq!(text_of(&"gr\u{fc}n".as_bytes().to_vec()), "gr\u{fc}n");
    assert_eq!(text_of(&vec![0x31, 0xff, 0x32]), "1\u{fffd}2");
}

#[test]
fn params_read_back() {
    for (chunks, size) in [(0, 0), (100, 10_240), (1, usize::MAX), (usize::MAX, 7)] {
        let text = write_pair(chunks, size);
        assert_eq!(text, format!("{}:{}", chunks, size));
        assert_eq!(parse_params(&text), params(chunks, size));
        assert_eq!(read_params(&text.into_bytes()), params(chunks, size));
    }
    assert_eq!(stream_test_params(), "100:10240");
}

#[test]
fn missing_params_are_defaults() {
    assert_eq!((DEFAULT_CHUNKS, DEFAULT_CHUNK_SIZE), (100, 10_240));
    assert_eq!(parse_params(""), params(100, 10_240));
    assert_eq!(parse_params(":"), params(100, 10_240));
    assert_eq!(parse_params("5"), params(5, 10_240));
    assert_eq!(parse_params("5:"), params(5, 10_240));
    assert_eq!(parse_params(":6"), params(100, 6));
    assert_eq!(parse_params("x:6"), params(100, 6));
    assert_eq!(parse_params("5:x"), params(5, 10_240));
    assert_eq!(parse_params("5:6:7"), params(5, 6));
    assert_eq!(parse_params("5:6 :7"), params(5, 10_240));
    assert_eq!(parse_params("+5:+6"), params(5, 6));
    assert_eq!(parse_params("-5:6"), params(100, 6));
    assert_eq!(parse_params("99999999999999999999999:6"), params(100, 6));
    assert_eq!(read_params(&vec![0x35, 0xff, 0x3a, 0x36]), params(100, 6));
}

#[test]
fn feeds_send_every_chunk() {
    let mut feed = Feed::new(Bytes::from_static(b"ab"), 3);
    for k in 0..3 {
        assert_eq!(feed.given(), k);
        assert!(!feed.is_over());
        assert_eq!(feed.offer(), Some(Bytes::from_static(b"ab")));
        feed.step(FeedEvent::Delivered);
    }
    assert_eq!(feed.given(), 3);
    assert!(feed.is_over());
    assert_eq!(feed.offer(), None);
}

#[test]
fn feeds_stop_when_refused() {
    let mut feed = Feed::new(Bytes::from_static(b"ab"), 3);
    feed.step(FeedEvent::Delivered);
    feed.step(FeedEvent::Refused);
    assert_eq!(feed.given(), 1);
    assert_eq!(feed.offer(), None);
    let mut feed = PayloadFeed::new(client_payload(2), 5);
    feed.step(FeedEvent::Delivered);
    assert_eq!(feed.offer().unwrap().data, vec![0x42, 0x42]);
    feed.step(FeedEvent::Refused);
    assert_eq!(feed.given(), 1);
    assert!(feed.offer().is_none());
}

#[test]
fn tallies_count_chunks_and_bytes() {
    let mut tally = Tally::new();
    tally.add(Bytes::from_static(b"abc"));
    tally.add(Bytes::new());
    tally.add_len(4);
    assert_eq!(tally, Tally { chunks: 3, bytes: 7 });
    assert!(tally.fits(usize::MAX - 7));
    assert!(!tally.fits(usize::MAX - 6));
    assert!(!Tally { chunks: usize::MAX, bytes: 0 }.fits(0));
}
