//! What a client finds out when it talks to the server of its transport.
//!
//! A transport may cut a body into other chunks than it was sent in, but it
//! keeps the bytes and their sequence. So a body that was sent as some chunks
//! arrives as any chunks that are the same when joined.

use vstd::prelude::*;
use vstd::utf8::*;
use crate::buffer;
use crate::feed::FeedModel;
use crate::grpc_client;
use crate::grpc_client::{RpcActionModel, RpcEventModel, RpcModel};
use crate::grpc_server;
use crate::grpc_server::{Echo, StreamCount, StreamEvent};
use crate::http2_client;
use crate::http2_client::CallModel;
use crate::http3_client;
use crate::http3_client::ExchangeModel;
use crate::http3_server;
use crate::http3_server::{EventModel, ResponderModel};
use crate::params;
use crate::payload;
use crate::payload::{
    Payload, StreamRequest, StreamResponse, BIDI_CHUNKS, LARGE_SIZE, SMALL_SIZE, STREAM_CHUNKS,
    STREAM_CHUNK_SIZE,
};
use crate::plan;
use crate::report::{Outcome, TestKind};
use crate::route::Route;
use crate::tally;
use crate::tally::Tally;

verus! {

/// What a feed sends when every chunk is taken.
pub open spec fn all_chunks(feed: FeedModel) -> Seq<Seq<u8>> {
    Seq::new(feed.left, |i: int| feed.chunk)
}

/// A body that was sent as `sent` arrives as `arrived`.
pub open spec fn arrives_as(sent: Seq<Seq<u8>>, arrived: Seq<Seq<u8>>) -> bool {
    buffer::joined(sent) == buffer::joined(arrived)
}

/// The number of bytes that a feed sends in all.
proof fn lemma_feed_len(feed: FeedModel)
    ensures
        buffer::joined(all_chunks(feed)).len() == feed.left * feed.chunk.len(),
{
    tally::lemma_total_len_of_equal_chunks(all_chunks(feed), feed.chunk.len());
    tally::lemma_total_len_is_joined_len(all_chunks(feed));
}

/// A feed of a single chunk sends that chunk.
proof fn lemma_single_chunk(feed: FeedModel)
    requires
        feed.left == 1,
    ensures
        buffer::joined(all_chunks(feed)) == feed.chunk,
{
    reveal_with_fuel(buffer::joined, 2);
    assert(all_chunks(feed).drop_last() =~= Seq::<Seq<u8>>::empty());
    assert(Seq::<u8>::empty() + feed.chunk =~= feed.chunk);
}

/// A small payload comes back as it was sent: the server sends those very
/// bytes, and the client counts as many as it sent.
pub proof fn law_small_payload_comes_back(
    base_uri: Seq<char>,
    there: Seq<Seq<u8>>,
    back: Seq<Seq<u8>>,
)
    requires
        arrives_as(all_chunks(plan::outgoing(TestKind::SmallPayload)), there),
        arrives_as(
            all_chunks(ResponderModel::start(Some(Route::Small)).answering(there).feed),
            back,
        ),
    ensures
        buffer::joined(back) == payload::client_data(SMALL_SIZE as nat),
        ExchangeModel::start(TestKind::SmallPayload, base_uri).after_exchange(back).found(
            Outcome::SmallPayload { received: SMALL_SIZE },
        ),
{
    lemma_single_chunk(plan::outgoing(TestKind::SmallPayload));
    http3_server::law_small_echoes_the_body(there);
    http3_server::lemma_answer_of(Route::Small, there);
    lemma_single_chunk(ResponderModel::start(Some(Route::Small)).answering(there).feed);
    http3_client::law_single_exchange_counts_the_response(TestKind::SmallPayload, base_uri, back);
    http3_client::lemma_kind_stays(TestKind::SmallPayload, base_uri, back);
}

/// A large payload is answered in size: the client counts as many bytes as it sent.
pub proof fn law_large_payload_is_matched(
    base_uri: Seq<char>,
    there: Seq<Seq<u8>>,
    back: Seq<Seq<u8>>,
)
    requires
        arrives_as(all_chunks(plan::outgoing(TestKind::LargePayload)), there),
        arrives_as(
            all_chunks(ResponderModel::start(Some(Route::Large)).answering(there).feed),
            back,
        ),
    ensures
        buffer::joined(back) == payload::server_data(LARGE_SIZE as nat),
        ExchangeModel::start(TestKind::LargePayload, base_uri).after_exchange(back).found(
            Outcome::LargePayload { received: LARGE_SIZE },
        ),
{
    lemma_single_chunk(plan::outgoing(TestKind::LargePayload));
    http3_server::lemma_answer_of(Route::Large, there);
    tally::lemma_total_len_is_joined_len(there);
    lemma_single_chunk(ResponderModel::start(Some(Route::Large)).answering(there).feed);
    http3_client::law_single_exchange_counts_the_response(TestKind::LargePayload, base_uri, back);
    http3_client::lemma_kind_stays(TestKind::LargePayload, base_uri, back);
}

/// The server streams what the client asks for: the number of chunks and their
/// size travel as text and arrive as they were meant. The client counts all
/// the bytes of the stream, however it was cut, and the chunks as they came.
pub proof fn law_server_stream_is_what_was_asked(
    base_uri: Seq<char>,
    there: Seq<Seq<u8>>,
    back: Seq<Seq<u8>>,
)
    requires
        arrives_as(all_chunks(plan::outgoing(TestKind::ServerStream)), there),
        arrives_as(
            all_chunks(ResponderModel::start(Some(Route::ServerStream)).answering(there).feed),
            back,
        ),
        back.len() <= usize::MAX,
    ensures
        ResponderModel::start(Some(Route::ServerStream)).answering(there).feed == FeedModel::fresh(
            payload::server_data(STREAM_CHUNK_SIZE as nat),
            STREAM_CHUNKS as nat,
        ),
        ExchangeModel::start(TestKind::ServerStream, base_uri).after_exchange(back).found(
            Outcome::ServerStream {
                counted: Tally {
                    chunks: back.len() as usize,
                    bytes: (STREAM_CHUNKS * STREAM_CHUNK_SIZE) as usize,
                },
            },
        ),
{
    lemma_single_chunk(plan::outgoing(TestKind::ServerStream));
    http3_server::lemma_answer_of(Route::ServerStream, there);
    params::law_encoded_params_read_back(STREAM_CHUNKS, STREAM_CHUNK_SIZE);
    lemma_feed_len(ResponderModel::start(Some(Route::ServerStream)).answering(there).feed);
    http3_client::law_single_exchange_counts_the_response(TestKind::ServerStream, base_uri, back);
    http3_client::lemma_kind_stays(TestKind::ServerStream, base_uri, back);
}

/// The server tells the client how much it sent: the reply reads as the number
/// of bytes that the client sent, a colon, and the number of chunks that
/// arrived.
pub proof fn law_client_stream_is_reported(
    base_uri: Seq<char>,
    there: Seq<Seq<u8>>,
    back: Seq<Seq<u8>>,
)
    requires
        arrives_as(all_chunks(plan::outgoing(TestKind::ClientStream)), there),
        arrives_as(
            all_chunks(ResponderModel::start(Some(Route::ClientStream)).answering(there).feed),
            back,
        ),
    ensures
        ({
            let over = ExchangeModel::start(TestKind::ClientStream, base_uri).after_exchange(back);
            buffer::text_in(over.body) == params::pair_text(
                (STREAM_CHUNKS * STREAM_CHUNK_SIZE) as nat,
                there.len(),
            )
        }),
{
    lemma_feed_len(plan::outgoing(TestKind::ClientStream));
    http3_server::lemma_answer_of(Route::ClientStream, there);
    tally::lemma_total_len_is_joined_len(there);
    lemma_single_chunk(ResponderModel::start(Some(Route::ClientStream)).answering(there).feed);
    http3_client::law_single_exchange_counts_the_response(TestKind::ClientStream, base_uri, back);
    buffer::law_encoded_text_arrives(
        params::pair_text((STREAM_CHUNKS * STREAM_CHUNK_SIZE) as nat, there.len()),
    );
}

/// A bidirectional stream comes back: the server sends each chunk that
/// arrives, so that the client counts as many bytes as it sent.
pub proof fn law_bidi_stream_comes_back(
    base_uri: Seq<char>,
    there: Seq<Seq<u8>>,
    back: Seq<Seq<u8>>,
)
    requires
        arrives_as(all_chunks(plan::outgoing(TestKind::BidiStream)), there),
        arrives_as(
            ResponderModel::start(Some(Route::Bidi)).after(EventModel::Responded).echoes(there),
            back,
        ),
        back.len() <= usize::MAX,
    ensures
        buffer::joined(back) == buffer::joined(all_chunks(plan::outgoing(TestKind::BidiStream))),
        ExchangeModel::start(TestKind::BidiStream, base_uri).after_exchange(back).found(
            Outcome::BidiStream {
                counted: Tally {
                    chunks: back.len() as usize,
                    bytes: (BIDI_CHUNKS * STREAM_CHUNK_SIZE) as usize,
                },
            },
        ),
{
    lemma_feed_len(plan::outgoing(TestKind::BidiStream));
    http3_server::law_bidi_echoes_what_comes(there);
    http3_client::law_single_exchange_counts_the_response(TestKind::BidiStream, base_uri, back);
    http3_client::lemma_kind_stays(TestKind::BidiStream, base_uri, back);
}

/// Over gRPC the server streams what the client asks for, and the client
/// counts all of it.
pub proof fn law_rpc_server_stream_is_what_was_asked(request: StreamRequest)
    requires
        grpc_client::call_of(TestKind::ServerStream) == RpcActionModel::CallServerStream(request),
    ensures
        ({
            let messages = all_chunks(grpc_server::stream_asked_for(request));
            let over = RpcModel::start(TestKind::ServerStream).after(
                RpcEventModel::Opened,
            ).after_messages(messages).after(RpcEventModel::Ended);
            &&& over.action() == RpcActionModel::Done
            &&& over.finding() == (Outcome::ServerStream {
                counted: Tally {
                    chunks: STREAM_CHUNKS,
                    bytes: (STREAM_CHUNKS * STREAM_CHUNK_SIZE) as usize,
                },
            })
        }),
{
    let feed = grpc_server::stream_asked_for(request);
    lemma_feed_len(feed);
    tally::lemma_total_len_is_joined_len(all_chunks(feed));
    grpc_client::law_server_stream_is_counted(all_chunks(feed));
}

/// Over gRPC the server counts all that the client feeds it.
pub proof fn law_rpc_client_stream_is_counted(feed: FeedModel, messages: Seq<Payload>)
    requires
        grpc_client::call_of(TestKind::ClientStream) == RpcActionModel::CallClientStream(feed),
        grpc_server::contents(messages) == all_chunks(feed),
    ensures
        StreamCount::zero().after_messages(messages).after(StreamEvent::Ended).totals == (
        StreamResponse {
            total_bytes: (STREAM_CHUNKS * STREAM_CHUNK_SIZE) as i64,
            total_chunks: STREAM_CHUNKS as i32,
        }),
{
    lemma_feed_len(feed);
    tally::lemma_total_len_is_joined_len(all_chunks(feed));
    assert(grpc_server::contents(messages).len() == messages.len());
    grpc_server::law_client_stream_is_counted(messages);
}

/// Over gRPC the server sends every message of the client back, and the client
/// counts as many as it fed it.
pub proof fn law_rpc_bidi_stream_comes_back(feed: FeedModel, messages: Seq<Payload>)
    requires
        grpc_client::call_of(TestKind::BidiStream) == RpcActionModel::CallBidiStream(feed),
        grpc_server::contents(messages) == all_chunks(feed),
    ensures
        ({
            let back = grpc_server::contents(Echo::echoes(messages));
            let over = RpcModel::start(TestKind::BidiStream).after(
                RpcEventModel::Opened,
            ).after_messages(back).after(RpcEventModel::Ended).after(RpcEventModel::SenderDone);
            &&& over.action() == RpcActionModel::Done
            &&& over.finding() == (Outcome::BidiStream {
                counted: Tally {
                    chunks: BIDI_CHUNKS,
                    bytes: (BIDI_CHUNKS * STREAM_CHUNK_SIZE) as usize,
                },
            })
        }),
{
    grpc_server::law_echo_sends_back_what_comes(messages);
    lemma_feed_len(feed);
    tally::lemma_total_len_is_joined_len(all_chunks(feed));
    grpc_client::law_bidi_stream_is_counted(all_chunks(feed));
}

/// Over gRPC a small payload comes back, and a large one is answered in size:
/// the client counts as many bytes as it sent.
pub proof fn law_rpc_payloads_are_matched(small: Seq<u8>, large: Seq<u8>)
    requires
        grpc_client::call_of(TestKind::SmallPayload) == RpcActionModel::CallSmallPayload(small),
        grpc_client::call_of(TestKind::LargePayload) == RpcActionModel::CallLargePayload(large),
    ensures
        RpcModel::start(TestKind::SmallPayload).after(RpcEventModel::Replied(small)).finding() == (
        Outcome::SmallPayload { received: SMALL_SIZE }),
        RpcModel::start(TestKind::LargePayload).after(
            RpcEventModel::Replied(grpc_server::large_reply(large)),
        ).finding() == (Outcome::LargePayload { received: LARGE_SIZE }),
{
    grpc_client::law_reply_is_counted(small);
    grpc_client::law_reply_is_counted(grpc_server::large_reply(large));
}

/// The HTTP/2 server answers every test with its greeting, and that is what
/// the client finds.
pub proof fn law_http2_client_hears_the_greeting(
    kind: TestKind,
    base_uri: Seq<char>,
    back: Seq<Seq<u8>>,
)
    requires
        kind != TestKind::ManyRequests,
        buffer::joined(back) == encode_utf8("Hello from HTTP/2!\n"@),
    ensures
        ({
            let over = CallModel::start(kind, base_uri).after_call(back);
            &&& kind != TestKind::ClientStream ==> over.bytes == 19
            &&& kind == TestKind::ClientStream ==> buffer::text_in(over.body)
                == "Hello from HTTP/2!\n"@
        }),
{
    reveal_strlit("Hello from HTTP/2!\n");
    assert(is_ascii_chars("Hello from HTTP/2!\n"@));
    is_ascii_chars_encode_utf8("Hello from HTTP/2!\n"@);
    http2_client::law_single_call_counts_the_response(kind, base_uri, back);
    buffer::law_encoded_text_arrives("Hello from HTTP/2!\n"@);
}

/// The bytes that a test moved are those that its plan sends and those that
/// came back, for every number that came back. Of a stream from the server only
/// what came counts, and of a stream to the server only what was sent.
pub proof fn law_moved_is_sent_and_received(received: usize, counted: Tally, reply: String)
    ensures
        ({
            let sent = |kind: TestKind| buffer::joined(all_chunks(plan::outgoing(kind))).len();
            &&& (Outcome::LargePayload { received }).moved() == Some(
                (sent(TestKind::LargePayload) + received) as nat,
            )
            &&& (Outcome::BidiStream { counted }).moved() == Some(
                (sent(TestKind::BidiStream) + counted.bytes) as nat,
            )
            &&& (Outcome::ClientStream { reply }).moved() == Some(sent(TestKind::ClientStream))
            &&& (Outcome::ServerStream { counted }).moved() == Some(counted.bytes as nat)
        }),
{
    lemma_feed_len(plan::outgoing(TestKind::LargePayload));
    lemma_feed_len(plan::outgoing(TestKind::BidiStream));
    lemma_feed_len(plan::outgoing(TestKind::ClientStream));
}

} // verus!
