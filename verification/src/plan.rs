//! What each test of the suite sends over HTTP, and where to.

use vstd::prelude::*;
use vstd::utf8::*;
use crate::buffer::buffer_of_text;
use crate::decimal;
use crate::feed::{Feed, FeedModel};
use crate::params;
use crate::params::stream_test_params;
use crate::payload;
use crate::payload::{
    client_buffer, BIDI_CHUNKS, LARGE_SIZE, MANY_COUNT, SMALL_SIZE, STREAM_CHUNKS,
    STREAM_CHUNK_SIZE,
};
use crate::report::TestKind;
use crate::route;
use crate::route::Route;

verus! {

/// The handler that a test talks to.
pub open spec fn route_for(kind: TestKind) -> Route {
    match kind {
        TestKind::SmallPayload => Route::Small,
        TestKind::LargePayload => Route::Large,
        TestKind::ServerStream => Route::ServerStream,
        TestKind::ClientStream => Route::ClientStream,
        TestKind::BidiStream => Route::Bidi,
        TestKind::ManyRequests => Route::Small,
    }
}

/// What a test sends in each of its requests.
pub open spec fn outgoing(kind: TestKind) -> FeedModel {
    match kind {
        TestKind::SmallPayload => FeedModel::fresh(payload::client_data(SMALL_SIZE as nat), 1),
        TestKind::LargePayload => FeedModel::fresh(payload::client_data(LARGE_SIZE as nat), 1),
        TestKind::ServerStream => FeedModel::fresh(
            encode_utf8(params::pair_text(STREAM_CHUNKS as nat, STREAM_CHUNK_SIZE as nat)),
            1,
        ),
        TestKind::ClientStream => FeedModel::fresh(
            payload::client_data(STREAM_CHUNK_SIZE as nat),
            STREAM_CHUNKS as nat,
        ),
        TestKind::BidiStream => FeedModel::fresh(
            payload::client_data(STREAM_CHUNK_SIZE as nat),
            BIDI_CHUNKS as nat,
        ),
        TestKind::ManyRequests => FeedModel::fresh(payload::client_data(SMALL_SIZE as nat), 1),
    }
}

/// How many requests a test makes, one after the other.
pub open spec fn request_count(kind: TestKind) -> nat {
    if kind == TestKind::ManyRequests {
        MANY_COUNT as nat
    } else {
        1
    }
}

/// The handler that a test talks to.
pub fn route_for_test(kind: TestKind) -> (route: Route)
    ensures
        route == route_for(kind),
{
    match kind {
        TestKind::SmallPayload => Route::Small,
        TestKind::LargePayload => Route::Large,
        TestKind::ServerStream => Route::ServerStream,
        TestKind::ClientStream => Route::ClientStream,
        TestKind::BidiStream => Route::Bidi,
        TestKind::ManyRequests => Route::Small,
    }
}

/// What a test sends in each of its requests.
pub fn outgoing_feed(kind: TestKind) -> (feed: Feed)
    ensures
        feed@ == outgoing(kind),
{
    match kind {
        TestKind::SmallPayload => Feed::new(client_buffer(SMALL_SIZE), 1),
        TestKind::LargePayload => Feed::new(client_buffer(LARGE_SIZE), 1),
        TestKind::ServerStream => Feed::new(buffer_of_text(stream_test_params()), 1),
        TestKind::ClientStream => Feed::new(client_buffer(STREAM_CHUNK_SIZE), STREAM_CHUNKS),
        TestKind::BidiStream => Feed::new(client_buffer(STREAM_CHUNK_SIZE), BIDI_CHUNKS),
        TestKind::ManyRequests => Feed::new(client_buffer(SMALL_SIZE), 1),
    }
}

/// The path that a test asks for, and what it sends there: each of the six
/// tests sends the client's own bytes, but for the one that spells what it asks
/// for. Only the last test makes more than one request.
pub proof fn law_plan_is_the_workload(kind: TestKind)
    ensures
        ({
            let sends = outgoing(kind);
            let bytes = |n: int| sends.chunk.len() == n && forall|i: int|
                0 <= i < n ==> #[trigger] sends.chunk[i] == 0x42;
            &&& sends.given == 0
            &&& match kind {
                TestKind::SmallPayload => {
                    &&& route::path_of(route_for(kind)) == "/small"@
                    &&& bytes(20)
                    &&& sends.left == 1
                    &&& request_count(kind) == 1
                },
                TestKind::LargePayload => {
                    &&& route::path_of(route_for(kind)) == "/large"@
                    &&& bytes(1048576)
                    &&& sends.left == 1
                    &&& request_count(kind) == 1
                },
                TestKind::ServerStream => {
                    &&& route::path_of(route_for(kind)) == "/server-stream"@
                    &&& sends.chunk == encode_utf8("100:10240"@)
                    &&& sends.left == 1
                    &&& request_count(kind) == 1
                },
                TestKind::ClientStream => {
                    &&& route::path_of(route_for(kind)) == "/client-stream"@
                    &&& bytes(10240)
                    &&& sends.left == 100
                    &&& request_count(kind) == 1
                },
                TestKind::BidiStream => {
                    &&& route::path_of(route_for(kind)) == "/bidi"@
                    &&& bytes(10240)
                    &&& sends.left == 50
                    &&& request_count(kind) == 1
                },
                TestKind::ManyRequests => {
                    &&& route::path_of(route_for(kind)) == "/small"@
                    &&& bytes(20)
                    &&& sends.left == 1
                    &&& request_count(kind) == 1000
                },
            }
        }),
{
    reveal_with_fuel(decimal::digits, 6);
    reveal_strlit(":");
    reveal_strlit("100:10240");
    assert(params::pair_text(100, 10240) =~= "100:10240"@);
}

} // verus!
