//! The workload: how much is sent, in what pieces, and which bytes it is made of.

use vstd::prelude::*;
use bytes::Bytes;
use crate::buffer;
use crate::buffer::{buffer_of, fill, fill_like};

verus! {

/// Bytes of a small payload.
pub const SMALL_SIZE: usize = 20;

/// Bytes of a large payload: one megabyte.
pub const LARGE_SIZE: usize = 1_048_576;

/// Chunks of a one-way stream.
pub const STREAM_CHUNKS: usize = 100;

/// Bytes of one chunk of a stream: ten kilobytes.
pub const STREAM_CHUNK_SIZE: usize = 10_240;

/// Requests of the test that sends many of them.
pub const MANY_COUNT: usize = 1000;

/// Chunks that a bidirectional stream sends each way.
pub const BIDI_CHUNKS: usize = 50;

/// The byte that a client fills its payloads with.
pub const CLIENT_BYTE: u8 = 0x42;

/// The byte that a server fills the payloads of its own making with.
pub const SERVER_BYTE: u8 = 0xAB;

/// A message of the remote procedure calls: some bytes.
pub struct Payload {
    pub data: Vec<u8>,
}

impl View for Payload {
    type V = Seq<u8>;

    open spec fn view(&self) -> Seq<u8> {
        self.data@
    }
}

/// What a client asks of a server stream.
#[derive(Clone, Copy, Debug, PartialEq, Eq, Structural)]
pub struct StreamRequest {
    pub chunks: i32,
    pub chunk_size: i32,
}

/// What a server reports of a client stream.
#[derive(Clone, Copy, Debug, PartialEq, Eq, Structural)]
pub struct StreamResponse {
    pub total_bytes: i64,
    pub total_chunks: i32,
}

/// A payload of a client: `n` of its bytes.
pub open spec fn client_data(n: nat) -> Seq<u8> {
    buffer::filled(CLIENT_BYTE, n)
}

/// A payload that a server makes: `n` of its bytes.
pub open spec fn server_data(n: nat) -> Seq<u8> {
    buffer::filled(SERVER_BYTE, n)
}

/// Makes a client payload as a buffer.
pub fn client_buffer(n: usize) -> (buffer: Bytes)
    requires
        n <= isize::MAX,
    ensures
        buffer::content(buffer) == client_data(n as nat),
{
    buffer_of(fill(CLIENT_BYTE, n))
}

/// Makes a server payload as a buffer.
pub fn server_buffer(n: usize) -> (buffer: Bytes)
    requires
        n <= isize::MAX,
    ensures
        buffer::content(buffer) == server_data(n as nat),
{
    buffer_of(fill(SERVER_BYTE, n))
}

/// Makes a client payload as a message.
pub fn client_payload(n: usize) -> (payload: Payload)
    requires
        n <= isize::MAX,
    ensures
        payload@ == client_data(n as nat),
{
    Payload { data: fill(CLIENT_BYTE, n) }
}

/// Makes a server payload as a message.
pub fn server_payload(n: usize) -> (payload: Payload)
    requires
        n <= isize::MAX,
    ensures
        payload@ == server_data(n as nat),
{
    Payload { data: fill(SERVER_BYTE, n) }
}

/// Makes a server payload as long as another message.
pub fn server_payload_like(other: &Payload) -> (payload: Payload)
    ensures
        payload@ == server_data(other@.len()),
{
    Payload { data: fill_like(SERVER_BYTE, &other.data) }
}

/// A copy of a message.
pub fn copy_payload(payload: &Payload) -> (copy: Payload)
    ensures
        copy@ == payload@,
{
    let data = payload.data.clone();
    assert(data@ =~= payload.data@);
    Payload { data }
}

/// A payload has the length that was asked for. Every byte of a client's is
/// `0x42`, and every byte that a server makes is `0xAB`.
pub proof fn law_payloads_are_made_of_one_byte(n: nat)
    ensures
        client_data(n).len() == n,
        server_data(n).len() == n,
        forall|i: int| 0 <= i < n ==> #[trigger] client_data(n)[i] == 0x42,
        forall|i: int| 0 <= i < n ==> #[trigger] server_data(n)[i] == 0xAB,
{
}

/// A message stands for all its bytes, so that two messages are taken for one
/// only where they hold the same.
pub proof fn law_message_is_all_its_bytes(a: Payload, b: Payload)
    ensures
        a@ == a.data@,
        a@ == b@ ==> a.data@ == b.data@,
{
}

} // verus!
