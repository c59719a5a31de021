//! The remote procedure calls that the gRPC server answers.

use vstd::prelude::*;
use crate::feed::{FeedModel, PayloadFeed};
use crate::payload;
use crate::payload::{server_payload, server_payload_like, Payload, StreamRequest, StreamResponse, SERVER_BYTE};
use crate::tally;

verus! {

/// The service. It keeps nothing between calls.
#[derive(Debug)]
pub struct BenchService {}

impl Default for BenchService {
    fn default() -> (service: BenchService)
        ensures
            service == (BenchService {  }),
    {
        BenchService {  }
    }
}

/// What a server stream sends: the chunks that were asked for. A negative
/// number of chunks is taken for the `usize` that its sign extension spells.
/// There is no chunk of a negative size, so a stream of such chunks is empty.
pub open spec fn stream_asked_for(request: StreamRequest) -> FeedModel {
    if request.chunk_size < 0 {
        FeedModel::fresh(Seq::empty(), 0)
    } else {
        FeedModel::fresh(
            payload::server_data(request.chunk_size as nat),
            request.chunks as usize as nat,
        )
    }
}

/// What a large payload is answered with: as many bytes, of the server's own.
pub open spec fn large_reply(request: Seq<u8>) -> Seq<u8> {
    payload::server_data(request.len())
}

/// A large payload is answered in size, and what it holds does not matter: two
/// payloads of one length get the same reply, of that length and made of the
/// server's own bytes. An empty one gets an empty one.
pub proof fn law_large_reply_goes_by_length(x: Payload, y: Payload)
    requires
        x@.len() == y@.len(),
    ensures
        large_reply(x@) == large_reply(y@),
        large_reply(x@).len() == x@.len(),
        forall|i: int| 0 <= i < x@.len() ==> #[trigger] large_reply(x@)[i] == SERVER_BYTE,
        x@.len() == 0 ==> large_reply(x@) == Seq::<u8>::empty(),
{
}

impl BenchService {
    /// Sends a payload back.
    pub fn small_payload(&self, request: Payload) -> (reply: Payload)
        ensures
            reply@ == request@,
    {
        Payload { data: request.data }
    }

    /// Sends a payload of the same size back.
    pub fn large_payload(&self, request: Payload) -> (reply: Payload)
        ensures
            reply@ == large_reply(request@),
    {
        server_payload_like(&request)
    }

    /// Sends as many chunks as were asked for, until nobody takes them. A
    /// stream of chunks of a negative size ends without any.
    pub fn server_stream(&self, request: StreamRequest) -> (stream: PayloadFeed)
        ensures
            stream@ == stream_asked_for(request),
            request.chunk_size < 0 ==> stream@.offered() is None,
    {
        if request.chunk_size < 0 {
            return PayloadFeed::new(Payload { data: Vec::new() }, 0);
        }
        let chunks: usize = request.chunks as usize;
        let chunk_size: usize = request.chunk_size as usize;
        PayloadFeed::new(server_payload(chunk_size), chunks)
    }

    /// Starts to count the messages of a client.
    pub fn client_stream(&self) -> (count: StreamCount)
        ensures
            count == StreamCount::zero(),
    {
        StreamCount {
            stage: CountStage::Receiving,
            totals: StreamResponse { total_bytes: 0, total_chunks: 0 },
        }
    }

    /// Starts to send the messages of a client back.
    pub fn bidi_stream(&self) -> (echo: Echo)
        ensures
            echo == (Echo { stage: EchoStage::Receiving }),
    {
        Echo { stage: EchoStage::Receiving }
    }
}

/// What a stream of messages brings next.
pub enum StreamEvent {
    /// A message.
    Received(Payload),
    /// The stream broke.
    Failed,
    /// The stream is over.
    Ended,
}

/// How far a count has come.
#[derive(Clone, Copy, Debug, PartialEq, Eq, Structural)]
pub enum CountStage {
    Receiving,
    Failed,
    Ended,
}

/// What a count wants done next.
#[derive(Clone, Copy, Debug, PartialEq, Eq, Structural)]
pub enum CountAction {
    /// Receive the next message.
    Receive,
    /// Pass on why the stream broke.
    Fail,
    /// Answer the call.
    Reply(StreamResponse),
}

/// The messages of a client being counted.
#[derive(Clone, Copy, Debug, PartialEq, Eq, Structural)]
pub struct StreamCount {
    pub stage: CountStage,
    pub totals: StreamResponse,
}

impl StreamCount {
    /// Nothing received.
    pub open spec fn zero() -> StreamCount {
        StreamCount {
            stage: CountStage::Receiving,
            totals: StreamResponse { total_bytes: 0, total_chunks: 0 },
        }
    }

    /// Whether an event can be taken: none came that ends the count, and a
    /// message still fits the totals.
    pub open spec fn has_room(self, event: StreamEvent) -> bool {
        &&& self.stage == CountStage::Receiving
        &&& event matches StreamEvent::Received(message) ==> {
            &&& self.totals.total_bytes + message@.len() <= i64::MAX
            &&& self.totals.total_chunks < i32::MAX
        }
    }

    /// The count after an event.
    pub open spec fn after(self, event: StreamEvent) -> StreamCount {
        match event {
            StreamEvent::Received(message) => StreamCount {
                totals: StreamResponse {
                    total_bytes: (self.totals.total_bytes + message@.len()) as i64,
                    total_chunks: (self.totals.total_chunks + 1) as i32,
                },
                ..self
            },
            StreamEvent::Failed => StreamCount { stage: CountStage::Failed, ..self },
            StreamEvent::Ended => StreamCount { stage: CountStage::Ended, ..self },
        }
    }

    /// The count after some messages.
    pub open spec fn after_messages(self, messages: Seq<Payload>) -> StreamCount
        decreases messages.len(),
    {
        if messages.len() == 0 {
            self
        } else {
            self.after_messages(messages.drop_last()).after(StreamEvent::Received(messages.last()))
        }
    }

    /// What a count does next.
    pub open spec fn to_do(self) -> CountAction {
        match self.stage {
            CountStage::Receiving => CountAction::Receive,
            CountStage::Failed => CountAction::Fail,
            CountStage::Ended => CountAction::Reply(self.totals),
        }
    }

    /// What to do next: go on, give up without an answer, or answer with the totals.
    pub fn action(&self) -> (action: CountAction)
        ensures
            action == self.to_do(),
            action == match self.stage {
                CountStage::Receiving => CountAction::Receive,
                CountStage::Failed => CountAction::Fail,
                CountStage::Ended => CountAction::Reply(self.totals),
            },
    {
        match self.stage {
            CountStage::Receiving => CountAction::Receive,
            CountStage::Failed => CountAction::Fail,
            CountStage::Ended => CountAction::Reply(self.totals),
        }
    }

    /// Whether [`StreamCount::step`] can take an event.
    pub fn accepts(&self, event: &StreamEvent) -> (accepted: bool)
        ensures
            accepted == self.has_room(*event),
    {
        match event {
            StreamEvent::Received(message) => {
                let bytes: i128 = self.totals.total_bytes as i128 + message.data.len() as i128;
                self.stage == CountStage::Receiving && self.totals.total_chunks < i32::MAX && bytes
                    <= i64::MAX as i128
            },
            _ => self.stage == CountStage::Receiving,
        }
    }

    /// Takes note of what the stream brought.
    pub fn step(&mut self, event: StreamEvent)
        requires
            old(self).has_room(event),
        ensures
            *final(self) == old(self).after(event),
    {
        match event {
            StreamEvent::Received(message) => {
                let bytes: i128 = self.totals.total_bytes as i128 + message.data.len() as i128;
                self.totals = StreamResponse {
                    total_bytes: bytes as i64,
                    total_chunks: self.totals.total_chunks + 1,
                };
            },
            StreamEvent::Failed => {
                self.stage = CountStage::Failed;
            },
            StreamEvent::Ended => {
                self.stage = CountStage::Ended;
            },
        }
    }
}

/// The contents of some messages.
pub open spec fn contents(messages: Seq<Payload>) -> Seq<Seq<u8>> {
    messages.map_values(|m: Payload| m@)
}

/// A client stream that ends is answered with the number of its messages and
/// of their bytes.
pub proof fn law_client_stream_is_counted(messages: Seq<Payload>)
    requires
        messages.len() <= i32::MAX,
        tally::total_len(contents(messages)) <= i64::MAX,
    ensures
        StreamCount::zero().after_messages(messages).after(StreamEvent::Ended) == (StreamCount {
            stage: CountStage::Ended,
            totals: StreamResponse {
                total_bytes: tally::total_len(contents(messages)) as i64,
                total_chunks: messages.len() as i32,
            },
        }),
{
    lemma_count_after(messages);
}

/// The count after some messages.
proof fn lemma_count_after(messages: Seq<Payload>)
    requires
        messages.len() <= i32::MAX,
        tally::total_len(contents(messages)) <= i64::MAX,
    ensures
        StreamCount::zero().after_messages(messages) == (StreamCount {
            stage: CountStage::Receiving,
            totals: StreamResponse {
                total_bytes: tally::total_len(contents(messages)) as i64,
                total_chunks: messages.len() as i32,
            },
        }),
    decreases messages.len(),
{
    if messages.len() > 0 {
        let front = messages.drop_last();
        assert(contents(messages).drop_last() =~= contents(front));
        assert(contents(messages).last() == messages.last()@);
        lemma_count_after(front);
    }
}

/// How far an echo has come.
#[derive(Clone, Copy, Debug, PartialEq, Eq, Structural)]
pub enum EchoStage {
    Receiving,
    Sending,
    Stopped,
}

/// What an echo is told.
pub enum EchoEvent {
    /// What the stream of the client brought.
    Incoming(StreamEvent),
    /// The message that was sent back was taken.
    Delivered,
    /// Nobody takes messages any more.
    Refused,
}

/// What an echo wants done next.
pub enum EchoAction {
    /// Receive the next message.
    Receive,
    /// Send this message back.
    Send(Payload),
    /// Nothing more.
    Stop,
}

/// The messages of a client being sent back.
#[derive(Clone, Copy, Debug, PartialEq, Eq, Structural)]
pub struct Echo {
    pub stage: EchoStage,
}

impl Echo {
    /// Whether an event answers the last action.
    pub open spec fn expects(self, event: EchoEvent) -> bool {
        match event {
            EchoEvent::Incoming(_) => self.stage == EchoStage::Receiving,
            EchoEvent::Delivered => self.stage == EchoStage::Sending,
            EchoEvent::Refused => self.stage == EchoStage::Sending,
        }
    }

    /// The echo after an event: a message is sent back, and then the next one
    /// is received. It stops when the stream breaks or ends, and when nobody
    /// takes its messages.
    pub open spec fn after(self, event: EchoEvent) -> Echo {
        Echo {
            stage: match event {
                EchoEvent::Incoming(StreamEvent::Received(_)) => EchoStage::Sending,
                EchoEvent::Incoming(StreamEvent::Failed) => EchoStage::Stopped,
                EchoEvent::Incoming(StreamEvent::Ended) => EchoStage::Stopped,
                EchoEvent::Delivered => EchoStage::Receiving,
                EchoEvent::Refused => EchoStage::Stopped,
            },
        }
    }

    /// What the echo does once it is told of an event.
    pub open spec fn reaction(event: EchoEvent) -> EchoAction {
        match event {
            EchoEvent::Incoming(StreamEvent::Received(message)) => EchoAction::Send(message),
            EchoEvent::Delivered => EchoAction::Receive,
            _ => EchoAction::Stop,
        }
    }

    /// The messages that the echo sends when some messages come and what it
    /// sends is taken.
    pub open spec fn echoes(messages: Seq<Payload>) -> Seq<Payload>
        decreases messages.len(),
    {
        if messages.len() == 0 {
            Seq::empty()
        } else {
            let came = EchoEvent::Incoming(StreamEvent::Received(messages.last()));
            match Echo::reaction(came) {
                EchoAction::Send(message) => Echo::echoes(messages.drop_last()).push(message),
                _ => Echo::echoes(messages.drop_last()),
            }
        }
    }

    /// The echo after some messages that were all sent back and taken.
    pub open spec fn after_messages(self, messages: Seq<Payload>) -> Echo
        decreases messages.len(),
    {
        if messages.len() == 0 {
            self
        } else {
            self.after_messages(messages.drop_last()).after(
                EchoEvent::Incoming(StreamEvent::Received(messages.last())),
            ).after(EchoEvent::Delivered)
        }
    }

    /// Whether [`Echo::step`] can take an event.
    pub fn accepts(&self, event: &EchoEvent) -> (accepted: bool)
        ensures
            accepted == self.expects(*event),
    {
        match event {
            EchoEvent::Incoming(_) => self.stage == EchoStage::Receiving,
            EchoEvent::Delivered => self.stage == EchoStage::Sending,
            EchoEvent::Refused => self.stage == EchoStage::Sending,
        }
    }

    /// Takes note of an event, and says what to do next.
    pub fn step(&mut self, event: EchoEvent) -> (action: EchoAction)
        requires
            old(self).expects(event),
        ensures
            *final(self) == old(self).after(event),
            action == Echo::reaction(event),
    {
        match event {
            EchoEvent::Incoming(StreamEvent::Received(message)) => {
                self.stage = EchoStage::Sending;
                EchoAction::Send(message)
            },
            EchoEvent::Delivered => {
                self.stage = EchoStage::Receiving;
                EchoAction::Receive
            },
            _ => {
                self.stage = EchoStage::Stopped;
                EchoAction::Stop
            },
        }
    }
}

/// An echo whose messages are taken goes on for as long as messages come, one
/// at a time.
pub proof fn law_echo_goes_on(messages: Seq<Payload>, next: Payload)
    ensures
        ({
            let now = (Echo { stage: EchoStage::Receiving }).after_messages(messages);
            let came = EchoEvent::Incoming(StreamEvent::Received(next));
            &&& now.expects(came)
            &&& now.after(came).expects(EchoEvent::Delivered)
            &&& !now.after(came).expects(came)
        }),
    decreases messages.len(),
{
    if messages.len() > 0 {
        law_echo_goes_on(messages.drop_last(), messages.last());
    }
}

/// The echo sends back the messages that come, every one of them and in the
/// sequence in which they come.
pub proof fn law_echo_sends_back_what_comes(messages: Seq<Payload>)
    ensures
        Echo::echoes(messages) == messages,
    decreases messages.len(),
{
    if messages.len() > 0 {
        law_echo_sends_back_what_comes(messages.drop_last());
        assert(messages.drop_last().push(messages.last()) =~= messages);
    } else {
        assert(messages =~= Seq::<Payload>::empty());
    }
}

/// A count takes every message for as long as the totals fit, and the end of
/// the stream whenever it comes.
pub proof fn law_messages_are_taken(messages: Seq<Payload>, next: Payload)
    requires
        messages.len() < i32::MAX,
        tally::total_len(contents(messages)) + next@.len() <= i64::MAX,
    ensures
        ({
            let now = StreamCount::zero().after_messages(messages);
            &&& now.has_room(StreamEvent::Received(next))
            &&& now.has_room(StreamEvent::Failed)
            &&& now.has_room(StreamEvent::Ended)
        }),
{
    lemma_count_after(messages);
}

/// A stream that was asked for with numbers that are not negative has that
/// many chunks, each of that size, and then ends.
pub proof fn law_server_stream_sends_what_is_asked(request: StreamRequest, k: nat)
    requires
        request.chunks >= 0,
        request.chunk_size >= 0,
        k <= request.chunks,
    ensures
        ({
            let now = stream_asked_for(request).after_deliveries(k);
            &&& k < request.chunks ==> now.offered() == Some(
                payload::server_data(request.chunk_size as nat),
            )
            &&& k == request.chunks ==> now.offered() is None
        }),
{
    crate::feed::law_feed_sends_every_chunk(
        payload::server_data(request.chunk_size as nat),
        request.chunks as nat,
        k,
    );
}

/// A stream of chunks of a negative size ends without any, however many were
/// asked for.
pub proof fn law_negative_size_streams_nothing(request: StreamRequest)
    requires
        request.chunk_size < 0,
    ensures
        stream_asked_for(request).offered() is None,
        stream_asked_for(request).given == 0,
{
}

/// A client stream is answered when it ends, with the number of its messages and
/// of their bytes, and not before. When it breaks there is no answer. After
/// either, nothing more is taken.
pub proof fn law_count_is_answered_at_the_end(messages: Seq<Payload>, event: StreamEvent)
    requires
        messages.len() <= i32::MAX,
        tally::total_len(contents(messages)) <= i64::MAX,
    ensures
        ({
            let now = StreamCount::zero().after_messages(messages);
            let over = now.after(StreamEvent::Ended);
            let broken = now.after(StreamEvent::Failed);
            &&& now.to_do() == CountAction::Receive
            &&& over.to_do() matches CountAction::Reply(totals) && totals.total_chunks
                == messages.len() && totals.total_bytes == tally::total_len(contents(messages))
            &&& broken.to_do() == CountAction::Fail
            &&& !over.has_room(event)
            &&& !broken.has_room(event)
        }),
{
    lemma_count_after(messages);
}

/// The echo sends back the message that came and no other. It stops, for good,
/// when the stream of the client ends or breaks and when nobody takes what it
/// sends.
pub proof fn law_echo_stops_for_good(echo: Echo, message: Payload, event: EchoEvent)
    ensures
        Echo::reaction(EchoEvent::Incoming(StreamEvent::Received(message))) == EchoAction::Send(
            message,
        ),
        Echo::reaction(EchoEvent::Delivered) == EchoAction::Receive,
        Echo::reaction(EchoEvent::Incoming(StreamEvent::Ended)) == EchoAction::Stop,
        Echo::reaction(EchoEvent::Incoming(StreamEvent::Failed)) == EchoAction::Stop,
        Echo::reaction(EchoEvent::Refused) == EchoAction::Stop,
        !echo.after(EchoEvent::Incoming(StreamEvent::Ended)).expects(event),
        !echo.after(EchoEvent::Incoming(StreamEvent::Failed)).expects(event),
        !echo.after(EchoEvent::Refused).expects(event),
        echo.after(EchoEvent::Incoming(StreamEvent::Received(message))).expects(EchoEvent::Refused),
        echo.after(EchoEvent::Delivered).expects(EchoEvent::Incoming(StreamEvent::Ended)),
{
}

/// A negative number of chunks counts back from one more than the largest
/// machine number, so that such a stream goes on until nobody takes it.
pub proof fn law_negative_count_wraps(request: StreamRequest)
    requires
        request.chunks < 0,
        request.chunk_size >= 0,
    ensures
        stream_asked_for(request).left == usize::MAX + 1 + request.chunks,
        stream_asked_for(request).offered() == Some(
            payload::server_data(request.chunk_size as nat),
        ),
{
    let chunks = request.chunks;
    assert(usize::BITS == 32 ==> chunks < 0 ==> chunks as usize as int == 0x1_0000_0000 + chunks)
        by (bit_vector);
    assert(usize::BITS == 64 ==> chunks < 0 ==> chunks as usize as int == 0x1_0000_0000_0000_0000
        + chunks) by (bit_vector);
}

} // verus!
