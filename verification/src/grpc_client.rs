//! The gRPC client: the tests of the suite, as remote procedure calls.
//!
//! A [`RpcTest`] is one test being run. It says what to do next
//! ([`RpcTest::action`]), is told what came of it ([`RpcTest::step`]), and in
//! the end knows what it found out ([`RpcTest::outcome`]).

use vstd::prelude::*;
use crate::feed::{FeedModel, PayloadFeed};
use crate::payload;
use crate::payload::{
    client_payload, Payload, StreamRequest, StreamResponse, BIDI_CHUNKS, LARGE_SIZE, MANY_COUNT,
    SMALL_SIZE, STREAM_CHUNKS, STREAM_CHUNK_SIZE,
};
use crate::plan;
use crate::report::{Outcome, TestKind};
use crate::tally;
use crate::tally::Tally;

verus! {

/// What a test wants done next.
pub enum RpcAction {
    /// Call the procedure that sends a small payload back.
    CallSmallPayload(Payload),
    /// Call the procedure that answers a large payload in size.
    CallLargePayload(Payload),
    /// Call the procedure that streams to the client.
    CallServerStream(StreamRequest),
    /// Call the procedure that counts a stream, and feed it.
    CallClientStream(PayloadFeed),
    /// Call the procedure that sends a stream back, and feed it meanwhile.
    CallBidiStream(PayloadFeed),
    /// Receive the next message.
    Receive,
    /// Wait until the stream to the server is sent.
    JoinSender,
    /// Nothing: the test is over, or cannot go on.
    Done,
}

/// What came of an action.
pub enum RpcEvent {
    /// A call was answered with a payload.
    Replied(Payload),
    /// A call was answered with a count.
    Counted(StreamResponse),
    /// A call was answered with a stream.
    Opened,
    /// A message of the stream came.
    Received(Payload),
    /// The stream is over.
    Ended,
    /// The stream to the server is sent.
    SenderDone,
    /// The transport failed.
    Failed,
}

/// How far a test has come.
#[derive(Clone, Copy, Debug, PartialEq, Eq, Structural)]
pub enum RpcStage {
    Calling,
    Receiving,
    Joining,
    Done,
    /// Given up: the transport failed.
    Failed,
}

/// An action, as the contracts speak of it.
pub enum RpcActionModel {
    CallSmallPayload(Seq<u8>),
    CallLargePayload(Seq<u8>),
    CallServerStream(StreamRequest),
    CallClientStream(FeedModel),
    CallBidiStream(FeedModel),
    Receive,
    JoinSender,
    Done,
}

/// An event, as the contracts speak of it.
pub enum RpcEventModel {
    Replied(Seq<u8>),
    Counted(StreamResponse),
    Opened,
    Received(Seq<u8>),
    Ended,
    SenderDone,
    Failed,
}

impl View for RpcAction {
    type V = RpcActionModel;

    open spec fn view(&self) -> RpcActionModel {
        match *self {
            RpcAction::CallSmallPayload(p) => RpcActionModel::CallSmallPayload(p@),
            RpcAction::CallLargePayload(p) => RpcActionModel::CallLargePayload(p@),
            RpcAction::CallServerStream(r) => RpcActionModel::CallServerStream(r),
            RpcAction::CallClientStream(f) => RpcActionModel::CallClientStream(f@),
            RpcAction::CallBidiStream(f) => RpcActionModel::CallBidiStream(f@),
            RpcAction::Receive => RpcActionModel::Receive,
            RpcAction::JoinSender => RpcActionModel::JoinSender,
            RpcAction::Done => RpcActionModel::Done,
        }
    }
}

impl View for RpcEvent {
    type V = RpcEventModel;

    open spec fn view(&self) -> RpcEventModel {
        match *self {
            RpcEvent::Replied(p) => RpcEventModel::Replied(p@),
            RpcEvent::Counted(r) => RpcEventModel::Counted(r),
            RpcEvent::Opened => RpcEventModel::Opened,
            RpcEvent::Received(p) => RpcEventModel::Received(p@),
            RpcEvent::Ended => RpcEventModel::Ended,
            RpcEvent::SenderDone => RpcEventModel::SenderDone,
            RpcEvent::Failed => RpcEventModel::Failed,
        }
    }
}

/// The call that a test makes, with what it sends.
pub open spec fn call_of(kind: TestKind) -> RpcActionModel {
    match kind {
        TestKind::SmallPayload => RpcActionModel::CallSmallPayload(
            payload::client_data(SMALL_SIZE as nat),
        ),
        TestKind::LargePayload => RpcActionModel::CallLargePayload(
            payload::client_data(LARGE_SIZE as nat),
        ),
        TestKind::ServerStream => RpcActionModel::CallServerStream(
            StreamRequest { chunks: STREAM_CHUNKS as i32, chunk_size: STREAM_CHUNK_SIZE as i32 },
        ),
        TestKind::ClientStream => RpcActionModel::CallClientStream(
            FeedModel::fresh(
                payload::client_data(STREAM_CHUNK_SIZE as nat),
                STREAM_CHUNKS as nat,
            ),
        ),
        TestKind::BidiStream => RpcActionModel::CallBidiStream(
            FeedModel::fresh(payload::client_data(STREAM_CHUNK_SIZE as nat), BIDI_CHUNKS as nat),
        ),
        TestKind::ManyRequests => RpcActionModel::CallSmallPayload(
            payload::client_data(SMALL_SIZE as nat),
        ),
    }
}

/// A test being run, as the contracts speak of it.
pub struct RpcModel {
    pub kind: TestKind,
    pub stage: RpcStage,
    /// Messages and bytes that came back, where the test counts them.
    pub received: Tally,
    /// What the server counted.
    pub counted: StreamResponse,
    /// Calls that were answered.
    pub answered: nat,
}

impl RpcModel {
    /// A test that is about to start.
    pub open spec fn start(kind: TestKind) -> RpcModel {
        RpcModel {
            kind,
            stage: RpcStage::Calling,
            received: Tally::zero(),
            counted: StreamResponse { total_bytes: 0, total_chunks: 0 },
            answered: 0,
        }
    }

    /// What to do next.
    pub open spec fn action(self) -> RpcActionModel {
        match self.stage {
            RpcStage::Calling => call_of(self.kind),
            RpcStage::Receiving => RpcActionModel::Receive,
            RpcStage::Joining => RpcActionModel::JoinSender,
            RpcStage::Done => RpcActionModel::Done,
            RpcStage::Failed => RpcActionModel::Done,
        }
    }

    /// Whether an event answers the action that was asked for, and what it
    /// brings can be counted. Any action can fail.
    pub open spec fn accepts(self, event: RpcEventModel) -> bool {
        match event {
            RpcEventModel::Replied(_) => {
                &&& self.stage == RpcStage::Calling
                &&& self.kind == TestKind::SmallPayload || self.kind == TestKind::LargePayload
                    || self.kind == TestKind::ManyRequests
            },
            RpcEventModel::Counted(_) => self.stage == RpcStage::Calling && self.kind
                == TestKind::ClientStream,
            RpcEventModel::Opened => self.stage == RpcStage::Calling && (self.kind
                == TestKind::ServerStream || self.kind == TestKind::BidiStream),
            RpcEventModel::Received(message) => self.stage == RpcStage::Receiving
                && self.received.has_room(message.len()),
            RpcEventModel::Ended => self.stage == RpcStage::Receiving,
            RpcEventModel::SenderDone => self.stage == RpcStage::Joining,
            RpcEventModel::Failed => self.stage != RpcStage::Done && self.stage != RpcStage::Failed,
        }
    }

    /// The test after an event.
    pub open spec fn after(self, event: RpcEventModel) -> RpcModel {
        match event {
            RpcEventModel::Replied(reply) => match self.kind {
                TestKind::ManyRequests => RpcModel {
                    stage: if self.answered + 1 < plan::request_count(self.kind) {
                        RpcStage::Calling
                    } else {
                        RpcStage::Done
                    },
                    answered: self.answered + 1,
                    ..self
                },
                _ => RpcModel {
                    stage: RpcStage::Done,
                    received: Tally { bytes: reply.len() as usize, ..self.received },
                    answered: self.answered + 1,
                    ..self
                },
            },
            RpcEventModel::Counted(response) => RpcModel {
                stage: RpcStage::Done,
                counted: response,
                answered: self.answered + 1,
                ..self
            },
            RpcEventModel::Opened => RpcModel { stage: RpcStage::Receiving, ..self },
            RpcEventModel::Received(message) => RpcModel {
                received: self.received.plus(message.len()),
                ..self
            },
            RpcEventModel::Ended => if self.kind == TestKind::BidiStream {
                RpcModel { stage: RpcStage::Joining, ..self }
            } else {
                RpcModel {
                    stage: RpcStage::Done,
                    answered: self.answered + 1,
                    ..self
                }
            },
            RpcEventModel::SenderDone => RpcModel {
                stage: RpcStage::Done,
                answered: self.answered + 1,
                ..self
            },
            RpcEventModel::Failed => RpcModel { stage: RpcStage::Failed, ..self },
        }
    }

    /// How far the receiving side of the test has come: messages received, or
    /// calls answered. What is sent, its feed counts.
    pub open spec fn progress(self) -> nat {
        match self.kind {
            TestKind::ServerStream => self.received.chunks as nat,
            TestKind::BidiStream => self.received.chunks as nat,
            TestKind::ManyRequests => self.answered,
            _ => 0,
        }
    }

    /// What the test found out, once it is over.
    pub open spec fn finding(self) -> Outcome {
        match self.kind {
            TestKind::SmallPayload => Outcome::SmallPayload { received: self.received.bytes },
            TestKind::LargePayload => Outcome::LargePayload { received: self.received.bytes },
            TestKind::ServerStream => Outcome::ServerStream { counted: self.received },
            TestKind::ClientStream => Outcome::ClientStreamCounted { response: self.counted },
            TestKind::BidiStream => Outcome::BidiStream { counted: self.received },
            TestKind::ManyRequests => Outcome::ManyRequests,
        }
    }

    /// The test after some messages.
    pub open spec fn after_messages(self, messages: Seq<Seq<u8>>) -> RpcModel
        decreases messages.len(),
    {
        if messages.len() == 0 {
            self
        } else {
            self.after_messages(messages.drop_last()).after(
                RpcEventModel::Received(messages.last()),
            )
        }
    }

    /// The test after some calls, each answered with a payload.
    pub open spec fn after_replies(self, replies: Seq<Seq<u8>>) -> RpcModel
        decreases replies.len(),
    {
        if replies.len() == 0 {
            self
        } else {
            self.after_replies(replies.drop_last()).after(RpcEventModel::Replied(replies.last()))
        }
    }
}

/// A test after some messages.
proof fn lemma_after_messages(test: RpcModel, messages: Seq<Seq<u8>>)
    requires
        test.received == Tally::zero(),
        messages.len() <= usize::MAX,
        tally::total_len(messages) <= usize::MAX,
    ensures
        test.after_messages(messages) == (RpcModel {
            received: Tally {
                chunks: messages.len() as usize,
                bytes: tally::total_len(messages) as usize,
            },
            ..test
        }),
    decreases messages.len(),
{
    if messages.len() > 0 {
        lemma_after_messages(test, messages.drop_last());
    }
}

/// A test of one payload is over with the reply, whose bytes it counts.
pub proof fn law_reply_is_counted(reply: Seq<u8>)
    requires
        reply.len() <= usize::MAX,
    ensures
        ({
            let small = RpcModel::start(TestKind::SmallPayload).after(
                RpcEventModel::Replied(reply),
            );
            let large = RpcModel::start(TestKind::LargePayload).after(
                RpcEventModel::Replied(reply),
            );
            &&& small.action() == RpcActionModel::Done
            &&& small.finding() == (Outcome::SmallPayload { received: reply.len() as usize })
            &&& large.action() == RpcActionModel::Done
            &&& large.finding() == (Outcome::LargePayload { received: reply.len() as usize })
        }),
{
}

/// A test that receives a stream takes every message and its end, for as long
/// as the counts fit.
pub proof fn law_messages_are_taken(kind: TestKind, messages: Seq<Seq<u8>>, next: Seq<u8>)
    requires
        kind == TestKind::ServerStream || kind == TestKind::BidiStream,
        tally::total_len(messages) + next.len() <= usize::MAX,
        messages.len() < usize::MAX,
    ensures
        ({
            let start = RpcModel::start(kind);
            let now = start.after(RpcEventModel::Opened).after_messages(messages);
            &&& start.accepts(RpcEventModel::Opened)
            &&& now.accepts(RpcEventModel::Received(next))
            &&& now.accepts(RpcEventModel::Ended)
        }),
{
    lemma_after_messages(RpcModel::start(kind).after(RpcEventModel::Opened), messages);
}

/// The server stream test counts every message and every byte that comes.
pub proof fn law_server_stream_is_counted(messages: Seq<Seq<u8>>)
    requires
        messages.len() <= usize::MAX,
        tally::total_len(messages) <= usize::MAX,
    ensures
        ({
            let over = RpcModel::start(TestKind::ServerStream).after(
                RpcEventModel::Opened,
            ).after_messages(messages).after(RpcEventModel::Ended);
            &&& over.action() == RpcActionModel::Done
            &&& over.finding() == (Outcome::ServerStream {
                counted: Tally {
                    chunks: messages.len() as usize,
                    bytes: tally::total_len(messages) as usize,
                },
            })
        }),
{
    lemma_after_messages(
        RpcModel::start(TestKind::ServerStream).after(RpcEventModel::Opened),
        messages,
    );
}

/// The bidirectional test counts every message and every byte that comes, and
/// then waits for its own sending before it is over.
pub proof fn law_bidi_stream_is_counted(messages: Seq<Seq<u8>>)
    requires
        messages.len() <= usize::MAX,
        tally::total_len(messages) <= usize::MAX,
    ensures
        ({
            let read = RpcModel::start(TestKind::BidiStream).after(
                RpcEventModel::Opened,
            ).after_messages(messages).after(RpcEventModel::Ended);
            let over = read.after(RpcEventModel::SenderDone);
            &&& read.action() == RpcActionModel::JoinSender
            &&& over.action() == RpcActionModel::Done
            &&& over.finding() == (Outcome::BidiStream {
                counted: Tally {
                    chunks: messages.len() as usize,
                    bytes: tally::total_len(messages) as usize,
                },
            })
        }),
{
    lemma_after_messages(
        RpcModel::start(TestKind::BidiStream).after(RpcEventModel::Opened),
        messages,
    );
}

/// The test of many requests makes exactly [`MANY_COUNT`] calls, whatever is
/// answered, and each time sends the same small payload.
pub proof fn law_many_calls_are_made(replies: Seq<Seq<u8>>)
    requires
        replies.len() <= MANY_COUNT,
    ensures
        ({
            let start = RpcModel::start(TestKind::ManyRequests);
            let now = start.after_replies(replies);
            &&& now.kind == TestKind::ManyRequests
            &&& now.answered == replies.len()
            &&& replies.len() < MANY_COUNT ==> now.action() == start.action()
            &&& replies.len() == MANY_COUNT ==> now.action() == RpcActionModel::Done
        }),
    decreases replies.len(),
{
    if replies.len() > 0 {
        law_many_calls_are_made(replies.drop_last());
    }
}

/// When the transport fails, whatever was under way, the test is given up:
/// there is nothing more to do, no event is taken, and nothing was found out.
pub proof fn law_failure_ends_the_test(now: RpcModel, event: RpcEventModel)
    ensures
        now.action() != RpcActionModel::Done <==> now.accepts(RpcEventModel::Failed),
        now.after(RpcEventModel::Failed).action() == RpcActionModel::Done,
        now.after(RpcEventModel::Failed).stage != RpcStage::Done,
        !now.after(RpcEventModel::Failed).accepts(event),
{
}

/// A test being run.
pub struct RpcTest {
    kind: TestKind,
    stage: RpcStage,
    received: Tally,
    counted: StreamResponse,
    answered: usize,
}

impl View for RpcTest {
    type V = RpcModel;

    closed spec fn view(&self) -> RpcModel {
        RpcModel {
            kind: self.kind,
            stage: self.stage,
            received: self.received,
            counted: self.counted,
            answered: self.answered as nat,
        }
    }
}

impl RpcTest {
    /// The calls that were answered can be counted.
    #[verifier::type_invariant]
    spec fn is_in_order(self) -> bool {
        &&& self.answered <= MANY_COUNT
        &&& self.stage != RpcStage::Done ==> self.answered < MANY_COUNT
    }

    /// A test that is about to start.
    fn new(kind: TestKind) -> (test: RpcTest)
        ensures
            test@ == RpcModel::start(kind),
    {
        RpcTest {
            kind,
            stage: RpcStage::Calling,
            received: Tally::new(),
            counted: StreamResponse { total_bytes: 0, total_chunks: 0 },
            answered: 0,
        }
    }

    /// What to do next.
    pub fn action(&self) -> (action: RpcAction)
        ensures
            action@ == self@.action(),
    {
        match self.stage {
            RpcStage::Calling => match self.kind {
                TestKind::SmallPayload => RpcAction::CallSmallPayload(client_payload(SMALL_SIZE)),
                TestKind::LargePayload => RpcAction::CallLargePayload(client_payload(LARGE_SIZE)),
                TestKind::ServerStream => RpcAction::CallServerStream(
                    StreamRequest {
                        chunks: STREAM_CHUNKS as i32,
                        chunk_size: STREAM_CHUNK_SIZE as i32,
                    },
                ),
                TestKind::ClientStream => RpcAction::CallClientStream(
                    PayloadFeed::new(client_payload(STREAM_CHUNK_SIZE), STREAM_CHUNKS),
                ),
                TestKind::BidiStream => RpcAction::CallBidiStream(
                    PayloadFeed::new(client_payload(STREAM_CHUNK_SIZE), BIDI_CHUNKS),
                ),
                TestKind::ManyRequests => RpcAction::CallSmallPayload(client_payload(SMALL_SIZE)),
            },
            RpcStage::Receiving => RpcAction::Receive,
            RpcStage::Joining => RpcAction::JoinSender,
            RpcStage::Done => RpcAction::Done,
            RpcStage::Failed => RpcAction::Done,
        }
    }

    /// Whether [`RpcTest::step`] can take an event.
    pub fn accepts(&self, event: &RpcEvent) -> (accepted: bool)
        ensures
            accepted == self@.accepts(event@),
    {
        match event {
            RpcEvent::Replied(_) => self.stage == RpcStage::Calling && (self.kind
                == TestKind::SmallPayload || self.kind == TestKind::LargePayload || self.kind
                == TestKind::ManyRequests),
            RpcEvent::Counted(_) => self.stage == RpcStage::Calling && self.kind
                == TestKind::ClientStream,
            RpcEvent::Opened => self.stage == RpcStage::Calling && (self.kind
                == TestKind::ServerStream || self.kind == TestKind::BidiStream),
            RpcEvent::Received(message) => self.stage == RpcStage::Receiving && self.received.fits(
                message.data.len(),
            ),
            RpcEvent::Ended => self.stage == RpcStage::Receiving,
            RpcEvent::SenderDone => self.stage == RpcStage::Joining,
            RpcEvent::Failed => self.stage != RpcStage::Done && self.stage != RpcStage::Failed,
        }
    }

    /// Takes note of what came of the last action.
    pub fn step(&mut self, event: RpcEvent)
        requires
            old(self)@.accepts(event@),
        ensures
            final(self)@ == old(self)@.after(event@),
    {
        proof {
            use_type_invariant(&*self);
        }
        match event {
            RpcEvent::Replied(reply) => {
                let again = match self.kind {
                    TestKind::ManyRequests => self.answered + 1 < MANY_COUNT,
                    _ => {
                        let chunks: usize = self.received.chunks;
                        self.received = Tally { chunks, bytes: reply.data.len() };
                        false
                    },
                };
                self.stage = RpcStage::Done;
                self.answered = self.answered + 1;
                if again {
                    self.stage = RpcStage::Calling;
                }
            },
            RpcEvent::Counted(response) => {
                self.counted = response;
                self.stage = RpcStage::Done;
                self.answered = self.answered + 1;
            },
            RpcEvent::Opened => {
                self.stage = RpcStage::Receiving;
            },
            RpcEvent::Received(message) => {
                let mut received = self.received;
                received.add_len(message.data.len());
                self.received = received;
            },
            RpcEvent::Ended => {
                match self.kind {
                    TestKind::BidiStream => {
                        self.stage = RpcStage::Joining;
                    },
                    _ => {
                        self.stage = RpcStage::Done;
                        self.answered = self.answered + 1;
                    },
                }
            },
            RpcEvent::SenderDone => {
                self.stage = RpcStage::Done;
                self.answered = self.answered + 1;
            },
            RpcEvent::Failed => {
                self.stage = RpcStage::Failed;
            },
        }
    }

    /// How far the receiving side of the test has come.
    pub fn progress(&self) -> (position: u64)
        ensures
            position == self@.progress(),
    {
        match self.kind {
            TestKind::ServerStream => self.received.chunks as u64,
            TestKind::BidiStream => self.received.chunks as u64,
            TestKind::ManyRequests => self.answered as u64,
            _ => 0,
        }
    }

    /// What the test found out; `None` while it runs, and when it was given up.
    pub fn outcome(&self) -> (outcome: Option<Outcome>)
        ensures
            outcome == (if self@.stage == RpcStage::Done {
                Some(self@.finding())
            } else {
                None
            }),
    {
        match self.stage {
            RpcStage::Done => Some(
                match self.kind {
                    TestKind::SmallPayload => Outcome::SmallPayload {
                        received: self.received.bytes,
                    },
                    TestKind::LargePayload => Outcome::LargePayload {
                        received: self.received.bytes,
                    },
                    TestKind::ServerStream => Outcome::ServerStream { counted: self.received },
                    TestKind::ClientStream => Outcome::ClientStreamCounted {
                        response: self.counted,
                    },
                    TestKind::BidiStream => Outcome::BidiStream { counted: self.received },
                    TestKind::ManyRequests => Outcome::ManyRequests,
                },
            ),
            _ => None,
        }
    }
}

/// Calls for a small payload and counts what comes back.
pub fn test_small_payload() -> (test: RpcTest)
    ensures
        test@ == RpcModel::start(TestKind::SmallPayload),
{
    RpcTest::new(TestKind::SmallPayload)
}

/// Calls for a large payload and counts what comes back.
pub fn test_large_payload() -> (test: RpcTest)
    ensures
        test@ == RpcModel::start(TestKind::LargePayload),
{
    RpcTest::new(TestKind::LargePayload)
}

/// Calls for a stream and counts its messages and bytes.
pub fn test_server_stream() -> (test: RpcTest)
    ensures
        test@ == RpcModel::start(TestKind::ServerStream),
{
    RpcTest::new(TestKind::ServerStream)
}

/// Feeds a stream to the server and keeps what it counted.
pub fn test_client_stream() -> (test: RpcTest)
    ensures
        test@ == RpcModel::start(TestKind::ClientStream),
{
    RpcTest::new(TestKind::ClientStream)
}

/// Feeds a stream to the server and counts what comes back.
pub fn test_bidi_stream() -> (test: RpcTest)
    ensures
        test@ == RpcModel::start(TestKind::BidiStream),
{
    RpcTest::new(TestKind::BidiStream)
}

/// Calls for a small payload many times, each time when the last one is answered.
pub fn test_many_requests() -> (test: RpcTest)
    ensures
        test@ == RpcModel::start(TestKind::ManyRequests),
{
    RpcTest::new(TestKind::ManyRequests)
}

/// Starts a test of the suite.
pub fn start_test(kind: TestKind) -> (test: RpcTest)
    ensures
        test@ == RpcModel::start(kind),
{
    match kind {
        TestKind::SmallPayload => test_small_payload(),
        TestKind::LargePayload => test_large_payload(),
        TestKind::ServerStream => test_server_stream(),
        TestKind::ClientStream => test_client_stream(),
        TestKind::BidiStream => test_bidi_stream(),
        TestKind::ManyRequests => test_many_requests(),
    }
}

/// The call of each test, and what it sends: the client's own bytes, or the
/// numbers of the stream that it asks for.
pub proof fn law_calls_send_the_workload(kind: TestKind)
    ensures
        ({
            let own = |data: Seq<u8>, n: int| data.len() == n && forall|i: int|
                0 <= i < n ==> #[trigger] data[i] == 0x42;
            match kind {
                TestKind::SmallPayload | TestKind::ManyRequests => call_of(
                    kind,
                ) matches RpcActionModel::CallSmallPayload(data) && own(data, 20),
                TestKind::LargePayload => call_of(
                    kind,
                ) matches RpcActionModel::CallLargePayload(data) && own(data, 1048576),
                TestKind::ServerStream => call_of(
                    kind,
                ) matches RpcActionModel::CallServerStream(request) && request.chunks == 100
                    && request.chunk_size == 10240,
                TestKind::ClientStream => call_of(
                    kind,
                ) matches RpcActionModel::CallClientStream(feed) && own(feed.chunk, 10240)
                    && feed.left == 100 && feed.given == 0,
                TestKind::BidiStream => call_of(kind) matches RpcActionModel::CallBidiStream(feed)
                    && own(feed.chunk, 10240) && feed.left == 50 && feed.given == 0,
            }
        }),
{
}

/// In every state, what answers the action that is asked for is taken, unless a
/// counter would overflow; and nothing else is taken.
pub proof fn law_every_answer_is_taken(
    now: RpcModel,
    message: Seq<u8>,
    response: StreamResponse,
)
    ensures
        now.action() is CallSmallPayload || now.action() is CallLargePayload <==> now.accepts(
            RpcEventModel::Replied(message),
        ),
        now.action() is CallClientStream <==> now.accepts(RpcEventModel::Counted(response)),
        now.action() is CallServerStream || now.action() is CallBidiStream <==> now.accepts(
            RpcEventModel::Opened,
        ),
        now.action() == RpcActionModel::Receive <==> now.accepts(RpcEventModel::Ended),
        now.action() == RpcActionModel::JoinSender <==> now.accepts(RpcEventModel::SenderDone),
        now.action() == RpcActionModel::Receive && now.received.bytes + message.len() <= usize::MAX
            && now.received.chunks < usize::MAX ==> now.accepts(RpcEventModel::Received(message)),
        now.accepts(RpcEventModel::Received(message)) ==> now.action() == RpcActionModel::Receive,
{
}

/// A test goes its steps in their sequence: a call that is answered with a
/// stream is followed by receiving, until the stream ends; the bidirectional
/// test then waits for its own sending. Every other answer ends the test, but
/// for the test of a thousand requests, which calls again while fewer than that
/// were answered.
pub proof fn law_test_goes_step_by_step(
    now: RpcModel,
    message: Seq<u8>,
    response: StreamResponse,
)
    ensures
        ({
            let replied = now.after(RpcEventModel::Replied(message));
            let ended = now.after(RpcEventModel::Ended);
            &&& RpcModel::start(now.kind).action() == call_of(now.kind)
            &&& now.kind != TestKind::ManyRequests || now.answered >= 999 ==> replied.action()
                == RpcActionModel::Done
            &&& now.kind == TestKind::ManyRequests && now.answered < 999 ==> replied.action()
                == call_of(now.kind)
            &&& replied.answered == now.answered + 1
            &&& now.after(RpcEventModel::Counted(response)).action() == RpcActionModel::Done
            &&& now.after(RpcEventModel::Opened).action() == RpcActionModel::Receive
            &&& now.action() == RpcActionModel::Receive ==> now.after(
                RpcEventModel::Received(message),
            ).action() == RpcActionModel::Receive
            &&& now.kind == TestKind::BidiStream ==> ended.action() == RpcActionModel::JoinSender
            &&& now.kind != TestKind::BidiStream ==> ended.action() == RpcActionModel::Done
            &&& now.after(RpcEventModel::SenderDone).action() == RpcActionModel::Done
        }),
{
}

/// Whatever comes, a test stays the test that it is.
pub proof fn law_test_stays_itself(now: RpcModel, event: RpcEventModel)
    ensures
        now.after(event).kind == now.kind,
{
}

/// What the client stream finds out is what the server counted, number by
/// number. The test of many requests finds out that they were answered.
pub proof fn law_count_is_told_as_it_came(response: StreamResponse, now: RpcModel)
    requires
        now.kind == TestKind::ManyRequests,
    ensures
        RpcModel::start(TestKind::ClientStream).after(RpcEventModel::Counted(response)).finding()
            == (Outcome::ClientStreamCounted { response }),
        now.finding() == Outcome::ManyRequests,
{
}

/// The progress counts the messages that came of a stream, and the calls that
/// were answered of many. Where nothing of this is waited for, it stays at zero.
pub proof fn law_progress_counts_what_came(
    kind: TestKind,
    messages: Seq<Seq<u8>>,
    replies: Seq<Seq<u8>>,
)
    requires
        tally::total_len(messages) <= usize::MAX,
        messages.len() <= usize::MAX,
        replies.len() <= MANY_COUNT,
    ensures
        ({
            let came = RpcModel::start(kind).after(RpcEventModel::Opened).after_messages(messages);
            &&& kind == TestKind::ServerStream || kind == TestKind::BidiStream ==> came.progress()
                == messages.len()
            &&& kind == TestKind::SmallPayload || kind == TestKind::LargePayload || kind
                == TestKind::ClientStream ==> came.progress() == 0
            &&& RpcModel::start(TestKind::ManyRequests).after_replies(replies).progress()
                == replies.len()
        }),
{
    lemma_after_messages(RpcModel::start(kind).after(RpcEventModel::Opened), messages);
    law_many_calls_are_made(replies);
}

/// What is sent is what was decided, and what came is taken for all that it holds.
pub proof fn law_actions_and_events_are_whole(
    payload: Payload,
    request: StreamRequest,
    feed: PayloadFeed,
    response: StreamResponse,
)
    ensures
        RpcAction::CallSmallPayload(payload)@ == RpcActionModel::CallSmallPayload(payload.data@),
        RpcAction::CallLargePayload(payload)@ == RpcActionModel::CallLargePayload(payload.data@),
        RpcAction::CallServerStream(request)@ == RpcActionModel::CallServerStream(request),
        RpcAction::CallClientStream(feed)@ == RpcActionModel::CallClientStream(feed@),
        RpcAction::CallBidiStream(feed)@ == RpcActionModel::CallBidiStream(feed@),
        RpcAction::Receive@ == RpcActionModel::Receive,
        RpcAction::JoinSender@ == RpcActionModel::JoinSender,
        RpcAction::Done@ == RpcActionModel::Done,
        RpcEvent::Replied(payload)@ == RpcEventModel::Replied(payload.data@),
        RpcEvent::Counted(response)@ == RpcEventModel::Counted(response),
        RpcEvent::Opened@ == RpcEventModel::Opened,
        RpcEvent::Received(payload)@ == RpcEventModel::Received(payload.data@),
        RpcEvent::Ended@ == RpcEventModel::Ended,
        RpcEvent::SenderDone@ == RpcEventModel::SenderDone,
        RpcEvent::Failed@ == RpcEventModel::Failed,
{
}

} // verus!
