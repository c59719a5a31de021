//! The HTTP/3 client: the tests of the suite, as exchanges of one request each.
//!
//! An [`Exchange`] is one test being run. It says what to do next
//! ([`Exchange::action`]), is told what came of it ([`Exchange::step`]), and in
//! the end knows what it found out ([`Exchange::outcome`]).

use vstd::prelude::*;
use vstd::string::*;
use vstd::utf8::*;
use bytes::Bytes;
use crate::buffer;
use crate::buffer::{buffer_of, collect_bytes, count_bytes, length, text_of};
use crate::endpoint;
use crate::endpoint::request_for;
use crate::feed::{Feed, FeedEvent, FeedModel};
use crate::message;
use crate::message::InvalidTarget;
use crate::payload::{BIDI_CHUNKS, MANY_COUNT, STREAM_CHUNKS};
use crate::plan;
use crate::plan::{outgoing_feed, route_for_test};
use crate::report::{Outcome, TestKind};
use crate::tally;
use crate::tally::Tally;

verus! {

/// What an exchange wants done next.
pub enum ClientAction {
    /// Open a stream with this request.
    Open(http::Request<()>),
    /// Send a chunk of the request body.
    Send(Bytes),
    /// End the request body.
    Finish,
    /// Wait for the head of the response.
    AwaitHead,
    /// Receive the next chunk of the response body.
    Receive,
    /// Nothing: the test is over, or cannot go on.
    Done,
}

/// What came of an action.
pub enum ClientEvent {
    /// The stream is open.
    Opened,
    /// A chunk of the request body was sent.
    Sent,
    /// The request body was ended.
    Finished,
    /// The head of the response came.
    HeadCame,
    /// A chunk of the response body came.
    Received(Bytes),
    /// The response body is over.
    BodyEnded,
    /// The transport failed.
    Failed,
}

/// How far an exchange has come.
#[derive(Clone, Copy, Debug, PartialEq, Eq, Structural)]
pub enum ClientStage {
    Opening,
    Sending,
    Finishing,
    AwaitingHead,
    Receiving,
    Done,
    /// Given up: the transport failed.
    Failed,
}

/// An action, as the contracts speak of it.
pub enum ClientActionModel {
    Open(Seq<char>),
    Send(Seq<u8>),
    Finish,
    AwaitHead,
    Receive,
    Done,
}

/// An event, as the contracts speak of it.
pub enum ClientEventModel {
    Opened,
    Sent,
    Finished,
    HeadCame,
    Received(Seq<u8>),
    BodyEnded,
    Failed,
}

impl ClientAction {
    /// Whether this action is the one that a model calls for. What is opened
    /// is a POST request for the URI.
    pub open spec fn carries_out(self, model: ClientActionModel) -> bool {
        match (self, model) {
            (ClientAction::Open(request), ClientActionModel::Open(uri)) => {
                &&& message::post_request(uri) == Some(request)
                &&& message::request_method(request) == "POST"@
                &&& message::keeps_plain_uri(uri, request)
            },
            (ClientAction::Send(chunk), ClientActionModel::Send(bytes)) => buffer::content(chunk)
                == bytes,
            (ClientAction::Finish, ClientActionModel::Finish) => true,
            (ClientAction::AwaitHead, ClientActionModel::AwaitHead) => true,
            (ClientAction::Receive, ClientActionModel::Receive) => true,
            (ClientAction::Done, ClientActionModel::Done) => true,
            _ => false,
        }
    }
}

impl View for ClientEvent {
    type V = ClientEventModel;

    open spec fn view(&self) -> ClientEventModel {
        match *self {
            ClientEvent::Opened => ClientEventModel::Opened,
            ClientEvent::Sent => ClientEventModel::Sent,
            ClientEvent::Finished => ClientEventModel::Finished,
            ClientEvent::HeadCame => ClientEventModel::HeadCame,
            ClientEvent::Received(chunk) => ClientEventModel::Received(buffer::content(chunk)),
            ClientEvent::BodyEnded => ClientEventModel::BodyEnded,
            ClientEvent::Failed => ClientEventModel::Failed,
        }
    }
}

/// A test being run, as the contracts speak of it.
pub struct ExchangeModel {
    pub kind: TestKind,
    /// The URI of the server.
    pub base_uri: Seq<char>,
    pub stage: ClientStage,
    /// What is being sent in this request.
    pub feed: FeedModel,
    /// Bytes that came back, where the test counts them.
    pub bytes: nat,
    /// Chunks that came back, where the test counts them.
    pub chunks: nat,
    /// The response body, where the test keeps it.
    pub body: Seq<u8>,
    /// Requests that were answered.
    pub answered: nat,
}

impl ExchangeModel {
    /// A test that is about to start.
    pub open spec fn start(kind: TestKind, base_uri: Seq<char>) -> ExchangeModel {
        ExchangeModel {
            kind,
            base_uri,
            stage: ClientStage::Opening,
            feed: plan::outgoing(kind),
            bytes: 0,
            chunks: 0,
            body: Seq::empty(),
            answered: 0,
        }
    }

    /// The URI of the request.
    pub open spec fn target(self) -> Seq<char> {
        endpoint::target_of(self.base_uri, plan::route_for(self.kind))
    }

    /// What to do next.
    pub open spec fn action(self) -> ClientActionModel {
        match self.stage {
            ClientStage::Opening => ClientActionModel::Open(self.target()),
            ClientStage::Sending => ClientActionModel::Send(self.feed.chunk),
            ClientStage::Finishing => ClientActionModel::Finish,
            ClientStage::AwaitingHead => ClientActionModel::AwaitHead,
            ClientStage::Receiving => ClientActionModel::Receive,
            ClientStage::Done => ClientActionModel::Done,
            ClientStage::Failed => ClientActionModel::Done,
        }
    }

    /// Whether the test counts the bytes that come back.
    pub open spec fn counts_bytes(self) -> bool {
        self.kind != TestKind::ClientStream && self.kind != TestKind::ManyRequests
    }

    /// Whether the test counts the chunks that come back.
    pub open spec fn counts_chunks(self) -> bool {
        self.kind == TestKind::ServerStream || self.kind == TestKind::BidiStream
    }

    /// Whether an event answers the action that was asked for, and what it
    /// brings can be counted. Any action can fail.
    pub open spec fn accepts(self, event: ClientEventModel) -> bool {
        match event {
            ClientEventModel::Opened => self.stage == ClientStage::Opening,
            ClientEventModel::Sent => self.stage == ClientStage::Sending,
            ClientEventModel::Finished => self.stage == ClientStage::Finishing,
            ClientEventModel::HeadCame => self.stage == ClientStage::AwaitingHead,
            ClientEventModel::Received(chunk) => {
                &&& self.stage == ClientStage::Receiving
                &&& self.counts_bytes() ==> self.bytes + chunk.len() <= usize::MAX
                &&& self.counts_chunks() ==> self.chunks < usize::MAX
            },
            ClientEventModel::BodyEnded => self.stage == ClientStage::Receiving,
            ClientEventModel::Failed => self.stage != ClientStage::Done && self.stage != ClientStage::Failed,
        }
    }

    /// The test after an event.
    pub open spec fn after(self, event: ClientEventModel) -> ExchangeModel {
        match event {
            ClientEventModel::Opened => ExchangeModel { stage: ClientStage::Sending, ..self },
            ClientEventModel::Sent => {
                let feed = self.feed.after(FeedEvent::Delivered);
                ExchangeModel {
                    feed,
                    stage: if feed.left > 0 {
                        ClientStage::Sending
                    } else {
                        ClientStage::Finishing
                    },
                    ..self
                }
            },
            ClientEventModel::Finished => ExchangeModel {
                stage: ClientStage::AwaitingHead,
                ..self
            },
            ClientEventModel::HeadCame => ExchangeModel { stage: ClientStage::Receiving, ..self },
            ClientEventModel::Received(chunk) => ExchangeModel {
                bytes: if self.counts_bytes() {
                    self.bytes + chunk.len()
                } else {
                    self.bytes
                },
                chunks: if self.counts_chunks() {
                    self.chunks + 1
                } else {
                    self.chunks
                },
                body: if self.kind == TestKind::ClientStream {
                    self.body + chunk
                } else {
                    self.body
                },
                ..self
            },
            ClientEventModel::BodyEnded => if self.answered + 1 < plan::request_count(self.kind) {
                ExchangeModel {
                    stage: ClientStage::Opening,
                    feed: plan::outgoing(self.kind),
                    answered: self.answered + 1,
                    ..self
                }
            } else {
                ExchangeModel { stage: ClientStage::Done, answered: self.answered + 1, ..self }
            },
            ClientEventModel::Failed => ExchangeModel { stage: ClientStage::Failed, ..self },
        }
    }

    /// How far the progress of the test has come: chunks received, chunks
    /// sent, both together, or requests answered.
    pub open spec fn progress(self) -> nat {
        match self.kind {
            TestKind::SmallPayload => 0,
            TestKind::LargePayload => 0,
            TestKind::ServerStream => self.chunks,
            TestKind::ClientStream => self.feed.given,
            TestKind::BidiStream => self.feed.given + self.chunks,
            TestKind::ManyRequests => self.answered,
        }
    }

    /// Whether an outcome is what the test found out.
    pub open spec fn found(self, outcome: Outcome) -> bool {
        match self.kind {
            TestKind::SmallPayload => outcome == (Outcome::SmallPayload {
                received: self.bytes as usize,
            }),
            TestKind::LargePayload => outcome == (Outcome::LargePayload {
                received: self.bytes as usize,
            }),
            TestKind::ServerStream => outcome == (Outcome::ServerStream {
                counted: Tally { chunks: self.chunks as usize, bytes: self.bytes as usize },
            }),
            TestKind::ClientStream => outcome matches Outcome::ClientStream { reply } && reply@
                == buffer::text_in(self.body),
            TestKind::BidiStream => outcome == (Outcome::BidiStream {
                counted: Tally { chunks: self.chunks as usize, bytes: self.bytes as usize },
            }),
            TestKind::ManyRequests => outcome == Outcome::ManyRequests,
        }
    }

    /// The test after `k` chunks of its request were sent.
    pub open spec fn after_sending(self, k: nat) -> ExchangeModel
        decreases k,
    {
        if k == 0 {
            self
        } else {
            self.after_sending((k - 1) as nat).after(ClientEventModel::Sent)
        }
    }

    /// The test after some chunks of the response came.
    pub open spec fn after_receiving(self, parts: Seq<Seq<u8>>) -> ExchangeModel
        decreases parts.len(),
    {
        if parts.len() == 0 {
            self
        } else {
            self.after_receiving(parts.drop_last()).after(ClientEventModel::Received(parts.last()))
        }
    }

    /// The test after its request went out.
    pub open spec fn after_request(self) -> ExchangeModel {
        self.after(ClientEventModel::Opened).after_sending(self.feed.left).after(
            ClientEventModel::Finished,
        ).after(ClientEventModel::HeadCame)
    }

    /// The test after one whole request, answered by these chunks.
    pub open spec fn after_exchange(self, parts: Seq<Seq<u8>>) -> ExchangeModel {
        self.after_request().after_receiving(parts).after(ClientEventModel::BodyEnded)
    }

    /// The test after some whole requests, each answered by its own chunks.
    pub open spec fn after_exchanges(self, answers: Seq<Seq<Seq<u8>>>) -> ExchangeModel
        decreases answers.len(),
    {
        if answers.len() == 0 {
            self
        } else {
            self.after_exchanges(answers.drop_last()).after_exchange(answers.last())
        }
    }
}

/// A test sends its chunk as often as it should, and ends the request only then.
pub proof fn law_request_is_sent_whole(kind: TestKind, base_uri: Seq<char>, k: nat)
    requires
        k <= plan::outgoing(kind).left,
    ensures
        ({
            let start = ExchangeModel::start(kind, base_uri);
            let now = start.after(ClientEventModel::Opened).after_sending(k);
            &&& start.action() == ClientActionModel::Open(
                endpoint::target_of(base_uri, plan::route_for(kind)),
            )
            &&& k < plan::outgoing(kind).left ==> now.action() == ClientActionModel::Send(
                plan::outgoing(kind).chunk,
            )
            &&& k == plan::outgoing(kind).left ==> now.action() == ClientActionModel::Finish
        }),
{
    lemma_after_sending(ExchangeModel::start(kind, base_uri), k);
}

/// A test after some of the chunks of a request.
proof fn lemma_after_sending(test: ExchangeModel, k: nat)
    requires
        test.feed == plan::outgoing(test.kind),
        k <= test.feed.left,
    ensures
        ({
            let opened = test.after(ClientEventModel::Opened);
            opened.after_sending(k) == (ExchangeModel {
                feed: FeedModel { left: (test.feed.left - k) as nat, given: k, ..test.feed },
                stage: if k < test.feed.left {
                    ClientStage::Sending
                } else {
                    ClientStage::Finishing
                },
                ..opened
            })
        }),
    decreases k,
{
    if k > 0 {
        lemma_after_sending(test, (k - 1) as nat);
    }
}

/// A test after some of the chunks of a response.
proof fn lemma_after_receiving(test: ExchangeModel, parts: Seq<Seq<u8>>)
    ensures
        test.after_receiving(parts) == (ExchangeModel {
            bytes: if test.counts_bytes() {
                test.bytes + tally::total_len(parts)
            } else {
                test.bytes
            },
            chunks: if test.counts_chunks() {
                test.chunks + parts.len()
            } else {
                test.chunks
            },
            body: if test.kind == TestKind::ClientStream {
                test.body + buffer::joined(parts)
            } else {
                test.body
            },
            ..test
        }),
    decreases parts.len(),
{
    if parts.len() > 0 {
        lemma_after_receiving(test, parts.drop_last());
        assert(test.body + buffer::joined(parts.drop_last()) + parts.last() =~= test.body
            + buffer::joined(parts));
    } else {
        assert(test.body + buffer::joined(parts) =~= test.body);
    }
}

/// A test of one request is over when its response is, and has counted what
/// came: the bytes however the response was cut, and the chunks as they came.
pub proof fn law_single_exchange_counts_the_response(
    kind: TestKind,
    base_uri: Seq<char>,
    parts: Seq<Seq<u8>>,
)
    requires
        kind != TestKind::ManyRequests,
    ensures
        ({
            let over = ExchangeModel::start(kind, base_uri).after_exchange(parts);
            &&& over.action() == ClientActionModel::Done
            &&& kind != TestKind::ClientStream ==> over.bytes == buffer::joined(parts).len()
            &&& kind == TestKind::ServerStream || kind == TestKind::BidiStream ==> over.chunks
                == parts.len()
            &&& kind == TestKind::ClientStream ==> over.body == buffer::joined(parts)
        }),
{
    let start = ExchangeModel::start(kind, base_uri);
    lemma_after_sending(start, start.feed.left);
    lemma_after_receiving(start.after_request(), parts);
    tally::lemma_total_len_is_joined_len(parts);
    assert(Seq::<u8>::empty() + buffer::joined(parts) =~= buffer::joined(parts));
}

/// A test stays the test that it is.
pub proof fn lemma_kind_stays(kind: TestKind, base_uri: Seq<char>, parts: Seq<Seq<u8>>)
    ensures
        ExchangeModel::start(kind, base_uri).after_exchange(parts).kind == kind,
{
    let start = ExchangeModel::start(kind, base_uri);
    lemma_after_sending(start, start.feed.left);
    lemma_after_receiving(start.after_request(), parts);
}

/// The test of many requests makes exactly [`MANY_COUNT`] of them, whatever is
/// answered, and each time sends the same small payload to the same handler.
pub proof fn law_many_requests_are_made(base_uri: Seq<char>, answers: Seq<Seq<Seq<u8>>>)
    requires
        answers.len() <= MANY_COUNT,
    ensures
        ({
            let start = ExchangeModel::start(TestKind::ManyRequests, base_uri);
            let now = start.after_exchanges(answers);
            &&& now.answered == answers.len()
            &&& now.progress() == answers.len()
            &&& answers.len() < MANY_COUNT ==> now.action() == start.action() && now.feed
                == start.feed
            &&& answers.len() == MANY_COUNT ==> now.action() == ClientActionModel::Done
        }),
{
    lemma_after_exchanges(base_uri, answers);
}

/// The test of many requests after some of them.
proof fn lemma_after_exchanges(base_uri: Seq<char>, answers: Seq<Seq<Seq<u8>>>)
    requires
        answers.len() <= MANY_COUNT,
    ensures
        ({
            let start = ExchangeModel::start(TestKind::ManyRequests, base_uri);
            let now = start.after_exchanges(answers);
            &&& now.kind == TestKind::ManyRequests
            &&& now.base_uri == base_uri
            &&& now.answered == answers.len()
            &&& answers.len() < MANY_COUNT ==> now.stage == ClientStage::Opening && now.feed
                == start.feed
            &&& answers.len() == MANY_COUNT ==> now.stage == ClientStage::Done
        }),
    decreases answers.len(),
{
    if answers.len() > 0 {
        lemma_after_exchanges(base_uri, answers.drop_last());
        let before = ExchangeModel::start(TestKind::ManyRequests, base_uri).after_exchanges(
            answers.drop_last(),
        );
        lemma_after_sending(before, before.feed.left);
        lemma_after_receiving(before.after_request(), answers.last());
    }
}

/// A test takes what comes in answer to its actions, for as long as the counts
/// fit: that the stream is open, that each chunk was sent, that the request is
/// ended, the head of the response, every chunk of it, and its end.
pub proof fn law_exchange_is_taken(
    kind: TestKind,
    base_uri: Seq<char>,
    k: nat,
    parts: Seq<Seq<u8>>,
    next: Seq<u8>,
)
    requires
        k < plan::outgoing(kind).left,
        tally::total_len(parts) + next.len() <= usize::MAX,
        parts.len() < usize::MAX,
    ensures
        ({
            let start = ExchangeModel::start(kind, base_uri);
            let opened = start.after(ClientEventModel::Opened);
            let sent = opened.after_sending(start.feed.left);
            let now = start.after_request().after_receiving(parts);
            &&& start.accepts(ClientEventModel::Opened)
            &&& opened.after_sending(k).accepts(ClientEventModel::Sent)
            &&& sent.accepts(ClientEventModel::Finished)
            &&& sent.after(ClientEventModel::Finished).accepts(ClientEventModel::HeadCame)
            &&& now.accepts(ClientEventModel::Received(next))
            &&& now.accepts(ClientEventModel::BodyEnded)
        }),
{
    let start = ExchangeModel::start(kind, base_uri);
    lemma_after_sending(start, k);
    lemma_after_sending(start, start.feed.left);
    lemma_after_receiving(start.after_request(), parts);
}

/// The progress of a test that sends or gets all its chunks ends where its
/// progress was to end.
pub proof fn law_progress_reaches_its_end(
    kind: TestKind,
    base_uri: Seq<char>,
    parts: Seq<Seq<u8>>,
)
    requires
        kind != TestKind::ManyRequests,
        kind == TestKind::ServerStream ==> parts.len() == STREAM_CHUNKS,
        kind == TestKind::BidiStream ==> parts.len() == BIDI_CHUNKS,
    ensures
        crate::report::progress_steps(kind) matches Some(steps) ==> ExchangeModel::start(
            kind,
            base_uri,
        ).after_exchange(parts).progress() == steps,
{
    let start = ExchangeModel::start(kind, base_uri);
    lemma_after_sending(start, start.feed.left);
    lemma_after_receiving(start.after_request(), parts);
}

/// When the transport fails, whatever was under way, the test is given up:
/// there is nothing more to do, no event is taken, and nothing was found out.
pub proof fn law_failure_ends_the_test(now: ExchangeModel, event: ClientEventModel)
    ensures
        now.action() != ClientActionModel::Done <==> now.accepts(ClientEventModel::Failed),
        now.after(ClientEventModel::Failed).action() == ClientActionModel::Done,
        now.after(ClientEventModel::Failed).stage != ClientStage::Done,
        !now.after(ClientEventModel::Failed).accepts(event),
{
}

/// A test being run.
pub struct Exchange {
    kind: TestKind,
    base_uri: String,
    stage: ClientStage,
    feed: Feed,
    bytes: usize,
    chunks: usize,
    body: Vec<u8>,
    answered: usize,
}

impl View for Exchange {
    type V = ExchangeModel;

    closed spec fn view(&self) -> ExchangeModel {
        ExchangeModel {
            kind: self.kind,
            base_uri: self.base_uri@,
            stage: self.stage,
            feed: self.feed@,
            bytes: self.bytes as nat,
            chunks: self.chunks as nat,
            body: self.body@,
            answered: self.answered as nat,
        }
    }
}

impl Exchange {
    /// There is something to send while the exchange sends, and the requests
    /// that were answered can be counted.
    #[verifier::type_invariant]
    spec fn is_in_order(self) -> bool {
        &&& self.stage == ClientStage::Opening || self.stage == ClientStage::Sending
            ==> self.feed@.left > 0
        &&& self.answered <= MANY_COUNT
        &&& self.stage != ClientStage::Done ==> self.answered < MANY_COUNT
    }

    /// A test that is about to start.
    fn new(kind: TestKind, base_uri: &str) -> (test: Exchange)
        ensures
            test@ == ExchangeModel::start(kind, base_uri@),
    {
        Exchange {
            kind,
            base_uri: base_uri.to_owned(),
            stage: ClientStage::Opening,
            feed: outgoing_feed(kind),
            bytes: 0,
            chunks: 0,
            body: Vec::new(),
            answered: 0,
        }
    }

    /// What to do next. There is no next step when the request cannot be built.
    pub fn action(&self) -> (action: Result<ClientAction, InvalidTarget>)
        ensures
            action is Err <==> self@.stage == ClientStage::Opening && message::post_request(
                self@.target(),
            ) is None,
            action matches Ok(a) ==> a.carries_out(self@.action()),
            message::is_some_plain_uri(self@.target()) ==> action is Ok,
    {
        proof {
            use_type_invariant(self);
        }
        match self.stage {
            ClientStage::Opening => match request_for(
                self.base_uri.as_str(),
                route_for_test(self.kind),
            ) {
                Ok(request) => Ok(ClientAction::Open(request)),
                Err(error) => Err(error),
            },
            ClientStage::Sending => Ok(ClientAction::Send(self.feed.offer().unwrap())),
            ClientStage::Finishing => Ok(ClientAction::Finish),
            ClientStage::AwaitingHead => Ok(ClientAction::AwaitHead),
            ClientStage::Receiving => Ok(ClientAction::Receive),
            ClientStage::Done => Ok(ClientAction::Done),
            ClientStage::Failed => Ok(ClientAction::Done),
        }
    }

    /// Whether [`Exchange::step`] can take an event.
    pub fn accepts(&self, event: &ClientEvent) -> (accepted: bool)
        ensures
            accepted == self@.accepts(event@),
    {
        match event {
            ClientEvent::Opened => self.stage == ClientStage::Opening,
            ClientEvent::Sent => self.stage == ClientStage::Sending,
            ClientEvent::Finished => self.stage == ClientStage::Finishing,
            ClientEvent::HeadCame => self.stage == ClientStage::AwaitingHead,
            ClientEvent::Received(chunk) => {
                let len: usize = length(chunk);
                let receiving = self.stage == ClientStage::Receiving;
                let bytes_fit = len <= usize::MAX - self.bytes;
                let chunks_fit = self.chunks < usize::MAX;
                match self.kind {
                    TestKind::SmallPayload => receiving && bytes_fit,
                    TestKind::LargePayload => receiving && bytes_fit,
                    TestKind::ServerStream => receiving && bytes_fit && chunks_fit,
                    TestKind::ClientStream => receiving,
                    TestKind::BidiStream => receiving && bytes_fit && chunks_fit,
                    TestKind::ManyRequests => receiving,
                }
            },
            ClientEvent::BodyEnded => self.stage == ClientStage::Receiving,
            ClientEvent::Failed => self.stage != ClientStage::Done && self.stage != ClientStage::Failed,
        }
    }

    /// Takes in a chunk of the response.
    fn take_chunk(&mut self, chunk: Bytes)
        requires
            old(self)@.accepts(ClientEventModel::Received(buffer::content(chunk))),
        ensures
            final(self)@ == old(self)@.after(
                ClientEventModel::Received(buffer::content(chunk)),
            ),
    {
        proof {
            use_type_invariant(&*self);
        }
        match self.kind {
            TestKind::SmallPayload | TestKind::LargePayload => {
                let bytes: usize = count_bytes(self.bytes, chunk);
                self.bytes = bytes;
            },
            TestKind::ServerStream | TestKind::BidiStream => {
                let bytes: usize = count_bytes(self.bytes, chunk);
                self.bytes = bytes;
                self.chunks = self.chunks + 1;
            },
            TestKind::ClientStream => {
                let mut body: Vec<u8> = Vec::new();
                std::mem::swap(&mut self.body, &mut body);
                collect_bytes(&mut body, chunk);
                self.body = body;
            },
            TestKind::ManyRequests => {},
        }
    }

    /// Takes note of what came of the last action.
    pub fn step(&mut self, event: ClientEvent)
        requires
            old(self)@.accepts(event@),
        ensures
            final(self)@ == old(self)@.after(event@),
    {
        proof {
            use_type_invariant(&*self);
        }
        match event {
            ClientEvent::Opened => {
                self.stage = ClientStage::Sending;
            },
            ClientEvent::Sent => {
                let mut feed = Feed::new(buffer_of(Vec::new()), 0);
                self.stage = ClientStage::Finishing;
                std::mem::swap(&mut self.feed, &mut feed);
                feed.step(FeedEvent::Delivered);
                let over = feed.is_over();
                self.feed = feed;
                if !over {
                    self.stage = ClientStage::Sending;
                }
            },
            ClientEvent::Finished => {
                self.stage = ClientStage::AwaitingHead;
            },
            ClientEvent::HeadCame => {
                self.stage = ClientStage::Receiving;
            },
            ClientEvent::Received(chunk) => {
                self.take_chunk(chunk);
            },
            ClientEvent::BodyEnded => {
                let again = match self.kind {
                    TestKind::ManyRequests => self.answered + 1 < MANY_COUNT,
                    _ => false,
                };
                self.stage = ClientStage::Done;
                self.answered = self.answered + 1;
                if again {
                    let feed = outgoing_feed(self.kind);
                    self.feed = feed;
                    self.stage = ClientStage::Opening;
                }
            },
            ClientEvent::Failed => {
                self.stage = ClientStage::Failed;
            },
        }
    }

    /// How far the progress of the test has come. The count starts over at
    /// zero when it no longer fits.
    pub fn progress(&self) -> (position: u64)
        ensures
            position == self@.progress() % 0x1_0000_0000_0000_0000,
    {
        match self.kind {
            TestKind::SmallPayload => 0,
            TestKind::LargePayload => 0,
            TestKind::ServerStream => self.chunks as u64,
            TestKind::ClientStream => self.feed.given() as u64,
            TestKind::BidiStream => (self.feed.given() as u64).wrapping_add(self.chunks as u64),
            TestKind::ManyRequests => self.answered as u64,
        }
    }

    /// What the test found out; `None` while it runs, and when it was given up.
    pub fn outcome(&self) -> (outcome: Option<Outcome>)
        ensures
            outcome is Some <==> self@.stage == ClientStage::Done,
            outcome matches Some(o) ==> self@.found(o),
    {
        match self.stage {
            ClientStage::Done => Some(
                match self.kind {
                    TestKind::SmallPayload => Outcome::SmallPayload { received: self.bytes },
                    TestKind::LargePayload => Outcome::LargePayload { received: self.bytes },
                    TestKind::ServerStream => Outcome::ServerStream {
                        counted: Tally { chunks: self.chunks, bytes: self.bytes },
                    },
                    TestKind::ClientStream => Outcome::ClientStream { reply: text_of(&self.body) },
                    TestKind::BidiStream => Outcome::BidiStream {
                        counted: Tally { chunks: self.chunks, bytes: self.bytes },
                    },
                    TestKind::ManyRequests => Outcome::ManyRequests,
                },
            ),
            _ => None,
        }
    }
}

/// Sends a small payload and counts what comes back.
pub fn test_small_payload(base_uri: &str) -> (test: Exchange)
    ensures
        test@ == ExchangeModel::start(TestKind::SmallPayload, base_uri@),
{
    Exchange::new(TestKind::SmallPayload, base_uri)
}

/// Sends a large payload and counts what comes back.
pub fn test_large_payload(base_uri: &str) -> (test: Exchange)
    ensures
        test@ == ExchangeModel::start(TestKind::LargePayload, base_uri@),
{
    Exchange::new(TestKind::LargePayload, base_uri)
}

/// Asks for a stream and counts its chunks and bytes.
pub fn test_server_stream(base_uri: &str) -> (test: Exchange)
    ensures
        test@ == ExchangeModel::start(TestKind::ServerStream, base_uri@),
{
    Exchange::new(TestKind::ServerStream, base_uri)
}

/// Sends a stream and keeps what the server says about it.
pub fn test_client_stream(base_uri: &str) -> (test: Exchange)
    ensures
        test@ == ExchangeModel::start(TestKind::ClientStream, base_uri@),
{
    Exchange::new(TestKind::ClientStream, base_uri)
}

/// Sends a stream and counts the chunks and bytes that come back.
pub fn test_bidi_stream(base_uri: &str) -> (test: Exchange)
    ensures
        test@ == ExchangeModel::start(TestKind::BidiStream, base_uri@),
{
    Exchange::new(TestKind::BidiStream, base_uri)
}

/// Sends a small payload many times, each time when the last one is answered.
pub fn test_many_requests(base_uri: &str) -> (test: Exchange)
    ensures
        test@ == ExchangeModel::start(TestKind::ManyRequests, base_uri@),
{
    Exchange::new(TestKind::ManyRequests, base_uri)
}

/// Starts a test of the suite.
pub fn start_test(kind: TestKind, base_uri: &str) -> (test: Exchange)
    ensures
        test@ == ExchangeModel::start(kind, base_uri@),
{
    match kind {
        TestKind::SmallPayload => test_small_payload(base_uri),
        TestKind::LargePayload => test_large_payload(base_uri),
        TestKind::ServerStream => test_server_stream(base_uri),
        TestKind::ClientStream => test_client_stream(base_uri),
        TestKind::BidiStream => test_bidi_stream(base_uri),
        TestKind::ManyRequests => test_many_requests(base_uri),
    }
}

/// In every state, what answers the action that is asked for is taken, unless a
/// counter would overflow; and nothing else is taken.
pub proof fn law_every_answer_is_taken(now: ExchangeModel, chunk: Seq<u8>)
    ensures
        now.action() is Open <==> now.accepts(ClientEventModel::Opened),
        now.action() is Send <==> now.accepts(ClientEventModel::Sent),
        now.action() == ClientActionModel::Finish <==> now.accepts(ClientEventModel::Finished),
        now.action() == ClientActionModel::AwaitHead <==> now.accepts(ClientEventModel::HeadCame),
        now.action() == ClientActionModel::Receive <==> now.accepts(ClientEventModel::BodyEnded),
        now.action() == ClientActionModel::Receive && now.bytes + chunk.len() <= usize::MAX
            && now.chunks < usize::MAX ==> now.accepts(ClientEventModel::Received(chunk)),
        now.accepts(ClientEventModel::Received(chunk)) ==> now.action()
            == ClientActionModel::Receive,
{
}

/// A request goes its steps in their sequence: it is opened below the URI of the
/// server, its chunk is sent until none is left, it is ended, the head of the
/// response is awaited, and chunks are received until the body ends. Then the
/// test is over, unless it is the test of a thousand requests and fewer than
/// that were answered: it then starts over with the same request.
pub proof fn law_exchange_goes_step_by_step(now: ExchangeModel, chunk: Seq<u8>)
    ensures
        ({
            let sent = now.after(ClientEventModel::Sent);
            let ended = now.after(ClientEventModel::BodyEnded);
            &&& now.action() matches ClientActionModel::Open(uri) ==> uri == now.base_uri
                + crate::route::path_of(plan::route_for(now.kind))
            &&& now.action() matches ClientActionModel::Send(bytes) ==> bytes == now.feed.chunk
            &&& now.after(ClientEventModel::Opened).action() == ClientActionModel::Send(
                now.feed.chunk,
            )
            &&& now.feed.left > 1 ==> sent.action() == ClientActionModel::Send(now.feed.chunk)
            &&& now.feed.left == 1 ==> sent.action() == ClientActionModel::Finish
            &&& now.feed.left > 0 ==> sent.feed.left == now.feed.left - 1
            &&& now.after(ClientEventModel::Finished).action() == ClientActionModel::AwaitHead
            &&& now.after(ClientEventModel::HeadCame).action() == ClientActionModel::Receive
            &&& now.action() == ClientActionModel::Receive ==> now.after(
                ClientEventModel::Received(chunk),
            ).action() == ClientActionModel::Receive
            &&& now.kind != TestKind::ManyRequests || now.answered >= 999 ==> ended.action()
                == ClientActionModel::Done
            &&& now.kind == TestKind::ManyRequests && now.answered < 999 ==> ended.action()
                is Open && ended.feed == plan::outgoing(now.kind)
            &&& ended.answered == now.answered + 1
        }),
{
}

/// Whatever comes, a test stays the test that it is, of the server that it is of.
pub proof fn law_test_stays_itself(now: ExchangeModel, event: ClientEventModel)
    ensures
        now.after(event).kind == now.kind,
        now.after(event).base_uri == now.base_uri,
{
}

/// When a test is over after a response that came in any chunks, its outcome
/// tells of that response: how many bytes it had in all, in how many chunks it
/// came, or, of the client stream, the very text of it.
pub proof fn law_outcome_tells_of_the_response(
    kind: TestKind,
    base_uri: Seq<char>,
    parts: Seq<Seq<u8>>,
    outcome: Outcome,
)
    requires
        kind != TestKind::ManyRequests,
        buffer::joined(parts).len() <= usize::MAX,
        parts.len() <= usize::MAX,
    ensures
        ({
            let over = ExchangeModel::start(kind, base_uri).after_exchange(parts);
            let whole = buffer::joined(parts);
            over.found(outcome) <==> match kind {
                TestKind::SmallPayload => outcome matches Outcome::SmallPayload { received }
                    && received == whole.len(),
                TestKind::LargePayload => outcome matches Outcome::LargePayload { received }
                    && received == whole.len(),
                TestKind::ServerStream => outcome matches Outcome::ServerStream { counted }
                    && counted.chunks == parts.len() && counted.bytes == whole.len(),
                TestKind::ClientStream => outcome matches Outcome::ClientStream { reply } && reply@
                    == buffer::text_in(whole),
                TestKind::BidiStream => outcome matches Outcome::BidiStream { counted }
                    && counted.chunks == parts.len() && counted.bytes == whole.len(),
                TestKind::ManyRequests => false,
            }
        }),
{
    law_single_exchange_counts_the_response(kind, base_uri, parts);
    lemma_kind_stays(kind, base_uri, parts);
}

/// The reply that a client stream tells of is what the server said: a response
/// that encodes a text gives that text, and two responses whose texts differ
/// give different replies.
pub proof fn law_reply_is_what_the_server_said(
    base_uri: Seq<char>,
    said: Seq<char>,
    parts: Seq<Seq<u8>>,
    others: Seq<Seq<u8>>,
    reply: String,
    other: String,
)
    requires
        buffer::joined(parts) == encode_utf8(said),
        buffer::text_in(buffer::joined(others)) != said,
        ExchangeModel::start(TestKind::ClientStream, base_uri).after_exchange(parts).found(
            Outcome::ClientStream { reply },
        ),
        ExchangeModel::start(TestKind::ClientStream, base_uri).after_exchange(others).found(
            Outcome::ClientStream { reply: other },
        ),
    ensures
        reply@ == said,
        other@ != said,
{
    law_single_exchange_counts_the_response(TestKind::ClientStream, base_uri, parts);
    law_single_exchange_counts_the_response(TestKind::ClientStream, base_uri, others);
    lemma_kind_stays(TestKind::ClientStream, base_uri, parts);
    lemma_kind_stays(TestKind::ClientStream, base_uri, others);
    buffer::law_encoded_text_arrives(said);
}

/// The test of many requests finds out that they were answered, and nothing else.
pub proof fn law_many_requests_tell_nothing_else(now: ExchangeModel, outcome: Outcome)
    requires
        now.kind == TestKind::ManyRequests,
    ensures
        now.found(outcome) <==> outcome is ManyRequests,
{
}

/// The progress counts what the test waits for: chunks that came, chunks that
/// were sent, both together, or requests that were answered.
pub proof fn law_progress_counts_chunks(
    kind: TestKind,
    base_uri: Seq<char>,
    k: nat,
    parts: Seq<Seq<u8>>,
)
    requires
        k <= plan::outgoing(kind).left,
    ensures
        ({
            let start = ExchangeModel::start(kind, base_uri);
            let sent = start.after(ClientEventModel::Opened).after_sending(k).progress();
            let came = start.after_request().after_receiving(parts).progress();
            match kind {
                TestKind::ServerStream => sent == 0 && came == parts.len(),
                TestKind::ClientStream => sent == k && came == 100,
                TestKind::BidiStream => sent == k && came == 50 + parts.len(),
                _ => sent == 0 && came == 0,
            }
        }),
{
    let start = ExchangeModel::start(kind, base_uri);
    lemma_after_sending(start, k);
    lemma_after_sending(start, start.feed.left);
    lemma_after_receiving(start.after_request(), parts);
}

/// What is sent is what was decided, byte for byte, and what is opened is a POST
/// request for the very URI; and what came is taken for all that it holds.
pub proof fn law_actions_and_events_are_whole(
    action: ClientAction,
    chunk: Bytes,
    request: http::Request<()>,
    uri: Seq<char>,
    bytes: Seq<u8>,
)
    ensures
        ClientAction::Send(chunk).carries_out(ClientActionModel::Send(bytes)) <==> buffer::content(
            chunk,
        ) == bytes,
        ClientAction::Open(request).carries_out(ClientActionModel::Open(uri)) ==> {
            &&& message::post_request(uri) == Some(request)
            &&& message::request_method(request) == "POST"@
            &&& message::is_some_plain_uri(uri) ==> message::request_uri(request) == uri
        },
        action.carries_out(ClientActionModel::Open(uri)) ==> action is Open,
        action.carries_out(ClientActionModel::Send(bytes)) ==> action is Send,
        action.carries_out(ClientActionModel::Finish) <==> action is Finish,
        action.carries_out(ClientActionModel::AwaitHead) <==> action is AwaitHead,
        action.carries_out(ClientActionModel::Receive) <==> action is Receive,
        action.carries_out(ClientActionModel::Done) <==> action is Done,
        ClientEvent::Received(chunk)@ == ClientEventModel::Received(buffer::content(chunk)),
        ClientEvent::Opened@ == ClientEventModel::Opened,
        ClientEvent::Sent@ == ClientEventModel::Sent,
        ClientEvent::Finished@ == ClientEventModel::Finished,
        ClientEvent::HeadCame@ == ClientEventModel::HeadCame,
        ClientEvent::BodyEnded@ == ClientEventModel::BodyEnded,
        ClientEvent::Failed@ == ClientEventModel::Failed,
{
}

} // verus!
