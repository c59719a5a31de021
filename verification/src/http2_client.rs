//! The HTTP/2 client: the tests of the suite, as requests whose bodies are
//! sent beside the reading of the response.
//!
//! A [`Call`] is one test being run. It says what to do next
//! ([`Call::action`]), is told what came of it ([`Call::step`]), and in the end
//! knows what it found out ([`Call::outcome`]).

use vstd::prelude::*;
use vstd::string::*;
use bytes::Bytes;
use crate::buffer;
use crate::buffer::{collect_bytes, count_bytes, length, text_of};
use crate::endpoint;
use crate::endpoint::request_for;
use crate::feed::{Feed, FeedModel};
use crate::message;
use crate::message::InvalidTarget;
use crate::payload::MANY_COUNT;
use crate::plan;
use crate::plan::{outgoing_feed, route_for_test};
use crate::report::{Outcome, TestKind};
use crate::tally;
use crate::tally::Tally;

verus! {

/// The body of a request.
pub enum Outgoing {
    /// All of it at once.
    Whole(Bytes),
    /// Chunk by chunk, while the response is awaited.
    Fed(Feed),
}

/// What a call wants done next.
pub enum CallAction {
    /// Send a request with this body, and wait for the head of the response.
    Post(http::Request<()>, Outgoing),
    /// Receive the rest of the response body at once.
    Collect,
    /// Receive the next frame of the response body.
    NextFrame,
    /// Wait until the request body is sent.
    JoinSender,
    /// Nothing: the test is over, or cannot go on.
    Done,
}

/// What came of an action.
pub enum CallEvent {
    /// The head of the response came.
    Answered,
    /// The response body came.
    Collected(Bytes),
    /// A frame with data came.
    Data(Bytes),
    /// A frame without data came.
    OtherFrame,
    /// The response body is over.
    BodyEnded,
    /// The request body is sent.
    SenderDone,
    /// The transport failed.
    Failed,
}

/// How far a call has come.
#[derive(Clone, Copy, Debug, PartialEq, Eq, Structural)]
pub enum CallStage {
    Posting,
    Collecting,
    Reading,
    Joining,
    Done,
    /// Given up: the transport failed.
    Failed,
}

/// A request body, as the contracts speak of it.
pub enum OutgoingModel {
    Whole(Seq<u8>),
    Fed(FeedModel),
}

/// An action, as the contracts speak of it.
pub enum CallActionModel {
    Post(Seq<char>, OutgoingModel),
    Collect,
    NextFrame,
    JoinSender,
    Done,
}

/// An event, as the contracts speak of it.
pub enum CallEventModel {
    Answered,
    Collected(Seq<u8>),
    Data(Seq<u8>),
    OtherFrame,
    BodyEnded,
    SenderDone,
    Failed,
}

impl View for Outgoing {
    type V = OutgoingModel;

    open spec fn view(&self) -> OutgoingModel {
        match *self {
            Outgoing::Whole(chunk) => OutgoingModel::Whole(buffer::content(chunk)),
            Outgoing::Fed(feed) => OutgoingModel::Fed(feed@),
        }
    }
}

impl View for CallEvent {
    type V = CallEventModel;

    open spec fn view(&self) -> CallEventModel {
        match *self {
            CallEvent::Answered => CallEventModel::Answered,
            CallEvent::Collected(body) => CallEventModel::Collected(buffer::content(body)),
            CallEvent::Data(data) => CallEventModel::Data(buffer::content(data)),
            CallEvent::OtherFrame => CallEventModel::OtherFrame,
            CallEvent::BodyEnded => CallEventModel::BodyEnded,
            CallEvent::SenderDone => CallEventModel::SenderDone,
            CallEvent::Failed => CallEventModel::Failed,
        }
    }
}

impl CallAction {
    /// Whether this action is the one that a model calls for. What is sent is
    /// a POST request for the URI.
    pub open spec fn carries_out(self, model: CallActionModel) -> bool {
        match (self, model) {
            (CallAction::Post(request, body), CallActionModel::Post(uri, expected)) => {
                &&& message::post_request(uri) == Some(request)
                &&& message::request_method(request) == "POST"@
                &&& message::keeps_plain_uri(uri, request)
                &&& body@ == expected
            },
            (CallAction::Collect, CallActionModel::Collect) => true,
            (CallAction::NextFrame, CallActionModel::NextFrame) => true,
            (CallAction::JoinSender, CallActionModel::JoinSender) => true,
            (CallAction::Done, CallActionModel::Done) => true,
            _ => false,
        }
    }
}

/// How a test sends its request body: the two tests that stream to the server
/// send chunk by chunk.
pub open spec fn body_of(kind: TestKind) -> OutgoingModel {
    if kind == TestKind::ClientStream || kind == TestKind::BidiStream {
        OutgoingModel::Fed(plan::outgoing(kind))
    } else {
        OutgoingModel::Whole(plan::outgoing(kind).chunk)
    }
}

/// A test being run, as the contracts speak of it.
pub struct CallModel {
    pub kind: TestKind,
    /// The URI of the server.
    pub base_uri: Seq<char>,
    pub stage: CallStage,
    /// Bytes that came back, where the test counts them.
    pub bytes: nat,
    /// Frames with data that came back, where the test counts them.
    pub chunks: nat,
    /// The response body, where the test keeps it.
    pub body: Seq<u8>,
    /// Requests that were answered.
    pub answered: nat,
}

impl CallModel {
    /// A test that is about to start.
    pub open spec fn start(kind: TestKind, base_uri: Seq<char>) -> CallModel {
        CallModel {
            kind,
            base_uri,
            stage: CallStage::Posting,
            bytes: 0,
            chunks: 0,
            body: Seq::empty(),
            answered: 0,
        }
    }

    /// The URI of the request.
    pub open spec fn target(self) -> Seq<char> {
        endpoint::target_of(self.base_uri, plan::route_for(self.kind))
    }

    /// What to do next.
    pub open spec fn action(self) -> CallActionModel {
        match self.stage {
            CallStage::Posting => CallActionModel::Post(self.target(), body_of(self.kind)),
            CallStage::Collecting => CallActionModel::Collect,
            CallStage::Reading => CallActionModel::NextFrame,
            CallStage::Joining => CallActionModel::JoinSender,
            CallStage::Done => CallActionModel::Done,
            CallStage::Failed => CallActionModel::Done,
        }
    }

    /// Whether an event answers the action that was asked for, and what it
    /// brings can be counted. Any action can fail.
    pub open spec fn accepts(self, event: CallEventModel) -> bool {
        match event {
            CallEventModel::Answered => self.stage == CallStage::Posting,
            CallEventModel::Collected(_) => self.stage == CallStage::Collecting,
            CallEventModel::Data(data) => {
                &&& self.stage == CallStage::Reading
                &&& self.bytes + data.len() <= usize::MAX
                &&& self.chunks < usize::MAX
            },
            CallEventModel::OtherFrame => self.stage == CallStage::Reading,
            CallEventModel::BodyEnded => self.stage == CallStage::Reading,
            CallEventModel::SenderDone => self.stage == CallStage::Joining,
            CallEventModel::Failed => self.stage != CallStage::Done && self.stage != CallStage::Failed,
        }
    }

    /// The test after an event.
    pub open spec fn after(self, event: CallEventModel) -> CallModel {
        match event {
            CallEventModel::Answered => CallModel {
                stage: match self.kind {
                    TestKind::ServerStream => CallStage::Reading,
                    TestKind::BidiStream => CallStage::Reading,
                    TestKind::ClientStream => CallStage::Joining,
                    _ => CallStage::Collecting,
                },
                ..self
            },
            CallEventModel::Collected(body) => match self.kind {
                TestKind::ManyRequests => CallModel {
                    stage: if self.answered + 1 < plan::request_count(self.kind) {
                        CallStage::Posting
                    } else {
                        CallStage::Done
                    },
                    answered: self.answered + 1,
                    ..self
                },
                TestKind::ClientStream => CallModel { stage: CallStage::Done, body, ..self },
                _ => CallModel { stage: CallStage::Done, bytes: body.len(), ..self },
            },
            CallEventModel::Data(data) => CallModel {
                bytes: self.bytes + data.len(),
                chunks: self.chunks + 1,
                ..self
            },
            CallEventModel::OtherFrame => self,
            CallEventModel::BodyEnded => CallModel {
                stage: if self.kind == TestKind::BidiStream {
                    CallStage::Joining
                } else {
                    CallStage::Done
                },
                ..self
            },
            CallEventModel::SenderDone => CallModel {
                stage: if self.kind == TestKind::ClientStream {
                    CallStage::Collecting
                } else {
                    CallStage::Done
                },
                ..self
            },
            CallEventModel::Failed => CallModel { stage: CallStage::Failed, ..self },
        }
    }

    /// Whether an outcome is what the test found out.
    pub open spec fn found(self, outcome: Outcome) -> bool {
        match self.kind {
            TestKind::SmallPayload => outcome == (Outcome::SmallPayload {
                received: self.bytes as usize,
            }),
            TestKind::LargePayload => outcome == (Outcome::LargePayload {
                received: self.bytes as usize,
            }),
            TestKind::ServerStream => outcome == (Outcome::ServerStream {
                counted: Tally { chunks: self.chunks as usize, bytes: self.bytes as usize },
            }),
            TestKind::ClientStream => outcome matches Outcome::ClientStream { reply } && reply@
                == buffer::text_in(self.body),
            TestKind::BidiStream => outcome == (Outcome::BidiStream {
                counted: Tally { chunks: self.chunks as usize, bytes: self.bytes as usize },
            }),
            TestKind::ManyRequests => outcome == Outcome::ManyRequests,
        }
    }

    /// The test after some frames with data.
    pub open spec fn after_reading(self, parts: Seq<Seq<u8>>) -> CallModel
        decreases parts.len(),
    {
        if parts.len() == 0 {
            self
        } else {
            self.after_reading(parts.drop_last()).after(CallEventModel::Data(parts.last()))
        }
    }

    /// The test after one whole request, whose response came in these frames.
    pub open spec fn after_call(self, parts: Seq<Seq<u8>>) -> CallModel {
        let answered = self.after(CallEventModel::Answered);
        match self.kind {
            TestKind::ServerStream => answered.after_reading(parts).after(
                CallEventModel::BodyEnded,
            ),
            TestKind::BidiStream => answered.after_reading(parts).after(
                CallEventModel::BodyEnded,
            ).after(CallEventModel::SenderDone),
            TestKind::ClientStream => answered.after(CallEventModel::SenderDone).after(
                CallEventModel::Collected(buffer::joined(parts)),
            ),
            _ => answered.after(CallEventModel::Collected(buffer::joined(parts))),
        }
    }

    /// The test after some whole requests, each answered by its own frames.
    pub open spec fn after_calls(self, answers: Seq<Seq<Seq<u8>>>) -> CallModel
        decreases answers.len(),
    {
        if answers.len() == 0 {
            self
        } else {
            self.after_calls(answers.drop_last()).after_call(answers.last())
        }
    }
}

/// A test after some frames.
proof fn lemma_after_reading(test: CallModel, parts: Seq<Seq<u8>>)
    ensures
        test.after_reading(parts) == (CallModel {
            bytes: test.bytes + tally::total_len(parts),
            chunks: test.chunks + parts.len(),
            ..test
        }),
    decreases parts.len(),
{
    if parts.len() > 0 {
        lemma_after_reading(test, parts.drop_last());
    }
}

/// A test of one request is over when its response and its own body are, and
/// has counted what came: the bytes however the response was cut, and the
/// frames as they came.
pub proof fn law_single_call_counts_the_response(
    kind: TestKind,
    base_uri: Seq<char>,
    parts: Seq<Seq<u8>>,
)
    requires
        kind != TestKind::ManyRequests,
    ensures
        ({
            let over = CallModel::start(kind, base_uri).after_call(parts);
            &&& over.kind == kind
            &&& over.action() == CallActionModel::Done
            &&& kind != TestKind::ClientStream ==> over.bytes == buffer::joined(parts).len()
            &&& kind == TestKind::ServerStream || kind == TestKind::BidiStream ==> over.chunks
                == parts.len()
            &&& kind == TestKind::ClientStream ==> over.body == buffer::joined(parts)
        }),
{
    let start = CallModel::start(kind, base_uri);
    lemma_after_reading(start.after(CallEventModel::Answered), parts);
    tally::lemma_total_len_is_joined_len(parts);
}

/// The two tests that stream to the server are over only when they have
/// waited for their own sending.
pub proof fn law_streams_are_joined(base_uri: Seq<char>, parts: Seq<Seq<u8>>)
    ensures
        CallModel::start(TestKind::ClientStream, base_uri).after(CallEventModel::Answered).action()
            == CallActionModel::JoinSender,
        CallModel::start(TestKind::BidiStream, base_uri).after(
            CallEventModel::Answered,
        ).after_reading(parts).after(CallEventModel::BodyEnded).action()
            == CallActionModel::JoinSender,
{
    lemma_after_reading(
        CallModel::start(TestKind::BidiStream, base_uri).after(CallEventModel::Answered),
        parts,
    );
}

/// A test that reads frame by frame takes every frame and the end of the
/// response, for as long as the counts fit.
pub proof fn law_frames_are_taken(
    kind: TestKind,
    base_uri: Seq<char>,
    parts: Seq<Seq<u8>>,
    next: Seq<u8>,
)
    requires
        kind == TestKind::ServerStream || kind == TestKind::BidiStream,
        tally::total_len(parts) + next.len() <= usize::MAX,
        parts.len() < usize::MAX,
    ensures
        ({
            let start = CallModel::start(kind, base_uri);
            let now = start.after(CallEventModel::Answered).after_reading(parts);
            &&& start.accepts(CallEventModel::Answered)
            &&& now.accepts(CallEventModel::Data(next))
            &&& now.accepts(CallEventModel::OtherFrame)
            &&& now.accepts(CallEventModel::BodyEnded)
        }),
{
    lemma_after_reading(CallModel::start(kind, base_uri).after(CallEventModel::Answered), parts);
}

/// Frames without data count for nothing.
pub proof fn law_other_frames_do_not_count(test: CallModel)
    ensures
        test.after(CallEventModel::OtherFrame) == test,
{
}

/// The test of many requests makes exactly [`MANY_COUNT`] of them, whatever is
/// answered, and each time sends the same request.
pub proof fn law_many_requests_are_made(base_uri: Seq<char>, answers: Seq<Seq<Seq<u8>>>)
    requires
        answers.len() <= MANY_COUNT,
    ensures
        ({
            let start = CallModel::start(TestKind::ManyRequests, base_uri);
            let now = start.after_calls(answers);
            &&& now.kind == TestKind::ManyRequests
            &&& now.base_uri == base_uri
            &&& now.answered == answers.len()
            &&& answers.len() < MANY_COUNT ==> now.action() == start.action()
            &&& answers.len() == MANY_COUNT ==> now.action() == CallActionModel::Done
        }),
    decreases answers.len(),
{
    if answers.len() > 0 {
        law_many_requests_are_made(base_uri, answers.drop_last());
    }
}

/// When the transport fails, whatever was under way, the test is given up:
/// there is nothing more to do, no event is taken, and nothing was found out.
pub proof fn law_failure_ends_the_test(now: CallModel, event: CallEventModel)
    ensures
        now.action() != CallActionModel::Done <==> now.accepts(CallEventModel::Failed),
        now.after(CallEventModel::Failed).action() == CallActionModel::Done,
        now.after(CallEventModel::Failed).stage != CallStage::Done,
        !now.after(CallEventModel::Failed).accepts(event),
{
}

/// A test being run.
pub struct Call {
    kind: TestKind,
    base_uri: String,
    stage: CallStage,
    bytes: usize,
    chunks: usize,
    body: Vec<u8>,
    answered: usize,
}

impl View for Call {
    type V = CallModel;

    closed spec fn view(&self) -> CallModel {
        CallModel {
            kind: self.kind,
            base_uri: self.base_uri@,
            stage: self.stage,
            bytes: self.bytes as nat,
            chunks: self.chunks as nat,
            body: self.body@,
            answered: self.answered as nat,
        }
    }
}

impl Call {
    /// The requests that were answered can be counted.
    #[verifier::type_invariant]
    spec fn is_in_order(self) -> bool {
        &&& self.answered <= MANY_COUNT
        &&& self.stage != CallStage::Done ==> self.answered < MANY_COUNT
    }

    /// A test that is about to start.
    fn new(kind: TestKind, base_uri: &str) -> (test: Call)
        ensures
            test@ == CallModel::start(kind, base_uri@),
    {
        Call {
            kind,
            base_uri: base_uri.to_owned(),
            stage: CallStage::Posting,
            bytes: 0,
            chunks: 0,
            body: Vec::new(),
            answered: 0,
        }
    }

    /// The body of the next request.
    fn request_body(&self) -> (body: Outgoing)
        ensures
            body@ == body_of(self@.kind),
    {
        let feed = outgoing_feed(self.kind);
        match self.kind {
            TestKind::ClientStream | TestKind::BidiStream => Outgoing::Fed(feed),
            _ => Outgoing::Whole(feed.offer().unwrap()),
        }
    }

    /// What to do next. There is no next step when the request cannot be built.
    pub fn action(&self) -> (action: Result<CallAction, InvalidTarget>)
        ensures
            action is Err <==> self@.stage == CallStage::Posting && message::post_request(
                self@.target(),
            ) is None,
            action matches Ok(a) ==> a.carries_out(self@.action()),
            message::is_some_plain_uri(self@.target()) ==> action is Ok,
    {
        match self.stage {
            CallStage::Posting => match request_for(
                self.base_uri.as_str(),
                route_for_test(self.kind),
            ) {
                Ok(request) => Ok(CallAction::Post(request, self.request_body())),
                Err(error) => Err(error),
            },
            CallStage::Collecting => Ok(CallAction::Collect),
            CallStage::Reading => Ok(CallAction::NextFrame),
            CallStage::Joining => Ok(CallAction::JoinSender),
            CallStage::Done => Ok(CallAction::Done),
            CallStage::Failed => Ok(CallAction::Done),
        }
    }

    /// Whether [`Call::step`] can take an event.
    pub fn accepts(&self, event: &CallEvent) -> (accepted: bool)
        ensures
            accepted == self@.accepts(event@),
    {
        match event {
            CallEvent::Answered => self.stage == CallStage::Posting,
            CallEvent::Collected(_) => self.stage == CallStage::Collecting,
            CallEvent::Data(data) => self.stage == CallStage::Reading && length(data) <= usize::MAX
                - self.bytes && self.chunks < usize::MAX,
            CallEvent::OtherFrame => self.stage == CallStage::Reading,
            CallEvent::BodyEnded => self.stage == CallStage::Reading,
            CallEvent::SenderDone => self.stage == CallStage::Joining,
            CallEvent::Failed => self.stage != CallStage::Done && self.stage != CallStage::Failed,
        }
    }

    /// Takes in a response body that came at once.
    fn take_body(&mut self, body: Bytes)
        requires
            old(self)@.accepts(CallEventModel::Collected(buffer::content(body))),
        ensures
            final(self)@ == old(self)@.after(CallEventModel::Collected(buffer::content(body))),
    {
        proof {
            use_type_invariant(&*self);
        }
        match self.kind {
            TestKind::ManyRequests => {
                let again = self.answered + 1 < MANY_COUNT;
                self.stage = CallStage::Done;
                self.answered = self.answered + 1;
                if again {
                    self.stage = CallStage::Posting;
                }
            },
            TestKind::ClientStream => {
                let mut kept: Vec<u8> = Vec::new();
                collect_bytes(&mut kept, body);
                assert(kept@ =~= buffer::content(body));
                self.body = kept;
                self.stage = CallStage::Done;
            },
            _ => {
                self.bytes = length(&body);
                self.stage = CallStage::Done;
            },
        }
    }

    /// Takes note of what came of the last action.
    pub fn step(&mut self, event: CallEvent)
        requires
            old(self)@.accepts(event@),
        ensures
            final(self)@ == old(self)@.after(event@),
    {
        proof {
            use_type_invariant(&*self);
        }
        match event {
            CallEvent::Answered => {
                self.stage = match self.kind {
                    TestKind::ServerStream => CallStage::Reading,
                    TestKind::BidiStream => CallStage::Reading,
                    TestKind::ClientStream => CallStage::Joining,
                    _ => CallStage::Collecting,
                };
            },
            CallEvent::Collected(body) => {
                self.take_body(body);
            },
            CallEvent::Data(data) => {
                let bytes: usize = count_bytes(self.bytes, data);
                self.bytes = bytes;
                self.chunks = self.chunks + 1;
            },
            CallEvent::OtherFrame => {},
            CallEvent::BodyEnded => {
                self.stage = match self.kind {
                    TestKind::BidiStream => CallStage::Joining,
                    _ => CallStage::Done,
                };
            },
            CallEvent::SenderDone => {
                self.stage = match self.kind {
                    TestKind::ClientStream => CallStage::Collecting,
                    _ => CallStage::Done,
                };
            },
            CallEvent::Failed => {
                self.stage = CallStage::Failed;
            },
        }
    }

    /// What the test found out; `None` while it runs, and when it was given up.
    pub fn outcome(&self) -> (outcome: Option<Outcome>)
        ensures
            outcome is Some <==> self@.stage == CallStage::Done,
            outcome matches Some(o) ==> self@.found(o),
    {
        match self.stage {
            CallStage::Done => Some(
                match self.kind {
                    TestKind::SmallPayload => Outcome::SmallPayload { received: self.bytes },
                    TestKind::LargePayload => Outcome::LargePayload { received: self.bytes },
                    TestKind::ServerStream => Outcome::ServerStream {
                        counted: Tally { chunks: self.chunks, bytes: self.bytes },
                    },
                    TestKind::ClientStream => Outcome::ClientStream { reply: text_of(&self.body) },
                    TestKind::BidiStream => Outcome::BidiStream {
                        counted: Tally { chunks: self.chunks, bytes: self.bytes },
                    },
                    TestKind::ManyRequests => Outcome::ManyRequests,
                },
            ),
            _ => None,
        }
    }
}

/// Sends a small payload and counts what comes back.
pub fn test_small_payload(base_uri: &str) -> (test: Call)
    ensures
        test@ == CallModel::start(TestKind::SmallPayload, base_uri@),
{
    Call::new(TestKind::SmallPayload, base_uri)
}

/// Sends a large payload and counts what comes back.
pub fn test_large_payload(base_uri: &str) -> (test: Call)
    ensures
        test@ == CallModel::start(TestKind::LargePayload, base_uri@),
{
    Call::new(TestKind::LargePayload, base_uri)
}

/// Asks for a stream and counts its frames and bytes.
pub fn test_server_stream(base_uri: &str) -> (test: Call)
    ensures
        test@ == CallModel::start(TestKind::ServerStream, base_uri@),
{
    Call::new(TestKind::ServerStream, base_uri)
}

/// Sends a stream and keeps what the server says about it.
pub fn test_client_stream(base_uri: &str) -> (test: Call)
    ensures
        test@ == CallModel::start(TestKind::ClientStream, base_uri@),
{
    Call::new(TestKind::ClientStream, base_uri)
}

/// Sends a stream and counts the frames and bytes that come back.
pub fn test_bidi_stream(base_uri: &str) -> (test: Call)
    ensures
        test@ == CallModel::start(TestKind::BidiStream, base_uri@),
{
    Call::new(TestKind::BidiStream, base_uri)
}

/// Sends a small payload many times, each time when the last one is answered.
pub fn test_many_requests(base_uri: &str) -> (test: Call)
    ensures
        test@ == CallModel::start(TestKind::ManyRequests, base_uri@),
{
    Call::new(TestKind::ManyRequests, base_uri)
}

/// Starts a test of the suite.
pub fn start_test(kind: TestKind, base_uri: &str) -> (test: Call)
    ensures
        test@ == CallModel::start(kind, base_uri@),
{
    match kind {
        TestKind::SmallPayload => test_small_payload(base_uri),
        TestKind::LargePayload => test_large_payload(base_uri),
        TestKind::ServerStream => test_server_stream(base_uri),
        TestKind::ClientStream => test_client_stream(base_uri),
        TestKind::BidiStream => test_bidi_stream(base_uri),
        TestKind::ManyRequests => test_many_requests(base_uri),
    }
}

/// In every state, what answers the action that is asked for is taken, unless a
/// counter would overflow; and nothing else is taken.
pub proof fn law_every_answer_is_taken(now: CallModel, data: Seq<u8>)
    ensures
        now.action() is Post <==> now.accepts(CallEventModel::Answered),
        now.action() == CallActionModel::Collect <==> now.accepts(CallEventModel::Collected(data)),
        now.action() == CallActionModel::NextFrame <==> now.accepts(CallEventModel::OtherFrame),
        now.action() == CallActionModel::NextFrame <==> now.accepts(CallEventModel::BodyEnded),
        now.action() == CallActionModel::JoinSender <==> now.accepts(CallEventModel::SenderDone),
        now.action() == CallActionModel::NextFrame && now.bytes + data.len() <= usize::MAX
            && now.chunks < usize::MAX ==> now.accepts(CallEventModel::Data(data)),
        now.accepts(CallEventModel::Data(data)) ==> now.action() == CallActionModel::NextFrame,
{
}

/// A call goes its steps in their sequence. The two streams that come back are
/// read frame by frame, every other response at once; what the client streams
/// itself is waited for, before the reply is read or after the last frame. Then
/// the test is over, unless it is the test of a thousand requests and fewer than
/// that were answered: it then starts over with the same request.
pub proof fn law_call_goes_step_by_step(now: CallModel, data: Seq<u8>)
    ensures
        ({
            let answered = now.after(CallEventModel::Answered);
            let collected = now.after(CallEventModel::Collected(data));
            let read = now.after(CallEventModel::BodyEnded);
            let joined = now.after(CallEventModel::SenderDone);
            &&& now.action() matches CallActionModel::Post(uri, body) ==> {
                &&& uri == now.base_uri + crate::route::path_of(plan::route_for(now.kind))
                &&& match now.kind {
                    TestKind::ClientStream | TestKind::BidiStream => body == OutgoingModel::Fed(
                        plan::outgoing(now.kind),
                    ),
                    _ => body == OutgoingModel::Whole(plan::outgoing(now.kind).chunk),
                }
            }
            &&& answered.action() == match now.kind {
                TestKind::ServerStream => CallActionModel::NextFrame,
                TestKind::BidiStream => CallActionModel::NextFrame,
                TestKind::ClientStream => CallActionModel::JoinSender,
                _ => CallActionModel::Collect,
            }
            &&& now.action() == CallActionModel::NextFrame ==> now.after(
                CallEventModel::Data(data),
            ).action() == CallActionModel::NextFrame
            &&& now.kind == TestKind::BidiStream ==> read.action() == CallActionModel::JoinSender
            &&& now.kind != TestKind::BidiStream ==> read.action() == CallActionModel::Done
            &&& now.kind == TestKind::ClientStream ==> joined.action() == CallActionModel::Collect
            &&& now.kind != TestKind::ClientStream ==> joined.action() == CallActionModel::Done
            &&& now.kind != TestKind::ManyRequests || now.answered >= 999 ==> collected.action()
                == CallActionModel::Done
            &&& now.kind == TestKind::ManyRequests && now.answered < 999 ==> collected.action()
                is Post
            &&& now.kind == TestKind::ManyRequests ==> collected.answered == now.answered + 1
        }),
{
}

/// Whatever comes, a test stays the test that it is, of the server that it is of.
pub proof fn law_test_stays_itself(now: CallModel, event: CallEventModel)
    ensures
        now.after(event).kind == now.kind,
        now.after(event).base_uri == now.base_uri,
{
}

/// When a test is over after a response that came in any frames, its outcome
/// tells of that response: how many bytes it had in all, in how many frames it
/// came, or, of the client stream, the very text of it.
pub proof fn law_outcome_tells_of_the_response(
    kind: TestKind,
    base_uri: Seq<char>,
    parts: Seq<Seq<u8>>,
    outcome: Outcome,
)
    requires
        kind != TestKind::ManyRequests,
        buffer::joined(parts).len() <= usize::MAX,
        parts.len() <= usize::MAX,
    ensures
        ({
            let over = CallModel::start(kind, base_uri).after_call(parts);
            let whole = buffer::joined(parts);
            over.found(outcome) <==> match kind {
                TestKind::SmallPayload => outcome matches Outcome::SmallPayload { received }
                    && received == whole.len(),
                TestKind::LargePayload => outcome matches Outcome::LargePayload { received }
                    && received == whole.len(),
                TestKind::ServerStream => outcome matches Outcome::ServerStream { counted }
                    && counted.chunks == parts.len() && counted.bytes == whole.len(),
                TestKind::ClientStream => outcome matches Outcome::ClientStream { reply } && reply@
                    == buffer::text_in(whole),
                TestKind::BidiStream => outcome matches Outcome::BidiStream { counted }
                    && counted.chunks == parts.len() && counted.bytes == whole.len(),
                TestKind::ManyRequests => false,
            }
        }),
{
    law_single_call_counts_the_response(kind, base_uri, parts);
}

/// The test of many requests finds out that they were answered, and nothing else.
pub proof fn law_many_requests_tell_nothing_else(now: CallModel, outcome: Outcome)
    requires
        now.kind == TestKind::ManyRequests,
    ensures
        now.found(outcome) <==> outcome is ManyRequests,
{
}

/// What is sent is what was decided, byte for byte and chunk by chunk, in a POST
/// request for the very URI; and what came is taken for all that it holds.
pub proof fn law_actions_and_events_are_whole(
    action: CallAction,
    chunk: Bytes,
    feed: Feed,
    request: http::Request<()>,
    body: Outgoing,
    uri: Seq<char>,
    expected: OutgoingModel,
)
    ensures
        Outgoing::Whole(chunk)@ == OutgoingModel::Whole(buffer::content(chunk)),
        Outgoing::Fed(feed)@ == OutgoingModel::Fed(feed@),
        CallAction::Post(request, body).carries_out(CallActionModel::Post(uri, expected)) ==> {
            &&& message::post_request(uri) == Some(request)
            &&& message::request_method(request) == "POST"@
            &&& message::is_some_plain_uri(uri) ==> message::request_uri(request) == uri
            &&& body@ == expected
        },
        action.carries_out(CallActionModel::Post(uri, expected)) ==> action is Post,
        action.carries_out(CallActionModel::Collect) <==> action is Collect,
        action.carries_out(CallActionModel::NextFrame) <==> action is NextFrame,
        action.carries_out(CallActionModel::JoinSender) <==> action is JoinSender,
        action.carries_out(CallActionModel::Done) <==> action is Done,
        CallEvent::Collected(chunk)@ == CallEventModel::Collected(buffer::content(chunk)),
        CallEvent::Data(chunk)@ == CallEventModel::Data(buffer::content(chunk)),
        CallEvent::Answered@ == CallEventModel::Answered,
        CallEvent::OtherFrame@ == CallEventModel::OtherFrame,
        CallEvent::BodyEnded@ == CallEventModel::BodyEnded,
        CallEvent::SenderDone@ == CallEventModel::SenderDone,
        CallEvent::Failed@ == CallEventModel::Failed,
{
}

} // verus!
