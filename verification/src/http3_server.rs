//! The HTTP/3 server: what it does with a connection, and how each handler
//! answers a request.
//!
//! A [`Responder`] is one request being answered. It says what to do next
//! ([`Responder::action`]), and is told what came of it ([`Responder::step`]).

use vstd::prelude::*;
use vstd::string::*;
use vstd::utf8::*;
use bytes::Bytes;
use crate::buffer;
use crate::buffer::{
    buffer_of, buffer_of_literal, buffer_of_text, collect_bytes, copy_pieces, count_bytes, length,
};
use crate::feed::{Feed, FeedEvent, FeedModel};
use crate::message;
use crate::message::{path_text, response_head};
use crate::params;
use crate::params::{read_params, write_pair, StreamParams, DEFAULT_CHUNKS, DEFAULT_CHUNK_SIZE};
use crate::payload;
use crate::payload::server_buffer;
use crate::route;
use crate::route::{find_route, Route};
use crate::tally;
use crate::text::join3;

verus! {

/// What a responder wants done next.
pub enum ServerAction {
    /// Receive the next chunk of the request body.
    Receive,
    /// Send the head of the response.
    Respond(http::Response<()>),
    /// Send a chunk of the response body.
    Send(Bytes),
    /// End the response body.
    Finish,
    /// Nothing: the request is answered, or cannot be.
    Done,
}

/// What came of an action.
pub enum ServerEvent {
    /// A chunk of the request body arrived.
    Received(Bytes),
    /// The request body is over.
    BodyEnded,
    /// The head of the response was sent.
    Responded,
    /// A chunk of the response body was sent.
    Sent,
    /// The response body was ended.
    Finished,
    /// The transport failed.
    Failed,
}

/// How far a request has come.
#[derive(Clone, Copy, Debug, PartialEq, Eq, Structural)]
pub enum Stage {
    Receiving,
    Responding,
    Sending,
    Finishing,
    Done,
    /// Given up: the transport failed.
    Failed,
}

/// An action, as the contracts speak of it.
pub enum ActionModel {
    Receive,
    Respond(u16),
    Send(Seq<u8>),
    Finish,
    Done,
}

/// An event, as the contracts speak of it.
pub enum EventModel {
    Received(Seq<u8>),
    BodyEnded,
    Responded,
    Sent,
    Finished,
    Failed,
}

impl ServerAction {
    /// Whether this action is the one that a model calls for. The head of a
    /// response has a status and no header field.
    pub open spec fn carries_out(self, model: ActionModel) -> bool {
        match (self, model) {
            (ServerAction::Receive, ActionModel::Receive) => true,
            (ServerAction::Respond(head), ActionModel::Respond(status)) => {
                &&& message::response_status(head) == status
                &&& message::response_headers(head) == message::no_header()
            },
            (ServerAction::Send(chunk), ActionModel::Send(bytes)) => buffer::content(chunk)
                == bytes,
            (ServerAction::Finish, ActionModel::Finish) => true,
            (ServerAction::Done, ActionModel::Done) => true,
            _ => false,
        }
    }
}

impl View for ServerEvent {
    type V = EventModel;

    open spec fn view(&self) -> EventModel {
        match *self {
            ServerEvent::Received(chunk) => EventModel::Received(buffer::content(chunk)),
            ServerEvent::BodyEnded => EventModel::BodyEnded,
            ServerEvent::Responded => EventModel::Responded,
            ServerEvent::Sent => EventModel::Sent,
            ServerEvent::Finished => EventModel::Finished,
            ServerEvent::Failed => EventModel::Failed,
        }
    }
}

/// A request being answered, as the contracts speak of it.
pub struct ResponderModel {
    /// The handler; `None` when the path has none.
    pub handler: Option<Route>,
    pub stage: Stage,
    /// The request body, as far as the handler keeps it.
    pub body: Seq<u8>,
    /// Bytes of the request body, where the handler counts them.
    pub bytes: nat,
    /// Chunks of the request body, where the handler counts them.
    pub chunks: nat,
    /// What the request body asks for, where it asks for a stream.
    pub params: StreamParams,
    /// What is being sent.
    pub feed: FeedModel,
}

/// The body of the answer to a path without a handler.
pub open spec fn not_found_body() -> Seq<u8> {
    encode_utf8("Not Found\n"@)
}

/// A feed that sends nothing.
pub open spec fn idle_feed() -> FeedModel {
    FeedModel::fresh(Seq::empty(), 0)
}

impl ResponderModel {
    /// A request that was just accepted. Most handlers read the body first;
    /// the echo and the missing handler answer at once.
    pub open spec fn start(handler: Option<Route>) -> ResponderModel {
        ResponderModel {
            handler,
            stage: if handler is None || handler == Some(Route::Bidi) {
                Stage::Responding
            } else {
                Stage::Receiving
            },
            body: Seq::empty(),
            bytes: 0,
            chunks: 0,
            params: StreamParams { chunks: DEFAULT_CHUNKS, chunk_size: DEFAULT_CHUNK_SIZE },
            feed: idle_feed(),
        }
    }

    /// The status of the answer.
    pub open spec fn status(self) -> u16 {
        if self.handler is None {
            404
        } else {
            200
        }
    }

    /// What to do next.
    pub open spec fn action(self) -> ActionModel {
        match self.stage {
            Stage::Receiving => ActionModel::Receive,
            Stage::Responding => ActionModel::Respond(self.status()),
            Stage::Sending => ActionModel::Send(self.feed.chunk),
            Stage::Finishing => ActionModel::Finish,
            Stage::Done => ActionModel::Done,
            Stage::Failed => ActionModel::Done,
        }
    }

    /// What the handler sends once the head of the response is out.
    pub open spec fn answer(self) -> FeedModel {
        match self.handler {
            None => FeedModel::fresh(not_found_body(), 1),
            Some(Route::Small) => FeedModel::fresh(self.body, 1),
            Some(Route::Large) => FeedModel::fresh(payload::server_data(self.bytes), 1),
            Some(Route::ServerStream) => FeedModel::fresh(
                payload::server_data(self.params.chunk_size as nat),
                self.params.chunks as nat,
            ),
            Some(Route::ClientStream) => FeedModel::fresh(
                encode_utf8(params::pair_text(self.bytes, self.chunks)),
                1,
            ),
            Some(Route::Bidi) => idle_feed(),
        }
    }

    /// Whether an event answers the action that was asked for, and what it
    /// brings can be counted and held. Any action can fail.
    pub open spec fn accepts(self, event: EventModel) -> bool {
        match event {
            EventModel::Received(chunk) => {
                &&& self.stage == Stage::Receiving
                &&& self.handler == Some(Route::Large) || self.handler == Some(Route::ClientStream)
                    ==> self.bytes + chunk.len() <= usize::MAX
                &&& self.handler == Some(Route::ClientStream) ==> self.chunks < usize::MAX
            },
            EventModel::BodyEnded => self.stage == Stage::Receiving,
            EventModel::Responded => {
                &&& self.stage == Stage::Responding
                &&& self.handler == Some(Route::Large) ==> self.bytes <= isize::MAX
                &&& self.handler == Some(Route::ServerStream) ==> self.params.chunk_size
                    <= isize::MAX
            },
            EventModel::Sent => self.stage == Stage::Sending,
            EventModel::Finished => self.stage == Stage::Finishing,
            EventModel::Failed => self.stage != Stage::Done && self.stage != Stage::Failed,
        }
    }

    /// This request with `feed` to send: the echo goes back to receiving when
    /// there is nothing left to send, every other handler ends the body.
    pub open spec fn sending(self, feed: FeedModel) -> ResponderModel {
        ResponderModel {
            feed,
            stage: if feed.left > 0 {
                Stage::Sending
            } else if self.handler == Some(Route::Bidi) {
                Stage::Receiving
            } else {
                Stage::Finishing
            },
            ..self
        }
    }

    /// This request and one more chunk of its body.
    pub open spec fn with_chunk(self, chunk: Seq<u8>) -> ResponderModel {
        match self.handler {
            Some(Route::Small) | Some(Route::ServerStream) => ResponderModel {
                body: self.body + chunk,
                ..self
            },
            Some(Route::Large) => ResponderModel { bytes: self.bytes + chunk.len(), ..self },
            Some(Route::ClientStream) => ResponderModel {
                bytes: self.bytes + chunk.len(),
                chunks: self.chunks + 1,
                ..self
            },
            Some(Route::Bidi) => if chunk.len() > 0 {
                self.sending(FeedModel::fresh(chunk, 1))
            } else {
                self
            },
            None => self,
        }
    }

    /// This request once its body is over.
    pub open spec fn with_body_over(self) -> ResponderModel {
        match self.handler {
            Some(Route::Bidi) => ResponderModel { stage: Stage::Finishing, ..self },
            Some(Route::ServerStream) => ResponderModel {
                stage: Stage::Responding,
                params: params::params_in(buffer::text_in(self.body)),
                ..self
            },
            _ => ResponderModel { stage: Stage::Responding, ..self },
        }
    }

    /// The request after an event.
    pub open spec fn after(self, event: EventModel) -> ResponderModel {
        match event {
            EventModel::Received(chunk) => self.with_chunk(chunk),
            EventModel::BodyEnded => self.with_body_over(),
            EventModel::Responded => ResponderModel {
                body: Seq::empty(),
                ..self
            }.sending(self.answer()),
            EventModel::Sent => self.sending(self.feed.after(FeedEvent::Delivered)),
            EventModel::Finished => ResponderModel { stage: Stage::Done, ..self },
            EventModel::Failed => ResponderModel { stage: Stage::Failed, ..self },
        }
    }

    /// The request after some chunks of its body.
    pub open spec fn after_receiving(self, parts: Seq<Seq<u8>>) -> ResponderModel
        decreases parts.len(),
    {
        if parts.len() == 0 {
            self
        } else {
            self.after_receiving(parts.drop_last()).after(EventModel::Received(parts.last()))
        }
    }

    /// The request after its whole body came in these chunks and the head of
    /// the response went out.
    pub open spec fn answering(self, parts: Seq<Seq<u8>>) -> ResponderModel {
        self.after_receiving(parts).after(EventModel::BodyEnded).after(EventModel::Responded)
    }

    /// The request after `k` chunks of the answer were sent.
    pub open spec fn after_sending(self, k: nat) -> ResponderModel
        decreases k,
    {
        if k == 0 {
            self
        } else {
            self.after_sending((k - 1) as nat).after(EventModel::Sent)
        }
    }

    /// The echo after a chunk came and, unless it was empty, was sent back.
    pub open spec fn after_echo(self, chunk: Seq<u8>) -> ResponderModel {
        let got = self.after(EventModel::Received(chunk));
        if got.stage == Stage::Sending {
            got.after(EventModel::Sent)
        } else {
            got
        }
    }

    /// The echo after some chunks.
    pub open spec fn after_echoing(self, parts: Seq<Seq<u8>>) -> ResponderModel
        decreases parts.len(),
    {
        if parts.len() == 0 {
            self
        } else {
            self.after_echoing(parts.drop_last()).after_echo(parts.last())
        }
    }

    /// The chunks that the echo sends when some chunks come.
    pub open spec fn echoes(self, parts: Seq<Seq<u8>>) -> Seq<Seq<u8>>
        decreases parts.len(),
    {
        if parts.len() == 0 {
            Seq::empty()
        } else {
            let before = self.after_echoing(parts.drop_last());
            match before.after(EventModel::Received(parts.last())).action() {
                ActionModel::Send(chunk) => self.echoes(parts.drop_last()).push(chunk),
                _ => self.echoes(parts.drop_last()),
            }
        }
    }
}

/// What is left of a request after its body came in some chunks, before the body is over.
proof fn lemma_after_receiving(route: Route, parts: Seq<Seq<u8>>)
    requires
        route != Route::Bidi,
    ensures
        ({
            let start = ResponderModel::start(Some(route));
            let now = start.after_receiving(parts);
            let keeps = route == Route::Small || route == Route::ServerStream;
            &&& now.handler == Some(route)
            &&& now.stage == Stage::Receiving
            &&& now.params == start.params
            &&& now.feed == start.feed
            &&& now.body == (if keeps {
                buffer::joined(parts)
            } else {
                Seq::empty()
            })
            &&& now.bytes == (if keeps {
                0
            } else {
                tally::total_len(parts)
            })
            &&& now.chunks == (if route == Route::ClientStream {
                parts.len()
            } else {
                0
            })
        }),
    decreases parts.len(),
{
    if parts.len() > 0 {
        lemma_after_receiving(route, parts.drop_last());
    }
}

/// What a handler sends once its whole request body came in some chunks.
pub proof fn lemma_answer_of(route: Route, parts: Seq<Seq<u8>>)
    requires
        route != Route::Bidi,
    ensures
        ResponderModel::start(Some(route)).answering(parts).feed == match route {
            Route::Small => FeedModel::fresh(buffer::joined(parts), 1),
            Route::Large => FeedModel::fresh(payload::server_data(tally::total_len(parts)), 1),
            Route::ServerStream => {
                let asked = params::params_in(buffer::text_in(buffer::joined(parts)));
                FeedModel::fresh(
                    payload::server_data(asked.chunk_size as nat),
                    asked.chunks as nat,
                )
            },
            Route::ClientStream => FeedModel::fresh(
                encode_utf8(params::pair_text(tally::total_len(parts), parts.len())),
                1,
            ),
            Route::Bidi => idle_feed(),
        },
{
    lemma_after_receiving(route, parts);
}

/// `/small` answers with status 200 and sends back exactly the body it got,
/// however the body was cut into chunks.
pub proof fn law_small_echoes_the_body(parts: Seq<Seq<u8>>)
    ensures
        ({
            let read = ResponderModel::start(Some(Route::Small)).after_receiving(parts).after(
                EventModel::BodyEnded,
            );
            let answering = read.after(EventModel::Responded);
            &&& read.action() == ActionModel::Respond(200)
            &&& read.accepts(EventModel::Responded)
            &&& answering.action() == ActionModel::Send(buffer::joined(parts))
            &&& answering.after(EventModel::Sent).action() == ActionModel::Finish
            &&& answering.after(EventModel::Sent).after(EventModel::Finished).action()
                == ActionModel::Done
        }),
{
    lemma_after_receiving(Route::Small, parts);
}

/// `/large` answers with status 200 and one chunk as long as the body it got,
/// made of the server's own bytes, however the body was cut into chunks.
pub proof fn law_large_answers_in_size(parts: Seq<Seq<u8>>)
    ensures
        ({
            let read = ResponderModel::start(Some(Route::Large)).after_receiving(parts).after(
                EventModel::BodyEnded,
            );
            let answering = read.after(EventModel::Responded);
            &&& read.action() == ActionModel::Respond(200)
            &&& answering.action() == ActionModel::Send(
                payload::server_data(buffer::joined(parts).len()),
            )
            &&& answering.after(EventModel::Sent).action() == ActionModel::Finish
        }),
{
    lemma_after_receiving(Route::Large, parts);
    tally::lemma_total_len_is_joined_len(parts);
}

/// `/server-stream` answers with status 200 and sends as many chunks as the
/// body asks for, each of the size it asks for and made of the server's own
/// bytes. Then it ends.
pub proof fn law_server_stream_sends_what_is_asked(parts: Seq<Seq<u8>>, k: nat)
    requires
        k <= params::params_in(buffer::text_in(buffer::joined(parts))).chunks,
    ensures
        ({
            let asked = params::params_in(buffer::text_in(buffer::joined(parts)));
            let read = ResponderModel::start(Some(Route::ServerStream)).after_receiving(
                parts,
            ).after(EventModel::BodyEnded);
            let now = read.after(EventModel::Responded).after_sending(k);
            &&& read.action() == ActionModel::Respond(200)
            &&& k < asked.chunks ==> now.action() == ActionModel::Send(
                payload::server_data(asked.chunk_size as nat),
            )
            &&& k == asked.chunks ==> now.action() == ActionModel::Finish
            &&& k < asked.chunks ==> now.accepts(EventModel::Sent)
            &&& k == asked.chunks ==> now.accepts(EventModel::Finished)
            &&& now.after(EventModel::Finished).action() == ActionModel::Done
        }),
{
    lemma_after_receiving(Route::ServerStream, parts);
    lemma_stream_after_sending(parts, k);
}

/// The server stream after some of its chunks.
proof fn lemma_stream_after_sending(parts: Seq<Seq<u8>>, k: nat)
    requires
        k <= params::params_in(buffer::text_in(buffer::joined(parts))).chunks,
    ensures
        ({
            let asked = params::params_in(buffer::text_in(buffer::joined(parts)));
            let now = ResponderModel::start(Some(Route::ServerStream)).answering(
                parts,
            ).after_sending(k);
            &&& now.handler == Some(Route::ServerStream)
            &&& now.feed.chunk == payload::server_data(asked.chunk_size as nat)
            &&& now.feed.left == asked.chunks - k
            &&& now.stage == (if k < asked.chunks {
                Stage::Sending
            } else {
                Stage::Finishing
            })
        }),
    decreases k,
{
    lemma_after_receiving(Route::ServerStream, parts);
    if k > 0 {
        lemma_stream_after_sending(parts, (k - 1) as nat);
    }
}

/// `/client-stream` answers with status 200 and the number of bytes of the
/// body, a colon, and the number of chunks that it came in.
pub proof fn law_client_stream_reports_what_came(parts: Seq<Seq<u8>>)
    ensures
        ({
            let read = ResponderModel::start(Some(Route::ClientStream)).after_receiving(
                parts,
            ).after(EventModel::BodyEnded);
            let answering = read.after(EventModel::Responded);
            &&& read.action() == ActionModel::Respond(200)
            &&& answering.action() == ActionModel::Send(
                encode_utf8(params::pair_text(buffer::joined(parts).len(), parts.len())),
            )
            &&& answering.after(EventModel::Sent).action() == ActionModel::Finish
        }),
{
    lemma_after_receiving(Route::ClientStream, parts);
    tally::lemma_total_len_is_joined_len(parts);
}

/// `/bidi` answers with status 200 before it reads anything. It reads a chunk
/// only when the one before it was sent back, and ends when the body does.
pub proof fn law_bidi_answers_before_it_reads(parts: Seq<Seq<u8>>)
    ensures
        ({
            let start = ResponderModel::start(Some(Route::Bidi));
            let now = start.after(EventModel::Responded).after_echoing(parts);
            &&& start.action() == ActionModel::Respond(200)
            &&& now.handler == Some(Route::Bidi)
            &&& now.action() == ActionModel::Receive
            &&& now.after(EventModel::BodyEnded).action() == ActionModel::Finish
        }),
    decreases parts.len(),
{
    if parts.len() > 0 {
        law_bidi_answers_before_it_reads(parts.drop_last());
    }
}

/// `/bidi` sends back all that comes, in the sequence in which it comes; and
/// where no chunk is empty, chunk by chunk.
pub proof fn law_bidi_echoes_what_comes(parts: Seq<Seq<u8>>)
    ensures
        ({
            let open = ResponderModel::start(Some(Route::Bidi)).after(EventModel::Responded);
            &&& buffer::joined(open.echoes(parts)) == buffer::joined(parts)
            &&& (forall|i: int| 0 <= i < parts.len() ==> (#[trigger] parts[i]).len() > 0)
                ==> open.echoes(parts) == parts
        }),
    decreases parts.len(),
{
    let open = ResponderModel::start(Some(Route::Bidi)).after(EventModel::Responded);
    if parts.len() > 0 {
        let front = parts.drop_last();
        let last = parts.last();
        law_bidi_echoes_what_comes(front);
        law_bidi_answers_before_it_reads(front);
        if last.len() > 0 {
            assert(open.echoes(parts) == open.echoes(front).push(last));
            assert(open.echoes(parts).drop_last() =~= open.echoes(front));
        } else {
            assert(buffer::joined(front) + last =~= buffer::joined(front));
        }
        if forall|i: int| 0 <= i < parts.len() ==> (#[trigger] parts[i]).len() > 0 {
            assert forall|i: int| 0 <= i < front.len() implies (#[trigger] front[i]).len() > 0 by {
                assert(front[i] == parts[i]);
            }
            assert(parts[parts.len() - 1].len() > 0);
            assert(front.push(last) =~= parts);
        }
    } else {
        assert(parts =~= Seq::<Seq<u8>>::empty());
    }
}

/// A path without a handler is answered at once: status 404, the words that
/// say so, and the end. Its body is never read.
pub proof fn law_unknown_path_is_not_found(path: Seq<char>)
    requires
        forall|r: Route| path != #[trigger] route::path_of(r),
    ensures
        ({
            let start = ResponderModel::start(route::route_of(path));
            let answering = start.after(EventModel::Responded);
            &&& start.action() == ActionModel::Respond(404)
            &&& answering.action() == ActionModel::Send(not_found_body())
            &&& answering.after(EventModel::Sent).action() == ActionModel::Finish
        }),
{
    assert(path != route::path_of(Route::Small));
    assert(path != route::path_of(Route::Large));
    assert(path != route::path_of(Route::ServerStream));
    assert(path != route::path_of(Route::ClientStream));
    assert(path != route::path_of(Route::Bidi));
}

/// A handler that reads the body first takes every chunk of it, and its end,
/// for as long as the counts fit. Then it takes that the head of the response
/// is out, unless what it would have to send is longer than any buffer.
pub proof fn law_body_is_taken(route: Route, parts: Seq<Seq<u8>>, next: Seq<u8>)
    requires
        route != Route::Bidi,
        tally::total_len(parts) + next.len() <= usize::MAX,
        parts.len() < usize::MAX,
    ensures
        ({
            let now = ResponderModel::start(Some(route)).after_receiving(parts);
            let read = now.after(EventModel::BodyEnded);
            let asked = params::params_in(buffer::text_in(buffer::joined(parts)));
            &&& now.action() == ActionModel::Receive
            &&& now.accepts(EventModel::Received(next))
            &&& now.accepts(EventModel::BodyEnded)
            &&& read.action() == ActionModel::Respond(200)
            &&& read.accepts(EventModel::Responded) <==> {
                &&& route == Route::Large ==> tally::total_len(parts) <= isize::MAX
                &&& route == Route::ServerStream ==> asked.chunk_size <= isize::MAX
            }
        }),
{
    lemma_after_receiving(route, parts);
}

/// The echo takes every chunk that comes and, unless it was empty, that it
/// was sent back.
pub proof fn law_echo_is_taken(parts: Seq<Seq<u8>>, next: Seq<u8>)
    ensures
        ({
            let start = ResponderModel::start(Some(Route::Bidi));
            let now = start.after(EventModel::Responded).after_echoing(parts);
            &&& start.accepts(EventModel::Responded)
            &&& now.accepts(EventModel::Received(next))
            &&& now.accepts(EventModel::BodyEnded)
            &&& next.len() > 0 ==> now.after(EventModel::Received(next)).accepts(EventModel::Sent)
        }),
{
    law_bidi_answers_before_it_reads(parts);
}

/// When the transport fails, whatever was under way, the request is given up:
/// there is nothing more to receive or to send, and no event is taken.
pub proof fn law_failure_ends_the_request(now: ResponderModel, event: EventModel)
    ensures
        now.action() != ActionModel::Done <==> now.accepts(EventModel::Failed),
        now.after(EventModel::Failed).action() == ActionModel::Done,
        !now.after(EventModel::Failed).accepts(event),
{
}

/// A request being answered.
pub struct Responder {
    handler: Option<Route>,
    stage: Stage,
    body: Vec<u8>,
    bytes: usize,
    chunks: usize,
    params: StreamParams,
    feed: Feed,
}

impl View for Responder {
    type V = ResponderModel;

    closed spec fn view(&self) -> ResponderModel {
        ResponderModel {
            handler: self.handler,
            stage: self.stage,
            body: self.body@,
            bytes: self.bytes as nat,
            chunks: self.chunks as nat,
            params: self.params,
            feed: self.feed@,
        }
    }
}

impl Responder {
    /// What is being sent in the stage of sending is still to be sent.
    #[verifier::type_invariant]
    spec fn sends_something(self) -> bool {
        self.stage == Stage::Sending ==> self.feed@.left > 0
    }

    /// A request for a handler, or for none.
    fn new(handler: Option<Route>, stage: Stage) -> (responder: Responder)
        requires
            stage == ResponderModel::start(handler).stage,
        ensures
            responder@ == ResponderModel::start(handler),
    {
        let responder = Responder {
            handler,
            stage,
            body: Vec::new(),
            bytes: 0,
            chunks: 0,
            params: StreamParams { chunks: DEFAULT_CHUNKS, chunk_size: DEFAULT_CHUNK_SIZE },
            feed: Feed::new(buffer_of(Vec::new()), 0),
        };
        assert(responder.feed@ == idle_feed());
        responder
    }

    /// What to do next.
    pub fn action(&self) -> (action: ServerAction)
        ensures
            action.carries_out(self@.action()),
    {
        proof {
            use_type_invariant(self);
        }
        match self.stage {
            Stage::Receiving => ServerAction::Receive,
            Stage::Responding => {
                let status: u16 = if self.handler.is_none() {
                    404
                } else {
                    200
                };
                ServerAction::Respond(response_head(status).unwrap())
            },
            Stage::Sending => ServerAction::Send(self.feed.offer().unwrap()),
            Stage::Finishing => ServerAction::Finish,
            Stage::Done => ServerAction::Done,
            Stage::Failed => ServerAction::Done,
        }
    }

    /// Whether [`Responder::step`] can take an event.
    pub fn accepts(&self, event: &ServerEvent) -> (accepted: bool)
        ensures
            accepted == self@.accepts(event@),
    {
        match event {
            ServerEvent::Received(chunk) => {
                let len: usize = length(chunk);
                let fits = len <= usize::MAX - self.bytes;
                match self.handler {
                    Some(Route::Large) => self.stage == Stage::Receiving && fits,
                    Some(Route::ClientStream) => self.stage == Stage::Receiving && fits
                        && self.chunks < usize::MAX,
                    _ => self.stage == Stage::Receiving,
                }
            },
            ServerEvent::BodyEnded => self.stage == Stage::Receiving,
            ServerEvent::Responded => match self.handler {
                Some(Route::Large) => self.stage == Stage::Responding && self.bytes
                    <= isize::MAX as usize,
                Some(Route::ServerStream) => self.stage == Stage::Responding
                    && self.params.chunk_size <= isize::MAX as usize,
                _ => self.stage == Stage::Responding,
            },
            ServerEvent::Sent => self.stage == Stage::Sending,
            ServerEvent::Finished => self.stage == Stage::Finishing,
            ServerEvent::Failed => self.stage != Stage::Done && self.stage != Stage::Failed,
        }
    }

    /// Puts up `feed` to be sent.
    fn send(&mut self, feed: Feed)
        ensures
            final(self)@ == old(self)@.sending(feed@),
    {
        let stage = if !feed.is_over() {
            Stage::Sending
        } else {
            match self.handler {
                Some(Route::Bidi) => Stage::Receiving,
                _ => Stage::Finishing,
            }
        };
        self.stage = Stage::Done;
        self.feed = feed;
        self.stage = stage;
    }

    /// Takes in a chunk of the request body.
    fn take_chunk(&mut self, chunk: Bytes)
        requires
            old(self)@.accepts(EventModel::Received(buffer::content(chunk))),
        ensures
            final(self)@ == old(self)@.with_chunk(buffer::content(chunk)),
    {
        match self.handler {
            Some(Route::Small) | Some(Route::ServerStream) => {
                let mut body: Vec<u8> = Vec::new();
                std::mem::swap(&mut self.body, &mut body);
                collect_bytes(&mut body, chunk);
                self.body = body;
            },
            Some(Route::Large) => {
                let bytes: usize = count_bytes(self.bytes, chunk);
                self.bytes = bytes;
            },
            Some(Route::ClientStream) => {
                let bytes: usize = count_bytes(self.bytes, chunk);
                self.bytes = bytes;
                self.chunks = self.chunks + 1;
            },
            Some(Route::Bidi) => {
                let mut pieces = copy_pieces(chunk);
                match pieces.pop() {
                    Some(piece) => {
                        self.send(Feed::new(piece, 1));
                    },
                    None => {},
                }
            },
            None => {},
        }
    }

    /// Goes on after the request body is over.
    fn end_body(&mut self)
        requires
            old(self)@.accepts(EventModel::BodyEnded),
        ensures
            final(self)@ == old(self)@.with_body_over(),
    {
        match self.handler {
            Some(Route::Bidi) => {
                self.stage = Stage::Finishing;
            },
            Some(Route::ServerStream) => {
                self.params = read_params(&self.body);
                self.stage = Stage::Responding;
            },
            _ => {
                self.stage = Stage::Responding;
            },
        }
    }

    /// Puts up the answer once the head of the response is out.
    fn send_answer(&mut self)
        requires
            old(self)@.accepts(EventModel::Responded),
        ensures
            final(self)@ == old(self)@.after(EventModel::Responded),
    {
        let mut body: Vec<u8> = Vec::new();
        std::mem::swap(&mut self.body, &mut body);
        let feed = match self.handler {
            None => Feed::new(buffer_of_literal("Not Found\n"), 1),
            Some(Route::Small) => Feed::new(buffer_of(body), 1),
            Some(Route::Large) => Feed::new(server_buffer(self.bytes), 1),
            Some(Route::ServerStream) => Feed::new(
                server_buffer(self.params.chunk_size),
                self.params.chunks,
            ),
            Some(Route::ClientStream) => Feed::new(
                buffer_of_text(write_pair(self.bytes, self.chunks)),
                1,
            ),
            Some(Route::Bidi) => Feed::new(buffer_of(Vec::new()), 0),
        };
        assert(feed@ =~= old(self)@.answer());
        self.send(feed);
    }

    /// Takes note of what came of the last action.
    pub fn step(&mut self, event: ServerEvent)
        requires
            old(self)@.accepts(event@),
        ensures
            final(self)@ == old(self)@.after(event@),
    {
        match event {
            ServerEvent::Received(chunk) => {
                self.take_chunk(chunk);
            },
            ServerEvent::BodyEnded => {
                self.end_body();
            },
            ServerEvent::Responded => {
                self.send_answer();
            },
            ServerEvent::Sent => {
                proof {
                    use_type_invariant(&*self);
                }
                let mut feed = Feed::new(buffer_of(Vec::new()), 0);
                self.stage = Stage::Done;
                std::mem::swap(&mut self.feed, &mut feed);
                feed.step(FeedEvent::Delivered);
                self.send(feed);
            },
            ServerEvent::Finished => {
                self.stage = Stage::Done;
            },
            ServerEvent::Failed => {
                self.stage = Stage::Failed;
            },
        }
    }
}

/// Answers with the request body.
pub fn handle_small() -> (responder: Responder)
    ensures
        responder@ == ResponderModel::start(Some(Route::Small)),
{
    Responder::new(Some(Route::Small), Stage::Receiving)
}

/// Answers with as many bytes as the request body has.
pub fn handle_large() -> (responder: Responder)
    ensures
        responder@ == ResponderModel::start(Some(Route::Large)),
{
    Responder::new(Some(Route::Large), Stage::Receiving)
}

/// Answers with the stream that the request body asks for.
pub fn handle_server_stream() -> (responder: Responder)
    ensures
        responder@ == ResponderModel::start(Some(Route::ServerStream)),
{
    Responder::new(Some(Route::ServerStream), Stage::Receiving)
}

/// Answers with the size of the request body and the number of its chunks.
pub fn handle_client_stream() -> (responder: Responder)
    ensures
        responder@ == ResponderModel::start(Some(Route::ClientStream)),
{
    Responder::new(Some(Route::ClientStream), Stage::Receiving)
}

/// Answers with each chunk of the request body as it comes.
pub fn handle_bidi() -> (responder: Responder)
    ensures
        responder@ == ResponderModel::start(Some(Route::Bidi)),
{
    Responder::new(Some(Route::Bidi), Stage::Responding)
}

/// Starts the handler that a path reaches.
pub fn route_request(path: &str) -> (responder: Responder)
    ensures
        responder@ == ResponderModel::start(route::route_of(path@)),
{
    match find_route(path) {
        Some(Route::Small) => handle_small(),
        Some(Route::Large) => handle_large(),
        Some(Route::ServerStream) => handle_server_stream(),
        Some(Route::ClientStream) => handle_client_stream(),
        Some(Route::Bidi) => handle_bidi(),
        None => Responder::new(None, Stage::Responding),
    }
}

/// What a connection brings next.
pub enum ConnectionEvent {
    /// A request.
    Accepted(http::Request<()>),
    /// The peer closed the connection.
    Closed,
    /// No request could be accepted, or one could not be read.
    Failed,
}

/// What to do about it.
pub enum ConnectionAction {
    /// Answer the request, beside whatever else the connection brings.
    Serve { path: String, responder: Responder },
    /// Accept no more.
    Stop,
}

/// Decides what to do with what a connection brings: every request is
/// answered by the handler of its path, until the peer closes or the
/// connection fails.
pub fn handle_connection(event: ConnectionEvent) -> (action: ConnectionAction)
    ensures
        match event {
            ConnectionEvent::Accepted(request) => action matches ConnectionAction::Serve {
                path,
                responder,
            } && path@ == message::request_path(request) && responder@ == ResponderModel::start(
                route::route_of(message::request_path(request)),
            ),
            ConnectionEvent::Closed => action is Stop,
            ConnectionEvent::Failed => action is Stop,
        },
{
    match event {
        ConnectionEvent::Accepted(request) => {
            let path = path_text(&request);
            let responder = route_request(path.as_str());
            ConnectionAction::Serve { path, responder }
        },
        ConnectionEvent::Closed => ConnectionAction::Stop,
        ConnectionEvent::Failed => ConnectionAction::Stop,
    }
}

/// What the server says when a request fails.
pub fn request_error_line(path: &str, error: &str) -> (line: String)
    ensures
        line@ == "Request error on "@ + path@ + ": "@ + error@,
{
    let mut line = join3("Request error on ", path, ": ");
    line.append(error);
    line
}

/// What a server says when a connection fails.
pub fn connection_error_line(error: &str) -> (line: String)
    ensures
        line@ == "Connection error: "@ + error@,
{
    let mut line = "Connection error: ".to_owned();
    line.append(error);
    line
}

/// In every state, what answers the action that is asked for is taken, unless a
/// counter would overflow or what is to be sent is longer than any buffer; and
/// nothing else is taken. Once the response body is ended, there is nothing
/// more to do.
pub proof fn law_every_answer_is_taken(now: ResponderModel, chunk: Seq<u8>)
    ensures
        now.action() == ActionModel::Receive <==> now.accepts(EventModel::BodyEnded),
        now.action() == ActionModel::Receive && now.bytes + chunk.len() <= usize::MAX && now.chunks
            < usize::MAX ==> now.accepts(EventModel::Received(chunk)),
        now.accepts(EventModel::Received(chunk)) ==> now.action() == ActionModel::Receive,
        now.action() is Respond && now.bytes <= isize::MAX && now.params.chunk_size <= isize::MAX
            ==> now.accepts(EventModel::Responded),
        now.accepts(EventModel::Responded) ==> now.action() is Respond,
        now.action() is Send <==> now.accepts(EventModel::Sent),
        now.action() == ActionModel::Finish <==> now.accepts(EventModel::Finished),
        now.after(EventModel::Finished).action() == ActionModel::Done,
{
}

/// While there is more than one chunk left to send, the same chunk is sent
/// again. After the last one the echo goes back to reading, and every other
/// handler ends the body.
pub proof fn law_answer_is_sent_to_its_end(now: ResponderModel)
    requires
        now.action() is Send,
        now.feed.left > 0,
    ensures
        ({
            let next = now.after(EventModel::Sent);
            &&& now.action() == ActionModel::Send(now.feed.chunk)
            &&& next.handler == now.handler
            &&& next.feed.left == now.feed.left - 1
            &&& now.feed.left > 1 ==> next.action() == now.action()
            &&& now.feed.left == 1 && now.handler == Some(Route::Bidi) ==> next.action()
                == ActionModel::Receive
            &&& now.feed.left == 1 && now.handler != Some(Route::Bidi) ==> next.action()
                == ActionModel::Finish
        }),
{
}

/// The echo answers every chunk that is not empty with that very chunk, however
/// many came before, and then reads on. An empty one is passed over.
pub proof fn law_echo_answers_each_chunk(parts: Seq<Seq<u8>>, next: Seq<u8>)
    ensures
        ({
            let now = ResponderModel::start(Some(Route::Bidi)).after(
                EventModel::Responded,
            ).after_echoing(parts);
            let came = now.after(EventModel::Received(next));
            &&& next.len() > 0 ==> came.action() == ActionModel::Send(next)
            &&& next.len() > 0 ==> came.after(EventModel::Sent).action() == ActionModel::Receive
            &&& next.len() == 0 ==> came.action() == ActionModel::Receive
        }),
{
    law_bidi_answers_before_it_reads(parts);
}

/// What is sent is what was decided, byte for byte and with the status that was
/// decided and no header field; and what came is taken for all that it holds.
pub proof fn law_actions_and_events_are_whole(
    action: ServerAction,
    chunk: Bytes,
    head: http::Response<()>,
    status: u16,
    bytes: Seq<u8>,
)
    ensures
        ServerAction::Send(chunk).carries_out(ActionModel::Send(bytes)) <==> buffer::content(chunk)
            == bytes,
        ServerAction::Respond(head).carries_out(ActionModel::Respond(status)) <==> {
            &&& message::response_status(head) == status
            &&& message::response_headers(head) == Map::<Seq<char>, Seq<char>>::empty()
        },
        action.carries_out(ActionModel::Receive) <==> action is Receive,
        action.carries_out(ActionModel::Finish) <==> action is Finish,
        action.carries_out(ActionModel::Done) <==> action is Done,
        action.carries_out(ActionModel::Send(bytes)) ==> action is Send,
        action.carries_out(ActionModel::Respond(status)) ==> action is Respond,
        ServerEvent::Received(chunk)@ == EventModel::Received(buffer::content(chunk)),
        ServerEvent::BodyEnded@ == EventModel::BodyEnded,
        ServerEvent::Responded@ == EventModel::Responded,
        ServerEvent::Sent@ == EventModel::Sent,
        ServerEvent::Finished@ == EventModel::Finished,
        ServerEvent::Failed@ == EventModel::Failed,
{
}

} // verus!
