//! Sending one chunk again and again, until it was sent often enough or the
//! other side takes no more.

use vstd::prelude::*;
use bytes::Bytes;
use crate::buffer;
use crate::payload::{copy_payload, Payload};

verus! {

/// What came of sending a chunk.
#[derive(Clone, Copy, Debug, PartialEq, Eq, Structural)]
pub enum FeedEvent {
    /// The chunk was taken.
    Delivered,
    /// Nobody takes chunks any more.
    Refused,
}

/// A feed, as its contracts speak of it.
pub struct FeedModel {
    /// The bytes of each chunk.
    pub chunk: Seq<u8>,
    /// How many chunks are still to be sent.
    pub left: nat,
    /// How many chunks were taken.
    pub given: nat,
}

impl FeedModel {
    /// A feed that is about to send `times` chunks.
    pub open spec fn fresh(chunk: Seq<u8>, times: nat) -> FeedModel {
        FeedModel { chunk, left: times, given: 0 }
    }

    /// The chunk to send next; none when the feed is over.
    pub open spec fn offered(self) -> Option<Seq<u8>> {
        if self.left > 0 {
            Some(self.chunk)
        } else {
            None
        }
    }

    /// The feed after a chunk was sent: one fewer to go, or, when it was
    /// refused, none at all.
    pub open spec fn after(self, event: FeedEvent) -> FeedModel {
        match event {
            FeedEvent::Delivered => FeedModel {
                left: (self.left - 1) as nat,
                given: self.given + 1,
                ..self
            },
            FeedEvent::Refused => FeedModel { left: 0, ..self },
        }
    }

    /// The feed after its first `k` chunks were taken.
    pub open spec fn after_deliveries(self, k: nat) -> FeedModel
        decreases k,
    {
        if k == 0 {
            self
        } else {
            self.after_deliveries((k - 1) as nat).after(FeedEvent::Delivered)
        }
    }
}

/// While chunks are taken, the feed offers the same chunk each time, exactly
/// `times` times, and then it is over.
pub proof fn law_feed_sends_every_chunk(chunk: Seq<u8>, times: nat, k: nat)
    requires
        k <= times,
    ensures
        ({
            let feed = FeedModel::fresh(chunk, times).after_deliveries(k);
            &&& feed.chunk == chunk
            &&& feed.given == k
            &&& feed.left == times - k
            &&& k < times ==> feed.offered() == Some(chunk)
            &&& k == times ==> feed.offered() is None
        }),
    decreases k,
{
    if k > 0 {
        law_feed_sends_every_chunk(chunk, times, (k - 1) as nat);
    }
}

/// A refusal ends the feed: no chunk follows, and the refused one does not count.
pub proof fn law_feed_stops_when_refused(feed: FeedModel)
    ensures
        feed.after(FeedEvent::Refused).offered() is None,
        feed.after(FeedEvent::Refused).given == feed.given,
{
}

/// A feed of buffers.
pub struct Feed {
    chunk: Bytes,
    left: usize,
    given: usize,
}

impl View for Feed {
    type V = FeedModel;

    closed spec fn view(&self) -> FeedModel {
        FeedModel { chunk: buffer::content(self.chunk), left: self.left as nat, given: self.given as nat }
    }
}

impl Feed {
    /// The chunks sent and the chunks to send fit one counter.
    #[verifier::type_invariant]
    spec fn counts_fit(self) -> bool {
        self.left + self.given <= usize::MAX
    }

    /// A feed that sends `chunk` `times` times.
    pub fn new(chunk: Bytes, times: usize) -> (feed: Feed)
        ensures
            feed@ == FeedModel::fresh(buffer::content(chunk), times as nat),
    {
        Feed { chunk, left: times, given: 0 }
    }

    /// The chunk to send next, if any.
    pub fn offer(&self) -> (chunk: Option<Bytes>)
        ensures
            chunk is Some <==> self@.offered() is Some,
            chunk matches Some(c) ==> self@.offered() == Some(buffer::content(c)),
    {
        if self.left > 0 {
            Some(self.chunk.clone())
        } else {
            None
        }
    }

    /// Whether a chunk is still to be sent.
    pub fn is_over(&self) -> (over: bool)
        ensures
            over == (self@.left == 0),
    {
        self.left == 0
    }

    /// How many chunks were taken.
    pub fn given(&self) -> (given: usize)
        ensures
            given == self@.given,
    {
        self.given
    }

    /// Takes note of what came of the chunk that was offered.
    pub fn step(&mut self, event: FeedEvent)
        requires
            old(self)@.left > 0,
        ensures
            final(self)@ == old(self)@.after(event),
    {
        proof {
            use_type_invariant(&*self);
        }
        match event {
            FeedEvent::Delivered => {
                self.left = self.left - 1;
                self.given = self.given + 1;
            },
            FeedEvent::Refused => {
                self.left = 0;
            },
        }
    }
}

/// A feed of messages.
pub struct PayloadFeed {
    chunk: Payload,
    left: usize,
    given: usize,
}

impl View for PayloadFeed {
    type V = FeedModel;

    closed spec fn view(&self) -> FeedModel {
        FeedModel { chunk: self.chunk@, left: self.left as nat, given: self.given as nat }
    }
}

impl PayloadFeed {
    /// The messages sent and the messages to send fit one counter.
    #[verifier::type_invariant]
    spec fn counts_fit(self) -> bool {
        self.left + self.given <= usize::MAX
    }

    /// A feed that sends `chunk` `times` times.
    pub fn new(chunk: Payload, times: usize) -> (feed: PayloadFeed)
        ensures
            feed@ == FeedModel::fresh(chunk@, times as nat),
    {
        PayloadFeed { chunk, left: times, given: 0 }
    }

    /// The message to send next, if any.
    pub fn offer(&self) -> (chunk: Option<Payload>)
        ensures
            chunk is Some <==> self@.offered() is Some,
            chunk matches Some(c) ==> self@.offered() == Some(c@),
    {
        if self.left > 0 {
            Some(copy_payload(&self.chunk))
        } else {
            None
        }
    }

    /// How many messages were taken.
    pub fn given(&self) -> (given: usize)
        ensures
            given == self@.given,
    {
        self.given
    }

    /// Takes note of what came of the message that was offered.
    pub fn step(&mut self, event: FeedEvent)
        requires
            old(self)@.left > 0,
        ensures
            final(self)@ == old(self)@.after(event),
    {
        proof {
            use_type_invariant(&*self);
        }
        match event {
            FeedEvent::Delivered => {
                self.left = self.left - 1;
                self.given = self.given + 1;
            },
            FeedEvent::Refused => {
                self.left = 0;
            },
        }
    }
}

} // verus!
