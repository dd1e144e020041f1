//! The two endpoints, the topic handle and the events of the back-channel.
//!
//! An endpoint owns one reusable buffer and decides what goes over the wire
//! and what a received frame means. The transport itself is driven by the
//! caller: a send operation stages the frame that the caller then hands to
//! the transport, and a receive operation takes the buffer that the transport
//! filled together with the length it reported.

use vstd::prelude::*;
use vstd::slice::slice_subrange;
use crate::error::Error;
use crate::wire::{
    check_frame, demux, fits, overwrite, received_frame, split_publication, tagged_frame,
    write_tagged, Signal, TAG_MESSAGE, TAG_SUBSCRIBE, TAG_UNSUBSCRIBE,
};

verus! {

/// Initial capacity of a subscriber's scratch buffer.
pub const SCRATCH_CAPACITY: usize = 2048;

/// An endpoint that can be attached to a transport address.
///
/// The endpoints of this module hold no transport; a type that pairs one of
/// them with a transport implements this trait.
pub trait Socket {
    /// Accepts peers at `uri`.
    fn bind(&mut self, uri: &str) -> Result<(), Error>;

    /// Reaches out to the peer at `uri`.
    fn connect(&mut self, uri: &str) -> Result<(), Error>;
}

/// An endpoint, or a handle of one, that stages encoded messages for the
/// transport.
pub trait SendSock {
    /// The frame that is staged for the transport.
    spec fn outgoing(&self) -> Seq<u8>;

    /// The frame that carries `encoded`.
    spec fn framed(encoded: Seq<u8>) -> Seq<u8>;

    /// Stages the frame that carries `encoded`, the length-delimited encoding
    /// of a message. Whatever was staged before is gone.
    fn send(&mut self, encoded: &[u8])
        ensures
            final(self).outgoing() == Self::framed(encoded@),
    ;
}

/// The factory of endpoints.
pub struct Context {}

/// A handle that publishes under one topic through one publisher endpoint.
///
/// It borrows the endpoint's buffer exclusively: while it lives, no other
/// operation on the endpoint can take place.
pub struct Topic<'a, 'b> {
    /// The topic that every publication of this handle carries.
    pub topic: &'b [u8],
    send_buffer: &'a mut Vec<u8>,
}

/// The publishing endpoint: hands out topic handles and demultiplexes the
/// back-channel.
pub struct XPub {
    send_buffer: Vec<u8>,
}

/// The subscribing endpoint: stages back-channel frames and takes
/// publications apart.
pub struct XSub {
    topic_buf: Vec<u8>,
}

/// One event of the back-channel, as the publisher sees it.
pub enum SubscriptionInfo<'a, 'b> {
    /// A peer declared interest in the handle's topic; the handle can publish
    /// a reply at once.
    Subscribe(Topic<'a, 'b>),
    /// A peer withdrew its interest in the topic.
    Unsubscribe(&'b [u8]),
    /// A peer sent an application message; the bytes are its length-delimited
    /// encoding.
    Message(&'b [u8]),
}

/// A type that can stand for a back-channel event.
pub trait Subscription<'a, 'b>: Sized {
    /// The event that this value stands for.
    fn info(self) -> SubscriptionInfo<'a, 'b>;

    /// The value that stands for `info`.
    fn from_info(info: SubscriptionInfo<'a, 'b>) -> Self;
}

impl Context {
    /// A factory.
    pub fn new() -> Context {
        Context {  }
    }

    /// A publisher endpoint with nothing staged.
    pub fn xpub(&self) -> (p: XPub)
        ensures
            p.staged() == Seq::<u8>::empty(),
    {
        XPub { send_buffer: Vec::new() }
    }

    /// A subscriber endpoint with nothing staged.
    pub fn xsub(&self) -> (s: XSub)
        ensures
            s.staged() == Seq::<u8>::empty(),
    {
        XSub { topic_buf: Vec::with_capacity(SCRATCH_CAPACITY) }
    }
}

impl<'a, 'b> Topic<'a, 'b> {
    /// The bytes of the handle's topic.
    pub closed spec fn name(&self) -> Seq<u8> {
        self.topic@
    }

    /// The payload frame that is staged for the transport.
    pub closed spec fn staged(&self) -> Seq<u8> {
        (*self.send_buffer)@
    }

    /// The topic frame: the first frame of every publication of this handle.
    pub fn topic_frame(&self) -> (r: &'b [u8])
        ensures
            r@ == self.name(),
    {
        self.topic
    }

    /// The payload frame: the second and last frame of the publication that
    /// was staged last.
    pub fn payload_frame(&self) -> (r: &[u8])
        ensures
            r@ == self.staged(),
    {
        self.send_buffer.as_slice()
    }
}

impl<'a, 'b> SendSock for Topic<'a, 'b> {
    open spec fn outgoing(&self) -> Seq<u8> {
        self.staged()
    }

    /// A payload frame is the encoding itself.
    open spec fn framed(encoded: Seq<u8>) -> Seq<u8> {
        encoded
    }

    /// Stages the payload frame of a publication under the handle's topic.
    /// The buffer is cleared first: nothing of an earlier publication stays.
    fn send(&mut self, encoded: &[u8])
        ensures
            final(self).name() == old(self).name(),
    {
        overwrite(self.send_buffer, encoded);
    }
}

impl XPub {
    /// The payload frame that the endpoint's buffer holds.
    pub closed spec fn staged(&self) -> Seq<u8> {
        self.send_buffer@
    }

    /// Binds a handle to this endpoint and `topic`. The handle starts with
    /// what the endpoint's buffer holds.
    pub fn topic<'a, 'b>(&'a mut self, topic: &'b [u8]) -> (t: Topic<'a, 'b>)
        ensures
            t.name() == topic@,
            t.staged() == old(self).staged(),
    {
        Topic { topic, send_buffer: &mut self.send_buffer }
    }

    /// Demultiplexes one back-channel frame: the first `received` bytes of
    /// `buffer`, where `received` is the length that the transport reported
    /// for the frame.
    ///
    /// A frame longer than `buffer` is refused with `BufferTooSmall`, a frame
    /// without a tag byte with `Decode`.
    pub fn recv<'a, 'b>(&'a mut self, buffer: &'b [u8], received: usize) -> (r: Result<
        SubscriptionInfo<'a, 'b>,
        Error,
    >)
        ensures
            match r {
                Ok(info) => fits(received as nat, buffer@.len()) && demux(
                    buffer@.take(received as int),
                ) == Some(info@),
                Err(e) => if fits(received as nat, buffer@.len()) {
                    received == 0 && e == Error::Decode
                } else {
                    e == Error::BufferTooSmall
                },
            },
    {
        let frame = match received_frame(buffer, received) {
            Ok(frame) => frame,
            Err(e) => { return Err(e); },
        };
        if received == 0 {
            return Err(Error::Decode);
        }
        let tag: u8 = frame[0];
        let body = slice_subrange(frame, 1, received);
        assert(body@ =~= frame@.skip(1));
        if tag == TAG_UNSUBSCRIBE {
            Ok(SubscriptionInfo::Unsubscribe(body))
        } else if tag == TAG_SUBSCRIBE {
            Ok(SubscriptionInfo::Subscribe(self.topic(body)))
        } else {
            Ok(SubscriptionInfo::Message(body))
        }
    }
}

impl XSub {
    /// The back-channel frame that is staged for the transport.
    pub closed spec fn staged(&self) -> Seq<u8> {
        self.topic_buf@
    }

    /// The staged back-channel frame.
    pub fn frame(&self) -> (r: &[u8])
        ensures
            r@ == self.staged(),
    {
        self.topic_buf.as_slice()
    }

    /// Stages a request to subscribe to `topic`. Whatever was staged before
    /// is gone.
    pub fn subscribe(&mut self, topic: &[u8])
        ensures
            final(self).staged() == tagged_frame(TAG_SUBSCRIBE, topic@),
    {
        write_tagged(&mut self.topic_buf, TAG_SUBSCRIBE, topic);
    }

    /// Stages a request to cancel the subscription to `topic`. Whatever was
    /// staged before is gone.
    pub fn unsubscribe(&mut self, topic: &[u8])
        ensures
            final(self).staged() == tagged_frame(TAG_UNSUBSCRIBE, topic@),
    {
        write_tagged(&mut self.topic_buf, TAG_UNSUBSCRIBE, topic);
    }

    /// Takes a publication apart. The transport wrote the topic frame to the
    /// front of `buffer` and reported `topic_len` for it, then wrote the
    /// payload frame directly behind it and reported `payload_len`.
    ///
    /// Returns the topic and the encoded payload. A frame that is longer than
    /// the space that was left for it is refused with `BufferTooSmall`.
    pub fn recv<'b>(&self, buffer: &'b [u8], topic_len: usize, payload_len: usize) -> (r: Result<
        (&'b [u8], &'b [u8]),
        Error,
    >)
        ensures
            match r {
                Ok((topic, payload)) => split_publication(
                    buffer@,
                    topic_len as nat,
                    payload_len as nat,
                ) == Some((topic@, payload@)),
                Err(e) => split_publication(buffer@, topic_len as nat, payload_len as nat)
                    is None && e == Error::BufferTooSmall,
            },
    {
        let capacity: usize = buffer.len();
        match check_frame(topic_len, capacity) {
            Ok(()) => {},
            Err(e) => { return Err(e); },
        }
        match check_frame(payload_len, capacity - topic_len) {
            Ok(()) => {},
            Err(e) => { return Err(e); },
        }
        let topic = slice_subrange(buffer, 0, topic_len);
        let payload = slice_subrange(buffer, topic_len, topic_len + payload_len);
        Ok((topic, payload))
    }
}

impl SendSock for XSub {
    open spec fn outgoing(&self) -> Seq<u8> {
        self.staged()
    }

    /// A back-channel message is the message tag, then the encoding.
    open spec fn framed(encoded: Seq<u8>) -> Seq<u8> {
        tagged_frame(TAG_MESSAGE, encoded)
    }

    /// Stages an application message for the publisher.
    fn send(&mut self, encoded: &[u8]) {
        write_tagged(&mut self.topic_buf, TAG_MESSAGE, encoded);
    }
}

impl<'a, 'b> SubscriptionInfo<'a, 'b> {
    /// The meaning of the event.
    pub open spec fn view(&self) -> Signal {
        match self {
            SubscriptionInfo::Subscribe(t) => Signal::Subscribe(t.name()),
            SubscriptionInfo::Unsubscribe(topic) => Signal::Unsubscribe(topic@),
            SubscriptionInfo::Message(encoded) => Signal::Message(encoded@),
        }
    }
}

impl<'a, 'b> Subscription<'a, 'b> for SubscriptionInfo<'a, 'b> {
    fn info(self) -> (r: SubscriptionInfo<'a, 'b>)
        ensures
            r == self,
    {
        self
    }

    fn from_info(info: SubscriptionInfo<'a, 'b>) -> (r: Self)
        ensures
            r == info,
    {
        info
    }
}

} // verus!
