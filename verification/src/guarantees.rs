//! What holds between the two ends of the wire.
//!
//! Each law is stated over the frames that one endpoint stages and the
//! meaning that the other endpoint gives to the bytes it receives. The
//! transport is taken to deliver a frame unchanged.

use vstd::prelude::*;
use crate::socket::{SendSock, Topic, XSub};
use crate::wire::{
    demux, fits, publication, split_publication, tagged_frame, Signal, TAG_SUBSCRIBE,
    TAG_UNSUBSCRIBE,
};

verus! {

/// A publication comes out as it went in: where the topic frame and the
/// payload frame that a handle staged for `encoded` lie at the front of a
/// buffer, whatever follows them, the subscriber takes out exactly that topic
/// and that encoding.
pub proof fn publication_round_trip(topic: Seq<u8>, encoded: Seq<u8>, rest: Seq<u8>)
    ensures
        split_publication(
            publication(topic, <Topic<'_, '_> as SendSock>::framed(encoded)) + rest,
            topic.len(),
            encoded.len(),
        ) == Some((topic, encoded)),
{
    let buffer = publication(topic, encoded) + rest;
    assert(buffer.subrange(0, topic.len() as int) =~= topic);
    assert(buffer.subrange(topic.len() as int, (topic.len() + encoded.len()) as int) =~= encoded);
}

/// A request to subscribe is seen by the publisher as a subscription to the
/// same topic.
pub proof fn subscribe_is_observed(topic: Seq<u8>)
    ensures
        demux(tagged_frame(TAG_SUBSCRIBE, topic)) == Some(Signal::Subscribe(topic)),
{
    assert(tagged_frame(TAG_SUBSCRIBE, topic).skip(1) =~= topic);
}

/// A request to unsubscribe is seen by the publisher as the end of the
/// subscription to the same topic.
pub proof fn unsubscribe_is_observed(topic: Seq<u8>)
    ensures
        demux(tagged_frame(TAG_UNSUBSCRIBE, topic)) == Some(Signal::Unsubscribe(topic)),
{
    assert(tagged_frame(TAG_UNSUBSCRIBE, topic).skip(1) =~= topic);
}

/// An application message that a subscriber stages is seen by the publisher
/// as a message with the same encoding.
pub proof fn message_is_observed(encoded: Seq<u8>)
    ensures
        demux(<XSub as SendSock>::framed(encoded)) == Some(Signal::Message(encoded)),
{
    assert(<XSub as SendSock>::framed(encoded).skip(1) =~= encoded);
}

/// The publisher gives any frame with a tag other than the two control tags
/// the meaning of a message.
pub proof fn other_tags_are_messages(tag: u8, encoded: Seq<u8>)
    requires
        tag != TAG_SUBSCRIBE,
        tag != TAG_UNSUBSCRIBE,
    ensures
        demux(tagged_frame(tag, encoded)) == Some(Signal::Message(encoded)),
{
    assert(tagged_frame(tag, encoded).skip(1) =~= encoded);
}

/// Frames do not mix: two back-channel frames are the same bytes only where
/// they carry the same tag and the same body. So a frame that one call staged
/// is never taken for the frame of another.
pub proof fn frames_do_not_mix(tag_a: u8, body_a: Seq<u8>, tag_b: u8, body_b: Seq<u8>)
    requires
        tagged_frame(tag_a, body_a) == tagged_frame(tag_b, body_b),
    ensures
        tag_a == tag_b,
        body_a == body_b,
{
    let a = tagged_frame(tag_a, body_a);
    let b = tagged_frame(tag_b, body_b);
    assert(a[0] == tag_a);
    assert(b[0] == tag_b);
    assert(a.skip(1) =~= body_a);
    assert(b.skip(1) =~= body_b);
}

/// The boundary of a receive buffer: a frame of exactly the buffer's length
/// fits, a frame of one byte more does not.
pub proof fn frame_boundary(capacity: nat)
    ensures
        fits(capacity, capacity),
        !fits(capacity + 1, capacity),
{
}

/// The boundary of a receive buffer for a publication: a payload frame that
/// fills what the topic frame left is taken out, one of a byte more is not.
pub proof fn publication_boundary(buffer: Seq<u8>, topic_len: nat)
    requires
        topic_len <= buffer.len(),
    ensures
        split_publication(buffer, topic_len, (buffer.len() - topic_len) as nat) is Some,
        split_publication(buffer, topic_len, (buffer.len() - topic_len + 1) as nat) is None,
        split_publication(buffer, buffer.len() + 1, 0) is None,
{
}

} // verus!
