//! The wire format: tagged single frames on the back-channel, and two-frame
//! publications.

use vstd::prelude::*;
use vstd::slice::slice_subrange;
use crate::error::Error;

verus! {

/// Tag of a frame that cancels a subscription.
pub const TAG_UNSUBSCRIBE: u8 = 0;

/// Tag of a frame that requests a subscription.
pub const TAG_SUBSCRIBE: u8 = 1;

/// Tag that a subscriber puts in front of an application message.
pub const TAG_MESSAGE: u8 = 2;

/// A back-channel frame: one tag byte, then the body.
pub open spec fn tagged_frame(tag: u8, body: Seq<u8>) -> Seq<u8> {
    seq![tag] + body
}

/// What a back-channel frame means to the publisher.
pub enum Signal {
    /// Interest in the topic is withdrawn.
    Unsubscribe(Seq<u8>),
    /// Interest in the topic is declared.
    Subscribe(Seq<u8>),
    /// An application message, still encoded.
    Message(Seq<u8>),
}

/// The meaning of a back-channel frame: the first byte selects the kind, the
/// rest is the topic or the encoded message. A frame without a tag byte has
/// no meaning.
pub open spec fn demux(frame: Seq<u8>) -> Option<Signal> {
    if frame.len() == 0 {
        None
    } else if frame[0] == TAG_UNSUBSCRIBE {
        Some(Signal::Unsubscribe(frame.skip(1)))
    } else if frame[0] == TAG_SUBSCRIBE {
        Some(Signal::Subscribe(frame.skip(1)))
    } else {
        Some(Signal::Message(frame.skip(1)))
    }
}

/// A publication as it lies in a receive buffer: the topic frame at the
/// front, the payload frame directly behind it.
pub open spec fn publication(topic: Seq<u8>, payload: Seq<u8>) -> Seq<u8> {
    topic + payload
}

/// The two frames of a publication that lies at the front of `buffer`, given
/// the lengths that the transport reported for them. There are none where
/// the two frames together are longer than `buffer`.
pub open spec fn split_publication(buffer: Seq<u8>, topic_len: nat, payload_len: nat) -> Option<
    (Seq<u8>, Seq<u8>),
> {
    if topic_len + payload_len <= buffer.len() {
        Some(
            (
                buffer.subrange(0, topic_len as int),
                buffer.subrange(topic_len as int, (topic_len + payload_len) as int),
            ),
        )
    } else {
        None
    }
}

/// Whether a frame of `received` bytes fits into `capacity` bytes.
pub open spec fn fits(received: nat, capacity: nat) -> bool {
    received <= capacity
}

/// Replaces the contents of `buf` by the frame `tag`, `body`.
pub fn write_tagged(buf: &mut Vec<u8>, tag: u8, body: &[u8])
    ensures
        final(buf)@ == tagged_frame(tag, body@),
{
    buf.clear();
    buf.push(tag);
    buf.extend_from_slice(body);
    assert(buf@ =~= tagged_frame(tag, body@));
}

/// Replaces the contents of `buf` by `bytes`.
pub fn overwrite(buf: &mut Vec<u8>, bytes: &[u8])
    ensures
        final(buf)@ == bytes@,
{
    buf.clear();
    buf.extend_from_slice(bytes);
    assert(buf@ =~= bytes@);
}

/// Checks that a frame of `received` bytes was not cut short by a buffer of
/// `capacity` bytes.
pub fn check_frame(received: usize, capacity: usize) -> (r: Result<(), Error>)
    ensures
        r is Ok <==> fits(received as nat, capacity as nat),
        r is Err ==> r == Err::<(), Error>(Error::BufferTooSmall),
{
    if received > capacity {
        Err(Error::BufferTooSmall)
    } else {
        Ok(())
    }
}

/// The received frame: the first `received` bytes of `buffer`.
pub fn received_frame<'b>(buffer: &'b [u8], received: usize) -> (r: Result<&'b [u8], Error>)
    ensures
        match r {
            Ok(frame) => fits(received as nat, buffer@.len()) && frame@ == buffer@.take(
                received as int,
            ),
            Err(e) => !fits(received as nat, buffer@.len()) && e == Error::BufferTooSmall,
        },
{
    if received > buffer.len() {
        Err(Error::BufferTooSmall)
    } else {
        let frame = slice_subrange(buffer, 0, received);
        assert(frame@ =~= buffer@.take(received as int));
        Ok(frame)
    }
}

} // verus!
