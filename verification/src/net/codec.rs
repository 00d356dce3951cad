//! The wire frames of a sync exchange.
//!
//! A frame is the length of its payload, as four bytes with the most significant first, followed
//! by the payload. How a payload encodes a [`Message`] is not decided here: decoding hands the
//! payload to a parser, and encoding takes it ready made.

use bytes::BytesMut;
use vstd::prelude::*;

use crate::buffer::{
    be_bytes, buffer_advance, buffer_bytes, buffer_len, buffer_put_u32, buffer_resize,
    buffer_slice, buffer_write,
};
use crate::keys::NamespaceId;
use crate::net::AbortReason;

verus! {

/// The largest payload that a frame may carry.
pub const MAX_MESSAGE_SIZE: usize = 1024 * 1024 * 1024;

/// A message of the sync protocol: one `Init`, then any number of `Sync`.
///
/// On any error and on success the substream is closed.
#[derive(Debug, Clone)]
pub enum Message<M> {
    /// Sent first, by the dialing peer.
    Init {
        /// The replica to sync.
        namespace: NamespaceId,
        /// The first message of the reconciliation.
        message: M,
    },
    /// Sent by both peers.
    Sync(M),
    /// Sent by the accepting peer, to decline a request.
    Abort {
        /// Why the request is declined.
        reason: AbortReason,
    },
}

/// Why a frame could not be read or written.
#[derive(Debug)]
pub enum FrameError<E> {
    /// The frame names a payload over [`MAX_MESSAGE_SIZE`].
    TooLarge {
        /// The length of that payload.
        len: usize,
    },
    /// The payload is not a message.
    Malformed(E),
}

/// The number that four bytes stand for, most significant first.
pub open spec fn be_value(s: Seq<u8>) -> int {
    s[0] * 0x100_0000 + s[1] * 0x1_0000 + s[2] * 0x100 + s[3]
}

/// The frame that carries `payload`.
pub open spec fn frame(payload: Seq<u8>) -> Seq<u8> {
    be_bytes(payload.len() as u32) + payload
}

/// What a buffer holds at its front.
pub enum Front {
    /// Less than a frame.
    Incomplete,
    /// The head of a frame that is too large.
    Oversized(int),
    /// A whole frame, with this payload.
    Whole(Seq<u8>),
}

/// What `s` holds at its front.
pub open spec fn front(s: Seq<u8>) -> Front {
    if s.len() < 4 {
        Front::Incomplete
    } else if be_value(s) > MAX_MESSAGE_SIZE {
        Front::Oversized(be_value(s))
    } else if s.len() < 4 + be_value(s) {
        Front::Incomplete
    } else {
        Front::Whole(s.subrange(4, 4 + be_value(s)))
    }
}

/// What a buffer holding `before` holds once a frame for `payload` is encoded into it: the length
/// goes behind what is there, the payload over it from the fifth byte on.
pub open spec fn encoded(before: Seq<u8>, payload: Seq<u8>) -> Seq<u8> {
    let headed = before + be_bytes(payload.len() as u32);
    let end = 4 + payload.len() as int;
    headed.take(4) + payload + (if end < headed.len() {
        headed.skip(end)
    } else {
        Seq::empty()
    })
}

/// Reads and writes the frames of a sync exchange.
#[derive(Debug)]
pub struct SyncCodec;

impl SyncCodec {
    /// Takes the first message out of `src`, or leaves `src` alone while it holds less than a
    /// frame. A frame that is too large, or whose payload `parse` turns down, stays in place.
    pub fn decode<M, E>(
        &mut self,
        src: &mut BytesMut,
        parse: impl Fn(&[u8]) -> Result<M, E>,
    ) -> (r: Result<Option<M>, FrameError<E>>)
        requires
            forall|payload: &[u8]| #[trigger] parse.requires((payload,)),
        ensures
            match front(buffer_bytes(*old(src))) {
                Front::Incomplete => r == Ok::<Option<M>, FrameError<E>>(None) && buffer_bytes(
                    *final(src),
                ) == buffer_bytes(*old(src)),
                Front::Oversized(n) => r matches Err(FrameError::TooLarge { len }) && len == n
                    && buffer_bytes(*final(src)) == buffer_bytes(*old(src)),
                Front::Whole(payload) => exists|p: &[u8]| #[trigger]
                    p@ == payload && match r {
                        Ok(Some(m)) => parse.ensures((p,), Ok(m)) && buffer_bytes(*final(src))
                            == buffer_bytes(*old(src)).skip(4 + payload.len() as int),
                        Ok(None) => false,
                        Err(FrameError::Malformed(e)) => parse.ensures((p,), Err(e))
                            && buffer_bytes(*final(src)) == buffer_bytes(*old(src)),
                        Err(FrameError::TooLarge { .. }) => false,
                    },
            },
    {
        if buffer_len(src) < 4 {
            return Ok(None);
        }
        let head = buffer_slice(src, 0, 4);
        assert(be_value(head@) == be_value(buffer_bytes(*src)));
        let frame_len: usize = head[0] as usize * 0x100_0000 + head[1] as usize * 0x1_0000
            + head[2] as usize * 0x100 + head[3] as usize;
        if frame_len > MAX_MESSAGE_SIZE {
            return Err(FrameError::TooLarge { len: frame_len });
        }
        if buffer_len(src) < 4 + frame_len {
            return Ok(None);
        }
        let parsed = parse(buffer_slice(src, 4, 4 + frame_len));
        match parsed {
            Ok(message) => {
                buffer_advance(src, 4 + frame_len);
                Ok(Some(message))
            },
            Err(e) => Err(FrameError::Malformed(e)),
        }
    }

    /// Writes the frame that carries `payload` into `dst`, which is meant to be empty: the payload
    /// starts at the fifth byte of `dst` whatever `dst` held.
    pub fn encode(&mut self, payload: &[u8], dst: &mut BytesMut) -> (r: Result<(), FrameError<()>>)
        requires
            buffer_bytes(*old(dst)).len() + 4 <= isize::MAX,
        ensures
            if payload@.len() <= MAX_MESSAGE_SIZE {
                r == Ok::<(), FrameError<()>>(()) && buffer_bytes(*final(dst)) == encoded(
                    buffer_bytes(*old(dst)),
                    payload@,
                )
            } else {
                r == Err::<(), FrameError<()>>(FrameError::TooLarge { len: payload.len() })
                    && buffer_bytes(*final(dst)) == buffer_bytes(*old(dst))
            },
    {
        let len = payload.len();
        if len > MAX_MESSAGE_SIZE {
            return Err(FrameError::TooLarge { len });
        }
        buffer_put_u32(dst, len as u32);
        if buffer_len(dst) < 4 + len {
            buffer_resize(dst, 4 + len, 0u8);
        }
        buffer_write(dst, 4, 4 + len, payload);
        assert(buffer_bytes(*dst) =~= encoded(buffer_bytes(*old(dst)), payload@));
        Ok(())
    }

    /// Writes the frame that carries `payload` into `dst` with [`SyncCodec::encode`], unless `dst`
    /// is too full for the length of a frame: `dst` is left alone then.
    pub fn try_encode(&mut self, payload: &[u8], dst: &mut BytesMut) -> (r: Option<
        Result<(), FrameError<()>>,
    >)
        ensures
            if buffer_bytes(*old(dst)).len() + 4 > isize::MAX {
                r is None && buffer_bytes(*final(dst)) == buffer_bytes(*old(dst))
            } else if payload@.len() <= MAX_MESSAGE_SIZE {
                r == Some(Ok::<(), FrameError<()>>(())) && buffer_bytes(*final(dst)) == encoded(
                    buffer_bytes(*old(dst)),
                    payload@,
                )
            } else {
                r == Some(
                    Err::<(), FrameError<()>>(FrameError::TooLarge { len: payload.len() }),
                ) && buffer_bytes(*final(dst)) == buffer_bytes(*old(dst))
            },
    {
        if buffer_len(dst) > isize::MAX as usize - 4 {
            None
        } else {
            Some(self.encode(payload, dst))
        }
    }
}

/// Four bytes written most significant first are read back as the number they were written from.
proof fn lemma_be_value(n: u32, rest: Seq<u8>)
    ensures
        be_value(be_bytes(n) + rest) == n,
{
    let s = be_bytes(n) + rest;
    assert(s[0] == (n / 0x100_0000) as u8);
    assert(s[1] == (n / 0x1_0000 % 0x100) as u8);
    assert(s[2] == (n / 0x100 % 0x100) as u8);
    assert(s[3] == (n % 0x100) as u8);
    assert(n / 0x100_0000 < 0x100 && n == n / 0x100_0000 * 0x100_0000
        + n / 0x1_0000 % 0x100 * 0x1_0000 + n / 0x100 % 0x100 * 0x100 + n % 0x100) by (bit_vector);
}

/// A message encoded into an empty buffer is decoded from it whole, whatever bytes follow it, and
/// those bytes are what is left.
pub proof fn law_decode_inverts_encode(payload: Seq<u8>, rest: Seq<u8>)
    requires
        payload.len() <= MAX_MESSAGE_SIZE,
    ensures
        front(encoded(Seq::empty(), payload) + rest) == Front::Whole(payload),
        (encoded(Seq::empty(), payload) + rest).skip(4 + payload.len() as int) == rest,
{
    let s = encoded(Seq::empty(), payload) + rest;
    assert(encoded(Seq::empty(), payload) =~= frame(payload));
    lemma_be_value(payload.len() as u32, payload + rest);
    assert(s =~= be_bytes(payload.len() as u32) + (payload + rest));
    assert(s.subrange(4, 4 + payload.len() as int) =~= payload);
    assert(s.skip(4 + payload.len() as int) =~= rest);
}

/// A message encoded into an empty buffer is its frame.
pub proof fn law_encode_into_empty_is_frame(payload: Seq<u8>)
    ensures
        encoded(Seq::empty(), payload) == frame(payload),
{
    assert(encoded(Seq::empty(), payload) =~= frame(payload));
}

/// The frames that carry `payloads`, one behind the other.
pub open spec fn frames(payloads: Seq<Seq<u8>>) -> Seq<u8>
    decreases payloads.len(),
{
    if payloads.len() == 0 {
        Seq::empty()
    } else {
        frame(payloads[0]) + frames(payloads.drop_first())
    }
}

/// Frames sent one behind the other are decoded one by one, in the order they were sent.
pub proof fn law_frames_decode_in_order(payloads: Seq<Seq<u8>>)
    requires
        payloads.len() > 0,
        payloads[0].len() <= MAX_MESSAGE_SIZE,
    ensures
        front(frames(payloads)) == Front::Whole(payloads[0]),
        frames(payloads).skip(4 + payloads[0].len() as int) == frames(payloads.drop_first()),
{
    law_encode_into_empty_is_frame(payloads[0]);
    law_decode_inverts_encode(payloads[0], frames(payloads.drop_first()));
}

/// A frame that has not arrived whole yields nothing yet.
pub proof fn law_partial_frame_is_incomplete(payload: Seq<u8>, arrived: int)
    requires
        payload.len() <= MAX_MESSAGE_SIZE,
        0 <= arrived < frame(payload).len(),
    ensures
        front(frame(payload).take(arrived)) == Front::Incomplete,
{
    if arrived >= 4 {
        let s = frame(payload).take(arrived);
        lemma_be_value(payload.len() as u32, s.skip(4));
        assert(s =~= be_bytes(payload.len() as u32) + s.skip(4));
    }
}

/// What was read off the front of a buffer does not depend on what arrives behind it.
pub proof fn law_front_ignores_later_bytes(arrived: Seq<u8>, later: Seq<u8>)
    requires
        front(arrived) != Front::Incomplete,
    ensures
        front(arrived + later) == front(arrived),
{
    if let Front::Whole(payload) = front(arrived) {
        assert((arrived + later).subrange(4, 4 + be_value(arrived)) =~= payload);
    }
}

/// A frame that names a payload of over a gibibyte is refused as soon as its head is there, with
/// the length it names, whatever follows; up to that, it is not.
pub proof fn law_oversized_frames_are_refused(named: u32, rest: Seq<u8>)
    ensures
        front(be_bytes(named) + rest) matches Front::Oversized(n) && n == named <==> named
            > 0x4000_0000,
        MAX_MESSAGE_SIZE == 0x4000_0000,
        named <= 0x4000_0000 && rest.len() < named ==> front(be_bytes(named) + rest)
            == Front::Incomplete,
        named <= 0x4000_0000 && rest.len() >= named ==> front(be_bytes(named) + rest)
            == Front::Whole(rest.take(named as int)),
{
    lemma_be_value(named, rest);
    let s = be_bytes(named) + rest;
    if named <= 0x4000_0000 && rest.len() >= named {
        assert(s.subrange(4, 4 + named) =~= rest.take(named as int));
    }
}

/// Less than the head of a frame is never more than incomplete.
pub proof fn law_partial_heads_are_incomplete(arrived: Seq<u8>)
    requires
        arrived.len() < 4,
    ensures
        front(arrived) == Front::Incomplete,
{
}

/// Encoding writes the length behind what a buffer holds, and the payload from the fifth byte on,
/// over what is there; every other byte stays. So a buffer grows to hold both.
pub proof fn law_encoding_writes_length_and_payload(before: Seq<u8>, payload: Seq<u8>, i: int)
    requires
        payload.len() <= MAX_MESSAGE_SIZE,
        0 <= i < encoded(before, payload).len(),
    ensures
        encoded(before, payload).len() == (if before.len() > payload.len() {
            before.len() + 4
        } else {
            payload.len() + 4
        }),
        4 <= i < 4 + payload.len() ==> encoded(before, payload)[i] == payload[i - 4],
        !(4 <= i < 4 + payload.len()) && i < before.len() ==> encoded(before, payload)[i]
            == before[i],
        !(4 <= i < 4 + payload.len()) && i >= before.len() ==> be_value(
            be_bytes(payload.len() as u32),
        ) == payload.len() && encoded(before, payload)[i] == be_bytes(payload.len() as u32)[i
            - before.len()],
{
    lemma_be_value(payload.len() as u32, Seq::empty());
    assert(be_bytes(payload.len() as u32) + Seq::empty() =~= be_bytes(payload.len() as u32));
}

} // verus!
