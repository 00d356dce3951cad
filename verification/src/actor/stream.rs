//! Replies that are streamed item by item.

use vstd::prelude::*;

use crate::actor::error::{send_reply_error, SendReplyError};

verus! {

/// What to do next about a streamed reply.
pub enum StreamAction<T, E> {
    /// Take the next item.
    Pull,
    /// Send this.
    Send(Result<T, E>),
    /// Stop, with this result.
    Stop(Result<(), SendReplyError>),
}

/// A streamed reply: all items in order, errors among them; or, where there are no items to be had,
/// that error alone. It ends early when nobody is left to receive it.
#[derive(Debug, Clone, Copy, PartialEq, Eq, Structural)]
pub struct ReplyStream {
    /// Whether the error is all there is to send.
    pub failed: bool,
}

/// What to do about the next item.
pub open spec fn on_item<T, E>(item: Option<Result<T, E>>) -> StreamAction<T, E> {
    match item {
        Some(item) => StreamAction::Send(item),
        None => StreamAction::Stop(Ok(())),
    }
}

impl ReplyStream {
    /// What to do once something was sent, or not.
    pub open spec fn on_sent<T, E, S>(self, sent: Result<(), S>) -> StreamAction<T, E> {
        if sent is Err {
            StreamAction::Stop(Err(SendReplyError))
        } else if self.failed {
            StreamAction::Stop(Ok(()))
        } else {
            StreamAction::Pull
        }
    }

    /// Starts on the items, if there are any to be had.
    pub fn iter_to_irpc<T, E>(iter: Result<(), E>) -> (r: (Self, StreamAction<T, E>))
        ensures
            r == (match iter {
                Ok(()) => (ReplyStream { failed: false }, StreamAction::<T, E>::Pull),
                Err(e) => (ReplyStream { failed: true }, StreamAction::Send(Err(e))),
            }),
    {
        match iter {
            Ok(()) => (ReplyStream { failed: false }, StreamAction::Pull),
            Err(e) => (ReplyStream { failed: true }, StreamAction::Send(Err(e))),
        }
    }

    /// Goes on with the next item; there is none at the end.
    pub fn pulled<T, E>(&self, item: Option<Result<T, E>>) -> (r: StreamAction<T, E>)
        ensures
            r == on_item(item),
    {
        match item {
            Some(item) => StreamAction::Send(item),
            None => StreamAction::Stop(Ok(())),
        }
    }

    /// Goes on once something was sent, or not.
    pub fn sent<T, E, S>(&self, sent: Result<(), S>) -> (r: StreamAction<T, E>)
        ensures
            r == self.on_sent::<T, E, S>(sent),
    {
        match sent {
            Err(undelivered) => StreamAction::Stop(Err(send_reply_error(undelivered))),
            Ok(()) => if self.failed {
                StreamAction::Stop(Ok(()))
            } else {
                StreamAction::Pull
            },
        }
    }
}

/// What a streamed reply has sent of the items from position `at` on, where everything that is sent
/// is received.
pub open spec fn sent_from<T, E>(
    stream: ReplyStream,
    items: Seq<Result<T, E>>,
    at: int,
) -> Seq<Result<T, E>>
    decreases items.len() - at,
{
    let item = if 0 <= at < items.len() {
        Some(items[at])
    } else {
        None
    };
    match on_item(item) {
        StreamAction::Send(sent) => if 0 <= at < items.len() && (stream.on_sent::<T, E, ()>(
            Ok(()),
        ) is Pull) {
            seq![sent] + sent_from(stream, items, at + 1)
        } else {
            seq![sent]
        },
        _ => Seq::empty(),
    }
}

/// From any position on, the items from there are sent.
proof fn lemma_sent_from<T, E>(stream: ReplyStream, items: Seq<Result<T, E>>, at: int)
    requires
        !stream.failed,
        0 <= at <= items.len(),
    ensures
        sent_from(stream, items, at) == items.skip(at),
    decreases items.len() - at,
{
    if at < items.len() {
        lemma_sent_from(stream, items, at + 1);
        assert(seq![items[at]] + items.skip(at + 1) =~= items.skip(at));
    } else {
        assert(items.skip(at) =~= Seq::empty());
    }
}

/// A streamed reply that is received sends all items, in order, errors among them, and nothing
/// else.
pub proof fn law_streams_send_every_item<T, E>(stream: ReplyStream, items: Seq<Result<T, E>>)
    requires
        !stream.failed,
    ensures
        sent_from(stream, items, 0) == items,
{
    lemma_sent_from(stream, items, 0);
    assert(items.skip(0) =~= items);
}

/// A streamed reply ends well once there are no items left, or once the error that is all there is
/// was received; it ends with an error if and only if something was not received, whatever came
/// back.
pub proof fn law_streams_end_when_all_is_received<T, E, S>(
    stream: ReplyStream,
    sent: Result<(), S>,
)
    ensures
        on_item::<T, E>(None) matches StreamAction::Stop(Ok(())),
        match stream.on_sent::<T, E, S>(sent) {
            StreamAction::Pull => sent is Ok && !stream.failed,
            StreamAction::Stop(Ok(())) => sent is Ok && stream.failed,
            StreamAction::Stop(Err(_)) => sent is Err,
            StreamAction::Send(_) => false,
        },
{
}

/// A streamed reply takes its items from the start if there are any to be had; otherwise the error
/// is sent, and is all that is sent.
pub proof fn law_errors_are_sent_alone<T, E>(
    iter: Result<(), E>,
    r: (ReplyStream, StreamAction<T, E>),
)
    requires
        call_ensures(ReplyStream::iter_to_irpc::<T, E>, (iter,), r),
    ensures
        match iter {
            Ok(()) => r.1 is Pull && r.0.on_sent::<T, E, ()>(Ok(())) is Pull,
            Err(e) => (r.1 matches StreamAction::Send(Err(f)) && f == e) && r.0.on_sent::<T, E, ()>(
                Ok(()),
            ) is Stop,
        },
{
}

} // verus!
