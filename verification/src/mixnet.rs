//! The decisions of the SURB transport's receive loops. The loops themselves
//! wait on the mixnet client; each batch the client hands back (or its
//! absence, once the channel is closed) is given to one of the step functions
//! below, which says whether to keep waiting, to fail, or what was received.
use vstd::prelude::*;

verus! {

/// One message as the mixnet client delivers it: its payload and, when the
/// sender attached reply blocks, the anonymous tag to reply through.
pub struct IncomingMessage<T> {
    pub message: Vec<u8>,
    pub sender_tag: Option<T>,
}

/// What the sender's wait for a reply does with a batch.
#[derive(Debug, PartialEq, Eq)]
pub enum ReplyStep {
    /// The batch was empty: wait for the next one.
    KeepWaiting,
    /// The client's channel is closed: the send fails as disconnected.
    ChannelClosed,
    /// The payload of the first message of the batch is the reply.
    Reply(Vec<u8>),
}

/// What the receiver's wait for an anonymous message does with a batch.
#[derive(Debug, PartialEq, Eq)]
pub enum ReceiveStep<T> {
    /// The batch was empty: wait for the next one.
    KeepWaiting,
    /// The client's channel is closed: the receive fails as disconnected.
    ChannelClosed,
    /// The first message of the batch came without reply blocks: it cannot be
    /// answered, and the receive fails.
    MissingSenderTag,
    /// The first message of the batch, with the tag to reply through.
    Message(Vec<u8>, T),
}

/// Decides on one batch while waiting for the reply to a sent envelope.
/// Only the first message of a batch is taken.
pub fn reply_step<T>(batch: Option<Vec<IncomingMessage<T>>>) -> (s: ReplyStep)
    ensures
        batch is None ==> s == ReplyStep::ChannelClosed,
        batch matches Some(msgs) ==> (msgs@.len() == 0 ==> s == ReplyStep::KeepWaiting),
        batch matches Some(msgs) ==> (msgs@.len() > 0 ==> (s matches ReplyStep::Reply(m) && m@
            == msgs@[0].message@)),
{
    match batch {
        None => ReplyStep::ChannelClosed,
        Some(mut msgs) => {
            if msgs.len() == 0 {
                ReplyStep::KeepWaiting
            } else {
                let first = msgs.swap_remove(0);
                ReplyStep::Reply(first.message)
            }
        },
    }
}

/// Decides on one batch while waiting for an anonymous message to serve.
/// Only the first message of a batch is taken.
pub fn receive_step<T>(batch: Option<Vec<IncomingMessage<T>>>) -> (s: ReceiveStep<T>)
    ensures
        batch is None ==> s == ReceiveStep::<T>::ChannelClosed,
        batch matches Some(msgs) ==> (msgs@.len() == 0 ==> s == ReceiveStep::<T>::KeepWaiting),
        batch matches Some(msgs) ==> (msgs@.len() > 0 && msgs@[0].sender_tag is None ==> s
            == ReceiveStep::<T>::MissingSenderTag),
        batch matches Some(msgs) ==> (msgs@.len() > 0 && msgs@[0].sender_tag is Some ==> (
        s matches ReceiveStep::Message(m, t) && m@ == msgs@[0].message@ && t
            == msgs@[0].sender_tag->0)),
{
    match batch {
        None => ReceiveStep::ChannelClosed,
        Some(mut msgs) => {
            if msgs.len() == 0 {
                ReceiveStep::KeepWaiting
            } else {
                let first = msgs.swap_remove(0);
                match first.sender_tag {
                    None => ReceiveStep::MissingSenderTag,
                    Some(tag) => ReceiveStep::Message(first.message, tag),
                }
            }
        },
    }
}

} // verus!
