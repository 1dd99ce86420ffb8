use vstd::prelude::*;
use core::marker::PhantomData;

verus! {

/// The type-enforced one-shot channel: a message slot and a ready flag.
///
/// Splitting the channel yields a [`Sender`] and a [`Receiver`], each
/// consumed by its one use, so a second send or a second receive cannot
/// even be written. In a running program the receiver is pinned to the
/// thread that performed the split, because a receive may park that thread
/// and the send must wake it by identity; with no threads here, the
/// sender's one-shot right to make the channel ready is the whole of that
/// obligation, and the receiver owns the channel cell outright.
pub struct Channel<T> {
    message: Option<T>,
    ready: bool,
}

/// The one-shot right to send on a split channel; consumed by the send.
pub struct Sender<T> {
    marker: PhantomData<T>,
}

/// The one-shot right to receive on a split channel; owns the channel cell
/// and is consumed by the receive.
pub struct Receiver<T> {
    channel: Channel<T>,
}

impl<T> Channel<T> {
    /// The ready flag: `true` once the message is stored.
    pub closed spec fn ready(self) -> bool {
        self.ready
    }

    /// The stored message, once the channel is ready.
    pub closed spec fn message(self) -> Option<T> {
        self.message
    }

    /// The message slot is full exactly while the ready flag is set.
    pub open spec fn wf(self) -> bool {
        self.message() is Some <==> self.ready()
    }

    /// What a send leaves behind: the message stored, the flag set.
    pub closed spec fn sent(self, message: T) -> Channel<T> {
        Channel { message: Some(message), ready: true }
    }

    /// A new, empty channel.
    pub fn new() -> (r: Channel<T>)
        ensures
            r.wf(),
            !r.ready(),
            r.message() is None,
    {
        Channel { message: None, ready: false }
    }

    /// Split the channel into its two one-shot handles, resetting the cell
    /// to empty. The receiver carries the cell; the sender carries the
    /// right to fill it.
    pub fn split(self) -> (r: (Sender<T>, Receiver<T>))
        ensures
            r.1.channel_ref().wf(),
            !r.1.channel_ref().ready(),
            r.1.channel_ref().message() is None,
    {
        let _ = self;
        (Sender { marker: PhantomData }, Receiver { channel: Channel::new() })
    }
}

impl<T> Default for Channel<T> {
    /// The same as [`Channel::new`]: an empty channel.
    fn default() -> (r: Channel<T>)
        ensures
            r.wf(),
            !r.ready(),
            r.message() is None,
    {
        Channel::new()
    }
}

impl<T> Sender<T> {
    /// Send the message: store it, release the ready flag, and wake the
    /// receiving thread. Consuming `self` is what makes a second send
    /// unwritable.
    pub fn send(self, receiver: &mut Receiver<T>, message: T)
        requires
            old(receiver).channel_ref().wf(),
            !old(receiver).channel_ref().ready(),
        ensures
            final(receiver).channel_ref() == old(receiver).channel_ref().sent(message),
            final(receiver).channel_ref().wf(),
            final(receiver).channel_ref().ready(),
            final(receiver).channel_ref().message() == Some(message),
    {
        receiver.channel.message = Some(message);
        receiver.channel.ready = true;
    }
}

impl<T> Receiver<T> {
    /// The channel cell this receiver owns.
    pub closed spec fn channel_ref(self) -> Channel<T> {
        self.channel
    }

    /// A non-consuming poll: whether the message has been sent.
    pub fn is_ready(&self) -> (r: bool)
        ensures
            r <==> self.channel_ref().ready(),
    {
        self.channel.ready
    }

    /// Receive the message. A receiver that finds the flag clear parks its
    /// thread until the sender wakes it; no thread can do that here, so the
    /// channel is required to be ready. Consuming `self` is what makes a
    /// second receive unwritable.
    pub fn receive(self) -> (r: T)
        requires
            self.channel_ref().wf(),
            self.channel_ref().ready(),
        ensures
            self.channel_ref().message() == Some(r),
    {
        let mut channel = self.channel;
        channel.ready = false;
        match channel.message.take() {
            Some(message) => message,
            None => {
                proof {
                    assert(false);
                }
                vstd::pervasive::unreached()
            }
        }
    }
}

/// Single delivery: what a send of `message` stores is exactly `message`,
/// so the receive of a split channel's one message returns exactly what the
/// one send put in.
pub proof fn lemma_single_delivery<T>(c: Channel<T>, message: T)
    ensures
        c.sent(message).message() == Some(message),
        c.sent(message).ready(),
        c.sent(message).wf(),
{
}

} // verus!
