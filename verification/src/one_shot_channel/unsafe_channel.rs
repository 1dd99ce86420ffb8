use vstd::prelude::*;

verus! {

/// The channel state: nothing sent yet.
pub const EMPTY: u8 = 0;

/// The channel state: a send is writing the message.
pub const WRITING: u8 = 1;

/// The channel state: the message is stored and may be received.
pub const READY: u8 = 2;

/// The channel state: a receive has taken the message.
pub const READING: u8 = 3;

/// The runtime-checked one-shot channel: a message slot and a four-state
/// word that moves strictly forward, `EMPTY` to `WRITING` to `READY` to
/// `READING`.
///
/// Each transition is a compare-and-set from the expected predecessor
/// state; one attempted against any other state is a protocol violation — a
/// second send, or a receive before the message is ready. The contract of
/// the design is "call each operation at most once per successful
/// predecessor", so a violation is a fatal misuse signal, not a recoverable
/// condition: here it is reported in the operation's result, which never
/// silently corrupts the state, and the unverified shell turns it into the
/// abnormal termination of the call.
pub struct Channel<T> {
    message: Option<T>,
    state: u8,
}

impl<T> Channel<T> {
    /// The state word.
    pub closed spec fn state(self) -> u8 {
        self.state
    }

    /// The stored message, while the state is `READY`.
    pub closed spec fn message(self) -> Option<T> {
        self.message
    }

    /// The message slot is full exactly while the state is `READY`; the
    /// transient `WRITING` state never persists between operations.
    pub open spec fn wf(self) -> bool {
        &&& (self.message() is Some <==> self.state() == READY)
        &&& self.state() != WRITING
        &&& self.state() <= READING
    }

    /// What a successful send leaves behind: the message stored, the state
    /// `READY`.
    pub closed spec fn sent(self, message: T) -> Channel<T> {
        Channel { message: Some(message), state: READY }
    }

    /// What a receive returns: the stored message if the state is `READY`,
    /// and a violation report otherwise.
    pub open spec fn received(self) -> Option<T> {
        if self.state() == READY {
            self.message()
        } else {
            None
        }
    }

    /// A new, empty channel.
    pub fn new() -> (r: Channel<T>)
        ensures
            r.wf(),
            r.state() == EMPTY,
            r.message() is None,
    {
        Channel { message: None, state: EMPTY }
    }

    /// Send the message: compare-and-set `EMPTY` to `WRITING`, store, then
    /// release the state to `READY`. Any state other than `EMPTY` means a
    /// second send: the violation is reported, the message is handed back
    /// untouched, and the channel is left exactly as it was.
    pub fn send(&mut self, message: T) -> (r: Result<(), T>)
        requires
            old(self).wf(),
        ensures
            final(self).wf(),
            r is Ok <==> old(self).state() == EMPTY,
            old(self).state() == EMPTY ==> {
                &&& *final(self) == old(self).sent(message)
                &&& final(self).state() == READY
                &&& final(self).message() == Some(message)
            },
            old(self).state() != EMPTY ==> {
                &&& *final(self) == *old(self)
                &&& r == Result::<(), T>::Err(message)
            },
    {
        if self.state != EMPTY {
            return Err(message);
        }
        self.state = WRITING;
        self.message = Some(message);
        self.state = READY;
        Ok(())
    }

    /// A non-consuming poll: whether the message is stored and may be
    /// received.
    pub fn is_ready(&self) -> (r: bool)
        ensures
            r <==> self.state() == READY,
    {
        self.state == READY
    }

    /// Receive the message: compare-and-set `READY` to `READING` and take
    /// the message out. Any state other than `READY` means a receive before
    /// any send, or a second receive: the violation is reported and the
    /// channel is left exactly as it was.
    pub fn receive(&mut self) -> (r: Option<T>)
        requires
            old(self).wf(),
        ensures
            final(self).wf(),
            r == old(self).received(),
            r is Some <==> old(self).state() == READY,
            old(self).state() == READY ==> {
                &&& r == old(self).message()
                &&& final(self).state() == READING
                &&& final(self).message() is None
            },
            old(self).state() != READY ==> *final(self) == *old(self),
    {
        if self.state != READY {
            return None;
        }
        self.state = READING;
        self.message.take()
    }
}

impl<T> Default for Channel<T> {
    /// The same as [`Channel::new`]: an empty channel.
    fn default() -> (r: Channel<T>)
        ensures
            r.wf(),
            r.state() == EMPTY,
            r.message() is None,
    {
        Channel::new()
    }
}

/// Single delivery: on an empty channel, a send stores exactly the sent
/// message and a receive then returns exactly it — the value received is
/// the value sent.
pub proof fn lemma_single_delivery<T>(c: Channel<T>, message: T)
    requires
        c.wf(),
        c.state() == EMPTY,
    ensures
        c.sent(message).received() == Some(message),
{
}

/// Misuse is caught: once a message has been sent, the channel is no longer
/// `EMPTY`, so a second send is reported as a violation rather than
/// accepted; and before any send the channel is not `READY`, so a receive
/// is reported as a violation rather than answered.
pub proof fn lemma_protocol_violations_reported<T>(c: Channel<T>, message: T)
    requires
        c.wf(),
    ensures
        c.sent(message).state() != EMPTY,
        c.state() == EMPTY ==> c.received() is None,
{
}

} // verus!
