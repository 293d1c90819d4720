//! An in-process message queue: first in, first out, never blocking.

use std::collections::VecDeque;
use vstd::prelude::*;

verus! {

/// Why a non-blocking receive handed out nothing.
#[derive(Clone, Copy, Debug, PartialEq, Eq, Structural)]
pub enum TryRecvError {
    /// Nothing is pending, but more may come.
    Empty,
    /// Nothing is pending and the mailbox was closed.
    Disconnected,
}

/// A send that found the mailbox closed; it gives the message back.
#[derive(Debug)]
pub struct SendError<T>(pub T);

/// What a mailbox is, mathematically: the pending messages, oldest first, and
/// whether it was closed.
pub struct MailboxModel<T> {
    pub pending: Seq<T>,
    pub closed: bool,
}

impl<T> MailboxModel<T> {
    /// An open mailbox with nothing pending.
    pub open spec fn empty() -> Self {
        MailboxModel { pending: Seq::empty(), closed: false }
    }

    /// The mailbox after an attempt to send `message`: a closed one takes
    /// nothing.
    pub open spec fn sent(self, message: T) -> Self {
        if self.closed {
            self
        } else {
            MailboxModel { pending: self.pending.push(message), closed: false }
        }
    }

    /// The mailbox after `n` attempts to send `message`.
    pub open spec fn sent_times(self, message: T, n: nat) -> Self
        decreases n,
    {
        if n == 0 {
            self
        } else {
            self.sent_times(message, (n - 1) as nat).sent(message)
        }
    }

    /// What a receive hands out.
    pub open spec fn front(self) -> Result<T, TryRecvError> {
        if self.pending.len() > 0 {
            Ok(self.pending[0])
        } else if self.closed {
            Err(TryRecvError::Disconnected)
        } else {
            Err(TryRecvError::Empty)
        }
    }

    /// The mailbox after a receive.
    pub open spec fn received(self) -> Self {
        if self.pending.len() > 0 {
            MailboxModel { pending: self.pending.drop_first(), closed: self.closed }
        } else {
            self
        }
    }

    /// The mailbox with nothing pending.
    pub open spec fn drained(self) -> Self {
        MailboxModel { pending: Seq::empty(), closed: self.closed }
    }

    /// The mailbox once closed.
    pub open spec fn shut(self) -> Self {
        MailboxModel { pending: self.pending, closed: true }
    }
}

impl<T> MailboxModel<T> {
    /// Sending to an open mailbox `n` times queues `n` more messages; sending
    /// to a closed one changes nothing.
    pub proof fn lemma_sent_times(self, message: T, n: nat)
        ensures
            self.sent_times(message, n).closed == self.closed,
            self.closed ==> self.sent_times(message, n) == self,
            !self.closed ==> self.sent_times(message, n).pending.len() == self.pending.len() + n,
            !self.closed ==> forall|i: int|
                0 <= i < self.pending.len() ==> self.sent_times(message, n).pending[i]
                    == self.pending[i],
            !self.closed ==> forall|i: int|
                self.pending.len() <= i < self.pending.len() + n ==> self.sent_times(
                    message,
                    n,
                ).pending[i] == message,
        decreases n,
    {
        if n > 0 {
            self.lemma_sent_times(message, (n - 1) as nat);
        }
    }
}

/// A queue between one logical sender and one logical receiver.
///
/// Messages leave in the order in which they were sent. Once closed, the
/// mailbox takes nothing more; what is pending can still be received.
pub struct Mailbox<T> {
    queue: VecDeque<T>,
    closed: bool,
}

impl<T> View for Mailbox<T> {
    type V = MailboxModel<T>;

    closed spec fn view(&self) -> MailboxModel<T> {
        MailboxModel { pending: self.queue@, closed: self.closed }
    }
}

impl<T> Mailbox<T> {
    /// An open mailbox with nothing pending.
    pub fn new() -> (m: Self)
        ensures
            m@ == MailboxModel::<T>::empty(),
    {
        Mailbox { queue: VecDeque::new(), closed: false }
    }

    /// Appends `message` unless the mailbox is closed; a closed mailbox is left
    /// as it is and the message comes back in the error.
    pub fn send(&mut self, message: T) -> (r: Result<(), SendError<T>>)
        ensures
            final(self)@ == old(self)@.sent(message),
            r == if old(self)@.closed {
                Err::<(), SendError<T>>(SendError(message))
            } else {
                Ok::<(), SendError<T>>(())
            },
    {
        if self.closed {
            Err(SendError(message))
        } else {
            self.queue.push_back(message);
            Ok(())
        }
    }

    /// Takes the oldest pending message without waiting for one.
    pub fn try_recv(&mut self) -> (r: Result<T, TryRecvError>)
        ensures
            r == old(self)@.front(),
            final(self)@ == old(self)@.received(),
    {
        match self.queue.pop_front() {
            Some(message) => Ok(message),
            None => {
                if self.closed {
                    Err(TryRecvError::Disconnected)
                } else {
                    Err(TryRecvError::Empty)
                }
            },
        }
    }

    /// Closes the mailbox; what is pending stays. Closing twice is closing
    /// once.
    pub fn close(&mut self)
        ensures
            final(self)@ == old(self)@.shut(),
    {
        self.closed = true;
    }

    /// The number of pending messages.
    pub fn len(&self) -> (n: usize)
        ensures
            n == self@.pending.len(),
    {
        self.queue.len()
    }

    /// Whether nothing is pending.
    pub fn is_empty(&self) -> (b: bool)
        ensures
            b == (self@.pending.len() == 0),
    {
        self.queue.len() == 0
    }

    /// Whether the mailbox was closed.
    pub fn is_closed(&self) -> (b: bool)
        ensures
            b == self@.closed,
    {
        self.closed
    }
}

} // verus!
