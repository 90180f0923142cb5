//! The receive state of carriers that are fed by events and read by one
//! receiver: a queue of results and the wake handle of the receiver, if it
//! waits.

use vstd::prelude::*;
use std::collections::VecDeque;
use std::task::Waker;
use crate::poll::Polled;
use crate::waker::{clone_waker, wake, will_wake};

verus! {

/// The state as the contracts see it.
pub struct Inbox<Incoming, Error> {
    /// The results that wait to be received, oldest first.
    pub incoming: Seq<Result<Incoming, Error>>,
    /// Whether a receiver has left its wake handle.
    pub waiting: bool,
    /// Whether the carrier was closed.
    pub closed: bool,
}

impl<Incoming, Error> Inbox<Incoming, Error> {
    /// What a poll gives: the end of the stream once the carrier is closed
    /// and the queue empty; else the oldest result; nothing yet on an empty
    /// queue.
    pub open spec fn next(self) -> Polled<Option<Result<Incoming, Error>>> {
        if self.incoming.len() > 0 {
            Polled::Ready(Some(self.incoming.first()))
        } else if self.closed {
            Polled::Ready(None)
        } else {
            Polled::Pending
        }
    }

    /// The state after a poll: the result that was given is gone from the
    /// queue; where nothing was given the receiver has left its wake handle.
    pub open spec fn polled(self) -> Self {
        if self.incoming.len() > 0 {
            Inbox { incoming: self.incoming.drop_first(), ..self }
        } else if self.closed {
            self
        } else {
            Inbox { waiting: true, ..self }
        }
    }

    /// Whether the stream has ended: the carrier is closed and nothing is
    /// left to receive.
    pub open spec fn terminated(self) -> bool {
        self.closed && self.incoming.len() == 0
    }
}

/// Transport state for one receiver.
pub struct State<Incoming, Error> {
    incoming: VecDeque<Result<Incoming, Error>>,
    waker: Option<Waker>,
    closed: bool,
}

impl<Incoming, Error> View for State<Incoming, Error> {
    type V = Inbox<Incoming, Error>;

    closed spec fn view(&self) -> Inbox<Incoming, Error> {
        Inbox { incoming: self.incoming@, waiting: self.waker is Some, closed: self.closed }
    }
}

impl<Incoming, Error> State<Incoming, Error> {
    /// Create new state: open, with nothing queued and nobody waiting.
    pub fn new() -> (state: Self)
        ensures
            state@ == (Inbox::<Incoming, Error> {
                incoming: Seq::empty(),
                waiting: false,
                closed: false,
            }),
    {
        State { incoming: VecDeque::new(), waker: None, closed: false }
    }

    /// Queues a received message and wakes the receiver.
    pub fn message(&mut self, message: Incoming)
        ensures
            final(self)@ == (Inbox {
                incoming: old(self)@.incoming.push(Ok(message)),
                waiting: false,
                ..old(self)@
            }),
    {
        self.incoming.push_back(Ok(message));
        self.wake();
    }

    /// Queues an error and wakes the receiver.
    pub fn error(&mut self, error: Error)
        ensures
            final(self)@ == (Inbox {
                incoming: old(self)@.incoming.push(Err(error)),
                waiting: false,
                ..old(self)@
            }),
    {
        self.incoming.push_back(Err(error));
        self.wake();
    }

    /// Closes the state and wakes the receiver. What is queued stays.
    pub fn close(&mut self)
        ensures
            final(self)@ == (Inbox { closed: true, waiting: false, ..old(self)@ }),
    {
        self.closed = true;
        self.wake();
    }

    /// Tells whether the state was closed.
    pub fn is_closed(&self) -> (closed: bool)
        ensures
            closed == self@.closed,
    {
        self.closed
    }

    /// Tells whether the stream has ended.
    pub fn is_terminated(&self) -> (terminated: bool)
        ensures
            terminated == self@.terminated(),
    {
        self.closed && self.incoming.len() == 0
    }

    /// Leaves the receiver's wake handle with the state. A handle that is
    /// held is replaced only where it may wake another task.
    pub fn update_waker_with(&mut self, other: &Waker)
        ensures
            final(self)@ == (Inbox { waiting: true, ..old(self)@ }),
    {
        let keep = match &self.waker {
            Some(waker) => will_wake(waker, other),
            None => false,
        };
        if !keep {
            self.waker = Some(clone_waker(other));
        }
    }

    /// Wakes the receiver, if it waits. Its handle is used up.
    pub fn wake(&mut self)
        ensures
            final(self)@ == (Inbox { waiting: false, ..old(self)@ }),
    {
        match self.waker.take() {
            Some(waker) => {
                wake(waker);
            },
            None => {},
        }
    }

    /// Asks for the next result. A receiver that gets nothing leaves its wake
    /// handle and is woken by the next arrival or by the close.
    pub fn poll_next(&mut self, waker: &Waker) -> (polled: Polled<
        Option<Result<Incoming, Error>>,
    >)
        ensures
            polled == old(self)@.next(),
            final(self)@ == old(self)@.polled(),
    {
        if self.closed && self.incoming.len() == 0 {
            return Polled::Ready(None);
        }
        let ghost before = self.incoming@;
        match self.incoming.pop_front() {
            Some(item) => {
                assert(self.incoming@ =~= before.drop_first());
                Polled::Ready(Some(item))
            },
            None => {
                self.update_waker_with(waker);
                Polled::Pending
            },
        }
    }
}

/// What is queued before the close is still received after it, in its order,
/// and then the stream ends: closing changes neither the queue nor what a
/// poll gives while the queue lasts.
pub proof fn lemma_close_keeps_queue<Incoming, Error>(inbox: Inbox<Incoming, Error>)
    ensures
        (Inbox { closed: true, waiting: false, ..inbox }).incoming == inbox.incoming,
        inbox.incoming.len() > 0 ==> (Inbox { closed: true, waiting: false, ..inbox }).next()
            == inbox.next(),
        inbox.incoming.len() == 0 ==> (Inbox { closed: true, waiting: false, ..inbox }).next()
            == Polled::Ready(None::<Result<Incoming, Error>>),
{
}

} // verus!
