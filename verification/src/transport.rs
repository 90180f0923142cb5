//! What carriers promise, and the facade that presents a carrier as a stream
//! of messages.

use vstd::prelude::*;
use std::task::Waker;
use crate::error::Error;
use crate::poll::{Advance, Polled};

verus! {

/// Transport guaranteeing that all messages sent are delivered to the receiver
/// (as long as underlying connection is up and running): it does not allow
/// messages to be lost in transport.
///
/// This trait alone promises neither the order of the messages nor that none
/// comes twice: for that a transport is marked with [`Order`] as well. The
/// trait is a marker: the implementor answers for the promise.
pub trait Reliable {

}

/// Transport guaranteeing that all messages will arrive in the order they were
/// sent, and none of them twice.
///
/// This trait alone does not promise that all messages arrive: for that a
/// transport is marked with [`Reliable`] as well. The trait is a marker: the
/// implementor answers for the promise.
pub trait Order {

}

/// A carrier of messages: it takes `Outgoing` messages and gives `Incoming`
/// ones, and fails with `E`.
///
/// Each operation is polled: where it cannot complete it is pending, and the
/// task of `waker` is woken when it is worth polling again. What an operation
/// does is for each carrier to say: beside each operation stands the relation
/// that the carrier states of it, between the carrier before the operation,
/// what it was given, the carrier after it and its answer. A carrier that
/// cannot say more of an operation lets the relation hold of everything.
/// Decorators state what they do in terms of these relations.
pub trait Transport<Incoming, Outgoing, E>: Sized {
    /// What the carrier states of [`Transport::poll_ready`].
    open spec fn readies(before: &Self, after: &Self, polled: Polled<Result<(), Error<E>>>) -> bool {
        true
    }

    /// What the carrier states of [`Transport::start_send`].
    open spec fn sends(
        before: &Self,
        item: Outgoing,
        after: &Self,
        answer: Result<(), Error<E>>,
    ) -> bool {
        true
    }

    /// What the carrier states of [`Transport::poll_flush`].
    open spec fn flushes(before: &Self, after: &Self, polled: Polled<Result<(), Error<E>>>) -> bool {
        true
    }

    /// What the carrier states of [`Transport::poll_close`].
    open spec fn closes(before: &Self, after: &Self, polled: Polled<Result<(), Error<E>>>) -> bool {
        true
    }

    /// What the carrier states of [`Transport::poll_next`].
    open spec fn polls(
        before: &Self,
        after: &Self,
        polled: Polled<Option<Result<Incoming, E>>>,
    ) -> bool {
        true
    }

    /// What the carrier states of [`Transport::is_terminated`], where
    /// `terminated` is what it tells.
    open spec fn tells(&self, terminated: bool) -> bool {
        true
    }

    /// Asks whether the carrier can take a message.
    fn poll_ready(&mut self, waker: &Waker) -> (polled: Polled<Result<(), Error<E>>>)
        ensures
            Self::readies(old(self), final(self), polled),
    ;

    /// Hands a message to the carrier.
    fn start_send(&mut self, item: Outgoing) -> (answer: Result<(), Error<E>>)
        ensures
            Self::sends(old(self), item, final(self), answer),
    ;

    /// Drives what was handed to the carrier towards the peer.
    fn poll_flush(&mut self, waker: &Waker) -> (polled: Polled<Result<(), Error<E>>>)
        ensures
            Self::flushes(old(self), final(self), polled),
    ;

    /// Closes the sending side.
    fn poll_close(&mut self, waker: &Waker) -> (polled: Polled<Result<(), Error<E>>>)
        ensures
            Self::closes(old(self), final(self), polled),
    ;

    /// Asks for the next received message. `Ready(None)` is the end of the
    /// stream.
    fn poll_next(&mut self, waker: &Waker) -> (polled: Polled<Option<Result<Incoming, E>>>)
        ensures
            Self::polls(old(self), final(self), polled),
    ;

    /// Tells whether the stream has ended.
    fn is_terminated(&self) -> (terminated: bool)
        ensures
            self.tells(terminated),
    ;
}

/// What a receive operation makes of the next item of a carrier's stream: a
/// message is the result, an error is wrapped as `Other`, and the end of the
/// stream is `Closed`.
pub open spec fn received<Message, E>(item: Option<Result<Message, E>>) -> Result<
    Message,
    Error<E>,
> {
    match item {
        Some(Ok(message)) => Ok(message),
        Some(Err(error)) => Err(Error::Other(error)),
        None => Err(Error::Closed),
    }
}

/// Gives what a receive operation makes of the next item of a carrier's
/// stream.
pub fn receive_item<Message, E>(item: Option<Result<Message, E>>) -> (result: Result<
    Message,
    Error<E>,
>)
    ensures
        result == received(item),
{
    match item {
        Some(Ok(message)) => Ok(message),
        Some(Err(error)) => Err(Error::Other(error)),
        None => Err(Error::Closed),
    }
}

/// Future returned by a carrier's `receive`: it completes with the next item
/// of the carrier's stream.
pub struct Recv {
    terminated: bool,
}

impl Recv {
    /// Whether the operation has completed.
    pub closed spec fn terminated(&self) -> bool {
        self.terminated
    }

    /// A receive operation that has not been polled.
    pub fn new() -> (recv: Self)
        ensures
            !recv.terminated(),
    {
        Recv { terminated: false }
    }

    /// Tells whether the operation has completed.
    pub fn is_terminated(&self) -> (terminated: bool)
        ensures
            terminated == self.terminated(),
    {
        self.terminated
    }

    /// Takes in what polling the carrier's stream gave, and gives what the
    /// operation makes of it. The operation completes as soon as the stream
    /// is ready.
    pub fn poll<Message, E>(&mut self, next: Polled<Option<Result<Message, E>>>) -> (polled: Polled<
        Result<Message, Error<E>>,
    >)
        ensures
            polled == match next {
                Polled::Ready(item) => Polled::Ready(received(item)),
                Polled::Pending => Polled::Pending,
            },
            final(self).terminated() == (old(self).terminated() || next is Ready),
    {
        match next {
            Polled::Ready(item) => {
                self.terminated = true;
                Polled::Ready(receive_item(item))
            },
            Polled::Pending => Polled::Pending,
        }
    }
}

/// Stream of messages: a carrier's stream without its errors.
///
/// Each error goes to the error callback and the stream goes on to the next
/// item; the stream ends when the carrier's does.
pub struct MessageStream<T, F> {
    stream: T,
    error_callback: F,
    terminated: bool,
}

impl<T, F> MessageStream<T, F> {
    /// Whether the stream has ended.
    pub closed spec fn terminated(&self) -> bool {
        self.terminated
    }

    /// The carrier whose messages the stream gives.
    pub closed spec fn stream(&self) -> T {
        self.stream
    }

    /// The callback that gets the errors.
    pub closed spec fn callback(&self) -> F {
        self.error_callback
    }

    /// Message stream with filtered out errors, which go to `error_callback`.
    pub fn new(stream: T, error_callback: F) -> (messages: Self)
        ensures
            !messages.terminated(),
            messages.stream() == stream,
            messages.callback() == error_callback,
    {
        MessageStream { stream, error_callback, terminated: false }
    }

    /// Tells whether the stream has ended.
    pub fn is_terminated(&self) -> (terminated: bool)
        ensures
            terminated == self.terminated(),
    {
        self.terminated
    }

    /// The carrier, to be polled.
    pub fn get_mut(&mut self) -> (stream: &mut T)
        ensures
            *stream == old(self).stream(),
            final(self).stream() == *final(stream),
            final(self).callback() == old(self).callback(),
            final(self).terminated() == old(self).terminated(),
    {
        &mut self.stream
    }

    /// Takes in what polling the carrier's stream gave, and gives the
    /// stream's own answer: a message is handed on; an error is given to the
    /// callback, once, and the stream goes on to the carrier's next item at
    /// once; the end is handed on and remembered. A pending carrier gives a
    /// pending answer.
    pub fn poll_next<Message, E>(&mut self, item: Polled<Option<Result<Message, E>>>) -> (polled:
        Advance<Option<Message>>) where F: FnMut(E)
        requires
            item matches Polled::Ready(Some(Err(error))) ==> call_requires(
                old(self).callback(),
                (error,),
            ),
        ensures
            polled == match item {
                Polled::Ready(Some(Ok(message))) => Advance::Ready(Some(message)),
                Polled::Ready(Some(Err(_))) => Advance::Again,
                Polled::Ready(None) => Advance::Ready(None),
                Polled::Pending => Advance::Pending,
            },
            item matches Polled::Ready(Some(Err(error))) ==> call_ensures(
                old(self).callback(),
                (error,),
                (),
            ),
            final(self).terminated() == (old(self).terminated() || item == Polled::Ready(
                None::<Result<Message, E>>,
            )),
            final(self).stream() == old(self).stream(),
    {
        match item {
            Polled::Ready(Some(Ok(message))) => Advance::Ready(Some(message)),
            Polled::Ready(Some(Err(error))) => {
                (self.error_callback)(error);
                Advance::Again
            },
            Polled::Ready(None) => {
                self.terminated = true;
                Advance::Ready(None)
            },
            Polled::Pending => Advance::Pending,
        }
    }
}

} // verus!
