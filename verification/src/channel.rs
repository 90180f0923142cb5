//! Transport for communication over a pair of unbounded channels of the
//! `futures` crate: each transport of a pair sends into one channel and
//! receives from the other. Useful for testing and debugging.
//!
//! The channels themselves are not modelled: of a call into them only that is
//! stated which holds whatever they answer. That what one transport sends the
//! other receives, in the order of sending, is the channels' doing and is
//! tried, not proved.

use vstd::prelude::*;
use std::task::Waker;
use crate::error::Error as TransportError;
use crate::poll::Polled;
use crate::transport::{Order, Reliable};
use vstd::string::StringExecFns;
use futures::channel::mpsc::{UnboundedReceiver, UnboundedSender};

verus! {

#[verifier::external_type_specification]
#[verifier::external_body]
#[verifier::reject_recursive_types(T)]
pub struct ExUnboundedSender<T>(UnboundedSender<T>);

#[verifier::external_type_specification]
#[verifier::external_body]
#[verifier::reject_recursive_types(T)]
pub struct ExUnboundedReceiver<T>(UnboundedReceiver<T>);

/// Errors of the channel transport.
#[derive(Debug, Clone, Copy, PartialEq, Eq, Structural)]
pub enum Error {
    /// The channel takes no more messages for now.
    ChannelIsFull,
}

impl Error {
    /// Says what went wrong.
    pub fn to_string(&self) -> (text: String)
        ensures
            text@ == "channel is full"@,
    {
        String::from_str("channel is full")
    }
}

/// Why a channel did not take a message.
#[derive(Debug, Clone, Copy, PartialEq, Eq, Structural)]
pub enum SendFailure {
    /// The channel is full.
    Full,
    /// The receiving end is gone.
    Disconnected,
}

/// `futures::channel::mpsc::unbounded`: the two ends of a new channel.
#[verifier::external_body]
fn unbounded<T>() -> (UnboundedSender<T>, UnboundedReceiver<T>) {
    futures::channel::mpsc::unbounded()
}

/// `UnboundedSender::poll_ready`, with `SendError::is_full` telling the two
/// kinds of its error apart.
#[verifier::external_body]
fn sender_poll_ready<T>(sender: &UnboundedSender<T>, waker: &Waker) -> Polled<
    Result<(), SendFailure>,
> {
    match sender.poll_ready(&mut std::task::Context::from_waker(waker)) {
        std::task::Poll::Ready(Ok(())) => Polled::Ready(Ok(())),
        std::task::Poll::Ready(Err(error)) => Polled::Ready(
            Err(if error.is_full() { SendFailure::Full } else { SendFailure::Disconnected }),
        ),
        std::task::Poll::Pending => Polled::Pending,
    }
}

/// `UnboundedSender::start_send`, with `SendError::is_full` telling the two
/// kinds of its error apart.
#[verifier::external_body]
fn sender_start_send<T>(sender: &mut UnboundedSender<T>, item: T) -> Result<(), SendFailure> {
    match sender.start_send(item) {
        Ok(()) => Ok(()),
        Err(error) => Err(
            if error.is_full() { SendFailure::Full } else { SendFailure::Disconnected },
        ),
    }
}

/// `UnboundedSender::disconnect`: this end lets go of the channel, as closing
/// the sender as a sink does.
#[verifier::external_body]
fn sender_disconnect<T>(sender: &mut UnboundedSender<T>) {
    sender.disconnect()
}

/// `Stream::poll_next` of an `UnboundedReceiver`: the next message, the end
/// of the channel, or nothing yet.
#[verifier::external_body]
fn receiver_poll_next<T>(receiver: &mut UnboundedReceiver<T>, waker: &Waker) -> Polled<
    Option<T>,
> {
    let mut context = std::task::Context::from_waker(waker);
    match futures::Stream::poll_next(std::pin::Pin::new(receiver), &mut context) {
        std::task::Poll::Ready(item) => Polled::Ready(item),
        std::task::Poll::Pending => Polled::Pending,
    }
}

/// What a refusal of the channel means for the sender: a full channel is
/// [`Error::ChannelIsFull`], a receiver that is gone closes the transport.
pub fn map_error(failure: SendFailure) -> (mapped: TransportError<Error>)
    ensures
        mapped == match failure {
            SendFailure::Full => TransportError::Other(Error::ChannelIsFull),
            SendFailure::Disconnected => TransportError::Closed,
        },
{
    match failure {
        SendFailure::Full => TransportError::Other(Error::ChannelIsFull),
        SendFailure::Disconnected => TransportError::Closed,
    }
}

/// What the sender's answer means for the transport.
pub open spec fn mapped(answer: Result<(), SendFailure>) -> Result<(), TransportError<Error>> {
    match answer {
        Ok(_) => Ok(()),
        Err(SendFailure::Full) => Err(TransportError::Other(Error::ChannelIsFull)),
        Err(SendFailure::Disconnected) => Err(TransportError::Closed),
    }
}

/// Gives what the sender's answer means for the transport.
pub fn map_answer(answer: Result<(), SendFailure>) -> (result: Result<(), TransportError<Error>>)
    ensures
        result == mapped(answer),
{
    match answer {
        Ok(_) => Ok(()),
        Err(failure) => Err(map_error(failure)),
    }
}

/// What the transport's stream gives for what the channel gave: each message
/// as a success, and the end as the end. A channel gives no errors.
pub open spec fn streamed<Incoming>(item: Polled<Option<Incoming>>) -> Polled<
    Option<Result<Incoming, Error>>,
> {
    match item {
        Polled::Ready(Some(message)) => Polled::Ready(Some(Ok(message))),
        Polled::Ready(None) => Polled::Ready(None),
        Polled::Pending => Polled::Pending,
    }
}

/// Transport for communication over a pair of channels.
#[verifier::reject_recursive_types(Incoming)]
#[verifier::reject_recursive_types(Outgoing)]
pub struct Transport<Incoming, Outgoing> {
    receiver: UnboundedReceiver<Incoming>,
    sender: UnboundedSender<Outgoing>,
    terminated: bool,
    closed: bool,
}

impl<Incoming, Outgoing> Transport<Incoming, Outgoing> {
    /// Whether the receiving channel has ended.
    pub closed spec fn terminated(&self) -> bool {
        self.terminated
    }

    /// Whether the sending side was closed.
    pub closed spec fn closed(&self) -> bool {
        self.closed
    }

    /// Create new transport wrapping provided sender and receiver.
    pub fn new(sender: UnboundedSender<Outgoing>, receiver: UnboundedReceiver<Incoming>) -> (transport:
        Self)
        ensures
            !transport.terminated(),
            !transport.closed(),
    {
        Transport { receiver, sender, terminated: false, closed: false }
    }

    /// Tells whether the receiving channel has ended.
    pub fn is_terminated(&self) -> (terminated: bool)
        ensures
            terminated == self.terminated(),
    {
        self.terminated
    }

    /// Tells whether the sending side was closed.
    pub fn is_closed(&self) -> (closed: bool)
        ensures
            closed == self.closed(),
    {
        self.closed
    }

    /// Takes in what the receiving channel gave, and gives the stream's
    /// answer. The end of the channel is remembered.
    pub fn received(&mut self, item: Polled<Option<Incoming>>) -> (polled: Polled<
        Option<Result<Incoming, Error>>,
    >)
        ensures
            polled == streamed(item),
            final(self).terminated() == (old(self).terminated() || item == Polled::Ready(
                None::<Incoming>,
            )),
            final(self).closed() == old(self).closed(),
    {
        match item {
            Polled::Ready(Some(message)) => Polled::Ready(Some(Ok(message))),
            Polled::Ready(None) => {
                self.terminated = true;
                Polled::Ready(None)
            },
            Polled::Pending => Polled::Pending,
        }
    }

    /// What is stated of asking for the next message: a stream that has
    /// ended stays at its end; the end is remembered when it is given; no
    /// error is ever given; and the sending side stays as it is.
    pub open spec fn polled(
        before: &Self,
        after: &Self,
        polled: Polled<Option<Result<Incoming, Error>>>,
    ) -> bool {
        &&& before.terminated() ==> after.terminated() && polled == Polled::Ready(
            None::<Result<Incoming, Error>>,
        )
        &&& after.terminated() == (before.terminated() || polled == Polled::Ready(
            None::<Result<Incoming, Error>>,
        ))
        &&& polled matches Polled::Ready(Some(item)) ==> item is Ok
        &&& after.closed() == before.closed()
    }

    /// Asks for the next received message. Once the channel has ended it is
    /// not asked again: the stream stays at its end. No error is ever given.
    pub fn poll_next(&mut self, waker: &Waker) -> (polled: Polled<Option<Result<Incoming, Error>>>)
        ensures
            Self::polled(old(self), final(self), polled),
    {
        if self.terminated {
            return Polled::Ready(None);
        }
        let item = receiver_poll_next(&mut self.receiver, waker);
        self.received(item)
    }

    /// What is stated of asking whether the channel can take a message: a
    /// closed sending side answers `Closed`; else the answer is the
    /// channel's. Nothing of the transport changes.
    pub open spec fn readied(
        before: &Self,
        after: &Self,
        polled: Polled<Result<(), TransportError<Error>>>,
    ) -> bool {
        &&& after.terminated() == before.terminated()
        &&& after.closed() == before.closed()
        &&& before.closed() ==> polled == Polled::Ready(
            Err::<(), TransportError<Error>>(TransportError::Closed),
        )
    }

    /// Asks whether the channel can take a message. A closed sending side
    /// answers `Closed`.
    pub fn poll_ready(&mut self, waker: &Waker) -> (polled: Polled<
        Result<(), TransportError<Error>>,
    >)
        ensures
            Self::readied(old(self), final(self), polled),
    {
        if self.closed {
            return Polled::Ready(Err(TransportError::Closed));
        }
        match sender_poll_ready(&self.sender, waker) {
            Polled::Ready(answer) => Polled::Ready(map_answer(answer)),
            Polled::Pending => Polled::Pending,
        }
    }

    /// What is stated of sending: a closed sending side refuses the message
    /// with `Closed`; else the answer is the channel's. Nothing of the
    /// transport changes.
    pub open spec fn sent(
        before: &Self,
        after: &Self,
        answer: Result<(), TransportError<Error>>,
    ) -> bool {
        &&& after.terminated() == before.terminated()
        &&& after.closed() == before.closed()
        &&& before.closed() ==> answer == Err::<(), TransportError<Error>>(TransportError::Closed)
    }

    /// Hands a message to the channel. A closed sending side refuses it with
    /// `Closed`, and so does a channel whose receiver is gone.
    pub fn start_send(&mut self, item: Outgoing) -> (result: Result<(), TransportError<Error>>)
        ensures
            Self::sent(old(self), final(self), result),
    {
        if self.closed {
            return Err(TransportError::Closed);
        }
        let answer = sender_start_send(&mut self.sender, item);
        map_answer(answer)
    }

    /// Flushes the channel: a channel holds nothing back, so that there is
    /// never anything to do.
    pub fn poll_flush(&mut self, waker: &Waker) -> (polled: Polled<
        Result<(), TransportError<Error>>,
    >)
        ensures
            polled == Polled::Ready(Ok::<(), TransportError<Error>>(())),
            *final(self) == *old(self),
    {
        Polled::Ready(Ok(()))
    }

    /// Closes the sending side: the sender lets go of its channel, so that
    /// the peer finds the end once it has received what was sent, and the
    /// sending side takes no more messages.
    pub fn poll_close(&mut self, waker: &Waker) -> (polled: Polled<
        Result<(), TransportError<Error>>,
    >)
        ensures
            polled == Polled::Ready(Ok::<(), TransportError<Error>>(())),
            final(self).closed(),
            final(self).terminated() == old(self).terminated(),
    {
        sender_disconnect(&mut self.sender);
        self.closed = true;
        Polled::Ready(Ok(()))
    }
}

impl<Incoming, Outgoing> crate::transport::Transport<Incoming, Outgoing, Error> for Transport<
    Incoming,
    Outgoing,
> {
    open spec fn readies(
        before: &Self,
        after: &Self,
        polled: Polled<Result<(), TransportError<Error>>>,
    ) -> bool {
        Transport::readied(before, after, polled)
    }

    open spec fn sends(
        before: &Self,
        item: Outgoing,
        after: &Self,
        answer: Result<(), TransportError<Error>>,
    ) -> bool {
        Transport::sent(before, after, answer)
    }

    /// Flushing does nothing and succeeds at once.
    open spec fn flushes(
        before: &Self,
        after: &Self,
        polled: Polled<Result<(), TransportError<Error>>>,
    ) -> bool {
        polled == Polled::Ready(Ok::<(), TransportError<Error>>(())) && *after == *before
    }

    /// Closing succeeds at once, closes the sending side and leaves the
    /// receiving side as it is.
    open spec fn closes(
        before: &Self,
        after: &Self,
        polled: Polled<Result<(), TransportError<Error>>>,
    ) -> bool {
        &&& polled == Polled::Ready(Ok::<(), TransportError<Error>>(()))
        &&& after.closed()
        &&& after.terminated() == before.terminated()
    }

    open spec fn polls(
        before: &Self,
        after: &Self,
        polled: Polled<Option<Result<Incoming, Error>>>,
    ) -> bool {
        Transport::polled(before, after, polled)
    }

    /// It tells whether the receiving channel has ended.
    open spec fn tells(&self, terminated: bool) -> bool {
        terminated == self.terminated()
    }

    fn poll_ready(&mut self, waker: &Waker) -> Polled<Result<(), TransportError<Error>>> {
        Transport::poll_ready(self, waker)
    }

    fn start_send(&mut self, item: Outgoing) -> Result<(), TransportError<Error>> {
        Transport::start_send(self, item)
    }

    fn poll_flush(&mut self, waker: &Waker) -> Polled<Result<(), TransportError<Error>>> {
        Transport::poll_flush(self, waker)
    }

    fn poll_close(&mut self, waker: &Waker) -> Polled<Result<(), TransportError<Error>>> {
        Transport::poll_close(self, waker)
    }

    fn poll_next(&mut self, waker: &Waker) -> Polled<Option<Result<Incoming, Error>>> {
        Transport::poll_next(self, waker)
    }

    fn is_terminated(&self) -> bool {
        Transport::is_terminated(self)
    }
}

impl<Incoming, Outgoing> Reliable for Transport<Incoming, Outgoing> {

}

impl<Incoming, Outgoing> Order for Transport<Incoming, Outgoing> {

}

/// Create two transports over two unbounded channels: each receives what the
/// other sends.
pub fn transports<Incoming, Outgoing>() -> (pair: (
    Transport<Incoming, Outgoing>,
    Transport<Outgoing, Incoming>,
))
    ensures
        !pair.0.terminated(),
        !pair.1.terminated(),
        !pair.0.closed(),
        !pair.1.closed(),
{
    let (left_sender, right_receiver) = unbounded();
    let (right_sender, left_receiver) = unbounded();
    let left = Transport::new(left_sender, left_receiver);
    let right = Transport::new(right_sender, right_receiver);
    (left, right)
}

} // verus!
