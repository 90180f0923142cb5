//! Transport for communication with a worker over posted messages.
//!
//! Each posted frame holds one tagged value: `Open`, `Message` or `Close`.
//! Before any message is exchanged both ends say `Open`: the worker speaks
//! first and then listens, its host listens first and then speaks. The
//! transport is there once both have spoken. To close, an end says `Close`
//! and marks its own state closed; the other end marks its state closed when
//! it hears it.
//!
//! Posting, listening and the codec are the caller's part. The transport
//! takes in what was heard and says what to do next.

use vstd::prelude::*;
use std::task::Waker;
use crate::browser::{Inbox, State};
use crate::error::Error as TransportError;
use crate::poll::Polled;
use crate::transport::{Order, Reliable};

verus! {

/// Errors of the worker transport. `JsError` is the error of a failed post,
/// `Event` the event that reports a failure of the worker or of a message.
#[derive(Debug)]
pub enum Error<SerializationError, DeserializationError, JsError, Event> {
    /// A frame could not be posted.
    SendingError(JsError),
    /// The codec could not encode a frame.
    SerializationError(SerializationError),
    /// The codec could not decode a frame.
    DeserializationError(DeserializationError),
    /// The worker reported an error.
    WorkerError(Event),
    /// A message could not be delivered.
    MessageError(Event),
}

/// The tagged value that a frame holds.
#[derive(Debug, PartialEq, Eq)]
pub enum Wrapper<Message> {
    /// The sender is there and listens.
    Open,
    /// A message of the application.
    Message(Message),
    /// The sender has closed.
    Close,
}

/// What an end does next to open the transport.
#[derive(Debug, Clone, Copy, PartialEq, Eq, Structural)]
pub enum Opening {
    /// Post an `Open` frame and report it with [`Handshake::said_open`].
    SayOpen,
    /// Wait until an `Open` frame is heard.
    AwaitOpen,
    /// Both ends have spoken: the transport is open.
    Done,
}

/// The opening handshake of one end.
#[derive(Debug, Clone, Copy, PartialEq, Eq, Structural)]
pub struct Handshake {
    /// Whether this end is the worker.
    pub is_worker: bool,
    /// Whether this end has said `Open`.
    pub said: bool,
    /// Whether this end has heard `Open`.
    pub heard: bool,
}

impl Handshake {
    /// What the end does next: the worker speaks first and then waits, its
    /// host waits first and then speaks.
    pub open spec fn step(self) -> Opening {
        if self.is_worker {
            if !self.said {
                Opening::SayOpen
            } else if !self.heard {
                Opening::AwaitOpen
            } else {
                Opening::Done
            }
        } else {
            if !self.heard {
                Opening::AwaitOpen
            } else if !self.said {
                Opening::SayOpen
            } else {
                Opening::Done
            }
        }
    }

    /// The handshake of an end that has neither spoken nor heard.
    pub fn new(is_worker: bool) -> (handshake: Self)
        ensures
            handshake == (Handshake { is_worker, said: false, heard: false }),
    {
        Handshake { is_worker, said: false, heard: false }
    }

    /// Says what the end does next.
    pub fn next(&self) -> (opening: Opening)
        ensures
            opening == self.step(),
    {
        if self.is_worker {
            if !self.said {
                Opening::SayOpen
            } else if !self.heard {
                Opening::AwaitOpen
            } else {
                Opening::Done
            }
        } else {
            if !self.heard {
                Opening::AwaitOpen
            } else if !self.said {
                Opening::SayOpen
            } else {
                Opening::Done
            }
        }
    }

    /// Records that this end has posted its `Open` frame. Whether the post
    /// succeeded does not matter to the handshake.
    pub fn said_open(&mut self)
        ensures
            *final(self) == (Handshake { said: true, ..*old(self) }),
    {
        self.said = true;
    }

    /// Tells whether the transport is open: both ends have spoken.
    pub fn is_done(&self) -> (done: bool)
        ensures
            done == (self.step() is Done),
            done == (self.said && self.heard),
    {
        self.said && self.heard
    }
}

/// The transport is open exactly when both ends have said `Open`, and no end
/// of a started handshake is asked to speak twice or to wait for what it has
/// heard.
pub proof fn lemma_handshake(handshake: Handshake)
    ensures
        handshake.step() is Done <==> handshake.said && handshake.heard,
        handshake.step() is SayOpen ==> !handshake.said,
        handshake.step() is AwaitOpen ==> !handshake.heard,
        handshake.is_worker && !handshake.said ==> handshake.step() is SayOpen,
        !handshake.is_worker && !handshake.heard ==> handshake.step() is AwaitOpen,
{
}

/// What became of a frame that was heard.
#[derive(Debug, Clone, Copy, PartialEq, Eq, Structural)]
pub enum Heard {
    /// The peer said `Open` while this end waited for it.
    Opened,
    /// The peer said `Open` though the transport was open already: it broke
    /// the protocol.
    OpenedTwice,
    /// A message or an error was queued for the receiver.
    Queued,
    /// The peer has closed; the state is closed.
    Closed,
}

/// Takes in a frame that was heard, as the codec decoded it.
///
/// `Open` goes to the handshake. A message is queued for the receiver. `Close`
/// closes the state. A frame that could not be decoded is queued as
/// [`Error::DeserializationError`].
pub fn on_message<Incoming, SerializationError, DeserializationError, JsError, Event>(
    handshake: &mut Handshake,
    state: &mut State<
        Incoming,
        Error<SerializationError, DeserializationError, JsError, Event>,
    >,
    frame: Result<Wrapper<Incoming>, DeserializationError>,
) -> (heard: Heard)
    ensures
        final(handshake).is_worker == old(handshake).is_worker,
        final(handshake).said == old(handshake).said,
        match frame {
            Ok(Wrapper::Open) => {
                &&& final(state)@ == old(state)@
                &&& final(handshake).heard
                &&& heard == if old(handshake).step() is Done {
                    Heard::OpenedTwice
                } else {
                    Heard::Opened
                }
            },
            Ok(Wrapper::Message(message)) => {
                &&& heard == Heard::Queued
                &&& *final(handshake) == *old(handshake)
                &&& final(state)@ == (Inbox {
                    incoming: old(state)@.incoming.push(Ok(message)),
                    waiting: false,
                    ..old(state)@
                })
            },
            Ok(Wrapper::Close) => {
                &&& heard == Heard::Closed
                &&& *final(handshake) == *old(handshake)
                &&& final(state)@ == (Inbox { closed: true, waiting: false, ..old(state)@ })
            },
            Err(error) => {
                &&& heard == Heard::Queued
                &&& *final(handshake) == *old(handshake)
                &&& final(state)@ == (Inbox {
                    incoming: old(state)@.incoming.push(
                        Err(
                            Error::<
                                SerializationError,
                                DeserializationError,
                                JsError,
                                Event,
                            >::DeserializationError(error),
                        ),
                    ),
                    waiting: false,
                    ..old(state)@
                })
            },
        },
{
    match frame {
        Ok(Wrapper::Open) => {
            let twice = handshake.is_done();
            handshake.heard = true;
            if twice {
                Heard::OpenedTwice
            } else {
                Heard::Opened
            }
        },
        Ok(Wrapper::Message(message)) => {
            state.message(message);
            Heard::Queued
        },
        Ok(Wrapper::Close) => {
            state.close();
            Heard::Closed
        },
        Err(error) => {
            state.error(Error::DeserializationError(error));
            Heard::Queued
        },
    }
}

/// Takes in an error that the worker reported: it is queued as
/// [`Error::WorkerError`].
pub fn on_error<Incoming, SerializationError, DeserializationError, JsError, Event>(
    state: &mut State<
        Incoming,
        Error<SerializationError, DeserializationError, JsError, Event>,
    >,
    event: Event,
)
    ensures
        final(state)@ == (Inbox {
            incoming: old(state)@.incoming.push(
                Err(
                    Error::<SerializationError, DeserializationError, JsError, Event>::WorkerError(
                        event,
                    ),
                ),
            ),
            waiting: false,
            ..old(state)@
        }),
{
    state.error(Error::WorkerError(event));
}

/// Takes in a report that a message could not be delivered: it is queued as
/// [`Error::MessageError`].
pub fn on_message_error<Incoming, SerializationError, DeserializationError, JsError, Event>(
    state: &mut State<
        Incoming,
        Error<SerializationError, DeserializationError, JsError, Event>,
    >,
    event: Event,
)
    ensures
        final(state)@ == (Inbox {
            incoming: old(state)@.incoming.push(
                Err(
                    Error::<SerializationError, DeserializationError, JsError, Event>::MessageError(
                        event,
                    ),
                ),
            ),
            waiting: false,
            ..old(state)@
        }),
{
    state.error(Error::MessageError(event));
}

/// What frames are posted through: a worker, seen from its host, or the
/// worker's own scope, seen from inside.
pub trait PostMessage<Value, Failure> {
    /// What the target states of a post: how the frame that was handed to it
    /// and its answer relate. A target that cannot say more lets this hold of
    /// everything.
    open spec fn posts(&self, message: &Value, answer: Result<(), Failure>) -> bool {
        true
    }

    /// Posts one frame.
    fn post_message(&self, message: &Value) -> (answer: Result<(), Failure>)
        ensures
            self.posts(message, answer),
    ;
}

/// What a post means for the sender: a refusal is [`Error::SendingError`].
pub fn posted<SerializationError, DeserializationError, JsError, Event>(
    posting: Result<(), JsError>,
) -> (result: Result<(), Error<SerializationError, DeserializationError, JsError, Event>>)
    ensures
        result == match posting {
            Ok(_) => Ok(()),
            Err(error) => Err(
                Error::<SerializationError, DeserializationError, JsError, Event>::SendingError(
                    error,
                ),
            ),
        },
{
    match posting {
        Ok(_) => Ok(()),
        Err(error) => Err(Error::SendingError(error)),
    }
}

/// Posts a frame through `target`, given its encoding. A failed encoding is
/// [`Error::SerializationError`], and nothing is posted. Else the encoding is
/// posted, once and as it is, and a refusal is [`Error::SendingError`].
pub fn send_inner<
    Target: PostMessage<Value, JsError>,
    Value,
    SerializationError,
    DeserializationError,
    JsError,
    Event,
>(target: &Target, encoding: Result<Value, SerializationError>) -> (result: Result<
    (),
    Error<SerializationError, DeserializationError, JsError, Event>,
>)
    ensures
        match encoding {
            Err(error) => result == Err::<(), _>(
                Error::<
                    SerializationError,
                    DeserializationError,
                    JsError,
                    Event,
                >::SerializationError(error),
            ),
            Ok(value) => exists|posting: Result<(), JsError>| #[trigger]
                target.posts(&value, posting) && result == match posting {
                    Ok(_) => Ok::<
                        (),
                        Error<SerializationError, DeserializationError, JsError, Event>,
                    >(()),
                    Err(error) => Err(Error::SendingError(error)),
                },
        },
{
    match encoding {
        Err(error) => Err(Error::SerializationError(error)),
        Ok(value) => {
            let posting = target.post_message(&value);
            posted(posting)
        },
    }
}

/// Whether the sending side can go on: on a closed state every operation of
/// the sender fails with `Closed`.
pub fn poll_ready<Incoming, E>(state: &State<Incoming, E>) -> (ready: Result<
    (),
    TransportError<E>,
>)
    ensures
        ready == if state@.closed {
            Err::<(), _>(TransportError::<E>::Closed)
        } else {
            Ok(())
        },
{
    if state.is_closed() {
        Err(TransportError::Closed)
    } else {
        Ok(())
    }
}

/// Closes this end. On a closed state it fails with `Closed`. Else the state
/// is closed, and the answer is whether a `Close` frame is to be posted to the
/// peer, which it is; what comes of the post does not matter.
pub fn poll_close<Incoming, E>(state: &mut State<Incoming, E>) -> (result: Result<
    (),
    TransportError<E>,
>)
    ensures
        result == if old(state)@.closed {
            Err::<(), _>(TransportError::<E>::Closed)
        } else {
            Ok(())
        },
        final(state)@ == if old(state)@.closed {
            old(state)@
        } else {
            Inbox { closed: true, waiting: false, ..old(state)@ }
        },
{
    if state.is_closed() {
        Err(TransportError::Closed)
    } else {
        state.close();
        Ok(())
    }
}

/// Transport for communication with a worker.
pub struct Transport<Incoming, SerializationError, DeserializationError, JsError, Event> {
    handshake: Handshake,
    state: State<Incoming, Error<SerializationError, DeserializationError, JsError, Event>>,
}

impl<Incoming, SerializationError, DeserializationError, JsError, Event> Transport<
    Incoming,
    SerializationError,
    DeserializationError,
    JsError,
    Event,
> {
    /// The opening handshake of this end.
    pub closed spec fn handshake(&self) -> Handshake {
        self.handshake
    }

    /// The receive state of this end.
    pub closed spec fn inbox(&self) -> Inbox<
        Incoming,
        Error<SerializationError, DeserializationError, JsError, Event>,
    > {
        self.state@
    }

    /// Create new transport for the worker's end, where `is_worker`, or for
    /// its host's. It is open once the handshake is done.
    pub fn new_inner(is_worker: bool) -> (transport: Self)
        ensures
            transport.handshake() == (Handshake { is_worker, said: false, heard: false }),
            transport.inbox() == (Inbox::<
                Incoming,
                Error<SerializationError, DeserializationError, JsError, Event>,
            > { incoming: Seq::empty(), waiting: false, closed: false }),
    {
        Transport { handshake: Handshake::new(is_worker), state: State::new() }
    }

    /// Create new transport for communication with worker: the host's end.
    pub fn new() -> (transport: Self)
        ensures
            transport.handshake() == (Handshake { is_worker: false, said: false, heard: false }),
            transport.inbox() == (Inbox::<
                Incoming,
                Error<SerializationError, DeserializationError, JsError, Event>,
            > { incoming: Seq::empty(), waiting: false, closed: false }),
    {
        Transport::new_inner(false)
    }

    /// Create new transport inside worker: the worker's end.
    pub fn new_in_worker() -> (transport: Self)
        ensures
            transport.handshake() == (Handshake { is_worker: true, said: false, heard: false }),
            transport.inbox() == (Inbox::<
                Incoming,
                Error<SerializationError, DeserializationError, JsError, Event>,
            > { incoming: Seq::empty(), waiting: false, closed: false }),
    {
        Transport::new_inner(true)
    }

    /// Says what this end does next to open the transport.
    pub fn opening(&self) -> (opening: Opening)
        ensures
            opening == self.handshake().step(),
    {
        self.handshake.next()
    }

    /// Records that this end has posted its `Open` frame.
    pub fn said_open(&mut self)
        ensures
            final(self).handshake() == (Handshake { said: true, ..old(self).handshake() }),
            final(self).inbox() == old(self).inbox(),
    {
        self.handshake.said_open();
    }

    /// Takes in a frame that was heard, as [`on_message`] says.
    pub fn heard(&mut self, frame: Result<Wrapper<Incoming>, DeserializationError>) -> (heard:
        Heard)
        ensures
            final(self).handshake().is_worker == old(self).handshake().is_worker,
            final(self).handshake().said == old(self).handshake().said,
            frame matches Ok(Wrapper::Open) ==> final(self).handshake().heard && final(self).inbox() == old(self).inbox() && heard == if old(self).handshake().step() is Done {
                Heard::OpenedTwice
            } else {
                Heard::Opened
            },
            !(frame matches Ok(Wrapper::Open)) ==> final(self).handshake() == old(self).handshake(),
            frame matches Ok(Wrapper::Message(message)) ==> heard == Heard::Queued && final(self).inbox() == (Inbox {
                incoming: old(self).inbox().incoming.push(Ok(message)),
                waiting: false,
                ..old(self).inbox()
            }),
            frame matches Ok(Wrapper::Close) ==> heard == Heard::Closed && final(self).inbox() == (
            Inbox { closed: true, waiting: false, ..old(self).inbox() }),
            frame matches Err(error) ==> heard == Heard::Queued && final(self).inbox() == (Inbox {
                incoming: old(self).inbox().incoming.push(
                    Err(
                        Error::<
                            SerializationError,
                            DeserializationError,
                            JsError,
                            Event,
                        >::DeserializationError(error),
                    ),
                ),
                waiting: false,
                ..old(self).inbox()
            }),
    {
        on_message(&mut self.handshake, &mut self.state, frame)
    }

    /// Takes in an error that the worker reported, as [`on_error`] says.
    pub fn worker_failed(&mut self, event: Event)
        ensures
            final(self).handshake() == old(self).handshake(),
            final(self).inbox() == (Inbox {
                incoming: old(self).inbox().incoming.push(
                    Err(
                        Error::<
                            SerializationError,
                            DeserializationError,
                            JsError,
                            Event,
                        >::WorkerError(event),
                    ),
                ),
                waiting: false,
                ..old(self).inbox()
            }),
    {
        on_error(&mut self.state, event);
    }

    /// Takes in a report that a message could not be delivered, as
    /// [`on_message_error`] says.
    pub fn message_failed(&mut self, event: Event)
        ensures
            final(self).handshake() == old(self).handshake(),
            final(self).inbox() == (Inbox {
                incoming: old(self).inbox().incoming.push(
                    Err(
                        Error::<
                            SerializationError,
                            DeserializationError,
                            JsError,
                            Event,
                        >::MessageError(event),
                    ),
                ),
                waiting: false,
                ..old(self).inbox()
            }),
    {
        on_message_error(&mut self.state, event);
    }

    /// Whether the sender can take a message: not on a closed transport.
    pub fn poll_ready(&self) -> (ready: Result<
        (),
        TransportError<Error<SerializationError, DeserializationError, JsError, Event>>,
    >)
        ensures
            ready is Ok <==> !self.inbox().closed,
            ready is Err ==> ready->Err_0 is Closed,
    {
        poll_ready(&self.state)
    }

    /// Whether a message may be posted: not on a closed transport.
    pub fn start_send(&self) -> (ready: Result<
        (),
        TransportError<Error<SerializationError, DeserializationError, JsError, Event>>,
    >)
        ensures
            ready is Ok <==> !self.inbox().closed,
            ready is Err ==> ready->Err_0 is Closed,
    {
        poll_ready(&self.state)
    }

    /// Whether what was sent has left: posting is immediate, so that nothing
    /// is ever left to flush; a closed transport fails with `Closed`.
    pub fn poll_flush(&self) -> (ready: Result<
        (),
        TransportError<Error<SerializationError, DeserializationError, JsError, Event>>,
    >)
        ensures
            ready is Ok <==> !self.inbox().closed,
            ready is Err ==> ready->Err_0 is Closed,
    {
        poll_ready(&self.state)
    }

    /// Closes this end, as [`poll_close`] says. After `Ok` a `Close` frame is
    /// to be posted to the peer.
    pub fn poll_close(&mut self) -> (result: Result<
        (),
        TransportError<Error<SerializationError, DeserializationError, JsError, Event>>,
    >)
        ensures
            final(self).handshake() == old(self).handshake(),
            result is Ok <==> !old(self).inbox().closed,
            result is Err ==> result->Err_0 is Closed,
            final(self).inbox() == if old(self).inbox().closed {
                old(self).inbox()
            } else {
                Inbox { closed: true, waiting: false, ..old(self).inbox() }
            },
    {
        poll_close(&mut self.state)
    }

    /// Asks for the next received message, as [`State::poll_next`] says.
    pub fn poll_next(&mut self, waker: &Waker) -> (polled: Polled<
        Option<
            Result<Incoming, Error<SerializationError, DeserializationError, JsError, Event>>,
        >,
    >)
        ensures
            final(self).handshake() == old(self).handshake(),
            polled == old(self).inbox().next(),
            final(self).inbox() == old(self).inbox().polled(),
    {
        self.state.poll_next(waker)
    }

    /// Tells whether the stream has ended.
    pub fn is_terminated(&self) -> (terminated: bool)
        ensures
            terminated == self.inbox().terminated(),
    {
        self.state.is_terminated()
    }
}

impl<Incoming, SerializationError, DeserializationError, JsError, Event> Reliable for Transport<
    Incoming,
    SerializationError,
    DeserializationError,
    JsError,
    Event,
> {

}

impl<Incoming, SerializationError, DeserializationError, JsError, Event> Order for Transport<
    Incoming,
    SerializationError,
    DeserializationError,
    JsError,
    Event,
> {

}

} // verus!
