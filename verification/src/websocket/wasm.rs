//! Transport for communication over the WebSocket of a browser.
//!
//! The browser reports what happens on the socket as events. Each message
//! event holds the encoding of one message. An error event is queued as an
//! error and closes the transport; a close event closes it. What is queued
//! can be received after the close.

use vstd::prelude::*;
use std::task::Waker;
use crate::browser::{Inbox, State};
use crate::error::Error as TransportError;
use crate::error::{begins_with, prefixed, prefixed_debug, shows};
use core::fmt::{Debug, Display};
use crate::poll::Polled;
use crate::transport::{Order, Reliable};

verus! {

/// Errors of the browser's WebSocket transport. `JsError` is the error of a
/// failed call of the socket, `Event` the socket's error event.
#[derive(Debug)]
pub enum Error<SerializationError, DeserializationError, JsError, Event> {
    /// The socket refused to send.
    SendingError(JsError),
    /// The socket refused to close.
    ClosingError(JsError),
    /// The codec could not encode a message.
    SerializationError(SerializationError),
    /// The codec could not decode a message.
    DeserializationError(DeserializationError),
    /// The socket reported an error.
    WebSocketError(Event),
}

impl<SerializationError: Display, DeserializationError: Display, JsError: Display, Event: Debug> Error<
    SerializationError,
    DeserializationError,
    JsError,
    Event,
> {
    /// Says what went wrong, with what the cause says of itself.
    pub fn to_string(&self) -> (text: String)
        ensures
            match self {
                Error::SendingError(error) => shows("failed to send message: "@, error, text@),
                Error::ClosingError(error) => shows(
                    "failed to close transport: "@,
                    error,
                    text@,
                ),
                Error::SerializationError(error) => shows(
                    "failed to serialize message: "@,
                    error,
                    text@,
                ),
                Error::DeserializationError(error) => shows(
                    "failed to deserialize message: "@,
                    error,
                    text@,
                ),
                Error::WebSocketError(_) => begins_with(text@, "WebSocket error occurred: "@),
            },
    {
        match self {
            Error::SendingError(error) => prefixed("failed to send message: ", error),
            Error::ClosingError(error) => prefixed("failed to close transport: ", error),
            Error::SerializationError(error) => prefixed("failed to serialize message: ", error),
            Error::DeserializationError(error) => prefixed(
                "failed to deserialize message: ",
                error,
            ),
            Error::WebSocketError(event) => prefixed_debug("WebSocket error occurred: ", event),
        }
    }
}

/// Transport for communication over the WebSocket of a browser.
pub struct Transport<Incoming, SerializationError, DeserializationError, JsError, Event> {
    state: State<Incoming, Error<SerializationError, DeserializationError, JsError, Event>>,
}

impl<Incoming, SerializationError, DeserializationError, JsError, Event> Transport<
    Incoming,
    SerializationError,
    DeserializationError,
    JsError,
    Event,
> {
    /// The receive state of the transport.
    pub closed spec fn inbox(&self) -> Inbox<
        Incoming,
        Error<SerializationError, DeserializationError, JsError, Event>,
    > {
        self.state@
    }

    /// Create new transport for a socket that is taken to be open.
    pub fn new_assuming_open() -> (transport: Self)
        ensures
            transport.inbox() == (Inbox::<
                Incoming,
                Error<SerializationError, DeserializationError, JsError, Event>,
            > { incoming: Seq::empty(), waiting: false, closed: false }),
    {
        Transport { state: State::new() }
    }

    /// Takes in a message event, as the codec decoded it: the message is
    /// queued, or [`Error::DeserializationError`] in its place.
    pub fn on_message(&mut self, decoding: Result<Incoming, DeserializationError>)
        ensures
            final(self).inbox() == (Inbox {
                incoming: old(self).inbox().incoming.push(
                    match decoding {
                        Ok(message) => Ok(message),
                        Err(error) => Err(
                            Error::<
                                SerializationError,
                                DeserializationError,
                                JsError,
                                Event,
                            >::DeserializationError(error),
                        ),
                    },
                ),
                waiting: false,
                ..old(self).inbox()
            }),
    {
        match decoding {
            Ok(message) => self.state.message(message),
            Err(error) => self.state.error(Error::DeserializationError(error)),
        }
    }

    /// Takes in an error event: it is queued as [`Error::WebSocketError`],
    /// and the transport is closed.
    pub fn on_error(&mut self, event: Event)
        ensures
            final(self).inbox() == (Inbox {
                incoming: old(self).inbox().incoming.push(
                    Err(
                        Error::<
                            SerializationError,
                            DeserializationError,
                            JsError,
                            Event,
                        >::WebSocketError(event),
                    ),
                ),
                waiting: false,
                closed: true,
            }),
    {
        self.state.error(Error::WebSocketError(event));
        self.state.close();
    }

    /// Takes in a close event: the transport is closed.
    pub fn on_close(&mut self)
        ensures
            final(self).inbox() == (Inbox { closed: true, waiting: false, ..old(self).inbox() }),
    {
        self.state.close();
    }

    /// Whether the sender can go on: on a closed transport every operation of
    /// the sender fails with `Closed`.
    pub fn poll_ready(&self) -> (ready: Result<
        (),
        TransportError<Error<SerializationError, DeserializationError, JsError, Event>>,
    >)
        ensures
            ready is Ok <==> !self.inbox().closed,
            ready is Err ==> ready->Err_0 is Closed,
    {
        if self.state.is_closed() {
            Err(TransportError::Closed)
        } else {
            Ok(())
        }
    }

    /// Closes the transport, given what the socket answered to its closing:
    /// the state is closed whatever the answer, and a refusal is handed on as
    /// [`Error::ClosingError`]. A transport that is closed already fails with
    /// `Closed`, and the answer does not count.
    pub fn poll_close(&mut self, closing: Result<(), JsError>) -> (result: Result<
        (),
        TransportError<Error<SerializationError, DeserializationError, JsError, Event>>,
    >)
        ensures
            final(self).inbox() == if old(self).inbox().closed {
                old(self).inbox()
            } else {
                Inbox { closed: true, waiting: false, ..old(self).inbox() }
            },
            result == if old(self).inbox().closed {
                Err(TransportError::Closed)
            } else {
                match closing {
                    Ok(_) => Ok(()),
                    Err(error) => Err(
                        TransportError::Other(
                            Error::<
                                SerializationError,
                                DeserializationError,
                                JsError,
                                Event,
                            >::ClosingError(error),
                        ),
                    ),
                }
            },
    {
        if self.state.is_closed() {
            return Err(TransportError::Closed);
        }
        self.state.close();
        match closing {
            Ok(_) => Ok(()),
            Err(error) => Err(TransportError::Other(Error::ClosingError(error))),
        }
    }

    /// Asks for the next received message, as [`State::poll_next`] says.
    pub fn poll_next(&mut self, waker: &Waker) -> (polled: Polled<
        Option<
            Result<Incoming, Error<SerializationError, DeserializationError, JsError, Event>>,
        >,
    >)
        ensures
            polled == old(self).inbox().next(),
            final(self).inbox() == old(self).inbox().polled(),
    {
        self.state.poll_next(waker)
    }

    /// Tells whether the stream has ended.
    pub fn is_terminated(&self) -> (terminated: bool)
        ensures
            terminated == self.inbox().terminated(),
    {
        self.state.is_terminated()
    }
}

/// What the socket's answer means for the sender: a refusal is
/// [`Error::SendingError`].
pub fn sent<SerializationError, DeserializationError, JsError, Event>(
    sending: Result<(), JsError>,
) -> (result: Result<(), Error<SerializationError, DeserializationError, JsError, Event>>)
    ensures
        result == match sending {
            Ok(_) => Ok(()),
            Err(error) => Err(
                Error::<SerializationError, DeserializationError, JsError, Event>::SendingError(
                    error,
                ),
            ),
        },
{
    match sending {
        Ok(_) => Ok(()),
        Err(error) => Err(Error::SendingError(error)),
    }
}

/// Sends a message with `send`, given its encoding. A failed encoding is
/// [`Error::SerializationError`], and nothing is sent. Else the encoding is
/// handed to `send`, once, and a refusal is [`Error::SendingError`].
pub fn send_inner<
    Send: FnOnce(Value) -> Result<(), JsError>,
    Value,
    SerializationError,
    DeserializationError,
    JsError,
    Event,
>(encoding: Result<Value, SerializationError>, send: Send) -> (result: Result<
    (),
    Error<SerializationError, DeserializationError, JsError, Event>,
>)
    requires
        encoding matches Ok(value) ==> call_requires(send, (value,)),
    ensures
        match encoding {
            Err(error) => result == Err::<(), _>(
                Error::<
                    SerializationError,
                    DeserializationError,
                    JsError,
                    Event,
                >::SerializationError(error),
            ),
            Ok(value) => exists|sending: Result<(), JsError>| #[trigger]
                call_ensures(send, (value,), sending) && result == match sending {
                    Ok(_) => Ok::<
                        (),
                        Error<SerializationError, DeserializationError, JsError, Event>,
                    >(()),
                    Err(error) => Err(Error::SendingError(error)),
                },
        },
{
    match encoding {
        Err(error) => Err(Error::SerializationError(error)),
        Ok(value) => {
            let sending = send(value);
            sent(sending)
        },
    }
}

impl<Incoming, SerializationError, DeserializationError, JsError, Event> Reliable for Transport<
    Incoming,
    SerializationError,
    DeserializationError,
    JsError,
    Event,
> {

}

impl<Incoming, SerializationError, DeserializationError, JsError, Event> Order for Transport<
    Incoming,
    SerializationError,
    DeserializationError,
    JsError,
    Event,
> {

}

} // verus!
