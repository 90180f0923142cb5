//! The sending half of a WebSocket connection.

use vstd::prelude::*;
use core::marker::PhantomData;
use crate::error::Error as TransportError;
use crate::error::{prefixed, shows};
use core::fmt::Display;
use crate::transport::{Order, Reliable};
use crate::websocket::{
    binary, binary_frame, carries, closes_sender, fault_kind, fault_of, Fault,
};
use tungstenite::Error as WsError;
use tungstenite::Message as WsMessage;

verus! {

/// Errors of the sending half.
#[derive(Debug)]
pub enum Error<SerializationError> {
    /// The codec could not encode a message.
    SerializationError(SerializationError),
    /// The connection failed in a way that does not end it.
    TungsteniteError(WsError),
}

impl<SerializationError: Display> Error<SerializationError> {
    /// Says what went wrong, with what the cause says of itself.
    pub fn to_string(&self) -> (text: String)
        ensures
            match self {
                Error::SerializationError(error) => shows(
                    "failed to serialize message: "@,
                    error,
                    text@,
                ),
                Error::TungsteniteError(error) => shows(
                    "tungstenite error occurred: "@,
                    error,
                    text@,
                ),
            },
    {
        match self {
            Error::SerializationError(error) => prefixed("failed to serialize message: ", error),
            Error::TungsteniteError(error) => prefixed("tungstenite error occurred: ", error),
        }
    }
}

/// Message sender.
pub struct Sender<S, Codec, Outgoing> {
    inner: S,
    codec: Codec,
    _outgoing: PhantomData<Outgoing>,
}

impl<S, Codec, Outgoing> Sender<S, Codec, Outgoing> {
    /// The sink of frames that the sender was made with.
    pub closed spec fn sink(&self) -> S {
        self.inner
    }

    /// The codec that the sender was made with.
    pub closed spec fn codec_of(&self) -> Codec {
        self.codec
    }

    /// Create new sender wrapping a provided `sink`.
    pub fn new(sink: S, codec: Codec) -> (sender: Self)
        ensures
            sender.sink() == sink,
            sender.codec_of() == codec,
    {
        Sender { inner: sink, codec, _outgoing: PhantomData }
    }

    /// The sink of frames, to be written to.
    pub fn get_mut(&mut self) -> (inner: &mut S)
        ensures
            *inner == old(self).sink(),
            final(self).sink() == *final(inner),
            final(self).codec_of() == old(self).codec_of(),
    {
        &mut self.inner
    }

    /// The codec that the sender encodes with.
    pub fn codec(&self) -> (codec: &Codec)
        ensures
            *codec == self.codec_of(),
    {
        &self.codec
    }

    /// Makes the frame for a message from its encoding: a binary frame that
    /// holds it. A failed encoding is refused with
    /// [`Error::SerializationError`].
    pub fn start_send<SerializationError>(
        &self,
        encoding: Result<Vec<u8>, SerializationError>,
    ) -> (frame: Result<WsMessage, TransportError<Error<SerializationError>>>)
        ensures
            frame == match encoding {
                Ok(payload) => Ok(binary_frame(payload@)),
                Err(error) => Err::<WsMessage, _>(
                    TransportError::Other(Error::<SerializationError>::SerializationError(error)),
                ),
            },
            frame matches Ok(message) ==> carries(message, encoding->Ok_0@),
    {
        match encoding {
            Ok(payload) => Ok(binary(payload)),
            Err(error) => Err(TransportError::Other(Error::SerializationError(error))),
        }
    }
}

/// What a failure of the given kind means for the sender: on a connection
/// that is closed, or was closed before, the transport is closed; any other
/// failure is handed on as [`Error::TungsteniteError`].
pub fn map_warp_error_as<SerializationError>(fault: Fault, error: WsError) -> (mapped:
    TransportError<Error<SerializationError>>)
    ensures
        mapped == if closes_sender(fault) {
            TransportError::Closed
        } else {
            TransportError::Other(Error::<SerializationError>::TungsteniteError(error))
        },
{
    match fault {
        Fault::ConnectionClosed => TransportError::Closed,
        Fault::AlreadyClosed => TransportError::Closed,
        _ => TransportError::Other(Error::TungsteniteError(error)),
    }
}

/// What a failure means for the sender. It depends on the failure's kind
/// alone, as [`map_warp_error_as`] says of the kind that [`fault_kind`]
/// names.
pub fn map_warp_error<SerializationError>(error: WsError) -> (mapped: TransportError<
    Error<SerializationError>,
>)
    ensures
        mapped == if closes_sender(fault_kind(error)) {
            TransportError::Closed
        } else {
            TransportError::Other(Error::<SerializationError>::TungsteniteError(error))
        },
{
    let fault = fault_of(&error);
    map_warp_error_as(fault, error)
}

impl<S, Codec, Outgoing> Reliable for Sender<S, Codec, Outgoing> {

}

impl<S, Codec, Outgoing> Order for Sender<S, Codec, Outgoing> {

}

} // verus!
