//! The sending half of a server's WebSocket connection.

use vstd::prelude::*;
use core::marker::PhantomData;
use crate::error::Error as TransportError;
use crate::error::{prefixed, shows};
use crate::transport::{Order, Reliable};
use crate::websocket::{closes_sender, Fault};
use core::fmt::Display;

verus! {

/// Errors of the sending half.
#[derive(Debug)]
pub enum Error<SerializationError, WarpError> {
    /// The codec could not encode a message.
    SerializationError(SerializationError),
    /// The connection failed in a way that does not end it.
    WarpError(WarpError),
}

impl<SerializationError: Display, WarpError: Display> Error<SerializationError, WarpError> {
    /// Says what went wrong, with what the cause says of itself.
    pub fn to_string(&self) -> (text: String)
        ensures
            match self {
                Error::SerializationError(error) => shows(
                    "failed to serialize message: "@,
                    error,
                    text@,
                ),
                Error::WarpError(error) => shows("warp error occurred: "@, error, text@),
            },
    {
        match self {
            Error::SerializationError(error) => prefixed("failed to serialize message: ", error),
            Error::WarpError(error) => prefixed("warp error occurred: ", error),
        }
    }
}

/// Message sender.
pub struct Sender<S, Codec, Outgoing> {
    inner: S,
    codec: Codec,
    _outgoing: PhantomData<Outgoing>,
}

impl<S, Codec, Outgoing> Sender<S, Codec, Outgoing> {
    /// The sink of frames that the sender was made with.
    pub closed spec fn sink(&self) -> S {
        self.inner
    }

    /// The codec that the sender was made with.
    pub closed spec fn codec_of(&self) -> Codec {
        self.codec
    }

    /// Create new sender wrapping a provided `sink`.
    pub fn new(sink: S, codec: Codec) -> (sender: Self)
        ensures
            sender.sink() == sink,
            sender.codec_of() == codec,
    {
        Sender { inner: sink, codec, _outgoing: PhantomData }
    }

    /// The sink of frames, to be written to.
    pub fn get_mut(&mut self) -> (inner: &mut S)
        ensures
            *inner == old(self).sink(),
            final(self).sink() == *final(inner),
            final(self).codec_of() == old(self).codec_of(),
    {
        &mut self.inner
    }

    /// The codec that the sender encodes with.
    pub fn codec(&self) -> (codec: &Codec)
        ensures
            *codec == self.codec_of(),
    {
        &self.codec
    }
}

/// What a failure means for the sender, where `fault` is the kind of the
/// cause that the failure names, if it names one: on a connection that is
/// closed, or was closed before, the transport is closed; any other failure
/// is handed on as [`Error::WarpError`].
pub fn map_warp_error<SerializationError, WarpError>(fault: Option<Fault>, warp_error: WarpError) -> (mapped:
    TransportError<Error<SerializationError, WarpError>>)
    ensures
        mapped == if fault matches Some(kind) && closes_sender(kind) {
            TransportError::Closed
        } else {
            TransportError::Other(Error::<SerializationError, WarpError>::WarpError(warp_error))
        },
{
    match fault {
        Some(Fault::ConnectionClosed) => TransportError::Closed,
        Some(Fault::AlreadyClosed) => TransportError::Closed,
        _ => TransportError::Other(Error::WarpError(warp_error)),
    }
}

/// What a failed encoding means for the sender:
/// [`Error::SerializationError`].
pub fn start_send<SerializationError, WarpError>(encoding: Result<Vec<u8>, SerializationError>) -> (payload:
    Result<Vec<u8>, TransportError<Error<SerializationError, WarpError>>>)
    ensures
        payload == match encoding {
            Ok(bytes) => Ok::<Vec<u8>, TransportError<Error<SerializationError, WarpError>>>(bytes),
            Err(error) => Err(TransportError::Other(Error::SerializationError(error))),
        },
{
    match encoding {
        Ok(bytes) => Ok(bytes),
        Err(error) => Err(TransportError::Other(Error::SerializationError(error))),
    }
}

impl<S, Codec, Outgoing> Reliable for Sender<S, Codec, Outgoing> {

}

impl<S, Codec, Outgoing> Order for Sender<S, Codec, Outgoing> {

}

} // verus!
