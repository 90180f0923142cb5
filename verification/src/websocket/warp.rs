//! Transport for communication over the WebSocket connections of a `warp`
//! server.
//!
//! The server's connection gives the same frames as any other, and wraps its
//! failures: `WarpError` is the server's error type, and the kind of a failure
//! is that of the cause that the error names, or `Other` where it names none.

use vstd::prelude::*;
use core::marker::PhantomData;
use crate::error::Error as TransportError;
use crate::error::{prefixed, shows};
use crate::poll::Advance;
use crate::transport::{Order, Reliable};
use crate::websocket::{closes_sender, ends_stream, judge, verdict, Fault, Polling, Verdict};
use core::fmt::Display;

pub mod receiver;
pub mod sender;

verus! {

/// Errors of the server's WebSocket transport.
#[derive(Debug)]
pub enum Error<SerializationError, DeserializationError, WarpError> {
    /// The codec could not encode a message.
    SerializationError(SerializationError),
    /// The codec could not decode a frame's payload.
    DeserializationError(DeserializationError),
    /// The connection failed in a way that does not end it.
    WarpError(WarpError),
}

impl<SerializationError: Display, DeserializationError: Display, WarpError: Display> Error<
    SerializationError,
    DeserializationError,
    WarpError,
> {
    /// Says what went wrong, with what the cause says of itself.
    pub fn to_string(&self) -> (text: String)
        ensures
            match self {
                Error::SerializationError(error) => shows(
                    "failed to serialize message: "@,
                    error,
                    text@,
                ),
                Error::DeserializationError(error) => shows(
                    "failed to deserialize message: "@,
                    error,
                    text@,
                ),
                Error::WarpError(error) => shows("warp error occurred: "@, error, text@),
            },
    {
        match self {
            Error::SerializationError(error) => prefixed("failed to serialize message: ", error),
            Error::DeserializationError(error) => prefixed(
                "failed to deserialize message: ",
                error,
            ),
            Error::WarpError(error) => prefixed("warp error occurred: ", error),
        }
    }
}

/// Web Socket transport of a server.
///
/// Its receiving side passes over all frames that are not binary.
pub struct Transport<T, Codec, Incoming, Outgoing> {
    inner: T,
    codec: Codec,
    terminated: bool,
    _incoming: PhantomData<Incoming>,
    _outgoing: PhantomData<Outgoing>,
}

impl<T, Codec, Incoming, Outgoing> Transport<T, Codec, Incoming, Outgoing> {
    /// Whether the stream has ended.
    pub closed spec fn terminated(&self) -> bool {
        self.terminated
    }

    /// The connection that the transport was made with.
    pub closed spec fn stream(&self) -> T {
        self.inner
    }

    /// The codec that the transport was made with.
    pub closed spec fn codec_of(&self) -> Codec {
        self.codec
    }

    /// Create new transport wrapping a provided connection.
    pub fn new(stream: T, codec: Codec) -> (transport: Self)
        ensures
            !transport.terminated(),
            transport.stream() == stream,
            transport.codec_of() == codec,
    {
        Transport {
            inner: stream,
            codec,
            terminated: false,
            _incoming: PhantomData,
            _outgoing: PhantomData,
        }
    }

    /// Tells whether the stream has ended.
    pub fn is_terminated(&self) -> (terminated: bool)
        ensures
            terminated == self.terminated(),
    {
        self.terminated
    }

    /// The connection, to be polled and written to.
    pub fn get_mut(&mut self) -> (inner: &mut T)
        ensures
            *inner == old(self).stream(),
            final(self).stream() == *final(inner),
            final(self).codec_of() == old(self).codec_of(),
            final(self).terminated() == old(self).terminated(),
    {
        &mut self.inner
    }

    /// The codec that the transport encodes and decodes with.
    pub fn codec(&self) -> (codec: &Codec)
        ensures
            *codec == self.codec_of(),
    {
        &self.codec
    }

    /// Takes in the encoding of a message that is to be sent: it is the
    /// payload of the message's frame. Once the stream has ended the message
    /// is refused with `Closed`. A failed encoding is refused with
    /// [`Error::SerializationError`].
    pub fn start_send<SerializationError, DeserializationError, WarpError>(
        &self,
        encoding: Result<Vec<u8>, SerializationError>,
    ) -> (payload: Result<
        Vec<u8>,
        TransportError<Error<SerializationError, DeserializationError, WarpError>>,
    >)
        ensures
            payload == if self.terminated() {
                Err::<Vec<u8>, _>(
                    TransportError::<
                        Error<SerializationError, DeserializationError, WarpError>,
                    >::Closed,
                )
            } else {
                match encoding {
                    Ok(bytes) => Ok(bytes),
                    Err(error) => Err(TransportError::Other(Error::SerializationError(error))),
                }
            },
    {
        if self.terminated {
            return Err(TransportError::Closed);
        }
        match encoding {
            Ok(bytes) => Ok(bytes),
            Err(error) => Err(TransportError::Other(Error::SerializationError(error))),
        }
    }

    /// Takes in what polling the connection's stream gave, sorted.
    ///
    /// A binary frame gives its payload, to be decoded. A frame of another
    /// kind is passed over: the answer is to step again, since the
    /// connection was ready and will wake nobody for the frame after it. The
    /// stream ends, now and for good, with the connection's stream, with a
    /// close frame, and with a failure that tells that the connection is
    /// over. Any other failure is handed on as [`Error::WarpError`]. A
    /// pending connection gives a pending answer.
    pub fn poll_next<SerializationError, DeserializationError, WarpError>(
        &mut self,
        polling: Polling<WarpError>,
    ) -> (polled: Advance<
        Option<Result<Vec<u8>, Error<SerializationError, DeserializationError, WarpError>>>,
    >)
        ensures
            final(self).stream() == old(self).stream(),
            final(self).codec_of() == old(self).codec_of(),
            final(self).terminated() == (old(self).terminated() || ends_stream(polling)),
            polled == match verdict(polling) {
                Verdict::Payload(payload) => Advance::Ready(Some(Ok(payload))),
                Verdict::Failed(error) => Advance::Ready(
                    Some(
                        Err(
                            Error::<
                                SerializationError,
                                DeserializationError,
                                WarpError,
                            >::WarpError(error),
                        ),
                    ),
                ),
                Verdict::Ended => Advance::Ready(None),
                Verdict::Skipped => Advance::Again,
                Verdict::Nothing => Advance::Pending,
            },
    {
        match judge(polling) {
            Verdict::Payload(payload) => Advance::Ready(Some(Ok(payload))),
            Verdict::Failed(error) => Advance::Ready(Some(Err(Error::WarpError(error)))),
            Verdict::Ended => {
                self.terminated = true;
                Advance::Ready(None)
            },
            Verdict::Skipped => Advance::Again,
            Verdict::Nothing => Advance::Pending,
        }
    }
}

/// What a failure means for the sender, where `fault` is the kind of the
/// cause that the failure names, if it names one: on a connection that is
/// closed, or was closed before, the transport is closed; any other failure
/// is handed on as [`Error::WarpError`].
pub fn map_warp_error<SerializationError, DeserializationError, WarpError>(
    fault: Option<Fault>,
    warp_error: WarpError,
) -> (mapped: TransportError<Error<SerializationError, DeserializationError, WarpError>>)
    ensures
        mapped == if fault matches Some(kind) && closes_sender(kind) {
            TransportError::Closed
        } else {
            TransportError::Other(
                Error::<SerializationError, DeserializationError, WarpError>::WarpError(
                    warp_error,
                ),
            )
        },
{
    match fault {
        Some(Fault::ConnectionClosed) => TransportError::Closed,
        Some(Fault::AlreadyClosed) => TransportError::Closed,
        _ => TransportError::Other(Error::WarpError(warp_error)),
    }
}

impl<T, Codec, Incoming, Outgoing> Reliable for Transport<T, Codec, Incoming, Outgoing> {

}

impl<T, Codec, Incoming, Outgoing> Order for Transport<T, Codec, Incoming, Outgoing> {

}

} // verus!
