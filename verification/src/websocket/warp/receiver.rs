//! The receiving half of a server's WebSocket connection.

use vstd::prelude::*;
use core::marker::PhantomData;
use crate::error::{prefixed, shows};
use crate::poll::{Advance, Polled};
use crate::transport::{Order, Reliable};
use crate::websocket::Frame;
use core::fmt::Display;

verus! {

/// Errors of the receiving half.
#[derive(Debug)]
pub enum Error<DeserializationError, WarpError> {
    /// The codec could not decode a frame's payload.
    DeserializationError(DeserializationError),
    /// The connection failed.
    WarpError(WarpError),
}

impl<DeserializationError: Display, WarpError: Display> Error<DeserializationError, WarpError> {
    /// Says what went wrong, with what the cause says of itself.
    pub fn to_string(&self) -> (text: String)
        ensures
            match self {
                Error::DeserializationError(error) => shows(
                    "failed to deserialize message: "@,
                    error,
                    text@,
                ),
                Error::WarpError(error) => shows("warp error occurred: "@, error, text@),
            },
    {
        match self {
            Error::DeserializationError(error) => prefixed(
                "failed to deserialize message: ",
                error,
            ),
            Error::WarpError(error) => prefixed("warp error occurred: ", error),
        }
    }
}

/// Message receiver.
///
/// It passes over all frames that are not binary, close frames among them:
/// its stream ends only when the stream of frames does.
pub struct Receiver<S, Codec, Incoming> {
    inner: S,
    codec: Codec,
    _incoming: PhantomData<Incoming>,
}

impl<S, Codec, Incoming> Receiver<S, Codec, Incoming> {
    /// The stream of frames that the receiver was made with.
    pub closed spec fn stream(&self) -> S {
        self.inner
    }

    /// The codec that the receiver was made with.
    pub closed spec fn codec_of(&self) -> Codec {
        self.codec
    }

    /// Create new receiver wrapping a provided `stream`.
    pub fn new(stream: S, codec: Codec) -> (receiver: Self)
        ensures
            receiver.stream() == stream,
            receiver.codec_of() == codec,
    {
        Receiver { inner: stream, codec, _incoming: PhantomData }
    }

    /// The stream of frames, to be polled.
    pub fn get_mut(&mut self) -> (inner: &mut S)
        ensures
            *inner == old(self).stream(),
            final(self).stream() == *final(inner),
            final(self).codec_of() == old(self).codec_of(),
    {
        &mut self.inner
    }

    /// The codec that the receiver decodes with.
    pub fn codec(&self) -> (codec: &Codec)
        ensures
            *codec == self.codec_of(),
    {
        &self.codec
    }
}

/// What the receiver makes of what polling the stream of frames gave.
///
/// A binary frame gives its payload, to be decoded. A frame of another kind
/// is passed over: the answer is to step again, since the stream of frames
/// was ready and will wake nobody for the frame after it. A failure is
/// handed on as [`Error::WarpError`]. The end of the stream of frames is the
/// end. A pending stream of frames gives a pending answer.
pub fn poll_next<DeserializationError, WarpError>(
    item: Polled<Option<Result<Frame, WarpError>>>,
) -> (polled: Advance<Option<Result<Vec<u8>, Error<DeserializationError, WarpError>>>>)
    ensures
        polled == match item {
            Polled::Pending => Advance::Pending,
            Polled::Ready(None) => Advance::Ready(None),
            Polled::Ready(Some(Ok(Frame::Binary(payload)))) => Advance::Ready(Some(Ok(payload))),
            Polled::Ready(Some(Ok(_))) => Advance::Again,
            Polled::Ready(Some(Err(error))) => Advance::Ready(
                Some(Err(Error::<DeserializationError, WarpError>::WarpError(error))),
            ),
        },
{
    match item {
        Polled::Pending => Advance::Pending,
        Polled::Ready(None) => Advance::Ready(None),
        Polled::Ready(Some(Ok(frame))) => match frame {
            Frame::Binary(payload) => Advance::Ready(Some(Ok(payload))),
            _ => Advance::Again,
        },
        Polled::Ready(Some(Err(error))) => Advance::Ready(Some(Err(Error::WarpError(error)))),
    }
}

impl<S, Codec, Incoming> Reliable for Receiver<S, Codec, Incoming> {

}

impl<S, Codec, Incoming> Order for Receiver<S, Codec, Incoming> {

}

} // verus!
