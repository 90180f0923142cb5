//! Transport for communication in datagrams.
//!
//! Each message travels as one datagram that holds its encoding and nothing
//! else. The transport inherits what datagrams are: messages may be lost, may
//! come out of order and may come twice, and a message must fit a datagram.
//! It is neither reliable nor ordered.
//!
//! The transport holds the socket and decides; using the socket and the codec
//! is the caller's part. Flushing is a sequence of steps: [`Transport::poll_flush`]
//! says what to do next, and [`Transport::encoded`] and [`Transport::sent`]
//! take in what came of it.

use vstd::prelude::*;
use core::marker::PhantomData;
use std::collections::VecDeque;
use crate::error::Error as TransportError;
use crate::io::{failure_of, kind_of, Failure};
use crate::error::{prefixed, shows};
use core::fmt::Display;
use vstd::string::StringExecFns;

verus! {

/// Size of the buffer that a datagram is received into: no datagram is
/// larger.
pub const RECEIVE_BUFFER_SIZE: usize = 65536;

/// Errors of the datagram transport.
#[derive(Debug)]
pub enum Error<SerializationError, DeserializationError> {
    /// The socket took fewer bytes than the datagram has.
    SendingError,
    /// The codec could not encode a message.
    SerializationError(SerializationError),
    /// The codec could not decode a datagram.
    DeserializationError(DeserializationError),
    /// The socket failed in a way that does not end the transport.
    IoError(std::io::Error),
}

impl<SerializationError: Display, DeserializationError: Display> Error<
    SerializationError,
    DeserializationError,
> {
    /// Says what went wrong, with what the cause says of itself where there
    /// is one.
    pub fn to_string(&self) -> (text: String)
        ensures
            match self {
                Error::SendingError => text@ == "not all bytes were sent"@,
                Error::SerializationError(error) => shows(
                    "failed to serialize message: "@,
                    error,
                    text@,
                ),
                Error::DeserializationError(error) => shows(
                    "failed to deserialize message: "@,
                    error,
                    text@,
                ),
                Error::IoError(error) => shows("IO error occurred: "@, error, text@),
            },
    {
        match self {
            Error::SendingError => String::from_str("not all bytes were sent"),
            Error::SerializationError(error) => prefixed("failed to serialize message: ", error),
            Error::DeserializationError(error) => prefixed(
                "failed to deserialize message: ",
                error,
            ),
            Error::IoError(error) => prefixed("IO error occurred: ", error),
        }
    }
}

/// The next step of a flush.
pub enum Flush<Outgoing, E> {
    /// Encode this message, the oldest that waits, and report the outcome
    /// with [`Transport::encoded`].
    Encode(Outgoing),
    /// Send [`Transport::datagram`] as one datagram and report the outcome
    /// with [`Transport::sent`].
    Send,
    /// The flush is over, with this result.
    Done(Result<(), TransportError<E>>),
}

/// The sending side as the contracts see it.
pub struct Outbox<Outgoing> {
    /// Whether the transport still has its socket.
    pub open: bool,
    /// The messages that wait to be encoded, oldest first.
    pub queue: Seq<Outgoing>,
    /// The datagram that was encoded and is yet to be sent, if there is one.
    pub datagram: Option<Seq<u8>>,
}

impl<Outgoing> Outbox<Outgoing> {
    /// The bytes that are to be sent next: those of the datagram under way,
    /// or none.
    pub open spec fn pending(self) -> Seq<u8> {
        match self.datagram {
            Some(datagram) => datagram,
            None => Seq::empty(),
        }
    }
}

/// What a sending gave, with the kind of its failure: `kind_of` names the
/// kind of an I/O error.
pub open spec fn kinded(outcome: Result<usize, std::io::Error>) -> Result<
    usize,
    (Failure, std::io::Error),
> {
    match outcome {
        Ok(written) => Ok(written),
        Err(error) => Err((kind_of(error), error)),
    }
}

/// Whether the transport keeps its socket after a sending: it gives it up on
/// a reset or aborted connection.
pub open spec fn keeps_socket(outcome: Result<usize, (Failure, std::io::Error)>) -> bool {
    match outcome {
        Ok(_) => true,
        Err((failure, _)) => !failure.is_terminal(),
    }
}

/// What a sending of a datagram of `pending` bytes means for the flush:
/// nothing, where the socket took all of the bytes; [`Error::SendingError`],
/// where it took another number of them; `Closed` on a reset or aborted
/// connection; [`Error::IoError`] on any other failure.
pub open spec fn sending_failure<SerializationError, DeserializationError>(
    pending: nat,
    outcome: Result<usize, (Failure, std::io::Error)>,
) -> Option<TransportError<Error<SerializationError, DeserializationError>>> {
    match outcome {
        Ok(written) => if written == pending {
            None
        } else {
            Some(TransportError::Other(Error::SendingError))
        },
        Err((failure, error)) => if failure.is_terminal() {
            Some(TransportError::Closed)
        } else {
            Some(TransportError::Other(Error::IoError(error)))
        },
    }
}

/// Transport over a datagram socket `U`.
pub struct Transport<U, Codec, Incoming, Outgoing> {
    udp_socket: Option<U>,
    codec: Codec,
    send_queue: VecDeque<Outgoing>,
    send_buffer: Vec<u8>,
    messages_to_send: usize,
    _incoming: PhantomData<Incoming>,
}

impl<U, Codec, Incoming, Outgoing> View for Transport<U, Codec, Incoming, Outgoing> {
    type V = Outbox<Outgoing>;

    closed spec fn view(&self) -> Outbox<Outgoing> {
        Outbox {
            open: self.udp_socket is Some,
            queue: self.send_queue@,
            datagram: if self.messages_to_send > 0 {
                Some(self.send_buffer@)
            } else {
                None
            },
        }
    }
}

impl<U, Codec, Incoming, Outgoing> Transport<U, Codec, Incoming, Outgoing> {
    /// At most one datagram is under way, and the buffer is empty unless one
    /// is.
    pub closed spec fn wf(&self) -> bool {
        &&& self.messages_to_send <= 1
        &&& self.messages_to_send == 0 ==> self.send_buffer@.len() == 0
    }

    /// The socket, while the transport has it.
    pub closed spec fn socket_of(&self) -> Option<U> {
        self.udp_socket
    }

    /// The codec that the transport was made with.
    pub closed spec fn codec_of(&self) -> Codec {
        self.codec
    }

    /// The transport is open exactly while it has its socket.
    pub proof fn lemma_open(&self)
        ensures
            self@.open == (self.socket_of() is Some),
    {
    }

    /// Create new transport wrapping a provided socket.
    pub fn new(udp_socket: U, codec: Codec) -> (transport: Self)
        ensures
            transport.wf(),
            transport@ == (Outbox::<Outgoing> { open: true, queue: Seq::empty(), datagram: None }),
            transport.socket_of() == Some(udp_socket),
            transport.codec_of() == codec,
    {
        Transport {
            udp_socket: Some(udp_socket),
            codec,
            send_queue: VecDeque::new(),
            send_buffer: Vec::new(),
            messages_to_send: 0,
            _incoming: PhantomData,
        }
    }

    /// The socket, while the transport has it.
    pub fn socket(&self) -> (socket: Option<&U>)
        ensures
            socket == match self.socket_of() {
                Some(held) => Some(&held),
                None => None,
            },
    {
        self.udp_socket.as_ref()
    }

    /// The codec that the transport encodes and decodes with.
    pub fn codec(&self) -> (codec: &Codec)
        ensures
            *codec == self.codec_of(),
    {
        &self.codec
    }

    /// Tells whether the transport has given up its socket: nothing more is
    /// sent or received.
    pub fn is_terminated(&self) -> (terminated: bool)
        ensures
            terminated == !self@.open,
    {
        self.udp_socket.is_none()
    }

    /// The bytes of the datagram that is to be sent next; none where no
    /// datagram is under way.
    pub fn datagram(&self) -> (bytes: &[u8])
        requires
            self.wf(),
        ensures
            bytes@ == self@.pending(),
    {
        self.send_buffer.as_slice()
    }

    /// Tells whether a datagram is under way: encoded and not yet sent.
    pub fn has_datagram(&self) -> (under_way: bool)
        ensures
            under_way == (self@.datagram is Some),
    {
        self.messages_to_send > 0
    }

    /// Queues a message for sending. A transport without socket refuses it
    /// with `Closed`.
    pub fn start_send<SerializationError, DeserializationError>(&mut self, item: Outgoing) -> (result:
        Result<(), TransportError<Error<SerializationError, DeserializationError>>>)
        ensures
            final(self).wf() == old(self).wf(),
            final(self).socket_of() == old(self).socket_of(),
            final(self).codec_of() == old(self).codec_of(),
            old(self)@.open ==> result is Ok && final(self)@ == (Outbox {
                queue: old(self)@.queue.push(item),
                ..old(self)@
            }),
            !old(self)@.open ==> final(self)@ == old(self)@ && result == Err::<(), _>(
                TransportError::<Error<SerializationError, DeserializationError>>::Closed,
            ),
    {
        if self.udp_socket.is_some() {
            self.send_queue.push_back(item);
            Ok(())
        } else {
            Err(TransportError::Closed)
        }
    }

    /// Says what a flush does next.
    ///
    /// Without socket the flush fails with `Closed`. A datagram that is under
    /// way is sent first. Else the oldest waiting message is taken from the
    /// queue to be encoded. With nothing under way and nothing waiting the
    /// flush is done.
    pub fn poll_flush<SerializationError, DeserializationError>(&mut self) -> (step: Flush<
        Outgoing,
        Error<SerializationError, DeserializationError>,
    >)
        requires
            old(self).wf(),
        ensures
            final(self).wf(),
            final(self).socket_of() == old(self).socket_of(),
            final(self).codec_of() == old(self).codec_of(),
            step == if !old(self)@.open {
                Flush::Done(
                    Err(TransportError::<Error<SerializationError, DeserializationError>>::Closed),
                )
            } else if old(self)@.datagram is Some {
                Flush::Send
            } else if old(self)@.queue.len() > 0 {
                Flush::Encode(old(self)@.queue.first())
            } else {
                Flush::Done(Ok(()))
            },
            final(self)@ == if step is Encode {
                Outbox { queue: old(self)@.queue.drop_first(), ..old(self)@ }
            } else {
                old(self)@
            },
    {
        if self.udp_socket.is_none() {
            return Flush::Done(Err(TransportError::Closed));
        }
        if self.send_buffer.len() == 0 && self.messages_to_send == 0 {
            let ghost before = self.send_queue@;
            match self.send_queue.pop_front() {
                Some(message) => {
                    assert(self.send_queue@ =~= before.drop_first());
                    Flush::Encode(message)
                },
                None => Flush::Done(Ok(())),
            }
        } else {
            Flush::Send
        }
    }

    /// Takes in what encoding a message gave.
    ///
    /// The encoding becomes the datagram that is sent next, and the flush
    /// goes on. A failure ends the flush with
    /// [`Error::SerializationError`]; the message is dropped.
    pub fn encoded<SerializationError, DeserializationError>(
        &mut self,
        encoding: Result<Vec<u8>, SerializationError>,
    ) -> (failed: Option<TransportError<Error<SerializationError, DeserializationError>>>)
        requires
            old(self).wf(),
        ensures
            final(self).wf(),
            final(self).socket_of() == old(self).socket_of(),
            final(self).codec_of() == old(self).codec_of(),
            match encoding {
                Ok(bytes) => failed is None && final(self)@ == (Outbox {
                    datagram: Some(bytes@),
                    ..old(self)@
                }),
                Err(error) => failed == Some(
                    TransportError::Other(
                        Error::<SerializationError, DeserializationError>::SerializationError(
                            error,
                        ),
                    ),
                ) && final(self)@ == (Outbox { datagram: None, ..old(self)@ }),
            },
    {
        match encoding {
            Ok(bytes) => {
                self.send_buffer = bytes;
                self.messages_to_send = 1;
                None
            },
            Err(error) => {
                self.send_buffer.clear();
                self.messages_to_send = 0;
                Some(TransportError::Other(Error::SerializationError(error)))
            },
        }
    }

    /// Takes in what sending the datagram gave, where the failure, if any, is
    /// of the given kind.
    ///
    /// The datagram is gone either way. Where the socket took all of its
    /// bytes the flush goes on. Fewer bytes end the flush with
    /// [`Error::SendingError`]. A reset or aborted connection ends the
    /// transport: the socket is given up and the flush fails with `Closed`.
    /// Any other failure ends the flush with [`Error::IoError`].
    pub fn sent_as<SerializationError, DeserializationError>(
        &mut self,
        outcome: Result<usize, (Failure, std::io::Error)>,
    ) -> (failed: Option<TransportError<Error<SerializationError, DeserializationError>>>)
        requires
            old(self).wf(),
        ensures
            final(self).wf(),
            final(self).codec_of() == old(self).codec_of(),
            final(self)@ == (Outbox {
                open: old(self)@.open && keeps_socket(outcome),
                datagram: None,
                ..old(self)@
            }),
            final(self).socket_of() == if keeps_socket(outcome) {
                old(self).socket_of()
            } else {
                None
            },
            failed == sending_failure::<SerializationError, DeserializationError>(
                old(self)@.pending().len(),
                outcome,
            ),
    {
        let bytes_to_send = self.send_buffer.len();
        self.messages_to_send = 0;
        self.send_buffer.clear();
        match outcome {
            Ok(bytes_written) => {
                if bytes_written != bytes_to_send {
                    Some(TransportError::Other(Error::SendingError))
                } else {
                    None
                }
            },
            Err((failure, error)) => {
                if failure.terminal() {
                    self.udp_socket = None;
                    Some(TransportError::Closed)
                } else {
                    Some(TransportError::Other(Error::IoError(error)))
                }
            },
        }
    }

    /// Takes in what sending the datagram gave. What becomes of a failure
    /// depends on its kind alone, as [`Transport::sent_as`] says.
    pub fn sent<SerializationError, DeserializationError>(
        &mut self,
        outcome: Result<usize, std::io::Error>,
    ) -> (failed: Option<TransportError<Error<SerializationError, DeserializationError>>>)
        requires
            old(self).wf(),
        ensures
            final(self).wf(),
            final(self).codec_of() == old(self).codec_of(),
            final(self)@ == (Outbox {
                open: old(self)@.open && keeps_socket(kinded(outcome)),
                datagram: None,
                ..old(self)@
            }),
            final(self).socket_of() == if keeps_socket(kinded(outcome)) {
                old(self).socket_of()
            } else {
                None
            },
            failed == sending_failure::<SerializationError, DeserializationError>(
                old(self)@.pending().len(),
                kinded(outcome),
            ),
    {
        match outcome {
            Ok(written) => self.sent_as(Ok(written)),
            Err(error) => {
                let failure = failure_of(&error);
                self.sent_as(Err((failure, error)))
            },
        }
    }

    /// Takes in the encoding of a message that is to go to a given address,
    /// apart from the queue. Without socket the message is refused with
    /// `Closed`; a failed encoding is refused with
    /// [`Error::SerializationError`]. Else the encoding is the datagram to be
    /// sent to that address, and [`Transport::sent_to`] takes in what came of
    /// it.
    pub fn send_to<SerializationError, DeserializationError>(
        &mut self,
        encoding: Result<Vec<u8>, SerializationError>,
    ) -> (result: Result<(), TransportError<Error<SerializationError, DeserializationError>>>)
        requires
            old(self).wf(),
        ensures
            final(self).wf(),
            final(self).socket_of() == old(self).socket_of(),
            final(self).codec_of() == old(self).codec_of(),
            final(self)@.queue == old(self)@.queue,
            final(self)@.open == old(self)@.open,
            result == if !old(self)@.open {
                Err::<(), _>(
                    TransportError::<Error<SerializationError, DeserializationError>>::Closed,
                )
            } else {
                match encoding {
                    Ok(_) => Ok(()),
                    Err(error) => Err(TransportError::Other(Error::SerializationError(error))),
                }
            },
            final(self)@.datagram == if old(self)@.open && encoding is Ok {
                Some(encoding->Ok_0@)
            } else {
                old(self)@.datagram
            },
    {
        if self.udp_socket.is_none() {
            return Err(TransportError::Closed);
        }
        match encoding {
            Ok(bytes) => {
                self.send_buffer = bytes;
                self.messages_to_send = 1;
                Ok(())
            },
            Err(error) => Err(TransportError::Other(Error::SerializationError(error))),
        }
    }

    /// Takes in what sending a datagram to a given address gave. It counts
    /// as any other sending does, as [`Transport::sent_as`] says: the
    /// datagram is gone, and the result is the failure, if there is one.
    pub fn sent_to<SerializationError, DeserializationError>(
        &mut self,
        outcome: Result<usize, std::io::Error>,
    ) -> (result: Result<(), TransportError<Error<SerializationError, DeserializationError>>>)
        requires
            old(self).wf(),
        ensures
            final(self).wf(),
            final(self).codec_of() == old(self).codec_of(),
            final(self)@ == (Outbox {
                open: old(self)@.open && keeps_socket(kinded(outcome)),
                datagram: None,
                ..old(self)@
            }),
            final(self).socket_of() == if keeps_socket(kinded(outcome)) {
                old(self).socket_of()
            } else {
                None
            },
            result == match sending_failure::<SerializationError, DeserializationError>(
                old(self)@.pending().len(),
                kinded(outcome),
            ) {
                None => Ok(()),
                Some(error) => Err(error),
            },
    {
        match self.sent(outcome) {
            None => Ok(()),
            Some(error) => Err(error),
        }
    }

    /// Ends the sending side once a flush is over, whatever its result: the
    /// socket is given up.
    pub fn poll_close(&mut self)
        ensures
            final(self).wf() == old(self).wf(),
            final(self).socket_of() is None,
            final(self).codec_of() == old(self).codec_of(),
            final(self)@ == (Outbox { open: false, ..old(self)@ }),
    {
        self.udp_socket = None;
    }

    /// Takes in a failed receive of the given kind. A reset or aborted
    /// connection ends the transport: the socket is given up and the stream
    /// ends. Any other failure is handed on as [`Error::IoError`].
    pub fn receive_failed_as<SerializationError, DeserializationError>(
        &mut self,
        failure: Failure,
        error: std::io::Error,
    ) -> (emitted: Option<Error<SerializationError, DeserializationError>>)
        ensures
            final(self).wf() == old(self).wf(),
            final(self).codec_of() == old(self).codec_of(),
            final(self)@ == (Outbox {
                open: old(self)@.open && !failure.is_terminal(),
                ..old(self)@
            }),
            final(self).socket_of() == if failure.is_terminal() {
                None
            } else {
                old(self).socket_of()
            },
            emitted == if failure.is_terminal() {
                None
            } else {
                Some(Error::<SerializationError, DeserializationError>::IoError(error))
            },
    {
        if failure.terminal() {
            self.udp_socket = None;
            None
        } else {
            Some(Error::IoError(error))
        }
    }

    /// Takes in a failed receive. What becomes of it depends on the error's
    /// kind alone, as [`Transport::receive_failed_as`] says.
    pub fn receive_failed<SerializationError, DeserializationError>(
        &mut self,
        error: std::io::Error,
    ) -> (emitted: Option<Error<SerializationError, DeserializationError>>)
        ensures
            final(self).wf() == old(self).wf(),
            final(self).codec_of() == old(self).codec_of(),
            final(self)@ == (Outbox {
                open: old(self)@.open && !kind_of(error).is_terminal(),
                ..old(self)@
            }),
            final(self).socket_of() == if kind_of(error).is_terminal() {
                None
            } else {
                old(self).socket_of()
            },
            emitted == if kind_of(error).is_terminal() {
                None
            } else {
                Some(Error::<SerializationError, DeserializationError>::IoError(error))
            },
    {
        let failure = failure_of(&error);
        self.receive_failed_as(failure, error)
    }
}

/// What the stream gives for a datagram that came from `origin`: the decoded
/// message with its origin, or [`Error::DeserializationError`].
pub fn poll_recv_from<Message, Origin, SerializationError, DeserializationError>(
    decoded: Result<Message, DeserializationError>,
    origin: Origin,
) -> (item: Result<(Message, Origin), Error<SerializationError, DeserializationError>>)
    ensures
        item == match decoded {
            Ok(message) => Ok::<_, Error<SerializationError, DeserializationError>>(
                (message, origin),
            ),
            Err(error) => Err(Error::DeserializationError(error)),
        },
{
    match decoded {
        Ok(message) => Ok((message, origin)),
        Err(error) => Err(Error::DeserializationError(error)),
    }
}

/// What the stream of messages gives for an item of the stream of messages
/// with origins: the same without the origin.
pub fn poll_next<Message, Origin, E>(item: Option<Result<(Message, Origin), E>>) -> (message:
    Option<Result<Message, E>>)
    ensures
        message == match item {
            Some(Ok(pair)) => Some(Ok::<Message, E>(pair.0)),
            Some(Err(error)) => Some(Err(error)),
            None => None,
        },
{
    match item {
        Some(Ok(pair)) => Some(Ok(pair.0)),
        Some(Err(error)) => Some(Err(error)),
        None => None,
    }
}

} // verus!
