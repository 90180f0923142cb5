//! I/O errors of the standard library, as far as the carriers tell them apart.

use vstd::prelude::*;

verus! {

#[verifier::external_type_specification]
#[verifier::external_body]
pub struct ExIoError(std::io::Error);

/// What a carrier needs to know of an I/O error: whether the peer is gone.
#[derive(Debug, Clone, Copy, PartialEq, Eq, Structural)]
pub enum Failure {
    /// The connection was reset by the peer.
    ConnectionReset,
    /// The connection was aborted.
    ConnectionAborted,
    /// Any other failure: the carrier stays usable.
    Other,
}

impl Failure {
    /// A reset or aborted connection ends the carrier.
    pub open spec fn is_terminal(self) -> bool {
        self is ConnectionReset || self is ConnectionAborted
    }

    /// Tells whether this failure ends the carrier.
    pub fn terminal(&self) -> (terminal: bool)
        ensures
            terminal == self.is_terminal(),
    {
        match self {
            Failure::ConnectionReset => true,
            Failure::ConnectionAborted => true,
            Failure::Other => false,
        }
    }
}

/// The kind of an I/O error, reduced to the kinds that carriers tell apart: a
/// reset connection, an aborted connection, or anything else.
pub uninterp spec fn kind_of(error: std::io::Error) -> Failure;

/// `std::io::Error::kind`, reduced to the kinds that carriers tell apart. The
/// kind of an error is the error's own: the result is what [`kind_of`] names.
#[verifier::external_body]
pub(crate) fn failure_of(error: &std::io::Error) -> (failure: Failure)
    ensures
        failure == kind_of(*error),
{
    match error.kind() {
        std::io::ErrorKind::ConnectionReset => Failure::ConnectionReset,
        std::io::ErrorKind::ConnectionAborted => Failure::ConnectionAborted,
        _ => Failure::Other,
    }
}

} // verus!
