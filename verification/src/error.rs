//! The failures that queue operations report.

use vstd::prelude::*;

verus! {

/// The broad class of a failure.
#[derive(Clone, Copy, Debug, PartialEq, Eq, Structural)]
pub enum ErrorKind {
    /// The broker could not be reached or the exchange with it broke down.
    Transport,
    /// A payload could not be turned into a job, or a job into a payload.
    Decode,
}

/// Why a queue operation failed.
#[derive(Clone, Copy, Debug, PartialEq, Eq, Structural)]
pub enum Error {
    /// Talking to the broker failed.
    Transport,
    /// The broker answered with something that is not a scalar payload.
    Protocol,
    /// The payload is not a valid encoding of the expected job type.
    Decode,
    /// The job could not be encoded.
    Encode,
    /// The acknowledgment of a finished job did not reach the broker. The
    /// job is still in the backup list; a caller must not go on as if it
    /// were acknowledged.
    Acknowledge,
}

impl Error {
    /// The class of this failure.
    pub open spec fn spec_kind(self) -> ErrorKind {
        match self {
            Error::Transport => ErrorKind::Transport,
            Error::Protocol => ErrorKind::Decode,
            Error::Decode => ErrorKind::Decode,
            Error::Encode => ErrorKind::Decode,
            Error::Acknowledge => ErrorKind::Transport,
        }
    }

    /// The class of this failure: a broken exchange with the broker is a
    /// transport failure, everything else is a failure to decode or encode.
    #[verifier::when_used_as_spec(spec_kind)]
    pub fn kind(self) -> (k: ErrorKind)
        ensures
            k == self.spec_kind(),
    {
        match self {
            Error::Transport => ErrorKind::Transport,
            Error::Protocol => ErrorKind::Decode,
            Error::Decode => ErrorKind::Decode,
            Error::Encode => ErrorKind::Decode,
            Error::Acknowledge => ErrorKind::Transport,
        }
    }
}

} // verus!
