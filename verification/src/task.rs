//! What a job has to offer to travel through the queue: a way into bytes and
//! a way back.

use vstd::prelude::*;
use vstd::string::StringSliceAdditionalSpecFns;
use vstd::utf8::{decode_utf8, encode_utf8_decode_utf8, valid_utf8};
use crate::broker::Reply;
use crate::error::Error;

verus! {

/// A job that can be written as a payload for the broker.
pub trait TaskEncodable {
    /// The payload of this job, or `None` if it cannot be written. It is
    /// stated over byte vectors, so that an implementor outside verified
    /// code can write it down as an ordinary function that does what
    /// [`TaskEncodable::encode_task`] does.
    spec fn encoded(&self) -> Option<Vec<u8>>;

    /// Writes this job as a payload: always the same bytes for the same
    /// job. A job that cannot be written is reported as [`Error::Encode`].
    fn encode_task(&self) -> (r: Result<Vec<u8>, Error>)
        ensures
            match r {
                Ok(bytes) => self.encoded() matches Some(b) && b@ == bytes@,
                Err(e) => e == Error::Encode && self.encoded() is None,
            },
    ;
}

/// A job that can be read back from what the broker handed over.
///
/// A job type that can be written as well is meant to round-trip, as
/// [`round_trips`] says.
pub trait TaskDecodable: Sized {
    /// The job that `payload` is the encoding of, or `None` if it is the
    /// encoding of no job of this type. It is stated over byte vectors, so
    /// that an implementor outside verified code can write it down as an
    /// ordinary function.
    spec fn decoded(payload: Vec<u8>) -> Option<Self>;

    /// Reads a job from a broker reply. A reply that is no scalar byte
    /// string breaks the protocol. A byte string gives the job that it is
    /// the encoding of, and fails to decode if it is the encoding of none:
    /// nothing is made up for what is missing or malformed.
    fn decode_task(value: &Reply) -> (r: Result<Self, Error>)
        ensures
            r == (match *value {
                Reply::Data(bytes) => match Self::decoded(bytes) {
                    Some(task) => Ok::<Self, Error>(task),
                    None => Err::<Self, Error>(Error::Decode),
                },
                _ => Err::<Self, Error>(Error::Protocol),
            }),
    ;
}

/// Whether the jobs of type `T` round-trip: decoding the payload of a job,
/// or any byte vector with the same contents, gives that job.
pub open spec fn round_trips<T: TaskEncodable + TaskDecodable>() -> bool {
    forall|task: T, payload: Vec<u8>|
        #![trigger task.encoded(), T::decoded(payload)]
        (task.encoded() matches Some(b) && b@ == payload@) ==> T::decoded(payload) == Some(task)
}

/// `core::str::from_utf8`: succeeds exactly on UTF-8 and then hands the same
/// bytes back as a string slice.
#[verifier::external_body]
fn text_of(bytes: &[u8]) -> (r: Option<&str>)
    ensures
        r.is_some() == valid_utf8(bytes@),
        r matches Some(s) ==> s.spec_bytes() == bytes@,
{
    core::str::from_utf8(bytes).ok()
}

/// The text of the payload in a broker reply, for job types that are
/// encoded as text. A reply that is no scalar byte string breaks the
/// protocol; bytes that are not UTF-8 fail to decode.
pub fn payload_text(value: &Reply) -> (r: Result<&str, Error>)
    ensures
        match value.payload() {
            None => r == Err::<&str, Error>(Error::Protocol),
            Some(bytes) => match r {
                Ok(s) => valid_utf8(bytes) && s@ == decode_utf8(bytes),
                Err(e) => !valid_utf8(bytes) && e == Error::Decode,
            },
        },
{
    match value {
        Reply::Data(bytes) => match text_of(bytes.as_slice()) {
            Some(s) => {
                proof {
                    encode_utf8_decode_utf8(s@);
                }
                Ok(s)
            },
            None => Err(Error::Decode),
        },
        _ => Err(Error::Protocol),
    }
}

} // verus!
