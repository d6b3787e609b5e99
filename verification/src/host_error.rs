//! Error codes returned by host functions, and their decoding.

use vstd::prelude::*;

verus! {

/// Host function succeeded.
pub const HOST_ERROR_SUCCEED: i32 = 0;
/// An entity was not found.
pub const HOST_ERROR_NOT_FOUND: i32 = 1;
/// Invalid data was encountered.
pub const HOST_ERROR_INVALID_DATA: i32 = 2;
/// The input was invalid.
pub const HOST_ERROR_INVALID_INPUT: i32 = 3;
/// The topic is too long.
pub const HOST_ERROR_TOPIC_TOO_LONG: i32 = 4;
/// Too many topics.
pub const HOST_ERROR_TOO_MANY_TOPICS: i32 = 5;
/// The message payload is too long.
pub const HOST_ERROR_MESSAGE_PAYLOAD_TOO_LONG: i32 = 6;

/// Error code for signaling an error while processing a host function.
#[derive(Debug, PartialEq, Eq, Structural)]
#[non_exhaustive]
pub enum Error {
    /// An entity was not found, often a missing key in the global state.
    NotFound,
    /// Data not valid for the operation were encountered.
    InvalidData,
    /// The input to the host function was invalid.
    InvalidInput,
    /// The topic is too long.
    TopicTooLong,
    /// Too many topics.
    TooManyTopics,
    /// The payload is too long.
    PayloadTooLong,
    /// An error code not covered by the other variants.
    Other(i32),
}

/// The error that a non-zero host code decodes to.
///
/// The codes for "not found", "invalid data", "invalid input", "too many
/// topics" and "payload too long" have variants of their own; every other
/// code is kept as `Other`, the code 4 among them.
pub open spec fn spec_error_from_code(code: i32) -> Error {
    if code == HOST_ERROR_NOT_FOUND {
        Error::NotFound
    } else if code == HOST_ERROR_INVALID_DATA {
        Error::InvalidData
    } else if code == HOST_ERROR_INVALID_INPUT {
        Error::InvalidInput
    } else if code == HOST_ERROR_TOO_MANY_TOPICS {
        Error::TooManyTopics
    } else if code == HOST_ERROR_MESSAGE_PAYLOAD_TOO_LONG {
        Error::PayloadTooLong
    } else {
        Error::Other(code)
    }
}

impl From<i32> for Error {
    fn from(value: i32) -> (r: Self) {
        if value == HOST_ERROR_NOT_FOUND {
            Error::NotFound
        } else if value == HOST_ERROR_INVALID_DATA {
            Error::InvalidData
        } else if value == HOST_ERROR_INVALID_INPUT {
            Error::InvalidInput
        } else if value == HOST_ERROR_TOO_MANY_TOPICS {
            Error::TooManyTopics
        } else if value == HOST_ERROR_MESSAGE_PAYLOAD_TOO_LONG {
            Error::PayloadTooLong
        } else {
            Error::Other(value)
        }
    }
}

impl vstd::std_specs::convert::FromSpecImpl<i32> for Error {
    open spec fn obeys_from_spec() -> bool {
        true
    }

    open spec fn from_spec(v: i32) -> Error {
        spec_error_from_code(v)
    }
}

/// Turns a host function's return code into a result: zero is success, every
/// other code is the error it decodes to.
pub fn result_from_code(code: i32) -> (r: Result<(), Error>)
    ensures
        code == HOST_ERROR_SUCCEED ==> r == Ok::<(), Error>(()),
        code != HOST_ERROR_SUCCEED ==> r == Err::<(), Error>(spec_error_from_code(code)),
{
    if code == HOST_ERROR_SUCCEED {
        Ok(())
    } else {
        Err(Error::from(code))
    }
}

} // verus!
