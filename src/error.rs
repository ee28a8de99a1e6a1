//! The ways a request to the service can fail.

use vstd::prelude::*;

verus! {

/// A failure of a call, with a message that describes it.
#[derive(Debug, Clone, PartialEq)]
pub enum ClientError {
    /// The request did not complete: connection, name resolution or TLS failure.
    Transport(String),
    /// The response body is not valid JSON or does not have the expected shape.
    Decode(String),
}

} // verus!
