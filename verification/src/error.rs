//! Error types.

use vstd::prelude::*;

verus! {

/// Kinds of errors.
#[derive(Copy, Clone, Debug, Eq, PartialEq, Structural)]
pub enum Error {
    /// Unrecognized algorithm
    AlgorithmError,

    /// Authentication failed
    AuthenticationError,

    /// Generic failure
    GenericError,

    /// Invalid object
    InvalidObject,

    /// Bad key
    KeyError,

    /// Operation that the device does not offer
    NotSupported,

    /// Bytes that cannot be parsed
    ParseError,

    /// Wrong size
    SizeError,

    /// Failure of the device or of the way to it, under the number that the caller knows it by
    Device(u32),
}

} // verus!
