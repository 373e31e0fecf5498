//! The library's error type.
use vstd::prelude::*;

verus! {

/// Everything that can go wrong in a request or in the facade's logic.
#[derive(Debug)]
pub enum Error {
    /// The transport failed (connection, DNS, timeout); carries its message.
    Http(String),
    /// A payload could not be decoded; carries the decoder's message.
    Json(String),
    /// Local input/output failed.
    Io(String),
    /// The server reported a failure: its code and message.
    Api { code: i32, message: String },
    /// Authentication failed or is missing.
    Auth(String),
    /// The server answered with something unusable.
    InvalidResponse(String),
    /// A timestamp could not be read.
    InvalidTimestamp(String),
    /// A path did not resolve to an entry of its parent's listing.
    NotFound(String),
    /// The operation has no equivalent under the active protocol:
    /// the operation, then the protocol version.
    UnsupportedFeature(String, String),
    /// The caller asked for something that cannot be done, such as
    /// mutating the root directory.
    InvalidArgument(String),
}

/// `r` is the server error with this code and message.
pub open spec fn is_api_error<T>(r: Result<T, Error>, code: int, message: Seq<char>) -> bool {
    match r {
        Err(Error::Api { code: c, message: m }) => c == code && m@ == message,
        _ => false,
    }
}

} // verus!
