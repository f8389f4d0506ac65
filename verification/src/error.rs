use vstd::prelude::*;

verus! {

/// The closed taxonomy of failures shared by every operation of this library.
/// Each operation returns one of these kinds instead of aborting.
#[derive(Debug, PartialEq, Eq)]
pub enum Error {
    /// The input bytes do not parse as a supported image container.
    DecodeError,
    /// The encoding library rejected the decoded image, or writing the
    /// encoded output failed.
    EncodeError,
    /// The external encoder process could not be spawned.
    SubprocessError,
    /// A temporary-file write or read failed, including an encoder that
    /// produced no readable output.
    IoError,
    /// The remote service answered with a non-success HTTP status; carries
    /// the numeric status and the full raw response body.
    ApiError { status: u16, body: String },
    /// An expected level of the response JSON is absent; carries the name of
    /// the missing path segment and the raw response body.
    MalformedResponse { segment: String, body: String },
    /// The embedded payload is present but is not valid base64.
    Base64Error,
}

} // verus!
