//! The error taxonomy of the REST layer: every failed call maps to exactly
//! one of these kinds.

use vstd::prelude::*;

verus! {

/// Failure to produce a request body.
#[derive(Debug)]
pub enum BodyError {
    Serialize,
}

/// One classified failure of an outbound call. `E` is the transport's own
/// error type.
#[derive(Debug)]
pub enum ApiError<E> {
    /// The transport itself failed (network, TLS, header building).
    Client { source: E },
    /// The request URL could not be built.
    UrlParse,
    /// The request body could not be created.
    Body { source: BodyError },
    /// The response could not be parsed as JSON.
    Json,
    /// The response was valid JSON but did not have the expected payload
    /// shape.
    DataType { typename: &'static str },
    /// The remote side reported an error with a plain message.
    Seatalk { msg: String },
    /// The remote side reported an error as a structured object.
    SeatalkObject,
    /// The remote side answered outside the success class with a body that is
    /// not a JSON object; the raw bytes are kept.
    SeatalkService { status: u16, data: Vec<u8> },
    /// The remote side answered with JSON of an unrecognized shape.
    SeatalkUnrecognized,
}

impl<E> ApiError<E> {
    /// Wraps a transport error.
    pub fn client(source: E) -> (r: Self)
        ensures
            r == (ApiError::Client { source }),
    {
        ApiError::Client { source }
    }
}

} // verus!
