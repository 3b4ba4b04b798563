//! Errors of the client, one variant per kind of failure.

use vstd::prelude::*;

verus! {

/// What went wrong. Configuration, authentication and canonicalisation
/// errors arise before anything is sent; `BpxApiError` means the server
/// answered with a non-2xx status; `SerdeJson` means a 2xx answer could not
/// be decoded; `Reqwest` is a transport failure.
#[derive(Debug)]
pub enum Error {
    /// The secret is not valid base64: the decoder's message.
    Base64Decode(String),
    /// The server answered with a non-2xx status: its code and its body text.
    BpxApiError { status_code: u16, message: String },
    /// A header value could not be built.
    InvalidHeaderValue(String),
    /// The request cannot be made as given.
    InvalidRequest(String),
    /// The request needs a signature and the client holds no key.
    NotAuthenticated,
    /// These private streams need a signature and the client holds no key.
    StreamsNotAuthenticated(Vec<String>),
    /// A transport failure: connection, TLS, timeout.
    Reqwest(String),
    /// The secret decodes to a length other than that of a signing key.
    SecretKey,
    /// A response body did not match the expected shape.
    SerdeJson(String),
    /// A URL could not be parsed.
    UrlParseError(String),
}

} // verus!
