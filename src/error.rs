use vstd::prelude::*;

verus! {

/// Errors that can occur when creating or authenticating a client.
#[derive(Debug)]
pub enum InitError {
    /// The server address is not a URL.
    InvalidUrl(url::ParseError),
    /// The access token cannot be sent as a header value.
    InvalidAccessToken(reqwest::header::InvalidHeaderValue),
    /// The HTTP client could not be set up.
    Reqwest(reqwest::Error),
}

/// Errors that can occur when accessing an API endpoint.
#[derive(Debug)]
pub enum Error {
    /// The request failed, or its response could not be read or decoded.
    Reqwest(reqwest::Error),
    /// The server answered with an error.
    Response(crate::models::Error),
}

} // verus!
