use vstd::prelude::*;
use crate::parser::ExtractionError;

verus! {

#[verifier::external_type_specification]
#[verifier::external_body]
pub struct ExIoError(std::io::Error);

/// Everything a fetch can fail with, each stage with its own variant.
#[derive(Debug)]
pub enum ClientError {
    /// The request could not be made: address resolution, connection,
    /// the encrypted session or socket I/O failed.
    RequestError(std::io::Error),
    /// The response is not a well-formed header block and body.
    InvalidResponseError(String),
    /// The status line parsed but the status is not 200.
    ResponseStatusError(u32),
    /// The body does not yield a price record.
    ParseError(ExtractionError),
}

impl ClientError {
    /// A short description of the failed stage.
    pub fn message(&self) -> (r: String)
        ensures
            match self {
                ClientError::RequestError(_) => r@ == "failed to make the request"@,
                ClientError::InvalidResponseError(_) => r@ == "invalid response"@,
                ClientError::ResponseStatusError(_) => r@ == "unexpected status code"@,
                ClientError::ParseError(_) => r@ == "failed to parse data"@,
            },
    {
        match self {
            ClientError::RequestError(_) => String::from_str("failed to make the request"),
            ClientError::InvalidResponseError(_) => String::from_str("invalid response"),
            ClientError::ResponseStatusError(_) => String::from_str("unexpected status code"),
            ClientError::ParseError(_) => String::from_str("failed to parse data"),
        }
    }
}

} // verus!
