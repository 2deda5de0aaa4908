//! Error taxonomy for the report pipeline. Each stage fails fast: the
//! first error aborts the run and is surfaced as the run's sole result.

use vstd::prelude::*;

verus! {

/// Every failure the pipeline can report. The library itself produces
/// `CredentialFormat`, `Protocol`, `MissingData` and `Mapping`; the
/// remaining variants describe transport, template and output failures
/// raised by the surrounding program, kept here so the whole run shares
/// one taxonomy.
#[derive(Clone, Copy, Debug, PartialEq, Eq, Structural)]
pub enum Error {
    /// The credential string does not start with the required prefix.
    CredentialFormat,
    /// The transport could not reach the endpoint (timeout or network).
    Connection,
    /// The endpoint answered with a non-success HTTP status.
    HttpStatus,
    /// The response carried a non-empty `errors` array.
    Protocol,
    /// The response carried neither errors nor `data`.
    MissingData,
    /// A raw node could not be mapped (malformed timestamp).
    Mapping,
    /// The template source was missing or invalid, or rendering failed.
    Template,
    /// Writing the rendered report to the output sink failed.
    Io,
}

impl Error {
    /// A short description of the failure, for display by the caller.
    pub fn message(&self) -> (r: &'static str)
        ensures
            r@ == match *self {
                Error::CredentialFormat => "personal access token should start with ghp_"@,
                Error::Connection => "failed to reach the api endpoint"@,
                Error::HttpStatus => "api endpoint answered with an error status"@,
                Error::Protocol => "failed to request github api"@,
                Error::MissingData => "unexpected response"@,
                Error::Mapping => "failed to map a raw issue node"@,
                Error::Template => "failed to load or render the template"@,
                Error::Io => "failed to write the report"@,
            },
    {
        match *self {
            Error::CredentialFormat => "personal access token should start with ghp_",
            Error::Connection => "failed to reach the api endpoint",
            Error::HttpStatus => "api endpoint answered with an error status",
            Error::Protocol => "failed to request github api",
            Error::MissingData => "unexpected response",
            Error::Mapping => "failed to map a raw issue node",
            Error::Template => "failed to load or render the template",
            Error::Io => "failed to write the report",
        }
    }
}

} // verus!
