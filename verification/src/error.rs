//! The closed set of errors the client surfaces.
//!
//! Every failure is returned as a typed result; nothing is retried and
//! nothing is logged here. A malformed element inside an otherwise valid
//! `values` array is not an error at all: it is silently dropped by the
//! wire-decoding stage, while an unparsable timestamp inside a record
//! that did decode aborts the whole call.

use vstd::prelude::*;

use crate::timestamp::TimestampParseError;

verus! {

/// What went wrong during one client operation.
#[derive(Debug)]
pub enum N3rgyClientError {
    /// The outbound HTTP request could not be completed; carries the
    /// transport's message.
    Reqwest(String),
    /// The response body is not valid JSON; carries the decoder's message.
    Serde(String),
    /// The response decoded, but the expected property is missing: the
    /// success envelope must be an object with a `values` array.
    MissingProperty(String),
    /// The request URL could not be built from the base URL; carries the
    /// URL parser's message.
    Parse(String),
    /// A structurally valid record carries a date or date-time string
    /// that is not in the provider's format.
    ChronoParse(TimestampParseError),
}

/// The record-retrieval error of the free-function interface; the same
/// failures with an untyped catch-all for a missing envelope.
#[derive(Debug)]
pub enum GetRecordsError {
    /// The outbound HTTP request could not be completed.
    Reqwest(String),
    /// The response body is not valid JSON.
    Serde(String),
    /// Any other protocol violation, described in words.
    Custom(String),
    /// The request URL could not be built from the base URL.
    Parse(String),
    /// A record's date or date-time string is not in the provider's
    /// format.
    ChronoParse(TimestampParseError),
}

impl GetRecordsError {
    /// The same failure, as reported through the client interface.
    pub fn from_client_error(e: N3rgyClientError) -> (r: GetRecordsError)
        ensures
            match e {
                N3rgyClientError::Reqwest(m) => r matches GetRecordsError::Reqwest(n) && m == n,
                N3rgyClientError::Serde(m) => r matches GetRecordsError::Serde(n) && m == n,
                N3rgyClientError::MissingProperty(m) => r matches GetRecordsError::Custom(n) && m
                    == n,
                N3rgyClientError::Parse(m) => r matches GetRecordsError::Parse(n) && m == n,
                N3rgyClientError::ChronoParse(p) => r matches GetRecordsError::ChronoParse(q) && p
                    == q,
            },
    {
        match e {
            N3rgyClientError::Reqwest(m) => GetRecordsError::Reqwest(m),
            N3rgyClientError::Serde(m) => GetRecordsError::Serde(m),
            N3rgyClientError::MissingProperty(m) => GetRecordsError::Custom(m),
            N3rgyClientError::Parse(m) => GetRecordsError::Parse(m),
            N3rgyClientError::ChronoParse(p) => GetRecordsError::ChronoParse(p),
        }
    }
}

} // verus!
