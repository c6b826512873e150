//! Failure taxonomy of the sync engine.
//!
//! Every operation surfaces its failure to the immediate caller; nothing is
//! swallowed and nothing is retried. Database and transport plumbing keep
//! their own error types outside the library and translate at the boundary.

use vstd::prelude::*;

verus! {

/// What can go wrong while talking to the vocabulary service.
#[derive(Debug, Clone)]
pub enum Error {
    /// A network or connection failure while calling `path`.
    Reqwest { path: String },
    /// An expected HTML structure was absent from a fetched page.
    HttpParsingError { message: String },
    /// The service answered with a 5xx status.
    ServerError { message: String },
    /// The service answered with a 4xx status, e.g. bad credentials.
    UserError { message: String },
    /// A response body did not match the expected schema; carries the
    /// parser's complaint and the raw body for diagnosis.
    DeserializationError { error: String, body: String },
}

} // verus!
