//! Session and incremental-sync engine for a vocabulary-learning service.
//!
//! The library owns the logic of the sync pipeline: the authentication
//! state machine that turns credentials into a bearer token, the paginated
//! listing protocol, the watermark filter over fetched word records, and
//! the derivation of attachment filenames from media URLs. Network and
//! database plumbing live outside, driven by the contracts stated here.

pub mod auth;
pub mod errors;
pub mod meanings;
pub mod notes;
pub mod paging;
pub mod strutil;
pub mod sync;
pub mod token;
pub mod words;
