//! Bearer tokens and their expiry.

use vstd::prelude::*;

verus! {

/// Milliseconds since the Unix epoch, by the wall clock.
///
/// Relies on `std::time::SystemTime`: `now()` taken against `UNIX_EPOCH`
/// and rendered in milliseconds. The result depends on the moment of the
/// call, so nothing is promised of it; a clock before the epoch reads as
/// zero rather than failing.
#[verifier::external_body]
pub fn curr_millis() -> u128 {
    std::time::SystemTime::now()
        .duration_since(std::time::UNIX_EPOCH)
        .map(|d| d.as_millis())
        .unwrap_or(0)
}

/// A bearer token together with its expiry instant, in milliseconds since
/// the Unix epoch. Immutable once constructed.
#[derive(Debug)]
pub struct Token {
    pub value: String,
    pub expires: u128,
}

impl Clone for Token {
    fn clone(&self) -> (res: Self)
        ensures
            res == self,
    {
        Token { value: self.value.clone(), expires: self.expires }
    }
}

impl Token {
    pub fn new(value: String, expires: u128) -> (t: Token)
        ensures
            t.value == value,
            t.expires == expires,
    {
        Token { value, expires }
    }

    /// A token is expired at `now` unless its expiry is strictly in the
    /// future.
    pub fn is_expired_at(&self, now: u128) -> (r: bool)
        ensures
            r == (self.expires <= now),
    {
        self.expires <= now
    }

    /// Expiry against the wall clock, as read this moment.
    pub fn is_expired(&self) -> bool {
        self.is_expired_at(curr_millis())
    }
}

/// Whether a possibly-absent token is expired at `now`: an absent token is
/// treated as already expired.
pub open spec fn opt_expired_at(token: Option<Token>, now: u128) -> bool {
    match token {
        Some(t) => t.expires <= now,
        None => true,
    }
}

/// Expiry for a slot that may hold no token at all.
pub trait Expirable {
    /// Whether the slot holds no still-valid token at `now`.
    fn is_expired_at(&self, now: u128) -> bool;
}

impl Expirable for Option<Token> {
    fn is_expired_at(&self, now: u128) -> (r: bool)
        ensures
            r == opt_expired_at(*self, now),
    {
        match self {
            Some(token) => token.is_expired_at(now),
            None => true,
        }
    }
}

} // verus!
