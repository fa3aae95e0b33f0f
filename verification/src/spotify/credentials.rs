use vstd::prelude::*;

verus! {

/// A reading of the monotonic clock, `std::time::Instant`, carried through
/// as an opaque value.
#[verifier::external_type_specification]
#[verifier::external_body]
pub struct ExInstant(std::time::Instant);

/// `Clone::clone` on an instant. `Instant` is `Copy`, so its clone is the
/// instant itself.
pub assume_specification[ <std::time::Instant as Clone>::clone ](i: &std::time::Instant) -> (res:
    std::time::Instant)
    ensures
        res == *i,
;

/// Spotify OAuth credentials as the bot keeps them between runs.
#[derive(Debug, Clone)]
pub struct CredentialsOauth {
    /// Bearer token used for authenticated Spotify API requests
    pub access_token: String,
    /// Long-lived token used to obtain new access tokens
    pub refresh_token: String,
    /// Expiration time of the access token
    pub expires_at: std::time::Instant,
    /// Type of token
    pub token_type: String,
    /// Permission scopes granted by this token
    pub scopes: Vec<String>,
}

/// Calls `std::time::Instant::now`. The reading depends on the clock, so
/// nothing is stated of it.
#[verifier::external_body]
fn instant_now() -> std::time::Instant {
    std::time::Instant::now()
}

/// Whether instant `a` is at or after instant `b`, as `>=` on
/// `std::time::Instant` answers.
pub uninterp spec fn instant_at_or_after(a: std::time::Instant, b: std::time::Instant) -> bool;

/// Calls `>=` (`PartialOrd::ge`) on two instants. Claimed: the answer is
/// `instant_at_or_after` of the two (it depends on the two values alone).
#[verifier::external_body]
fn at_or_after(a: &std::time::Instant, b: &std::time::Instant) -> (res: bool)
    ensures
        res == instant_at_or_after(*a, *b),
{
    a >= b
}

impl CredentialsOauth {
    /// Whether the access token has expired at the clock reading `now`: it
    /// has once `now` is at or after its expiration time.
    pub fn is_expired_at(&self, now: &std::time::Instant) -> (res: bool)
        ensures
            res == instant_at_or_after(*now, self.expires_at),
    {
        at_or_after(now, &self.expires_at)
    }

    /// Whether the access token has expired by the monotonic clock: the
    /// answer of `is_expired_at` for the reading the call takes.
    pub fn is_expired(&self) -> (res: bool)
        ensures
            exists|now: std::time::Instant| res == instant_at_or_after(now, self.expires_at),
    {
        let now = instant_now();
        self.is_expired_at(&now)
    }
}

/// Whether a Spotify session can be used as it is: it is still valid and
/// logged in under some user name.
pub fn session_ready(is_invalid: bool, username: &str) -> (res: bool)
    ensures
        res == (!is_invalid && username@.len() > 0),
{
    !is_invalid && !username.is_empty()
}

} // verus!
