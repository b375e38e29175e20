//! Cache of the process-wide app access token.
//!
//! The cache itself never talks to the network: `lookup` says whether the
//! cached value may be used at a given time, and `store` records the answer
//! of a refresh that the caller performed.
use vstd::prelude::*;

use crate::structs::AppAccessTokenResponse;

verus! {

/// The cached app token and the unix time (seconds) until which it is valid.
#[derive(Clone, Debug, PartialEq, Eq)]
pub struct TwitchAccessToken {
    pub access_token: String,
    pub expires_at: u64,
}

/// What the cache holds for a request made at `now`: the token value when it
/// may be used, `None` when a refresh has to come first.
pub open spec fn cached_value(t: TwitchAccessToken, now: u64) -> Option<Seq<char>> {
    if t.access_token@.len() > 0 && t.expires_at > now {
        Some(t.access_token@)
    } else {
        None
    }
}

/// Expiry time of a token issued at `now` that lives `expires_in` seconds,
/// capped at the largest representable time.
pub open spec fn expiry_time(now: u64, expires_in: u32) -> u64 {
    if now + expires_in > u64::MAX {
        u64::MAX
    } else {
        (now + expires_in) as u64
    }
}

/// Outcome of a cache lookup.
#[derive(Clone, Debug, PartialEq, Eq)]
pub enum TokenLookup {
    /// The cached token may be used as it is.
    Cached(String),
    /// The cached token is missing or expired: refresh before use.
    Refresh,
}

impl TwitchAccessToken {
    /// The state before the first refresh: no token at all.
    pub fn empty() -> (r: TwitchAccessToken)
        ensures
            r.access_token@.len() == 0,
            r.expires_at == 0,
            forall|now: u64| cached_value(r, now) is None,
    {
        TwitchAccessToken { access_token: String::new(), expires_at: 0 }
    }

    /// Whether the token may be used at `now` without a refresh.
    pub fn is_valid_at(&self, now: u64) -> (r: bool)
        ensures
            r == (cached_value(*self, now) is Some),
    {
        !self.access_token.as_str().is_empty() && self.expires_at > now
    }

    /// The cached token if it is still valid at `now`, else a request to refresh.
    pub fn lookup(&self, now: u64) -> (r: TokenLookup)
        ensures
            match r {
                TokenLookup::Cached(s) => cached_value(*self, now) == Some(s@),
                TokenLookup::Refresh => cached_value(*self, now) is None,
            },
    {
        if self.is_valid_at(now) {
            TokenLookup::Cached(self.access_token.clone())
        } else {
            TokenLookup::Refresh
        }
    }

    /// Replaces the cached token by the one a refresh at `now` returned.
    pub fn store(&mut self, response: &AppAccessTokenResponse, now: u64)
        ensures
            final(self).access_token@ == response.access_token@,
            final(self).expires_at == expiry_time(now, response.expires_in),
    {
        let ttl = response.expires_in as u64;
        let expires_at = if now > u64::MAX - ttl {
            u64::MAX
        } else {
            now + ttl
        };
        self.access_token = response.access_token.clone();
        self.expires_at = expires_at;
    }
}

/// A token whose expiry time has passed is never handed out: a lookup then
/// asks for a refresh.
pub proof fn lemma_expired_token_needs_refresh(t: TwitchAccessToken, now: u64)
    requires
        t.expires_at < now,
    ensures
        cached_value(t, now) is None,
{
}

/// A token that expires after both times is handed out unchanged at both,
/// with no refresh in between.
pub proof fn lemma_fresh_token_is_stable(t: TwitchAccessToken, now1: u64, now2: u64)
    requires
        t.access_token@.len() > 0,
        now1 < t.expires_at,
        now2 < t.expires_at,
    ensures
        cached_value(t, now1) == Some(t.access_token@),
        cached_value(t, now2) == Some(t.access_token@),
{
}

/// A token stored from a refresh is valid until its lifetime runs out.
pub proof fn lemma_stored_token_is_fresh(response: AppAccessTokenResponse, now: u64, later: u64)
    requires
        response.access_token@.len() > 0,
        now <= later,
        later < now + response.expires_in,
        now + response.expires_in <= u64::MAX,
    ensures
        cached_value(
            TwitchAccessToken {
                access_token: response.access_token,
                expires_at: expiry_time(now, response.expires_in),
            },
            later,
        ) == Some(response.access_token@),
{
}

} // verus!
