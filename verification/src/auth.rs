//! The claims carried by access tokens and refresh tokens, and when they expire.
use vstd::prelude::*;
use crate::clock::micros_since_epoch;
use crate::entities::Tokens;

verus! {

/// Seconds an access token stays valid.
pub const SESSION_LIFETIME_SECS: i64 = 3600;

/// Seconds a refresh token stays valid (thirty days).
pub const REFRESH_LIFETIME_SECS: i64 = 2592000;

/// The latest clock reading, in Unix seconds, that token claims are issued for; it
/// lies past every time `chrono` can represent (its last year is 262142).
pub const LATEST_TIMESTAMP: i64 = 9000000000000;

/// The Unix time in whole seconds of a clock reading in microseconds since 1970:
/// `None` where there is no reading, or where it lies past `LATEST_TIMESTAMP`.
pub open spec fn timestamp_of_micros(micros: Option<u128>) -> Option<i64> {
    match micros {
        Some(m) => if m / 1000000 <= LATEST_TIMESTAMP {
            Some((m / 1000000) as i64)
        } else {
            None
        },
        None => None,
    }
}

/// A clock reading turned into Unix time is its whole seconds: the second it falls in,
/// neither earlier nor later; and a later reading never gives an earlier second.
pub proof fn lemma_timestamp_is_second_of_reading(m1: u128, m2: u128)
    ensures
        timestamp_of_micros(Some(m1)) matches Some(t) ==> t * 1000000 <= m1 < (t + 1) * 1000000,
        m1 <= m2 && timestamp_of_micros(Some(m2)) is Some ==> (timestamp_of_micros(Some(m1)) matches Some(t1)
            && t1 <= timestamp_of_micros(Some(m2))->Some_0),
{
    if timestamp_of_micros(Some(m1)) is Some {
        let t = m1 / 1000000;
        assert(t * 1000000 <= m1 < (t + 1) * 1000000) by (nonlinear_arith)
            requires
                t == m1 / 1000000,
        ;
    }
    if m1 <= m2 {
        assert(m1 / 1000000 <= m2 / 1000000) by (nonlinear_arith)
            requires
                m1 <= m2,
        ;
    }
}

/// The Unix time in whole seconds of a clock reading (see `timestamp_of_micros`).
pub fn timestamp_from_micros(micros: Option<u128>) -> (now: Option<i64>)
    ensures
        now == timestamp_of_micros(micros),
{
    match micros {
        Some(m) => {
            let secs = m / 1000000;
            if secs <= LATEST_TIMESTAMP as u128 {
                Some(secs as i64)
            } else {
                None
            }
        },
        None => None,
    }
}

/// The claims of an access token: whose session it is, and until when it is valid.
pub struct SessionClaims {
    pub user_id: u128,
    pub session_id: u128,
    pub expires_at: i64,
}

/// The claims of a refresh token: which token it is, and until when it is valid.
pub struct RefreshTokenClaims {
    pub refresh_token_id: u128,
    pub expires_at: i64,
}

impl SessionClaims {
    /// Claims for a session issued at Unix time `now`: they expire an hour later.
    pub fn new_at(user_id: u128, session_id: u128, now: i64) -> (claims: Self)
        requires
            now <= LATEST_TIMESTAMP,
        ensures
            claims.user_id == user_id,
            claims.session_id == session_id,
            claims.expires_at == now + SESSION_LIFETIME_SECS,
    {
        SessionClaims { user_id, session_id, expires_at: now + SESSION_LIFETIME_SECS }
    }

    /// Claims for a session issued now: they expire an hour after the system clock's
    /// reading in whole seconds (see `timestamp_of_micros`); `None` where the clock gives
    /// no time from 1970 to `LATEST_TIMESTAMP`.
    pub fn new(user_id: u128, session_id: u128) -> (claims: Option<Self>)
        ensures
            claims matches Some(c) ==> {
                &&& c.user_id == user_id
                &&& c.session_id == session_id
                &&& SESSION_LIFETIME_SECS <= c.expires_at <= LATEST_TIMESTAMP + SESSION_LIFETIME_SECS
                &&& exists|m: u128|
                    #[trigger] timestamp_of_micros(Some(m)) matches Some(now) && c.expires_at == now + SESSION_LIFETIME_SECS
            },
    {
        match timestamp_from_micros(micros_since_epoch()) {
            Some(now) => Some(Self::new_at(user_id, session_id, now)),
            None => None,
        }
    }
}

impl RefreshTokenClaims {
    /// Claims for a refresh token issued at Unix time `now`: they expire thirty days later.
    pub fn new_at(refresh_token_id: u128, now: i64) -> (claims: Self)
        requires
            now <= LATEST_TIMESTAMP,
        ensures
            claims.refresh_token_id == refresh_token_id,
            claims.expires_at == now + REFRESH_LIFETIME_SECS,
    {
        RefreshTokenClaims { refresh_token_id, expires_at: now + REFRESH_LIFETIME_SECS }
    }

    /// Claims for a refresh token issued now: they expire thirty days after the system
    /// clock's reading in whole seconds (see `timestamp_of_micros`); `None` where the
    /// clock gives no time from 1970 to `LATEST_TIMESTAMP`.
    pub fn new(refresh_token_id: u128) -> (claims: Option<Self>)
        ensures
            claims matches Some(c) ==> {
                &&& c.refresh_token_id == refresh_token_id
                &&& REFRESH_LIFETIME_SECS <= c.expires_at <= LATEST_TIMESTAMP + REFRESH_LIFETIME_SECS
                &&& exists|m: u128|
                    #[trigger] timestamp_of_micros(Some(m)) matches Some(now) && c.expires_at == now + REFRESH_LIFETIME_SECS
            },
    {
        match timestamp_from_micros(micros_since_epoch()) {
            Some(now) => Some(Self::new_at(refresh_token_id, now)),
            None => None,
        }
    }
}

/// The tokens handed to a client: the two encoded tokens and the expiry of each,
/// taken from the claims they were encoded from.
pub fn tokens_for(
    session_claims: &SessionClaims,
    refresh_token_claims: &RefreshTokenClaims,
    access_token: String,
    refresh_token: String,
) -> (tokens: Tokens)
    ensures
        tokens.access_token@ == access_token@,
        tokens.refresh_token@ == refresh_token@,
        tokens.access_token_expires_at == session_claims.expires_at,
        tokens.refresh_token_expires_at == refresh_token_claims.expires_at,
{
    Tokens {
        access_token,
        refresh_token,
        access_token_expires_at: session_claims.expires_at,
        refresh_token_expires_at: refresh_token_claims.expires_at,
    }
}

} // verus!
