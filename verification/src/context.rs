//! Who is making a request, as read from its `authorization` header.
use vstd::prelude::*;
use vstd::string::*;
use crate::auth::SessionClaims;
use crate::failure::{Failure, FailureReason, is_default_failure};

verus! {

/// The scheme that precedes an access token in the `authorization` header.
pub open spec fn bearer_prefix() -> Seq<char> {
    "Bearer "@
}

/// The token of a `Bearer` authorization: the text after the prefix, where it is there.
pub open spec fn bearer_token_of(authorization: Seq<char>) -> Option<Seq<char>> {
    if authorization.len() >= 7 && authorization.subrange(0, 7) == bearer_prefix() {
        Some(authorization.subrange(7, authorization.len() as int))
    } else {
        None
    }
}

/// Reading the token back from `Bearer ` followed by a token gives that token.
pub proof fn lemma_bearer_token_round_trip(token: Seq<char>)
    ensures
        bearer_token_of(bearer_prefix() + token) == Some(token),
{
    reveal_strlit("Bearer ");
    let header = bearer_prefix() + token;
    assert(header.subrange(0, 7) =~= bearer_prefix());
    assert(header.subrange(7, header.len() as int) =~= token);
}

/// The access token of an `authorization` header value, if it uses the `Bearer` scheme.
pub fn bearer_token(authorization: &str) -> (token: Option<String>)
    ensures
        token matches Some(t) ==> bearer_token_of(authorization@) == Some(t@),
        token is None ==> bearer_token_of(authorization@) is None,
{
    let prefix = "Bearer ";
    proof {
        reveal_strlit("Bearer ");
    }
    let length = authorization.unicode_len();
    if length < 7 {
        return None;
    }
    let mut i: usize = 0;
    while i < 7
        invariant
            i <= 7,
            length == authorization@.len(),
            length >= 7,
            prefix@ == bearer_prefix(),
            prefix@.len() == 7,
            forall|j: int| 0 <= j < i ==> authorization@[j] == prefix@[j],
        decreases 7 - i,
    {
        if authorization.get_char(i) != prefix.get_char(i) {
            assert(authorization@.subrange(0, 7)[i as int] != bearer_prefix()[i as int]);
            return None;
        }
        i = i + 1;
    }
    assert(authorization@.subrange(0, 7) =~= bearer_prefix());
    Some(String::from_str(authorization.substring_char(7, length)))
}

/// The requester of a request: the user and session of a valid access token, or nobody.
pub struct RequestContext {
    pub user_id: Option<u128>,
    pub session_id: Option<u128>,
}

impl Default for RequestContext {
    fn default() -> (context: Self)
        ensures
            context.user_id is None,
            context.session_id is None,
    {
        RequestContext { user_id: None, session_id: None }
    }
}

impl RequestContext {
    /// The context of a request whose access token decoded to `claims`; nobody's
    /// where there was no valid token.
    pub fn from_claims(claims: Option<SessionClaims>) -> (context: Self)
        ensures
            match claims {
                Some(c) => context.user_id == Some(c.user_id) && context.session_id == Some(c.session_id),
                None => context.user_id is None && context.session_id is None,
            },
    {
        match claims {
            Some(c) => RequestContext { user_id: Some(c.user_id), session_id: Some(c.session_id) },
            None => RequestContext::default(),
        }
    }

    /// The signed-in user, or the failure that asks for authentication.
    pub fn require_user(&self) -> (user: Result<u128, Failure>)
        ensures
            match self.user_id {
                Some(u) => user == Ok::<u128, Failure>(u),
                None => user matches Err(f) && is_default_failure(f, FailureReason::UNAUTHORIZED),
            },
    {
        match self.user_id {
            Some(u) => Ok(u),
            None => Err(Failure::new(FailureReason::UNAUTHORIZED)),
        }
    }

    /// The current session, or the failure that asks for authentication.
    pub fn require_session(&self) -> (session: Result<u128, Failure>)
        ensures
            match self.session_id {
                Some(s) => session == Ok::<u128, Failure>(s),
                None => session matches Err(f) && is_default_failure(f, FailureReason::UNAUTHORIZED),
            },
    {
        match self.session_id {
            Some(s) => Ok(s),
            None => Err(Failure::new(FailureReason::UNAUTHORIZED)),
        }
    }
}

} // verus!
