//! Confirming a checkout session: it is locked, tied to a customer, and paid for.
use vstd::prelude::*;
use vstd::string::*;
use crate::encoding::{uuid_text, uuid_text_of};
use crate::entities::CheckoutSession;
use crate::failure::{Failure, FailureReason, is_failure, is_default_failure};
use crate::utils::create_avatar_url::{self, avatar_url_of};

verus! {

/// The database's code for a lock that is held by someone else.
pub open spec fn lock_not_available_code() -> Seq<char> {
    "55P03"@
}

/// What locking the session gave: the session if one has the client secret, or the
/// code of the database error (none where the error has no code or is not the
/// database's).
pub type LockResult = Result<Option<CheckoutSession>, Option<String>>;

/// The outcome of locking the checkout session for update: a held lock is a conflict,
/// any other error is internal, and a missing session is not found.
pub open spec fn is_lock_outcome(locked: LockResult, outcome: Result<CheckoutSession, Failure>) -> bool {
    match locked {
        Ok(Some(s)) => outcome == Ok::<CheckoutSession, Failure>(s),
        Ok(None) => outcome matches Err(f) && is_failure(
            f,
            FailureReason::NOT_FOUND,
            "The checkout session could not be found"@,
        ),
        Err(Some(code)) => if code@ == lock_not_available_code() {
            outcome matches Err(f) && is_failure(
                f,
                FailureReason::CONFLICT,
                "The checkout session is being processed"@,
            )
        } else {
            outcome matches Err(f) && is_default_failure(f, FailureReason::INTERNAL_SERVER_ERROR)
        },
        Err(None) => outcome matches Err(f) && is_default_failure(f, FailureReason::INTERNAL_SERVER_ERROR),
    }
}

/// The outcome of locking the checkout session for update (see `is_lock_outcome`).
pub fn lock_outcome(locked: LockResult) -> (outcome: Result<CheckoutSession, Failure>)
    ensures
        is_lock_outcome(locked, outcome),
{
    match locked {
        Err(code) => {
            let is_lock_held = match &code {
                Some(c) => {
                    let expected = String::from_str("55P03");
                    c.eq(&expected)
                },
                None => false,
            };
            if is_lock_held {
                Err(Failure::with_message(FailureReason::CONFLICT, String::from_str("The checkout session is being processed")))
            } else {
                Err(Failure::internal())
            }
        },
        Ok(Some(session)) => Ok(session),
        Ok(None) => Err(Failure::with_message(FailureReason::NOT_FOUND, String::from_str("The checkout session could not be found"))),
    }
}

/// The email the session is confirmed with: the session's own once it has one
/// (a different one is refused), otherwise the one given, which is then required.
pub open spec fn is_email_outcome(
    session_email: Option<String>,
    given_email: Option<String>,
    email: Result<String, Failure>,
) -> bool {
    match (session_email, given_email) {
        (Some(s), Some(g)) => if s@ == g@ {
            email matches Ok(e) && e@ == s@
        } else {
            email matches Err(f) && is_failure(
                f,
                FailureReason::UNPROCESSABLE_ENTITY,
                "The customer email is immutable once set"@,
            )
        },
        (Some(s), None) => email matches Ok(e) && e@ == s@,
        (None, Some(g)) => email matches Ok(e) && e@ == g@,
        (None, None) => email matches Err(f) && is_failure(
            f,
            FailureReason::UNPROCESSABLE_ENTITY,
            "The argument 'customer_email' is required since the checkout session is not associated with a customer"@,
        ),
    }
}

/// The email the session is confirmed with (see `is_email_outcome`).
pub fn resolve_customer_email(session_email: Option<String>, given_email: Option<String>) -> (email: Result<String, Failure>)
    ensures
        is_email_outcome(session_email, given_email, email),
{
    match session_email {
        Some(s) => {
            match given_email {
                Some(g) => {
                    if s.eq(&g) {
                        Ok(s)
                    } else {
                        Err(Failure::with_message(
                            FailureReason::UNPROCESSABLE_ENTITY,
                            String::from_str("The customer email is immutable once set"),
                        ))
                    }
                },
                None => Ok(s),
            }
        },
        None => {
            match given_email {
                Some(g) => Ok(g),
                None => Err(Failure::with_message(
                    FailureReason::UNPROCESSABLE_ENTITY,
                    String::from_str(
                        "The argument 'customer_email' is required since the checkout session is not associated with a customer",
                    ),
                )),
            }
        },
    }
}

/// The customer row the confirmed session points to, created if the store has none
/// with that email.
pub struct CustomerUpsert {
    pub store_id: u128,
    pub email: String,
    pub avatar_url: String,
}

/// The customer for the session's store and email, with the email's avatar.
pub fn customer_upsert(store_id: u128, email: String) -> (customer: CustomerUpsert)
    ensures
        customer.store_id == store_id,
        customer.email@ == email@,
        customer.avatar_url@ == avatar_url_of(email@),
{
    let avatar_url = create_avatar_url::execute(email.as_str());
    CustomerUpsert { store_id, email, avatar_url }
}

/// A locked session ready to be confirmed, and the customer it is confirmed for.
pub struct Confirmation {
    pub session: CheckoutSession,
    pub customer: CustomerUpsert,
}

/// The first step of a confirmation, once the lock was tried: the lock's failures
/// come first, then those of the email; on success the locked session and the
/// customer of its store with the resolved email and that email's avatar.
pub fn start_confirmation(locked: LockResult, given_email: Option<String>) -> (confirmation: Result<Confirmation, Failure>)
    ensures
        match locked {
            Ok(Some(s)) => match confirmation {
                Ok(c) => {
                    &&& c.session == s
                    &&& is_email_outcome(s.customer_email, given_email, Ok::<String, Failure>(c.customer.email))
                    &&& c.customer.store_id == s.store_id.0
                    &&& c.customer.avatar_url@ == avatar_url_of(c.customer.email@)
                },
                Err(f) => is_email_outcome(s.customer_email, given_email, Err::<String, Failure>(f)),
            },
            _ => confirmation matches Err(f) && is_lock_outcome(locked, Err::<CheckoutSession, Failure>(f)),
        },
{
    let session = match lock_outcome(locked) {
        Ok(session) => session,
        Err(f) => return Err(f),
    };
    let email = match resolve_customer_email(session.customer_email.clone(), given_email) {
        Ok(email) => email,
        Err(f) => return Err(f),
    };
    let customer = customer_upsert(session.store_id.0, email);
    Ok(Confirmation { session, customer })
}

/// The payment intent asked of the payment provider.
pub struct PaymentIntentRequest {
    pub amount: i64,
    pub currency: String,
    pub confirmation_token: String,
    pub confirm: bool,
    pub metadata: Vec<(String, String)>,
}

/// The payment for the session: its total in cents of US dollars, confirmed at once with the
/// customer's confirmation token, and tagged with the store and session.
pub fn payment_intent_request(session: &CheckoutSession, confirmation_token_id: String) -> (request: PaymentIntentRequest)
    ensures
        request.amount == session.total_amount,
        request.currency@ == "usd"@,
        request.confirmation_token@ == confirmation_token_id@,
        request.confirm,
        request.metadata@.len() == 2,
        request.metadata@[0].0@ == "store_id"@,
        request.metadata@[0].1@ == uuid_text_of(session.store_id.0),
        request.metadata@[1].0@ == "checkout_session_id"@,
        request.metadata@[1].1@ == uuid_text_of(session.id.0),
{
    let mut metadata: Vec<(String, String)> = Vec::new();
    metadata.push((String::from_str("store_id"), uuid_text(session.store_id.0)));
    metadata.push((String::from_str("checkout_session_id"), uuid_text(session.id.0)));
    PaymentIntentRequest {
        amount: session.total_amount,
        currency: String::from_str("usd"),
        confirmation_token: confirmation_token_id,
        confirm: true,
        metadata,
    }
}

/// Why the payment provider refused to create the payment.
pub enum PaymentError {
    /// The provider answered with an error; a decline code marks a refused card.
    Provider { decline_code: Option<String>, message: Option<String> },
    /// The request did not get a proper answer.
    Other,
}

/// The failure for a refused payment: a declined card is the client's error and
/// shows the provider's message; anything else is internal.
pub fn payment_failure(error: PaymentError) -> (failure: Failure)
    ensures
        match error {
            PaymentError::Provider { decline_code: Some(_), message: Some(m) } => is_failure(
                failure,
                FailureReason::BAD_REQUEST,
                m@,
            ),
            PaymentError::Provider { decline_code: Some(_), message: None } => is_failure(
                failure,
                FailureReason::BAD_REQUEST,
                "The checkout session could not be processed"@,
            ),
            _ => is_default_failure(failure, FailureReason::INTERNAL_SERVER_ERROR),
        },
{
    match error {
        PaymentError::Provider { decline_code: Some(_), message } => {
            let text = match message {
                Some(m) => m,
                None => String::from_str("The checkout session could not be processed"),
            };
            Failure::with_message(FailureReason::BAD_REQUEST, text)
        },
        _ => Failure::internal(),
    }
}

} // verus!
