//! Mailing a one-time login code.
use vstd::prelude::*;
use vstd::string::*;
use crate::clock::micros_since_epoch;

verus! {

/// Microseconds a login code stays valid (five minutes).
pub const CODE_LIFETIME_MICROS: i64 = 300000000;

/// A bound above every instant, in microseconds, that `chrono` can represent.
pub const LATEST_MICROS: i64 = 9000000000000000000;

/// When a code issued at `now` (in microseconds) expires: five minutes later.
pub fn code_expiry(now: i64) -> (expires_at: i64)
    requires
        now <= LATEST_MICROS - CODE_LIFETIME_MICROS,
    ensures
        expires_at == now + CODE_LIFETIME_MICROS,
{
    now + CODE_LIFETIME_MICROS
}

/// When a code issued at a clock reading (in microseconds since 1970) expires: five
/// minutes later; `None` where there is no reading, or where the expiry would pass
/// `LATEST_MICROS`.
pub open spec fn expiry_of_micros(micros: Option<u128>) -> Option<i64> {
    match micros {
        Some(m) => if m <= LATEST_MICROS - CODE_LIFETIME_MICROS {
            Some((m + CODE_LIFETIME_MICROS) as i64)
        } else {
            None
        },
        None => None,
    }
}

/// The expiry of a code issued at a clock reading (see `expiry_of_micros`).
pub fn expiry_from_micros(micros: Option<u128>) -> (expires_at: Option<i64>)
    ensures
        expires_at == expiry_of_micros(micros),
{
    match micros {
        Some(m) => {
            if m <= (LATEST_MICROS - CODE_LIFETIME_MICROS) as u128 {
                Some(code_expiry(m as i64))
            } else {
                None
            }
        },
        None => None,
    }
}

/// A code issued at a clock reading expires exactly five minutes after it, so never
/// at or before the moment it was issued; and a code issued later expires later.
pub proof fn lemma_code_expires_after_issue(m1: u128, m2: u128)
    ensures
        expiry_of_micros(Some(m1)) matches Some(e) ==> e == m1 + CODE_LIFETIME_MICROS && e > m1,
        m1 <= m2 && expiry_of_micros(Some(m2)) is Some ==> (expiry_of_micros(Some(m1)) matches Some(e1)
            && e1 <= expiry_of_micros(Some(m2))->Some_0),
{
}

/// When a code issued now expires: five minutes after the system clock's reading (see
/// `expiry_of_micros`); `None` where the clock gives no reading that `expiry_of_micros`
/// accepts.
pub fn login_code_expiry() -> (expires_at: Option<i64>)
    ensures
        expires_at matches Some(e) ==> {
            &&& CODE_LIFETIME_MICROS <= e <= LATEST_MICROS
            &&& exists|m: u128| #[trigger] expiry_of_micros(Some(m)) == Some(e)
        },
{
    expiry_from_micros(micros_since_epoch())
}

/// The email that carries a login code.
pub struct LoginEmail {
    pub from: String,
    pub to: Vec<String>,
    pub subject: String,
    pub html: String,
}

/// The email to `email` with the code in its body.
pub fn login_email(email: String, code: &str) -> (message: LoginEmail)
    ensures
        message.from@ == "Starfish <starfish@dmelo.sh>"@,
        message.to@.len() == 1,
        message.to@[0]@ == email@,
        message.subject@ == "Login to Starfish"@,
        message.html@ == "Your one-time token is "@ + code@ + "."@,
{
    let mut to: Vec<String> = Vec::new();
    to.push(email);
    LoginEmail {
        from: String::from_str("Starfish <starfish@dmelo.sh>"),
        to,
        subject: String::from_str("Login to Starfish"),
        html: String::from_str("Your one-time token is ").concat(code).concat("."),
    }
}

} // verus!
