use vstd::prelude::*;

verus! {

/// The port the server listens on when the environment names none.
pub fn default_port() -> (port: u16)
    ensures
        port == 3333,
{
    3333
}

/// The server's settings, read from the environment.
pub struct Config {
    pub port: u16,
    pub database_url: String,
    pub resend_api_key: String,
    pub stripe_secret_key: String,
    pub stripe_webhook_signing_secret: String,
    pub website_base_url: String,
    pub jwt_secret: String,
}

impl Config {
    /// The port to listen on: the one given, or the default port.
    pub fn port_or_default(port: Option<u16>) -> (chosen: u16)
        ensures
            chosen == match port {
                Some(p) => p,
                None => 3333u16,
            },
    {
        match port {
            Some(p) => p,
            None => default_port(),
        }
    }
}

} // verus!
