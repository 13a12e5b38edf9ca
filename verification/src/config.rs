//! The immutable per-process configuration the core consumes: signing
//! secret, session lifetime, identity-provider client id and base URL.
//! Loading it from a file is the surrounding program's job; the defaults and
//! URL assembly live here.
use vstd::prelude::*;

verus! {

/// Configuration, read once at startup and shared read-only.
#[derive(Clone, Debug)]
pub struct Config {
    pub postgres_uri: String,
    pub public_dir: String,
    pub bind_address: String,
    pub google_client_id: String,
    pub base_url: String,
    pub secret: String,
    pub session_duration_seconds: u64,
}

impl Config {
    /// An absolute URL under this deployment's base URL.
    pub fn absolute_url(&self, path: &str) -> (r: String)
        ensures
            r@ == self.base_url@ + path@,
    {
        let mut out = self.base_url.clone();
        out.append(path);
        out
    }
}

pub fn default_public_dir() -> (r: String)
    ensures
        r@ == "public"@,
{
    String::from_str("public")
}

pub fn default_bind_address() -> (r: String)
    ensures
        r@ == "0.0.0.0:3000"@,
{
    String::from_str("0.0.0.0:3000")
}

pub fn default_base_url() -> (r: String)
    ensures
        r@ == "http://localhost:3000"@,
{
    String::from_str("http://localhost:3000")
}

/// The default session lifetime: 30 days, in seconds.
pub fn default_session_duration() -> (r: u64)
    ensures
        r == 30 * 24 * 60 * 60,
{
    30 * 24 * 60 * 60
}

} // verus!
