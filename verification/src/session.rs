//! Per-request identity: a self-contained signed session token, the single
//! point where every token-validation failure collapses to "anonymous", and
//! one-shot flash-message cookies.
use crate::model::User;
use vstd::prelude::*;

verus! {

/// The signed session token minted for a given subject, issue time, expiry
/// and signing secret. Its exact text is the token library's business; all
/// contracts here only relate encoding and decoding through this name.
pub uninterp spec fn token_of(sub: i32, iat: u64, exp: u64, secret: Seq<char>) -> Seq<char>;

/// Claims for our session token: the subject (user id), the issue time and
/// the expiry, both as Unix epoch seconds.
#[derive(Clone, Copy, Debug, PartialEq, Eq, Structural)]
pub struct SessionClaims {
    pub iat: u64,
    pub exp: u64,
    /// user_id
    pub sub: i32,
}

impl SessionClaims {
    /// A claim set is issued no later than it expires.
    pub open spec fn wf(self) -> bool {
        self.iat <= self.exp
    }

    pub fn new(user_id: i32, issued: u64, expiry: u64) -> (r: SessionClaims)
        requires
            issued <= expiry,
        ensures
            r == (SessionClaims { iat: issued, exp: expiry, sub: user_id }),
            r.wf(),
    {
        SessionClaims { iat: issued, exp: expiry, sub: user_id }
    }
}

/// What decoding a token against a secret yields: the `(sub, iat, exp)`
/// claims when the signature verifies and the claims parse, `None` otherwise.
/// A pure function of the token text and the secret.
pub uninterp spec fn decoded_of(token: Seq<char>, secret: Seq<char>) -> Option<(i64, u64, u64)>;

/// Relies on `jsonwebtoken::encode` with the default (HS256) header: the
/// token text is a pure function of its inputs, named `token_of`, and
/// signing cannot fail on this path (the key family matches HS256,
/// serializing a string-keyed claims object cannot error, and the HMAC
/// signer is infallible).
#[verifier::external_body]
fn encode_claims(sub: i32, iat: u64, exp: u64, secret: &str) -> (r: String)
    ensures
        r@ == token_of(sub, iat, exp, secret@),
{
    let mut claims = serde_json::Map::new();
    claims.insert("sub".to_string(), serde_json::Value::from(sub));
    claims.insert("iat".to_string(), serde_json::Value::from(iat));
    claims.insert("exp".to_string(), serde_json::Value::from(exp));
    let key = jsonwebtoken::EncodingKey::from_secret(secret.as_bytes());
    let header = jsonwebtoken::Header::default();
    jsonwebtoken::encode(&header, &serde_json::Value::Object(claims), &key)
        .expect("HS256 signing with a raw secret has no failure path")
}

/// Relies on `jsonwebtoken::decode` with HS256 signature validation (expiry
/// is judged by the caller, not the decoder): the outcome is a pure function
/// of token and secret, named `decoded_of`, and a token that `encode`
/// produced under the same secret decodes to exactly the claims that went in.
#[verifier::external_body]
fn decode_claims(token: &str, secret: &str) -> (r: Option<(i64, u64, u64)>)
    ensures
        r == decoded_of(token@, secret@),
        forall|sub: i32, iat: u64, exp: u64|
            token@ == token_of(sub, iat, exp, secret@) ==> r == Some((sub as i64, iat, exp)),
{
    let mut validation = jsonwebtoken::Validation::new(jsonwebtoken::Algorithm::HS256);
    validation.validate_exp = false;
    validation.required_spec_claims = std::collections::HashSet::new();
    let key = jsonwebtoken::DecodingKey::from_secret(secret.as_bytes());
    let data = jsonwebtoken::decode::<serde_json::Value>(token, &key, &validation).ok()?;
    let sub = data.claims.get("sub").and_then(serde_json::Value::as_i64)?;
    let iat = data.claims.get("iat").and_then(serde_json::Value::as_u64)?;
    let exp = data.claims.get("exp").and_then(serde_json::Value::as_u64)?;
    Some((sub, iat, exp))
}

/// Mints the session token for a claim set.
pub fn issue_session_token(claims: &SessionClaims, secret: &str) -> (r: String)
    ensures
        r@ == token_of(claims.sub, claims.iat, claims.exp, secret@),
{
    encode_claims(claims.sub, claims.iat, claims.exp, secret)
}

/// What a decoded claim set resolves to at a given time: the subject while
/// the token has not expired, anonymous otherwise.
pub open spec fn spec_claims_user(claims: Option<SessionClaims>, now: u64) -> Option<i32> {
    match claims {
        Some(c) => if c.exp > now {
            Some(c.sub)
        } else {
            None
        },
        None => None,
    }
}

/// The single place deciding what a claim set is worth at time `now`: expired
/// or absent claims are anonymous, nothing is an error.
pub fn claims_user(claims: Option<SessionClaims>, now: u64) -> (r: Option<i32>)
    ensures
        r == spec_claims_user(claims, now),
{
    match claims {
        Some(c) => if c.exp > now {
            Some(c.sub)
        } else {
            None
        },
        None => None,
    }
}

/// What a decode outcome resolves to at time `now`: claims whose subject
/// fits a user id resolve by expiry; an undecodable token, like an absent
/// one, is anonymous.
pub open spec fn spec_decoded_user(decoded: Option<(i64, u64, u64)>, now: u64) -> Option<i32> {
    match decoded {
        Some((sub, iat, exp)) => if i32::MIN <= sub <= i32::MAX {
            spec_claims_user(Some(SessionClaims { iat, exp, sub: sub as i32 }), now)
        } else {
            None
        },
        None => None,
    }
}

/// Resolves the `session` cookie to a user id: absent, malformed, forged or
/// expired tokens all degrade to anonymous (`None`); every present cookie
/// resolves exactly as its decode outcome says, and a token this application
/// issued resolves exactly as `spec_claims_user` says.
pub fn session_user_id(session_cookie: &Option<String>, secret: &str, now: u64) -> (r: Option<
    i32,
>)
    ensures
        session_cookie is None ==> r is None,
        session_cookie matches Some(t) ==> r == spec_decoded_user(decoded_of(t@, secret@), now),
        forall|c: SessionClaims|
            (session_cookie matches Some(t) && t@ == #[trigger] token_of(
                c.sub,
                c.iat,
                c.exp,
                secret@,
            )) ==> r == spec_claims_user(Some(c), now),
{
    match session_cookie {
        None => None,
        Some(token) => {
            match decode_claims(token.as_str(), secret) {
                None => None,
                Some((sub, iat, exp)) => {
                    if i32::MIN as i64 <= sub && sub <= i32::MAX as i64 {
                        claims_user(Some(SessionClaims { iat, exp, sub: sub as i32 }), now)
                    } else {
                        None
                    }
                },
            }
        },
    }
}

/// Every claim set whose expiry is at or behind the clock resolves to
/// anonymous, however validly it was signed.
pub proof fn lemma_expired_claims_anonymous(claims: SessionClaims, now: u64)
    requires
        claims.exp <= now,
    ensures
        spec_claims_user(Some(claims), now) is None,
{
}

/// Round trip: a token issued at `t0` with a positive lifetime `ttl` resolves
/// to its subject halfway through its life, and to anonymous once its expiry
/// is behind the clock.
pub proof fn lemma_token_round_trip(sub: i32, t0: u64, ttl: u64)
    requires
        1 <= ttl,
        t0 + 2 * ttl <= u64::MAX,
    ensures
        spec_claims_user(
            Some(SessionClaims { iat: t0, exp: (t0 + ttl) as u64, sub }),
            (t0 + ttl / 2) as u64,
        ) == Some(sub),
        spec_claims_user(
            Some(SessionClaims { iat: t0, exp: (t0 + ttl) as u64, sub }),
            (t0 + 2 * ttl) as u64,
        ) == None::<i32>,
{
    assert(ttl / 2 < ttl);
}

/// A one-shot user-facing message pulled from cookies and immediately
/// scheduled for removal, so it displays exactly once.
#[derive(Debug, PartialEq, Eq)]
pub struct Flash {
    pub notice: Option<String>,
    pub error: Option<String>,
}

impl Default for Flash {
    /// No message of either kind.
    fn default() -> (r: Flash)
        ensures
            r.notice is None,
            r.error is None,
    {
        Flash { notice: None, error: None }
    }
}

impl Flash {
    /// Reads the `notice` and `error` cookies and schedules every cookie that
    /// was read for removal: the returned booleans say which cookies the
    /// response must clear, so a message never displays twice.
    pub fn take_from_cookies(notice_cookie: Option<String>, error_cookie: Option<String>) -> (r: (
        Flash,
        bool,
        bool,
    ))
        ensures
            r.0.notice == notice_cookie,
            r.0.error == error_cookie,
            r.1 == (notice_cookie is Some),
            r.2 == (error_cookie is Some),
    {
        let clear_notice = notice_cookie.is_some();
        let clear_error = error_cookie.is_some();
        (Flash { notice: notice_cookie, error: error_cookie }, clear_notice, clear_error)
    }

    /// One-shot: a response that displayed a flash message also clears its
    /// cookie, and a follow-up request without that cookie displays nothing.
    pub proof fn lemma_one_shot(notice_cookie: Option<String>, error_cookie: Option<String>)
        ensures
            notice_cookie is Some ==> ({
                let (flash, clear_notice, _) = Flash::spec_take(notice_cookie, error_cookie);
                flash.notice == notice_cookie && clear_notice
            }),
            Flash::spec_take(None, error_cookie).0.notice is None,
    {
    }

    /// What `take_from_cookies` returns.
    pub open spec fn spec_take(notice_cookie: Option<String>, error_cookie: Option<String>) -> (
        Flash,
        bool,
        bool,
    ) {
        (
            Flash { notice: notice_cookie, error: error_cookie },
            notice_cookie is Some,
            error_cookie is Some,
        )
    }
}

/// Everything a request handler needs to know about who is asking: the
/// one-shot flash messages, the authenticated user if any, and the request
/// path (used to come back after login).
#[derive(Debug, PartialEq, Eq)]
pub struct Session {
    pub flash: Flash,
    pub current_user: Option<User>,
    /// The path of the current page.
    pub path: String,
}

impl Session {
    pub fn logged_in(&self) -> (r: bool)
        ensures
            r == (self.current_user is Some),
    {
        self.current_user.is_some()
    }

    /// Whether the authenticated user is exactly the one with the given id.
    pub fn is_current_user(&self, user_id: &i32) -> (r: bool)
        ensures
            r == match self.current_user {
                Some(u) => u.id == user_id,
                None => false,
            },
    {
        if let Some(current_user) = &self.current_user {
            current_user.id == *user_id
        } else {
            false
        }
    }
}

} // verus!
