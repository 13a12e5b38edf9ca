//! The login and logout flows: CSRF double-submit check, verified-identity
//! claims handling, session-token minting, and the same-origin check that
//! keeps `redirect` targets from pointing at foreign hosts.
use crate::model::User;
use crate::session::{token_of, SessionClaims};
use vstd::prelude::*;

verus! {

/// Why a login or logout request was refused.
#[derive(Clone, Copy, Debug, PartialEq, Eq, Structural)]
pub enum AuthError {
    /// The form's CSRF token does not byte-equal the `g_csrf_token` cookie.
    InvalidCsrf,
    /// The identity provider's credential failed verification, or the
    /// verified claims carry an unverified email address.
    IdentityVerificationFailed,
    /// The `redirect` target is not a bare same-origin relative path.
    OpenRedirectRejected,
    /// The system clock reads before the Unix epoch.
    ClockError,
}

/// A login form POST: the identity provider's credential and the CSRF token
/// echoed from its cookie.
#[derive(Clone, Debug, PartialEq, Eq)]
pub struct GoogleAuthRequest {
    pub credential: String,
    pub g_csrf_token: String,
}

/// The `redirect` query parameter of the login and logout endpoints.
#[derive(Clone, Debug, PartialEq, Eq)]
pub struct RedirectQuery {
    pub redirect: Option<String>,
}

/// Claims from Google login, after the provider's signature, audience and
/// issuer have been verified by the identity-token collaborator.
#[derive(Clone, Debug, PartialEq, Eq)]
pub struct TokenClaims {
    pub email: String,
    pub email_verified: bool,
    pub name: String,
    pub aud: String,
    pub iss: String,
    pub exp: u64,
}

/// What the URI reference parser yields on a given input: `None` when the
/// input is not parsable; otherwise whether the reference names a scheme,
/// whether it names a host, and its canonical text.
pub uninterp spec fn uri_parts_of(s: Seq<char>) -> Option<(bool, bool, Seq<char>)>;

/// Relies on `http::Uri`'s parser: reports whether the parsed reference
/// carries a scheme or a host, and how it prints.
#[verifier::external_body]
fn parse_uri_parts(s: &str) -> (r: Option<(bool, bool, String)>)
    ensures
        match r {
            Some(p) => uri_parts_of(s@) == Some((p.0, p.1, p.2@)),
            None => uri_parts_of(s@) is None,
        },
{
    match s.parse::<http::Uri>() {
        Ok(uri) => Some((uri.scheme().is_some(), uri.host().is_some(), uri.to_string())),
        Err(_) => None,
    }
}

/// The effective redirect target: the given path, or `/` when none was
/// asked for.
pub open spec fn spec_redirect_target(redirect: Option<String>) -> Seq<char> {
    match redirect {
        Some(s) => s@,
        None => "/"@,
    }
}

/// A network-path reference (`//host/...`): it names a host even though a
/// generic URI parser reads it as a bare path.
pub open spec fn spec_is_protocol_relative(s: Seq<char>) -> bool {
    s.len() >= 2 && s[0] == '/' && s[1] == '/'
}

/// The canonical text of a redirect target that is safe to follow: parsable,
/// naming neither a scheme nor a host, and not protocol-relative.
pub open spec fn spec_safe_redirect(redirect: Option<String>) -> Option<Seq<char>> {
    let target = spec_redirect_target(redirect);
    if spec_is_protocol_relative(target) {
        None
    } else {
        match uri_parts_of(target) {
            Some(u) => if !u.0 && !u.1 {
                Some(u.2)
            } else {
                None
            },
            None => None,
        }
    }
}

/// Open-redirect prevention: accepts a `redirect` target if and only if it is
/// a bare same-origin relative path (no scheme, no host), returning its
/// canonical text; a missing target defaults to `/`.
pub fn validate_redirect(redirect: &Option<String>) -> (r: Result<String, AuthError>)
    ensures
        r matches Ok(p) ==> spec_safe_redirect(*redirect) == Some(p@),
        r is Ok <==> spec_safe_redirect(*redirect) is Some,
        r is Err ==> r == Err::<String, AuthError>(AuthError::OpenRedirectRejected),
{
    let target: &str = match redirect {
        Some(s) => s.as_str(),
        None => "/",
    };
    if target.unicode_len() >= 2 {
        let first = target.get_char(0);
        let second = target.get_char(1);
        if first == '/' && second == '/' {
            return Err(AuthError::OpenRedirectRejected);
        }
    }
    match parse_uri_parts(target) {
        Some((has_scheme, has_host, text)) => {
            if has_scheme || has_host {
                Err(AuthError::OpenRedirectRejected)
            } else {
                Ok(text)
            }
        },
        None => Err(AuthError::OpenRedirectRejected),
    }
}

/// CSRF double-submit check: the form's token must byte-equal the
/// `g_csrf_token` cookie; a missing cookie is a mismatch. Nothing else about
/// the request is examined before this gate passes.
pub fn check_csrf(request: &GoogleAuthRequest, csrf_cookie: &Option<String>) -> (r: Result<
    (),
    AuthError,
>)
    ensures
        r is Ok <==> (csrf_cookie matches Some(c) && c@ == request.g_csrf_token@),
        r is Err ==> r == Err::<(), AuthError>(AuthError::InvalidCsrf),
{
    match csrf_cookie {
        Some(cookie_value) => {
            if request.g_csrf_token == *cookie_value {
                Ok(())
            } else {
                Err(AuthError::InvalidCsrf)
            }
        },
        None => Err(AuthError::InvalidCsrf),
    }
}

/// The verified-email gate of the login flow: the identity provider's claims
/// must assert a verified email address before anything else is consulted.
pub fn check_verified_email(claims: &TokenClaims) -> (r: Result<(), AuthError>)
    ensures
        r is Ok <==> claims.email_verified,
        r is Err ==> r == Err::<(), AuthError>(AuthError::IdentityVerificationFailed),
{
    if claims.email_verified {
        Ok(())
    } else {
        Err(AuthError::IdentityVerificationFailed)
    }
}

/// How a completed login answers: a session cookie plus a redirect, or a
/// notice that no local account matches the verified identity.
#[derive(Clone, Debug, PartialEq, Eq)]
pub enum LoginOutcome {
    /// Set `token` as the HTTP-only `session` cookie with the given max-age,
    /// set the one-shot `notice` cookie, and redirect.
    LoggedIn { token: String, max_age_seconds: u64, notice: String, redirect_to: String },
    /// No local account exists for the verified email address.
    UnknownUser { email: String },
}

/// Completes a login after the identity provider's credential has been
/// verified: requires a verified email, maps the verified identity to a local
/// user, refuses unsafe redirect targets, and mints the session token. No
/// cookie is issued on any rejected request.
pub fn login_complete(
    claims: &TokenClaims,
    user: &Option<User>,
    now: u64,
    session_duration: u64,
    secret: &str,
    redirect: &Option<String>,
) -> (r: Result<LoginOutcome, AuthError>)
    requires
        now + session_duration <= u64::MAX,
    ensures
        !claims.email_verified ==> r == Err::<LoginOutcome, AuthError>(
            AuthError::IdentityVerificationFailed,
        ),
        claims.email_verified ==> match *user {
            None => r == Ok::<LoginOutcome, AuthError>(
                LoginOutcome::UnknownUser { email: claims.email },
            ),
            Some(u) => match spec_safe_redirect(*redirect) {
                None => r == Err::<LoginOutcome, AuthError>(AuthError::OpenRedirectRejected),
                Some(target) => r matches Ok(
                    LoginOutcome::LoggedIn { token, max_age_seconds, notice, redirect_to },
                ) && token@ == token_of(u.id, now, (now + session_duration) as u64, secret@)
                    && max_age_seconds == session_duration && notice@
                    == "Logged in successfully."@ && redirect_to@ == target,
            },
        },
{
    if !claims.email_verified {
        return Err(AuthError::IdentityVerificationFailed);
    }
    match user {
        None => Ok(LoginOutcome::UnknownUser { email: claims.email.clone() }),
        Some(u) => {
            let redirect_to = validate_redirect(redirect)?;
            let session_claims = SessionClaims::new(u.id, now, now + session_duration);
            let token = crate::session::issue_session_token(&session_claims, secret);
            Ok(
                LoginOutcome::LoggedIn {
                    token,
                    max_age_seconds: session_duration,
                    notice: String::from_str("Logged in successfully."),
                    redirect_to,
                },
            )
        },
    }
}

/// The identity-provider callback URL that the login page embeds: the
/// `google_auth` endpoint under this deployment's base URL, carrying the
/// percent-encoded redirect target when one was asked for.
pub open spec fn spec_auth_url(base_url: Seq<char>, redirect: Option<String>) -> Seq<char> {
    match redirect {
        Some(r) => base_url + "/google_auth?redirect="@ + crate::filters::spec_urlencode(
            vstd::utf8::encode_utf8(r@),
        ),
        None => base_url + "/google_auth"@,
    }
}

pub fn auth_url(base_url: &str, redirect: &Option<String>) -> (r: String)
    ensures
        r@ == spec_auth_url(base_url@, *redirect),
{
    let mut out = base_url.to_owned();
    match redirect {
        Some(target) => {
            out.append("/google_auth?redirect=");
            let encoded = crate::filters::urlencode(target.as_str());
            out.append(encoded.as_str());
        },
        None => {
            out.append("/google_auth");
        },
    }
    out
}

/// How a logout answers: clear the session cookie, set the one-shot notice,
/// and redirect.
#[derive(Clone, Debug, PartialEq, Eq)]
pub struct LogoutOutcome {
    /// The response clears the `session` cookie.
    pub clear_session: bool,
    pub notice: String,
    pub redirect_to: String,
}

/// Logs out: the session cookie is always cleared, and the redirect target is
/// held to the same same-origin check as login.
pub fn logout(redirect: &Option<String>) -> (r: Result<LogoutOutcome, AuthError>)
    ensures
        r matches Ok(o) ==> o.clear_session && o.notice@ == "You have been logged out."@
            && spec_safe_redirect(*redirect) == Some(o.redirect_to@),
        r is Ok <==> spec_safe_redirect(*redirect) is Some,
        r is Err ==> r == Err::<LogoutOutcome, AuthError>(AuthError::OpenRedirectRejected),
{
    let redirect_to = validate_redirect(redirect)?;
    Ok(
        LogoutOutcome {
            clear_session: true,
            notice: String::from_str("You have been logged out."),
            redirect_to,
        },
    )
}

} // verus!

